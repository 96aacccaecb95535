//! Colour and HDR metadata of a video stream: read from the text that
//! three probe tools print, reconciled into one record, and written out as
//! property assignments for a container, as encoder arguments or as a report.
//!
//! Fractional quantities are exact fractions, never floating point. Every
//! function is total on the inputs that its contract admits.

pub mod command;
pub mod container;
pub mod display;
pub mod encoder;
pub mod error;
pub mod metadata;
pub mod ratio;
pub mod readback;
pub mod reconcile;
pub mod render;
pub mod report;
pub mod sidedata;
pub mod stream;
pub mod text;
pub mod values;
