//! The canonical metadata record and the partial record that a probe parser
//! fills while it reads.

use vstd::prelude::*;
use crate::ratio::Ratio;

verus! {

/// Where the chroma samples sit relative to the luma samples.
#[derive(Clone, Copy, Debug, PartialEq, Eq, Structural)]
pub enum ChromaLocation {
    Left,
    Center,
    TopLeft,
    Top,
    BottomLeft,
    Bottom,
}

/// The four colour codes of the basic block.
#[derive(Clone, Copy, Debug, PartialEq, Eq, Structural)]
pub enum BasicField {
    Matrix,
    Range,
    Transfer,
    Primaries,
}

/// The whole-number quantities of the HDR block.
#[derive(Clone, Copy, Debug, PartialEq, Eq, Structural)]
pub enum Level {
    MaxContentLight,
    MaxFrameLight,
    MaxLuminance,
}

/// One component of the mastering display's chromaticity.
#[derive(Clone, Copy, Debug, PartialEq, Eq, Structural)]
pub enum Coordinate {
    RedX,
    RedY,
    GreenX,
    GreenY,
    BlueX,
    BlueY,
    WhiteX,
    WhiteY,
}

/// Colour description of the stream. Codes are the canonical numeric codes
/// of the value dictionaries.
#[derive(Clone, Copy, Debug, PartialEq, Eq)]
pub struct BasicMetadata {
    pub matrix: u8,
    pub range: u8,
    pub transfer: u8,
    pub primaries: u8,
    pub chroma_location: ChromaLocation,
}

/// CIE 1931 chromaticity of the mastering display: the three primaries and
/// the white point, each as `(x, y)`.
#[derive(Clone, Copy, Debug, PartialEq, Eq)]
pub struct ColorCoordinates {
    pub red: (Ratio, Ratio),
    pub green: (Ratio, Ratio),
    pub blue: (Ratio, Ratio),
    pub white: (Ratio, Ratio),
}

/// Mastering display and light level description. Luminance is in cd/m².
/// A light level of zero means that none was given.
#[derive(Clone, Copy, Debug, PartialEq, Eq)]
pub struct HdrMetadata {
    pub color_coords: Option<ColorCoordinates>,
    pub max_luma: u32,
    pub min_luma: Ratio,
    pub max_content_light: u32,
    pub max_frame_light: u32,
}

/// What is known of a stream. An absent block was not reported by any
/// source; that is no error.
#[derive(Clone, Copy, Debug, PartialEq, Eq)]
pub struct Metadata {
    pub basic: Option<BasicMetadata>,
    pub hdr: Option<HdrMetadata>,
}

impl BasicMetadata {
    /// The block in which nothing is specified: codes 2, limited range,
    /// chroma samples on the left.
    pub open spec fn unspecified() -> BasicMetadata {
        BasicMetadata {
            matrix: 2,
            range: 1,
            transfer: 2,
            primaries: 2,
            chroma_location: ChromaLocation::Left,
        }
    }

    /// This block with `field` set to `code`.
    pub open spec fn with_code(self, field: BasicField, code: u8) -> BasicMetadata {
        match field {
            BasicField::Matrix => BasicMetadata { matrix: code, ..self },
            BasicField::Range => BasicMetadata { range: code, ..self },
            BasicField::Transfer => BasicMetadata { transfer: code, ..self },
            BasicField::Primaries => BasicMetadata { primaries: code, ..self },
        }
    }

    /// Sets `field` to `code`.
    pub fn set_code(&mut self, field: BasicField, code: u8)
        ensures
            *final(self) == old(self).with_code(field, code),
    {
        match field {
            BasicField::Matrix => {
                self.matrix = code;
            },
            BasicField::Range => {
                self.range = code;
            },
            BasicField::Transfer => {
                self.transfer = code;
            },
            BasicField::Primaries => {
                self.primaries = code;
            },
        }
    }
}

impl Default for BasicMetadata {
    fn default() -> (basic: BasicMetadata)
        ensures
            basic == BasicMetadata::unspecified(),
    {
        BasicMetadata {
            matrix: 2,
            range: 1,
            transfer: 2,
            primaries: 2,
            chroma_location: ChromaLocation::Left,
        }
    }
}

impl ColorCoordinates {
    /// The coordinates that are all zero.
    pub open spec fn zero() -> ColorCoordinates {
        let z = Ratio::of(0, 1);
        ColorCoordinates { red: (z, z), green: (z, z), blue: (z, z), white: (z, z) }
    }

    /// These coordinates with the component `which` set to `value`.
    pub open spec fn with(self, which: Coordinate, value: Ratio) -> ColorCoordinates {
        match which {
            Coordinate::RedX => ColorCoordinates { red: (value, self.red.1), ..self },
            Coordinate::RedY => ColorCoordinates { red: (self.red.0, value), ..self },
            Coordinate::GreenX => ColorCoordinates { green: (value, self.green.1), ..self },
            Coordinate::GreenY => ColorCoordinates { green: (self.green.0, value), ..self },
            Coordinate::BlueX => ColorCoordinates { blue: (value, self.blue.1), ..self },
            Coordinate::BlueY => ColorCoordinates { blue: (self.blue.0, value), ..self },
            Coordinate::WhiteX => ColorCoordinates { white: (value, self.white.1), ..self },
            Coordinate::WhiteY => ColorCoordinates { white: (self.white.0, value), ..self },
        }
    }

    /// Every component lies between zero and one, as chromaticity does.
    pub open spec fn normalized(self) -> bool {
        &&& self.red.0.at_most_one() && self.red.1.at_most_one()
        &&& self.green.0.at_most_one() && self.green.1.at_most_one()
        &&& self.blue.0.at_most_one() && self.blue.1.at_most_one()
        &&& self.white.0.at_most_one() && self.white.1.at_most_one()
    }

    /// Whether every component lies between zero and one.
    pub fn is_normalized(&self) -> (yes: bool)
        ensures
            yes == self.normalized(),
    {
        self.red.0.is_at_most_one() && self.red.1.is_at_most_one()
            && self.green.0.is_at_most_one() && self.green.1.is_at_most_one()
            && self.blue.0.is_at_most_one() && self.blue.1.is_at_most_one()
            && self.white.0.is_at_most_one() && self.white.1.is_at_most_one()
    }

    /// Sets the component `which` to `value`.
    pub fn set(&mut self, which: Coordinate, value: Ratio)
        ensures
            *final(self) == old(self).with(which, value),
    {
        match which {
            Coordinate::RedX => {
                self.red = (value, self.red.1);
            },
            Coordinate::RedY => {
                self.red = (self.red.0, value);
            },
            Coordinate::GreenX => {
                self.green = (value, self.green.1);
            },
            Coordinate::GreenY => {
                self.green = (self.green.0, value);
            },
            Coordinate::BlueX => {
                self.blue = (value, self.blue.1);
            },
            Coordinate::BlueY => {
                self.blue = (self.blue.0, value);
            },
            Coordinate::WhiteX => {
                self.white = (value, self.white.1);
            },
            Coordinate::WhiteY => {
                self.white = (self.white.0, value);
            },
        }
    }
}

impl Default for ColorCoordinates {
    fn default() -> (coords: ColorCoordinates)
        ensures
            coords == ColorCoordinates::zero(),
    {
        let z = Ratio::zero();
        ColorCoordinates { red: (z, z), green: (z, z), blue: (z, z), white: (z, z) }
    }
}

impl HdrMetadata {
    /// The block in which nothing was given: no coordinates, every quantity
    /// zero.
    pub open spec fn blank() -> HdrMetadata {
        HdrMetadata {
            color_coords: None,
            max_luma: 0,
            min_luma: Ratio::of(0, 1),
            max_content_light: 0,
            max_frame_light: 0,
        }
    }

    /// This block with the quantity `which` set to `value`.
    pub open spec fn with_level(self, which: Level, value: u32) -> HdrMetadata {
        match which {
            Level::MaxContentLight => HdrMetadata { max_content_light: value, ..self },
            Level::MaxFrameLight => HdrMetadata { max_frame_light: value, ..self },
            Level::MaxLuminance => HdrMetadata { max_luma: value, ..self },
        }
    }

    /// This block with the chromaticity component `which` set to `value`.
    /// Coordinates that were absent before are present afterwards, the
    /// other components zero.
    pub open spec fn with_coordinate(self, which: Coordinate, value: Ratio) -> HdrMetadata {
        let before = match self.color_coords {
            Some(coords) => coords,
            None => ColorCoordinates::zero(),
        };
        HdrMetadata { color_coords: Some(before.with(which, value)), ..self }
    }

    /// This block with the minimum luminance set to `value`.
    pub open spec fn with_min_luma(self, value: Ratio) -> HdrMetadata {
        HdrMetadata { min_luma: value, ..self }
    }

    /// Sets the quantity `which` to `value`.
    pub fn set_level(&mut self, which: Level, value: u32)
        ensures
            *final(self) == old(self).with_level(which, value),
    {
        match which {
            Level::MaxContentLight => {
                self.max_content_light = value;
            },
            Level::MaxFrameLight => {
                self.max_frame_light = value;
            },
            Level::MaxLuminance => {
                self.max_luma = value;
            },
        }
    }

    /// Sets the chromaticity component `which` to `value`.
    pub fn set_coordinate(&mut self, which: Coordinate, value: Ratio)
        ensures
            *final(self) == old(self).with_coordinate(which, value),
    {
        let mut coords = match self.color_coords {
            Some(coords) => coords,
            None => ColorCoordinates::default(),
        };
        coords.set(which, value);
        self.color_coords = Some(coords);
    }

}

impl Default for HdrMetadata {
    fn default() -> (hdr: HdrMetadata)
        ensures
            hdr == HdrMetadata::blank(),
    {
        HdrMetadata {
            color_coords: None,
            max_luma: 0,
            min_luma: Ratio::zero(),
            max_content_light: 0,
            max_frame_light: 0,
        }
    }
}

impl Metadata {
    /// The record in which both blocks are absent.
    pub open spec fn empty() -> Metadata {
        Metadata { basic: None, hdr: None }
    }

    /// Both blocks are present, and the HDR block has its coordinates:
    /// no further source can add to the record.
    pub open spec fn complete(self) -> bool {
        self.basic is Some && self.hdr_complete()
    }

    /// The HDR block is present and has its coordinates.
    pub open spec fn hdr_complete(self) -> bool {
        match self.hdr {
            Some(hdr) => hdr.color_coords is Some,
            None => false,
        }
    }

    /// Whether the HDR block is present and has its coordinates.
    pub fn is_hdr_complete(&self) -> (yes: bool)
        ensures
            yes == self.hdr_complete(),
    {
        match self.hdr {
            Some(hdr) => hdr.color_coords.is_some(),
            None => false,
        }
    }

    /// Whether both blocks are present and the HDR block has its
    /// coordinates.
    pub fn is_complete(&self) -> (yes: bool)
        ensures
            yes == self.complete(),
    {
        self.basic.is_some() && self.is_hdr_complete()
    }
}

impl Default for Metadata {
    fn default() -> (metadata: Metadata)
        ensures
            metadata == Metadata::empty(),
    {
        Metadata { basic: None, hdr: None }
    }
}

/// What a probe parser has gathered so far. The HDR quantities are
/// collected whether or not the section header has been seen; the header
/// alone decides whether the block is reported.
#[derive(Clone, Copy, Debug, PartialEq, Eq)]
pub struct Partial {
    pub basic: Option<BasicMetadata>,
    pub hdr: HdrMetadata,
    pub hdr_seen: bool,
}

impl Partial {
    /// The record before any line was read.
    pub open spec fn start() -> Partial {
        Partial { basic: None, hdr: HdrMetadata::blank(), hdr_seen: false }
    }

    /// This record with the basic code `field` set to `code`. A basic block
    /// that was absent starts out unspecified.
    pub open spec fn with_code(self, field: BasicField, code: u8) -> Partial {
        let before = match self.basic {
            Some(basic) => basic,
            None => BasicMetadata::unspecified(),
        };
        Partial { basic: Some(before.with_code(field, code)), ..self }
    }

    /// This record with the HDR section header seen.
    pub open spec fn with_header(self) -> Partial {
        Partial { hdr_seen: true, ..self }
    }

    /// This record with another HDR block.
    pub open spec fn with_hdr(self, hdr: HdrMetadata) -> Partial {
        Partial { hdr, ..self }
    }

    /// The metadata that this record reports: the HDR block only where its
    /// section header was seen.
    pub open spec fn report(self) -> Metadata {
        Metadata {
            basic: self.basic,
            hdr: if self.hdr_seen {
                Some(self.hdr)
            } else {
                None
            },
        }
    }

    /// The record before any line was read.
    pub fn new() -> (partial: Partial)
        ensures
            partial == Partial::start(),
    {
        Partial { basic: None, hdr: HdrMetadata::default(), hdr_seen: false }
    }

    /// Sets the basic code `field` to `code`.
    pub fn set_code(&mut self, field: BasicField, code: u8)
        ensures
            *final(self) == old(self).with_code(field, code),
    {
        let mut basic = match self.basic {
            Some(basic) => basic,
            None => BasicMetadata::default(),
        };
        basic.set_code(field, code);
        self.basic = Some(basic);
    }

    /// The metadata that this record reports.
    pub fn finish(&self) -> (metadata: Metadata)
        ensures
            metadata == self.report(),
    {
        Metadata {
            basic: self.basic,
            hdr: if self.hdr_seen {
                Some(self.hdr)
            } else {
                None
            },
        }
    }
}

} // verus!
