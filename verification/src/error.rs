//! The ways in which reading or writing metadata can fail.

use vstd::prelude::*;

verus! {

/// Why an operation on metadata failed.
#[derive(Clone, Copy, Debug, PartialEq, Eq, Structural)]
pub enum Error {
    /// A probe tool could not be run, or ended with a failure status.
    ProbeUnavailable,
    /// A line carried a known label, but its value could not be read as the
    /// number the field holds.
    MalformedField,
    /// A value lies outside every entry of its dictionary.
    UnrecognizedValue,
    /// A value is known, but the requested output dialect cannot express it.
    UnsupportedByTarget,
    /// The tool that writes the properties ended with a failure status.
    ApplyFailed,
}

impl Error {
    /// Whether processing may go on with the next source after this error
    /// came from a source whose failure is tolerated.
    pub open spec fn recoverable(self) -> bool {
        self == Error::ProbeUnavailable || self == Error::MalformedField
    }

    /// Whether processing may go on with the next source after this error
    /// came from a source whose failure is tolerated.
    pub fn is_recoverable(&self) -> (yes: bool)
        ensures
            yes == self.recoverable(),
    {
        match self {
            Error::ProbeUnavailable => true,
            Error::MalformedField => true,
            _ => false,
        }
    }

    /// A one-line description for diagnostics.
    pub fn describe(&self) -> (message: &'static str)
        ensures
            message@ == self.description(),
    {
        match self {
            Error::ProbeUnavailable => "probe tool unavailable",
            Error::MalformedField => "malformed field",
            Error::UnrecognizedValue => "unrecognized value",
            Error::UnsupportedByTarget => "value not supported by the target",
            Error::ApplyFailed => "failed to apply metadata",
        }
    }

    /// The text that `describe` returns.
    pub open spec fn description(self) -> Seq<char> {
        match self {
            Error::ProbeUnavailable => "probe tool unavailable"@,
            Error::MalformedField => "malformed field"@,
            Error::UnrecognizedValue => "unrecognized value"@,
            Error::UnsupportedByTarget => "value not supported by the target"@,
            Error::ApplyFailed => "failed to apply metadata"@,
        }
    }
}

} // verus!
