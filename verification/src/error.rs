//! Failures of the decoder.

use vstd::prelude::*;

verus! {

/// Why decoding stopped. Every failure is final: the same bytes fail again.
#[derive(Clone, Copy, Debug, PartialEq, Eq, Structural)]
pub enum Error {
    /// The bytes end before the value being read is complete.
    Io,
    /// A chunk does not start with the tag that is due at this place.
    InvalidChunkTag,
    /// The header chunk states a length other than 6.
    InvalidHeaderLength,
    /// The file format is neither 0 nor 1.
    UnsupportedFormat,
    /// The time division is not a usable number of pulses per quarter note.
    UnsupportedTimingMode,
    /// An end-of-track or tempo event states a length it cannot have.
    MalformedMetaEvent,
    /// A variable-length quantity goes on past its fifth byte.
    VlqOverflow,
    /// No status is in force that says how long the event is.
    Parse,
}

impl Error {
    /// The text that describes the failure.
    pub open spec fn spec_message(self) -> Seq<char> {
        match self {
            Error::Io => "unexpected end of data"@,
            Error::InvalidChunkTag => "invalid chunk tag"@,
            Error::InvalidHeaderLength => "invalid header length (expected 6)"@,
            Error::UnsupportedFormat => "unsupported file format (expected 0 or 1)"@,
            Error::UnsupportedTimingMode => "unsupported timing mode"@,
            Error::MalformedMetaEvent => "invalid meta event length"@,
            Error::VlqOverflow => "variable-length quantity longer than 5 bytes"@,
            Error::Parse => "unrecognised status byte"@,
        }
    }

    /// A short description of the failure, for display.
    pub fn message(&self) -> (text: &'static str)
        ensures
            text@ == self.spec_message(),
    {
        match self {
            Error::Io => "unexpected end of data",
            Error::InvalidChunkTag => "invalid chunk tag",
            Error::InvalidHeaderLength => "invalid header length (expected 6)",
            Error::UnsupportedFormat => "unsupported file format (expected 0 or 1)",
            Error::UnsupportedTimingMode => "unsupported timing mode",
            Error::MalformedMetaEvent => "invalid meta event length",
            Error::VlqOverflow => "variable-length quantity longer than 5 bytes",
            Error::Parse => "unrecognised status byte",
        }
    }

    /// Whether the failure came from the byte source rather than from what
    /// the bytes say.
    pub fn is_io(&self) -> (io: bool)
        ensures
            io == (*self == Error::Io),
    {
        match self {
            Error::Io => true,
            _ => false,
        }
    }
}

} // verus!
