//! What can go wrong when a signal is named or a channel is built.
use vstd::prelude::*;

verus! {

/// Why a carrier or a Glonass channel was refused.
#[derive(Clone, Copy, Debug, PartialEq, Eq, Structural)]
pub enum Error {
    /// The text names no carrier that is known here.
    UnknownCarrierSignal,
    /// The carrier is known but cannot be used where it was given.
    InvalidCarrierSignal,
    /// The carrier is not one of Glonass, or the channel number lies outside -7..=6.
    InvalidFDMAChannel,
}

impl Error {
    /// The sentence that describes this error.
    pub open spec fn message(self) -> Seq<char> {
        match self {
            Error::UnknownCarrierSignal => "unknown carrier signal"@,
            Error::InvalidCarrierSignal => "invalid carrier signal"@,
            Error::InvalidFDMAChannel => "invalid glonass fdma channel [-7, +6]"@,
        }
    }

    /// Renders the error as its sentence.
    pub fn to_string(&self) -> (text: String)
        ensures
            text@ == self.message(),
    {
        match self {
            Error::UnknownCarrierSignal => "unknown carrier signal".to_owned(),
            Error::InvalidCarrierSignal => "invalid carrier signal".to_owned(),
            Error::InvalidFDMAChannel => "invalid glonass fdma channel [-7, +6]".to_owned(),
        }
    }
}

} // verus!
