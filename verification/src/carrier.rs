//! The carrier bands that the navigation satellites broadcast on.
use crate::error::Error;
use crate::frequency::GNSSCarrier;
use crate::glonass::GlonassFDMAChannel;
use vstd::prelude::*;

verus! {

/// A carrier band, shared by one or more constellations.
#[derive(Debug, Clone, Copy, Hash, PartialEq, Eq, PartialOrd, Ord, Structural)]
pub enum Carrier {
    /// L1: 1575.42 MHz (GPS L1, SBAS L1, QZSS L1, Galileo E1, BeiDou B1)
    L1,
    /// L5: 1176.45 MHz (GPS L5, QZSS L5, Galileo E5, BeiDou B5, IRNSS L5)
    L5,
    /// G1: 1602.0 MHz (Glonass L1)
    G1,
    /// G2: 1246.0 MHz (Glonass L2)
    G2,
    /// G3: 1201.0 MHz (Glonass L3)
    G3,
    /// B2: 1561.098 MHz (BeiDou)
    B2,
    /// B6: 1268.52 MHz (BeiDou)
    B6,
    /// L6: 1278.75 MHz (QZSS L6, Galileo E6)
    L6,
    /// B8E8: 1191.795 MHz (BeiDou B8, Galileo E8)
    B8E8,
    /// S: 2492.028 MHz (IRNSS)
    S,
}

impl Default for Carrier {
    /// L1, as a placeholder only.
    fn default() -> (carrier: Carrier)
        ensures
            carrier == Carrier::L1,
    {
        Carrier::L1
    }
}

impl Carrier {
    /// The short code that the carrier is written as.
    pub open spec fn code(self) -> Seq<char> {
        match self {
            Carrier::L1 => "L1"@,
            Carrier::L5 => "L5"@,
            Carrier::G1 => "G1"@,
            Carrier::G2 => "G2"@,
            Carrier::G3 => "G3"@,
            Carrier::B2 => "B2"@,
            Carrier::B6 => "B6"@,
            Carrier::L6 => "L6"@,
            Carrier::B8E8 => "B8"@,
            Carrier::S => "S"@,
        }
    }

    /// Whether the carrier is one of the three bands of Glonass.
    pub open spec fn is_glonass(self) -> bool {
        self == Carrier::G1 || self == Carrier::G2 || self == Carrier::G3
    }

    /// The channel `channel` of this band, or `InvalidFDMAChannel` where the
    /// carrier is no band of Glonass or the number lies outside -7..=6.
    pub fn to_glonass_channel(&self, channel: i8) -> (made: Result<GlonassFDMAChannel, Error>)
        ensures
            made == GlonassFDMAChannel::spec_new(*self, channel),
            made matches Ok(fdma) ==> fdma.wf(),
    {
        GlonassFDMAChannel::new(*self, channel)
    }

    /// Writes the carrier as its short code; B8E8 is written "B8".
    pub fn to_string(&self) -> (text: String)
        ensures
            text@ == self.code(),
    {
        match self {
            Carrier::L1 => "L1".to_owned(),
            Carrier::L5 => "L5".to_owned(),
            Carrier::G1 => "G1".to_owned(),
            Carrier::G2 => "G2".to_owned(),
            Carrier::G3 => "G3".to_owned(),
            Carrier::B2 => "B2".to_owned(),
            Carrier::B6 => "B6".to_owned(),
            Carrier::L6 => "L6".to_owned(),
            Carrier::B8E8 => "B8".to_owned(),
            Carrier::S => "S".to_owned(),
        }
    }
}

impl GNSSCarrier for Carrier {
    /// The nominal centre frequency of the band.
    open spec fn hertz(&self) -> nat {
        match self {
            Carrier::L1 => 1_575_420_000,
            Carrier::L5 => 1_176_450_000,
            Carrier::G1 => 1_602_000_000,
            Carrier::G2 => 1_246_000_000,
            Carrier::G3 => 1_201_000_000,
            Carrier::B2 => 1_561_098_000,
            Carrier::B6 => 1_268_520_000,
            Carrier::L6 => 1_278_750_000,
            Carrier::B8E8 => 1_191_795_000,
            Carrier::S => 2_492_028_000,
        }
    }

    /// Tells the nominal centre frequency of the band, in hertz.
    fn frequency(&self) -> (hz: u64)
        ensures
            hz == self.hertz(),
    {
        match self {
            Carrier::L1 => 1_575_420_000,
            Carrier::L5 => 1_176_450_000,
            Carrier::G1 => 1_602_000_000,
            Carrier::G2 => 1_246_000_000,
            Carrier::G3 => 1_201_000_000,
            Carrier::B2 => 1_561_098_000,
            Carrier::B6 => 1_268_520_000,
            Carrier::L6 => 1_278_750_000,
            Carrier::B8E8 => 1_191_795_000,
            Carrier::S => 2_492_028_000,
        }
    }
}

} // verus!
