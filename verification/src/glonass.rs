//! The frequency channels of Glonass.
//!
//! Glonass divides each of its bands by frequency: every satellite broadcasts
//! at its own distance from the centre of the band, and a channel number says
//! how many steps away that is.
use crate::carrier::Carrier;
use crate::error::Error;
use crate::frequency::GNSSCarrier;
use vstd::prelude::*;

verus! {

/// The lowest channel number.
pub const MIN_CHANNEL: i8 = -7;

/// The highest channel number.
pub const MAX_CHANNEL: i8 = 6;

/// The distance between two neighbouring channels of a band, in hertz:
/// 9/16 MHz on G1 and 7/16 MHz on G2 and G3. A band that is not divided into
/// channels has none.
pub open spec fn channel_spacing(carrier: Carrier) -> nat {
    match carrier {
        Carrier::G1 => 562_500,
        Carrier::G2 => 437_500,
        Carrier::G3 => 437_500,
        _ => 0,
    }
}

/// One frequency channel of a Glonass band.
#[derive(Debug, Clone, Copy, PartialEq, Eq, Structural)]
pub struct GlonassFDMAChannel {
    /// The band that the channel belongs to.
    pub carrier: Carrier,
    /// The channel number, from -7 to 6; 0 is the centre of the band.
    pub channel: i8,
}

impl GlonassFDMAChannel {
    /// Whether a carrier and a channel number make a channel: the carrier is
    /// a band of Glonass and the number lies in -7..=6.
    pub open spec fn is_channel(carrier: Carrier, channel: i8) -> bool {
        carrier.is_glonass() && MIN_CHANNEL <= channel <= MAX_CHANNEL
    }

    /// Whether this value is a channel that exists.
    pub open spec fn wf(&self) -> bool {
        Self::is_channel(self.carrier, self.channel)
    }

    /// What `new` returns.
    pub open spec fn spec_new(carrier: Carrier, channel: i8) -> Result<Self, Error> {
        if Self::is_channel(carrier, channel) {
            Ok(GlonassFDMAChannel { carrier, channel })
        } else {
            Err(Error::InvalidFDMAChannel)
        }
    }

    /// The channel `channel` of the band `carrier`, or `InvalidFDMAChannel`
    /// where the carrier is no band of Glonass or the number lies outside
    /// -7..=6.
    pub fn new(carrier: Carrier, channel: i8) -> (made: Result<Self, Error>)
        ensures
            made == Self::spec_new(carrier, channel),
            made matches Ok(fdma) ==> fdma.wf(),
    {
        let glonass = match carrier {
            Carrier::G1 | Carrier::G2 | Carrier::G3 => true,
            _ => false,
        };
        if glonass && channel >= MIN_CHANNEL && channel <= MAX_CHANNEL {
            Ok(Self { carrier, channel })
        } else {
            Err(Error::InvalidFDMAChannel)
        }
    }

    /// Tells whether the channel is one of the two that are kept for tests
    /// on the ground: -6 and -5.
    pub fn is_testing_channel(&self) -> (testing: bool)
        ensures
            testing == (self.channel == -6 || self.channel == -5),
    {
        match self.channel {
            -6 | -5 => true,
            _ => false,
        }
    }
}

impl GNSSCarrier for GlonassFDMAChannel {
    /// The centre frequency of the band, moved by as many steps as the
    /// channel number says. No channel number brings it down to zero.
    open spec fn hertz(&self) -> nat {
        (self.carrier.hertz() + self.channel * channel_spacing(self.carrier)) as nat
    }

    /// Tells the frequency of the channel, in hertz.
    fn frequency(&self) -> (hz: u64)
        ensures
            hz == self.hertz(),
    {
        let centre: i64 = self.carrier.frequency() as i64;
        let spacing: i64 = match self.carrier {
            Carrier::G1 => 562_500,
            Carrier::G2 => 437_500,
            Carrier::G3 => 437_500,
            _ => 0,
        };
        (centre + spacing * (self.channel as i64)) as u64
    }
}

/// Channel 0 of a band of Glonass exists and lies at the centre of the band:
/// its frequency is that of the carrier.
pub proof fn lemma_channel_zero_is_nominal(carrier: Carrier)
    requires
        carrier.is_glonass(),
    ensures
        GlonassFDMAChannel::spec_new(carrier, 0) matches Ok(fdma) && fdma.hertz()
            == carrier.hertz(),
{
}

} // verus!
