//! What every carrier signal can tell of itself: its frequency and its
//! wavelength.
use vstd::prelude::*;

verus! {

/// The speed of light in vacuum, in nanometres per second.
pub const LIGHT_NM_PER_S: u64 = 299_792_458_000_000_000;

/// The wavelength, in whole nanometres, of a signal of `hertz` cycles per
/// second: the way light goes in a second, shared out among the cycles, the
/// rest dropped.
pub open spec fn wavelength_nm(hertz: nat) -> nat
    recommends
        hertz > 0,
{
    LIGHT_NM_PER_S as nat / hertz
}

/// A signal on a carrier frequency.
pub trait GNSSCarrier {
    /// The frequency of the signal, in hertz.
    spec fn hertz(&self) -> nat;

    /// Tells the frequency of the signal, in hertz. It is never zero.
    fn frequency(&self) -> (hz: u64)
        ensures
            hz == self.hertz(),
            hz > 0,
    ;

    /// Tells the wavelength of the signal in vacuum, in nanometres, rounded
    /// down: the speed of light divided by the frequency.
    fn wavelength(&self) -> (nanometres: u64)
        ensures
            nanometres == wavelength_nm(self.hertz()),
    {
        LIGHT_NM_PER_S / self.frequency()
    }
}

} // verus!
