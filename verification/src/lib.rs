//! Carrier signals of the global navigation satellite systems: the bands they
//! are broadcast on, the designators that name them, and the frequency
//! channels of Glonass.
//!
//! Frequencies are whole numbers of hertz and wavelengths whole numbers of
//! nanometres, so that every contract is exact.
pub mod carrier;
pub mod designator;
pub mod error;
pub mod frequency;
pub mod glonass;
pub mod text;

pub use crate::carrier::Carrier;
pub use crate::error::Error;
pub use crate::frequency::GNSSCarrier;
pub use crate::glonass::GlonassFDMAChannel;
