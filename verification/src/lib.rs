//! Driver and wire protocol for the AD9959 four-channel direct digital synthesizer.
//!
//! The crate holds the register map, the conversions between physical quantities and the codes
//! of the device, the controller that programs the device over a link, the bring-up sequence,
//! the serializer for batches of register writes, and the framing for a link that is a quad
//! serial peripheral.

pub mod bits;
pub mod bringup;
pub mod codec;
pub mod controller;
pub mod interface;
pub mod pounder;
pub mod profile;
pub mod ratio;
pub mod registers;

pub use crate::bringup::{Action, Bringup, Stage, Step};
pub use crate::codec::{
    acr_to_amplitude, amplitude_to_acr, frequency_to_ftw, ftw_to_frequency, phase_to_pow,
    pow_to_phase, validate_clocking,
};
pub use crate::controller::Ad9959;
pub use crate::interface::Interface;
pub use crate::profile::{Profile, ProfileSerializer};
pub use crate::ratio::Ratio;
pub use crate::registers::{Channel, Error, Mode, Register};
