//! The typed GPIO request model.
//!
//! A request names one of four methods and carries that method's parameters.
//! Mapping JSON text onto these types is done by the serde-derived copies in
//! the application; the library works on the typed values.

use vstd::prelude::*;

verus! {

/// GPIO pin mode. Wire form: `input`, `output`, `input_pullup`.
#[derive(Debug, Clone, Copy, PartialEq, Eq, Structural)]
pub enum PinMode {
    Input,
    Output,
    InputPullup,
}

/// A GPIO request method together with its parameters.
#[derive(Debug, Clone, Copy, PartialEq, Eq, Structural)]
pub enum Request {
    GpioConfig { pin: u8, mode: PinMode },
    GpioWrite { pin: u8, level: u8 },
    GpioRead { pin: u8 },
    LedSet { r: u8, g: u8, b: u8 },
}

} // verus!
