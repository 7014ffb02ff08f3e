//! The driver's error taxonomy.
//!
//! Every fallible operation returns immediately on its first error; no
//! error is silently downgraded.

use vstd::prelude::*;

verus! {

/// A failure of the active bus, tagged by transport.
#[derive(Clone, Copy, Debug, PartialEq, Eq, Structural)]
#[allow(non_camel_case_types)]
pub enum BusError {
    I2C(crate::i2c::Error),
    SPI(crate::spi::Error),
}

/// Any error that may occur while interacting with the device.
#[derive(Clone, Copy, Debug, PartialEq, Eq, Structural)]
pub enum Error {
    /// The sensor has not been initialized.
    NotReady,
    /// Some error originating from the communication bus.
    BusError(BusError),
    /// Some error resulting from interacting with the device itself.
    SensorError(SensorError),
}

/// Errors specific to this device.
#[derive(Clone, Copy, Debug, PartialEq, Eq, Structural)]
pub enum SensorError {
    /// The chip did not report the expected self-identification code.
    BadChip,
    /// A register bank outside the four that exist was named.
    BankOutOfRange,
    /// A write to a read-only register was attempted.
    WriteToReadOnly,
    /// A bit pattern outside a bitfield's legal set was decoded.
    InvalidDiscriminant,
}

impl From<SensorError> for Error {
    fn from(err: SensorError) -> (r: Error) {
        Error::SensorError(err)
    }
}

impl vstd::std_specs::convert::FromSpecImpl<SensorError> for Error {
    open spec fn obeys_from_spec() -> bool {
        true
    }

    open spec fn from_spec(err: SensorError) -> Error {
        Error::SensorError(err)
    }
}

} // verus!
