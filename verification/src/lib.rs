//! Driver core for a 6-axis inertial measurement unit (accelerometer,
//! gyroscope and temperature sensor) reached over one of two serial
//! transports: a two-wire bus (I2C) or a four-wire synchronous bus (SPI).
//!
//! The crate verifies the register-level protocol of the driver: the
//! bitfield encode/decode contracts of every configuration parameter, the
//! register map with its home banks and read-only flags, the bank-select
//! bracket around banked accesses, and the read-modify-write discipline
//! that keeps unrelated bits of shared registers intact.
//!
//! The byte-transfer capability itself (the blocking bus peripheral) is an
//! external collaborator.  It is represented here by an explicit port: a
//! queue of scripted replies and a log of the transactions the driver
//! performed.  Every contract of the driver is stated against that port, so
//! the exact sequence of bus transactions each operation performs is part
//! of its specification.

pub mod bus;
pub mod config;
pub mod error;
pub mod gpio;
pub mod i2c;
pub mod icm;
pub mod registers;
pub mod spi;
pub mod time;

use vstd::prelude::*;

verus! {

/// Common status codes returned by the platform's bus primitives.
///
/// A non-negative count reports success; negative codes report failures.
#[derive(Clone, Copy, Debug, PartialEq, Eq, Structural)]
#[allow(non_camel_case_types)]
pub enum PicoErrorCodes {
    NONE,
    TIMEOUT,
    GENERIC,
    NO_DATA,
    NOT_PERMITTED,
    INVALID_ARG,
    IO,
    BADAUTH,
    CONNECT_FAILED,
    INSUFFICIENT_RESOURCES,
}

impl PicoErrorCodes {
    /// The numeric status value of this code as the bus primitives report it.
    pub open spec fn code_spec(self) -> int {
        match self {
            PicoErrorCodes::NONE => 0,
            PicoErrorCodes::TIMEOUT => -1,
            PicoErrorCodes::GENERIC => -2,
            PicoErrorCodes::NO_DATA => -3,
            PicoErrorCodes::NOT_PERMITTED => -4,
            PicoErrorCodes::INVALID_ARG => -5,
            PicoErrorCodes::IO => -6,
            PicoErrorCodes::BADAUTH => -7,
            PicoErrorCodes::CONNECT_FAILED => -8,
            PicoErrorCodes::INSUFFICIENT_RESOURCES => -9,
        }
    }

    pub fn code(self) -> (r: i32)
        ensures
            r == self.code_spec(),
    {
        match self {
            PicoErrorCodes::NONE => 0,
            PicoErrorCodes::TIMEOUT => -1,
            PicoErrorCodes::GENERIC => -2,
            PicoErrorCodes::NO_DATA => -3,
            PicoErrorCodes::NOT_PERMITTED => -4,
            PicoErrorCodes::INVALID_ARG => -5,
            PicoErrorCodes::IO => -6,
            PicoErrorCodes::BADAUTH => -7,
            PicoErrorCodes::CONNECT_FAILED => -8,
            PicoErrorCodes::INSUFFICIENT_RESOURCES => -9,
        }
    }
}


/// Conversion of a platform status code into a result.
pub trait ToResult {
    /// The result this status stands for.
    spec fn to_result_spec(&self) -> Result<(), i32>;

    /// Turn the status into a result.
    fn to_result(&self) -> (r: Result<(), i32>)
        ensures
            r == self.to_result_spec(),
    ;
}

impl ToResult for i32 {
    /// A positive status is an error code; zero and negative counts are
    /// success.
    open spec fn to_result_spec(&self) -> Result<(), i32> {
        if *self > 0 {
            Err(*self)
        } else {
            Ok(())
        }
    }

    fn to_result(&self) -> (r: Result<(), i32>)
        ensures
            r == self.to_result_spec(),
    {
        if *self > 0 {
            Err(*self)
        } else {
            Ok(())
        }
    }
}

} // verus!
