//! The register map: every named register with its address byte, its home
//! bank, and its read-only flag.
//!
//! The driver uses the map to decide whether a bank switch is needed and
//! whether a write must be rejected before any bus transaction.

use vstd::prelude::*;

verus! {

/// The four numbered register spaces.  Exactly one is selected in
/// hardware at a time, through the bank-select register.
#[derive(Clone, Copy, Debug, PartialEq, Eq, Structural)]
pub enum RegisterBank {
    Bank0,
    Bank1,
    Bank2,
    Bank3,
}

impl RegisterBank {
    /// The three-bit value written into the bank-select register.
    pub open spec fn blk_sel_spec(self) -> u8 {
        match self {
            RegisterBank::Bank0 => 0,
            RegisterBank::Bank1 => 1,
            RegisterBank::Bank2 => 2,
            RegisterBank::Bank3 => 3,
        }
    }

    /// The three-bit value written into the bank-select register.
    pub fn blk_sel(self) -> (r: u8)
        ensures
            r == self.blk_sel_spec(),
            r < 4,
    {
        match self {
            RegisterBank::Bank0 => 0,
            RegisterBank::Bank1 => 1,
            RegisterBank::Bank2 => 2,
            RegisterBank::Bank3 => 3,
        }
    }
}

/// The named registers of the device's primary bank.
#[derive(Clone, Copy, Debug, PartialEq, Eq, Structural)]
#[allow(non_camel_case_types)]
pub enum Register {
    /// Device configuration; bit 0 requests a soft reset.
    DEVICE_CONFIG,
    /// Pad drive strengths, among them the two-wire slew rate.
    DRIVE_CONFIG,
    /// Temperature, high byte.
    TEMP_DATA1,
    /// Temperature, low byte.
    TEMP_DATA0,
    /// Accelerometer X axis, high byte.
    ACCEL_DATA_X1,
    /// Accelerometer X axis, low byte.
    ACCEL_DATA_X0,
    /// Accelerometer Y axis, high byte.
    ACCEL_DATA_Y1,
    /// Accelerometer Y axis, low byte.
    ACCEL_DATA_Y0,
    /// Accelerometer Z axis, high byte.
    ACCEL_DATA_Z1,
    /// Accelerometer Z axis, low byte.
    ACCEL_DATA_Z0,
    /// Gyroscope X axis, high byte.
    GYRO_DATA_X1,
    /// Gyroscope X axis, low byte.
    GYRO_DATA_X0,
    /// Gyroscope Y axis, high byte.
    GYRO_DATA_Y1,
    /// Gyroscope Y axis, low byte.
    GYRO_DATA_Y0,
    /// Gyroscope Z axis, high byte.
    GYRO_DATA_Z1,
    /// Gyroscope Z axis, low byte.
    GYRO_DATA_Z0,
    /// Time stamp at the last frame-sync event, high byte.
    TMST_FSYNCH,
    /// Time stamp at the last frame-sync event, low byte.
    TMST_FSYNCL,
    /// Bytes waiting in the FIFO, high byte.
    FIFO_COUNTH,
    /// Bytes waiting in the FIFO, low byte.
    FIFO_COUNTL,
    /// Power management: sub-sensor modes.
    PWR_MGMT0,
    /// Gyroscope configuration: range and output data rate.
    GYRO_CONFIG0,
    /// Accelerometer configuration: range and output data rate.
    ACCEL_CONFIG0,
    /// Shared filter configuration of both sub-sensors.
    GYRO_ACCEL_CONFIG0,
    /// The device's self-identification code.
    WHO_AM_I,
    /// Bank select: which register space the following accesses reach.
    REG_BANK_SEL,
}

impl Register {
    /// The register's address byte.
    pub open spec fn addr_spec(self) -> u8 {
        match self {
            Register::DEVICE_CONFIG => 0x11,
            Register::DRIVE_CONFIG => 0x13,
            Register::TEMP_DATA1 => 0x1D,
            Register::TEMP_DATA0 => 0x1E,
            Register::ACCEL_DATA_X1 => 0x1F,
            Register::ACCEL_DATA_X0 => 0x20,
            Register::ACCEL_DATA_Y1 => 0x21,
            Register::ACCEL_DATA_Y0 => 0x22,
            Register::ACCEL_DATA_Z1 => 0x23,
            Register::ACCEL_DATA_Z0 => 0x24,
            Register::GYRO_DATA_X1 => 0x25,
            Register::GYRO_DATA_X0 => 0x26,
            Register::GYRO_DATA_Y1 => 0x27,
            Register::GYRO_DATA_Y0 => 0x28,
            Register::GYRO_DATA_Z1 => 0x29,
            Register::GYRO_DATA_Z0 => 0x2A,
            Register::TMST_FSYNCH => 0x2B,
            Register::TMST_FSYNCL => 0x2C,
            Register::FIFO_COUNTH => 0x2E,
            Register::FIFO_COUNTL => 0x2F,
            Register::PWR_MGMT0 => 0x4E,
            Register::GYRO_CONFIG0 => 0x4F,
            Register::ACCEL_CONFIG0 => 0x50,
            Register::GYRO_ACCEL_CONFIG0 => 0x52,
            Register::WHO_AM_I => 0x75,
            Register::REG_BANK_SEL => 0x76,
        }
    }

    /// The register's address byte.
    pub fn addr(self) -> (r: u8)
        ensures
            r == self.addr_spec(),
    {
        match self {
            Register::DEVICE_CONFIG => 0x11,
            Register::DRIVE_CONFIG => 0x13,
            Register::TEMP_DATA1 => 0x1D,
            Register::TEMP_DATA0 => 0x1E,
            Register::ACCEL_DATA_X1 => 0x1F,
            Register::ACCEL_DATA_X0 => 0x20,
            Register::ACCEL_DATA_Y1 => 0x21,
            Register::ACCEL_DATA_Y0 => 0x22,
            Register::ACCEL_DATA_Z1 => 0x23,
            Register::ACCEL_DATA_Z0 => 0x24,
            Register::GYRO_DATA_X1 => 0x25,
            Register::GYRO_DATA_X0 => 0x26,
            Register::GYRO_DATA_Y1 => 0x27,
            Register::GYRO_DATA_Y0 => 0x28,
            Register::GYRO_DATA_Z1 => 0x29,
            Register::GYRO_DATA_Z0 => 0x2A,
            Register::TMST_FSYNCH => 0x2B,
            Register::TMST_FSYNCL => 0x2C,
            Register::FIFO_COUNTH => 0x2E,
            Register::FIFO_COUNTL => 0x2F,
            Register::PWR_MGMT0 => 0x4E,
            Register::GYRO_CONFIG0 => 0x4F,
            Register::ACCEL_CONFIG0 => 0x50,
            Register::GYRO_ACCEL_CONFIG0 => 0x52,
            Register::WHO_AM_I => 0x75,
            Register::REG_BANK_SEL => 0x76,
        }
    }

    /// The register's home bank.  Every named register lives in the
    /// primary bank; banked spaces are reached through `REG_BANK_SEL`.
    pub open spec fn bank_spec(self) -> u8 {
        0
    }

    /// The register's home bank.
    pub fn bank(self) -> (r: u8)
        ensures
            r == self.bank_spec(),
            r < 4,
    {
        0
    }

    /// Whether the register is read-only: a write to it must fail before
    /// any bus transaction is attempted.
    pub open spec fn read_only_spec(self) -> bool {
        match self {
            Register::TEMP_DATA1 => true,
            Register::TEMP_DATA0 => true,
            Register::ACCEL_DATA_X1 => true,
            Register::ACCEL_DATA_X0 => true,
            Register::ACCEL_DATA_Y1 => true,
            Register::ACCEL_DATA_Y0 => true,
            Register::ACCEL_DATA_Z1 => true,
            Register::ACCEL_DATA_Z0 => true,
            Register::GYRO_DATA_X1 => true,
            Register::GYRO_DATA_X0 => true,
            Register::GYRO_DATA_Y1 => true,
            Register::GYRO_DATA_Y0 => true,
            Register::GYRO_DATA_Z1 => true,
            Register::GYRO_DATA_Z0 => true,
            Register::TMST_FSYNCH => true,
            Register::TMST_FSYNCL => true,
            Register::FIFO_COUNTH => true,
            Register::FIFO_COUNTL => true,
            Register::WHO_AM_I => true,
            _ => false,
        }
    }

    /// Whether the register is read-only.
    pub fn read_only(self) -> (r: bool)
        ensures
            r == self.read_only_spec(),
    {
        match self {
            Register::TEMP_DATA1 => true,
            Register::TEMP_DATA0 => true,
            Register::ACCEL_DATA_X1 => true,
            Register::ACCEL_DATA_X0 => true,
            Register::ACCEL_DATA_Y1 => true,
            Register::ACCEL_DATA_Y0 => true,
            Register::ACCEL_DATA_Z1 => true,
            Register::ACCEL_DATA_Z0 => true,
            Register::GYRO_DATA_X1 => true,
            Register::GYRO_DATA_X0 => true,
            Register::GYRO_DATA_Y1 => true,
            Register::GYRO_DATA_Y0 => true,
            Register::GYRO_DATA_Z1 => true,
            Register::GYRO_DATA_Z0 => true,
            Register::TMST_FSYNCH => true,
            Register::TMST_FSYNCL => true,
            Register::FIFO_COUNTH => true,
            Register::FIFO_COUNTL => true,
            Register::WHO_AM_I => true,
            _ => false,
        }
    }

    /// The full map entry: address, home bank, read-only flag.
    pub fn lookup(self) -> (r: (u8, u8, bool))
        ensures
            r.0 == self.addr_spec(),
            r.1 == self.bank_spec(),
            r.2 == self.read_only_spec(),
    {
        (self.addr(), self.bank(), self.read_only())
    }
}

} // verus!
