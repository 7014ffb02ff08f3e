//! The bitfield model: every configurable parameter of the device as a
//! closed enumeration.
//!
//! Each value carries a bit pattern (`bits`, pre-shifted to its register
//! position), the mask of the register bits its field owns (`BITMASK`),
//! and a fallible decode (`from_bits`) over the field's unshifted value
//! that accepts exactly the legal patterns: anything else is an
//! `InvalidDiscriminant` error, never a nearest fit.  Scale factors and
//! frequencies come from the device's data sheet; they are exposed as
//! exact scaled integers.

use crate::error::SensorError;
use vstd::prelude::*;

verus! {

/// The highest two-wire bus frequency the device supports, in hertz.
pub const MAX_I2C_FREQ: u32 = 1_000_000;


/// Slew rate of the two-wire bus pads.
#[derive(Clone, Copy, Debug, PartialEq, Eq, Structural)]
pub enum I2CSlewRate {
    /// 20 to 60 ns
    Slew60ns,
    /// 12 to 36 ns
    Slew18ns,
    /// 6 to 18 ns
    Slew12ns,
    /// 2 to 6 ns
    Slew6ns,
    /// under 2 ns (default)
    Slew2ns,
}

impl I2CSlewRate {
    /// The register bits this field owns.
    pub const BITMASK: u8 = 0b0011_1000;

    /// The unshifted bit pattern of this value.
    pub open spec fn field_spec(self) -> u8 {
        match self {
            I2CSlewRate::Slew60ns => 0b000,
            I2CSlewRate::Slew18ns => 0b001,
            I2CSlewRate::Slew12ns => 0b011,
            I2CSlewRate::Slew6ns => 0b100,
            I2CSlewRate::Slew2ns => 0b101,
        }
    }

    /// The bit pattern shifted to its register position.
    pub open spec fn bits_spec(self) -> u8 {
        self.field_spec() << 3
    }

    /// Bit value of this variant, shifted to its register position.
    pub fn bits(self) -> (r: u8)
        ensures
            r == self.bits_spec(),
    {
        let field: u8 = match self {
            I2CSlewRate::Slew60ns => 0b000,
            I2CSlewRate::Slew18ns => 0b001,
            I2CSlewRate::Slew12ns => 0b011,
            I2CSlewRate::Slew6ns => 0b100,
            I2CSlewRate::Slew2ns => 0b101,
        };
        field << 3
    }

    /// Decode an unshifted field value; exactly the legal patterns
    /// are accepted.
    pub open spec fn from_bits_spec(value: u8) -> Result<I2CSlewRate, SensorError> {
        if value == 0b000 {
            Ok(I2CSlewRate::Slew60ns)
        } else if value == 0b001 {
            Ok(I2CSlewRate::Slew18ns)
        } else if value == 0b011 {
            Ok(I2CSlewRate::Slew12ns)
        } else if value == 0b100 {
            Ok(I2CSlewRate::Slew6ns)
        } else if value == 0b101 {
            Ok(I2CSlewRate::Slew2ns)
        } else {
            Err(SensorError::InvalidDiscriminant)
        }
    }

    /// Decode an unshifted field value.
    pub fn from_bits(value: u8) -> (r: Result<I2CSlewRate, SensorError>)
        ensures
            r == I2CSlewRate::from_bits_spec(value),
    {
        if value == 0b000 {
            Ok(I2CSlewRate::Slew60ns)
        } else if value == 0b001 {
            Ok(I2CSlewRate::Slew18ns)
        } else if value == 0b011 {
            Ok(I2CSlewRate::Slew12ns)
        } else if value == 0b100 {
            Ok(I2CSlewRate::Slew6ns)
        } else if value == 0b101 {
            Ok(I2CSlewRate::Slew2ns)
        } else {
            Err(SensorError::InvalidDiscriminant)
        }
    }
}

/// Two-wire device addresses, determined by the logic level of the
/// address-select pin.
#[derive(Clone, Copy, Debug, PartialEq, Eq, Structural)]
pub enum Address {
    /// Address-select pin low
    Primary,
    /// Address-select pin high
    Secondary,
}

impl Address {
    /// The seven-bit bus address itself.
    pub open spec fn value_spec(self) -> u8 {
        match self {
            Address::Primary => 0x68,
            Address::Secondary => 0x69,
        }
    }

    /// The seven-bit bus address itself.
    pub fn value(self) -> (r: u8)
        ensures
            r == self.value_spec(),
    {
        match self {
            Address::Primary => 0x68,
            Address::Secondary => 0x69,
        }
    }
}

impl Default for Address {
    /// The address with the select pin low.
    fn default() -> (r: Address)
        ensures
            r == Address::Primary,
    {
        Address::Primary
    }
}

/// Configurable full-scale ranges of the accelerometer.
#[derive(Clone, Copy, Debug, PartialEq, Eq, Structural)]
pub enum AccelRange {
    /// plus or minus 2 g
    G2,
    /// plus or minus 4 g
    G4,
    /// plus or minus 8 g
    G8,
    /// plus or minus 16 g (default)
    G16,
}

impl AccelRange {
    /// The register bits this field owns.
    pub const BITMASK: u8 = 0b0110_0000;

    /// The unshifted bit pattern of this value.
    pub open spec fn field_spec(self) -> u8 {
        match self {
            AccelRange::G2 => 3,
            AccelRange::G4 => 2,
            AccelRange::G8 => 1,
            AccelRange::G16 => 0,
        }
    }

    /// The bit pattern shifted to its register position.
    pub open spec fn bits_spec(self) -> u8 {
        self.field_spec() << 5
    }

    /// Bit value of this variant, shifted to its register position.
    pub fn bits(self) -> (r: u8)
        ensures
            r == self.bits_spec(),
    {
        let field: u8 = match self {
            AccelRange::G2 => 3,
            AccelRange::G4 => 2,
            AccelRange::G8 => 1,
            AccelRange::G16 => 0,
        };
        field << 5
    }

    /// Decode an unshifted field value; exactly the legal patterns
    /// are accepted.
    pub open spec fn from_bits_spec(value: u8) -> Result<AccelRange, SensorError> {
        if value == 3 {
            Ok(AccelRange::G2)
        } else if value == 2 {
            Ok(AccelRange::G4)
        } else if value == 1 {
            Ok(AccelRange::G8)
        } else if value == 0 {
            Ok(AccelRange::G16)
        } else {
            Err(SensorError::InvalidDiscriminant)
        }
    }

    /// Decode an unshifted field value.
    pub fn from_bits(value: u8) -> (r: Result<AccelRange, SensorError>)
        ensures
            r == AccelRange::from_bits_spec(value),
    {
        if value == 3 {
            Ok(AccelRange::G2)
        } else if value == 2 {
            Ok(AccelRange::G4)
        } else if value == 1 {
            Ok(AccelRange::G8)
        } else if value == 0 {
            Ok(AccelRange::G16)
        } else {
            Err(SensorError::InvalidDiscriminant)
        }
    }

    /// Sensitivity of this range, in counts per g (data sheet, table 2).
    pub open spec fn counts_per_g_spec(self) -> u16 {
        match self {
            AccelRange::G2 => 16384,
            AccelRange::G4 => 8192,
            AccelRange::G8 => 4096,
            AccelRange::G16 => 2048,
        }
    }

    /// Sensitivity of this range, in counts per g.
    pub fn counts_per_g(self) -> (r: u16)
        ensures
            r == self.counts_per_g_spec(),
            r > 0,
    {
        match self {
            AccelRange::G2 => 16384,
            AccelRange::G4 => 8192,
            AccelRange::G8 => 4096,
            AccelRange::G16 => 2048,
        }
    }
}

impl Default for AccelRange {
    /// The device's reset value of this field.
    fn default() -> (r: AccelRange)
        ensures
            r == AccelRange::G16,
    {
        AccelRange::G16
    }
}

/// Configurable full-scale ranges of the gyroscope.
#[derive(Clone, Copy, Debug, PartialEq, Eq, Structural)]
pub enum GyroRange {
    /// plus or minus 15.625 degrees per second
    Deg15_625,
    /// plus or minus 31.25 degrees per second
    Deg31_25,
    /// plus or minus 62.5 degrees per second
    Deg62_5,
    /// plus or minus 125 degrees per second
    Deg125,
    /// plus or minus 250 degrees per second
    Deg250,
    /// plus or minus 500 degrees per second
    Deg500,
    /// plus or minus 1000 degrees per second
    Deg1000,
    /// plus or minus 2000 degrees per second (default)
    Deg2000,
}

impl GyroRange {
    /// The register bits this field owns.
    pub const BITMASK: u8 = 0b1110_0000;

    /// The unshifted bit pattern of this value.
    pub open spec fn field_spec(self) -> u8 {
        match self {
            GyroRange::Deg15_625 => 7,
            GyroRange::Deg31_25 => 6,
            GyroRange::Deg62_5 => 5,
            GyroRange::Deg125 => 4,
            GyroRange::Deg250 => 3,
            GyroRange::Deg500 => 2,
            GyroRange::Deg1000 => 1,
            GyroRange::Deg2000 => 0,
        }
    }

    /// The bit pattern shifted to its register position.
    pub open spec fn bits_spec(self) -> u8 {
        self.field_spec() << 5
    }

    /// Bit value of this variant, shifted to its register position.
    pub fn bits(self) -> (r: u8)
        ensures
            r == self.bits_spec(),
    {
        let field: u8 = match self {
            GyroRange::Deg15_625 => 7,
            GyroRange::Deg31_25 => 6,
            GyroRange::Deg62_5 => 5,
            GyroRange::Deg125 => 4,
            GyroRange::Deg250 => 3,
            GyroRange::Deg500 => 2,
            GyroRange::Deg1000 => 1,
            GyroRange::Deg2000 => 0,
        };
        field << 5
    }

    /// Decode an unshifted field value; exactly the legal patterns
    /// are accepted.
    pub open spec fn from_bits_spec(value: u8) -> Result<GyroRange, SensorError> {
        if value == 7 {
            Ok(GyroRange::Deg15_625)
        } else if value == 6 {
            Ok(GyroRange::Deg31_25)
        } else if value == 5 {
            Ok(GyroRange::Deg62_5)
        } else if value == 4 {
            Ok(GyroRange::Deg125)
        } else if value == 3 {
            Ok(GyroRange::Deg250)
        } else if value == 2 {
            Ok(GyroRange::Deg500)
        } else if value == 1 {
            Ok(GyroRange::Deg1000)
        } else if value == 0 {
            Ok(GyroRange::Deg2000)
        } else {
            Err(SensorError::InvalidDiscriminant)
        }
    }

    /// Decode an unshifted field value.
    pub fn from_bits(value: u8) -> (r: Result<GyroRange, SensorError>)
        ensures
            r == GyroRange::from_bits_spec(value),
    {
        if value == 7 {
            Ok(GyroRange::Deg15_625)
        } else if value == 6 {
            Ok(GyroRange::Deg31_25)
        } else if value == 5 {
            Ok(GyroRange::Deg62_5)
        } else if value == 4 {
            Ok(GyroRange::Deg125)
        } else if value == 3 {
            Ok(GyroRange::Deg250)
        } else if value == 2 {
            Ok(GyroRange::Deg500)
        } else if value == 1 {
            Ok(GyroRange::Deg1000)
        } else if value == 0 {
            Ok(GyroRange::Deg2000)
        } else {
            Err(SensorError::InvalidDiscriminant)
        }
    }

    /// Sensitivity of this range, in tenths of a count per degree per
    /// second (data sheet, table 1): 2097.2 counts per degree per second
    /// is 20972.
    pub open spec fn counts_per_dps_x10_spec(self) -> u16 {
        match self {
            GyroRange::Deg15_625 => 20972,
            GyroRange::Deg31_25 => 10486,
            GyroRange::Deg62_5 => 5243,
            GyroRange::Deg125 => 2620,
            GyroRange::Deg250 => 1310,
            GyroRange::Deg500 => 655,
            GyroRange::Deg1000 => 328,
            GyroRange::Deg2000 => 164,
        }
    }

    /// Sensitivity of this range, in tenths of a count per degree per second.
    pub fn counts_per_dps_x10(self) -> (r: u16)
        ensures
            r == self.counts_per_dps_x10_spec(),
            r > 0,
    {
        match self {
            GyroRange::Deg15_625 => 20972,
            GyroRange::Deg31_25 => 10486,
            GyroRange::Deg62_5 => 5243,
            GyroRange::Deg125 => 2620,
            GyroRange::Deg250 => 1310,
            GyroRange::Deg500 => 655,
            GyroRange::Deg1000 => 328,
            GyroRange::Deg2000 => 164,
        }
    }
}

impl Default for GyroRange {
    /// The device's reset value of this field.
    fn default() -> (r: GyroRange)
        ensures
            r == GyroRange::Deg2000,
    {
        GyroRange::Deg2000
    }
}

/// Power modes of the device: which sub-sensors run, and how.
#[derive(Clone, Copy, Debug, PartialEq, Eq, Structural)]
pub enum PowerMode {
    /// Gyroscope off, accelerometer off, temperature off (default)
    Sleep,
    /// Gyroscope drive on in standby, accelerometer off, temperature off
    Standby,
    /// Gyroscope off, accelerometer in low-power mode, temperature off
    AccelLowPower,
    /// Gyroscope off, accelerometer in low-noise mode, temperature off
    AccelLowNoise,
    /// Gyroscope on, accelerometer off, temperature off
    GyroLowNoise,
    /// Gyroscope on, accelerometer on, temperature off
    SixAxisLowNoise,
    /// Oscillator on, both sub-sensors and temperature off
    Idle,
    /// Gyroscope off, accelerometer in low-power mode, temperature on
    AccelLowPowerTemp,
    /// Gyroscope off, accelerometer in low-noise mode, temperature on
    AccelLowNoiseTemp,
    /// Gyroscope on, accelerometer off, temperature on
    GyroLowNoiseTemp,
    /// Gyroscope on, accelerometer on, temperature on
    SixAxisLowNoiseTemp,
}

impl PowerMode {
    /// The register bits this field owns.
    pub const BITMASK: u8 = 0b0011_1111;

    /// The unshifted bit pattern of this value.
    pub open spec fn field_spec(self) -> u8 {
        match self {
            PowerMode::Sleep => 0b100000,
            PowerMode::Standby => 0b100100,
            PowerMode::AccelLowPower => 0b110010,
            PowerMode::AccelLowNoise => 0b100011,
            PowerMode::GyroLowNoise => 0b101100,
            PowerMode::SixAxisLowNoise => 0b101111,
            PowerMode::Idle => 0b110000,
            PowerMode::AccelLowPowerTemp => 0b010010,
            PowerMode::AccelLowNoiseTemp => 0b010011,
            PowerMode::GyroLowNoiseTemp => 0b001100,
            PowerMode::SixAxisLowNoiseTemp => 0b001111,
        }
    }

    /// The bit pattern shifted to its register position.
    pub open spec fn bits_spec(self) -> u8 {
        self.field_spec()
    }

    /// Bit value of this variant, shifted to its register position.
    pub fn bits(self) -> (r: u8)
        ensures
            r == self.bits_spec(),
    {
        let field: u8 = match self {
            PowerMode::Sleep => 0b100000,
            PowerMode::Standby => 0b100100,
            PowerMode::AccelLowPower => 0b110010,
            PowerMode::AccelLowNoise => 0b100011,
            PowerMode::GyroLowNoise => 0b101100,
            PowerMode::SixAxisLowNoise => 0b101111,
            PowerMode::Idle => 0b110000,
            PowerMode::AccelLowPowerTemp => 0b010010,
            PowerMode::AccelLowNoiseTemp => 0b010011,
            PowerMode::GyroLowNoiseTemp => 0b001100,
            PowerMode::SixAxisLowNoiseTemp => 0b001111,
        };
        field
    }

    /// Decode an unshifted field value; exactly the legal patterns
    /// are accepted.
    pub open spec fn from_bits_spec(value: u8) -> Result<PowerMode, SensorError> {
        if value == 0b100000 {
            Ok(PowerMode::Sleep)
        } else if value == 0b100100 {
            Ok(PowerMode::Standby)
        } else if value == 0b110010 {
            Ok(PowerMode::AccelLowPower)
        } else if value == 0b100011 {
            Ok(PowerMode::AccelLowNoise)
        } else if value == 0b101100 {
            Ok(PowerMode::GyroLowNoise)
        } else if value == 0b101111 {
            Ok(PowerMode::SixAxisLowNoise)
        } else if value == 0b110000 {
            Ok(PowerMode::Idle)
        } else if value == 0b010010 {
            Ok(PowerMode::AccelLowPowerTemp)
        } else if value == 0b010011 {
            Ok(PowerMode::AccelLowNoiseTemp)
        } else if value == 0b001100 {
            Ok(PowerMode::GyroLowNoiseTemp)
        } else if value == 0b001111 {
            Ok(PowerMode::SixAxisLowNoiseTemp)
        } else {
            Err(SensorError::InvalidDiscriminant)
        }
    }

    /// Decode an unshifted field value.
    pub fn from_bits(value: u8) -> (r: Result<PowerMode, SensorError>)
        ensures
            r == PowerMode::from_bits_spec(value),
    {
        if value == 0b100000 {
            Ok(PowerMode::Sleep)
        } else if value == 0b100100 {
            Ok(PowerMode::Standby)
        } else if value == 0b110010 {
            Ok(PowerMode::AccelLowPower)
        } else if value == 0b100011 {
            Ok(PowerMode::AccelLowNoise)
        } else if value == 0b101100 {
            Ok(PowerMode::GyroLowNoise)
        } else if value == 0b101111 {
            Ok(PowerMode::SixAxisLowNoise)
        } else if value == 0b110000 {
            Ok(PowerMode::Idle)
        } else if value == 0b010010 {
            Ok(PowerMode::AccelLowPowerTemp)
        } else if value == 0b010011 {
            Ok(PowerMode::AccelLowNoiseTemp)
        } else if value == 0b001100 {
            Ok(PowerMode::GyroLowNoiseTemp)
        } else if value == 0b001111 {
            Ok(PowerMode::SixAxisLowNoiseTemp)
        } else {
            Err(SensorError::InvalidDiscriminant)
        }
    }
}

impl Default for PowerMode {
    /// The device's reset value of this field.
    fn default() -> (r: PowerMode)
        ensures
            r == PowerMode::Sleep,
    {
        PowerMode::Sleep
    }
}

/// Output data rates of the accelerometer.
#[derive(Clone, Copy, Debug, PartialEq, Eq, Structural)]
pub enum AccelODR {
    /// 32 kHz
    Hz32000,
    /// 16 kHz
    Hz16000,
    /// 8 kHz
    Hz8000,
    /// 4 kHz
    Hz4000,
    /// 2 kHz
    Hz2000,
    /// 1 kHz (default)
    Hz1000,
    /// 200 Hz
    Hz200,
    /// 100 Hz
    Hz100,
    /// 50 Hz
    Hz50,
    /// 25 Hz
    Hz25,
    /// 12.5 Hz
    Hz12_5,
    /// 6.25 Hz (low-power mode)
    Hz6_25,
    /// 3.125 Hz (low-power mode)
    Hz3_125,
    /// 1.5625 Hz (low-power mode)
    Hz1_5625,
    /// 500 Hz
    Hz500,
}

impl AccelODR {
    /// The register bits this field owns.
    pub const BITMASK: u8 = 0b0000_1111;

    /// The unshifted bit pattern of this value.
    pub open spec fn field_spec(self) -> u8 {
        match self {
            AccelODR::Hz32000 => 0b0001,
            AccelODR::Hz16000 => 0b0010,
            AccelODR::Hz8000 => 0b0011,
            AccelODR::Hz4000 => 0b0100,
            AccelODR::Hz2000 => 0b0101,
            AccelODR::Hz1000 => 0b0110,
            AccelODR::Hz200 => 0b0111,
            AccelODR::Hz100 => 0b1000,
            AccelODR::Hz50 => 0b1001,
            AccelODR::Hz25 => 0b1010,
            AccelODR::Hz12_5 => 0b1011,
            AccelODR::Hz6_25 => 0b1100,
            AccelODR::Hz3_125 => 0b1101,
            AccelODR::Hz1_5625 => 0b1110,
            AccelODR::Hz500 => 0b1111,
        }
    }

    /// The bit pattern shifted to its register position.
    pub open spec fn bits_spec(self) -> u8 {
        self.field_spec()
    }

    /// Bit value of this variant, shifted to its register position.
    pub fn bits(self) -> (r: u8)
        ensures
            r == self.bits_spec(),
    {
        let field: u8 = match self {
            AccelODR::Hz32000 => 0b0001,
            AccelODR::Hz16000 => 0b0010,
            AccelODR::Hz8000 => 0b0011,
            AccelODR::Hz4000 => 0b0100,
            AccelODR::Hz2000 => 0b0101,
            AccelODR::Hz1000 => 0b0110,
            AccelODR::Hz200 => 0b0111,
            AccelODR::Hz100 => 0b1000,
            AccelODR::Hz50 => 0b1001,
            AccelODR::Hz25 => 0b1010,
            AccelODR::Hz12_5 => 0b1011,
            AccelODR::Hz6_25 => 0b1100,
            AccelODR::Hz3_125 => 0b1101,
            AccelODR::Hz1_5625 => 0b1110,
            AccelODR::Hz500 => 0b1111,
        };
        field
    }

    /// Decode an unshifted field value; exactly the legal patterns
    /// are accepted.
    pub open spec fn from_bits_spec(value: u8) -> Result<AccelODR, SensorError> {
        if value == 0b0001 {
            Ok(AccelODR::Hz32000)
        } else if value == 0b0010 {
            Ok(AccelODR::Hz16000)
        } else if value == 0b0011 {
            Ok(AccelODR::Hz8000)
        } else if value == 0b0100 {
            Ok(AccelODR::Hz4000)
        } else if value == 0b0101 {
            Ok(AccelODR::Hz2000)
        } else if value == 0b0110 {
            Ok(AccelODR::Hz1000)
        } else if value == 0b0111 {
            Ok(AccelODR::Hz200)
        } else if value == 0b1000 {
            Ok(AccelODR::Hz100)
        } else if value == 0b1001 {
            Ok(AccelODR::Hz50)
        } else if value == 0b1010 {
            Ok(AccelODR::Hz25)
        } else if value == 0b1011 {
            Ok(AccelODR::Hz12_5)
        } else if value == 0b1100 {
            Ok(AccelODR::Hz6_25)
        } else if value == 0b1101 {
            Ok(AccelODR::Hz3_125)
        } else if value == 0b1110 {
            Ok(AccelODR::Hz1_5625)
        } else if value == 0b1111 {
            Ok(AccelODR::Hz500)
        } else {
            Err(SensorError::InvalidDiscriminant)
        }
    }

    /// Decode an unshifted field value.
    pub fn from_bits(value: u8) -> (r: Result<AccelODR, SensorError>)
        ensures
            r == AccelODR::from_bits_spec(value),
    {
        if value == 0b0001 {
            Ok(AccelODR::Hz32000)
        } else if value == 0b0010 {
            Ok(AccelODR::Hz16000)
        } else if value == 0b0011 {
            Ok(AccelODR::Hz8000)
        } else if value == 0b0100 {
            Ok(AccelODR::Hz4000)
        } else if value == 0b0101 {
            Ok(AccelODR::Hz2000)
        } else if value == 0b0110 {
            Ok(AccelODR::Hz1000)
        } else if value == 0b0111 {
            Ok(AccelODR::Hz200)
        } else if value == 0b1000 {
            Ok(AccelODR::Hz100)
        } else if value == 0b1001 {
            Ok(AccelODR::Hz50)
        } else if value == 0b1010 {
            Ok(AccelODR::Hz25)
        } else if value == 0b1011 {
            Ok(AccelODR::Hz12_5)
        } else if value == 0b1100 {
            Ok(AccelODR::Hz6_25)
        } else if value == 0b1101 {
            Ok(AccelODR::Hz3_125)
        } else if value == 0b1110 {
            Ok(AccelODR::Hz1_5625)
        } else if value == 0b1111 {
            Ok(AccelODR::Hz500)
        } else {
            Err(SensorError::InvalidDiscriminant)
        }
    }

    /// This rate in ten-thousandths of a hertz: 1.5625 Hz is 15625.
    /// Decoded values are never zero.
    pub open spec fn hz_x10000_spec(self) -> u32 {
        match self {
            AccelODR::Hz32000 => 320000000,
            AccelODR::Hz16000 => 160000000,
            AccelODR::Hz8000 => 80000000,
            AccelODR::Hz4000 => 40000000,
            AccelODR::Hz2000 => 20000000,
            AccelODR::Hz1000 => 10000000,
            AccelODR::Hz200 => 2000000,
            AccelODR::Hz100 => 1000000,
            AccelODR::Hz50 => 500000,
            AccelODR::Hz25 => 250000,
            AccelODR::Hz12_5 => 125000,
            AccelODR::Hz6_25 => 62500,
            AccelODR::Hz3_125 => 31250,
            AccelODR::Hz1_5625 => 15625,
            AccelODR::Hz500 => 5000000,
        }
    }

    /// This rate in ten-thousandths of a hertz.
    pub fn hz_x10000(self) -> (r: u32)
        ensures
            r == self.hz_x10000_spec(),
            r > 0,
    {
        match self {
            AccelODR::Hz32000 => 320000000,
            AccelODR::Hz16000 => 160000000,
            AccelODR::Hz8000 => 80000000,
            AccelODR::Hz4000 => 40000000,
            AccelODR::Hz2000 => 20000000,
            AccelODR::Hz1000 => 10000000,
            AccelODR::Hz200 => 2000000,
            AccelODR::Hz100 => 1000000,
            AccelODR::Hz50 => 500000,
            AccelODR::Hz25 => 250000,
            AccelODR::Hz12_5 => 125000,
            AccelODR::Hz6_25 => 62500,
            AccelODR::Hz3_125 => 31250,
            AccelODR::Hz1_5625 => 15625,
            AccelODR::Hz500 => 5000000,
        }
    }
}

impl Default for AccelODR {
    /// The device's reset value of this field.
    fn default() -> (r: AccelODR)
        ensures
            r == AccelODR::Hz1000,
    {
        AccelODR::Hz1000
    }
}

/// Output data rates of the gyroscope.
#[derive(Clone, Copy, Debug, PartialEq, Eq, Structural)]
pub enum GyroODR {
    /// 32 kHz
    Hz32000,
    /// 16 kHz
    Hz16000,
    /// 8 kHz
    Hz8000,
    /// 4 kHz
    Hz4000,
    /// 2 kHz
    Hz2000,
    /// 1 kHz (default)
    Hz1000,
    /// 200 Hz
    Hz200,
    /// 100 Hz
    Hz100,
    /// 50 Hz
    Hz50,
    /// 25 Hz
    Hz25,
    /// 12.5 Hz
    Hz12_5,
    /// 500 Hz
    Hz500,
}

impl GyroODR {
    /// The register bits this field owns.
    pub const BITMASK: u8 = 0b0000_1111;

    /// The unshifted bit pattern of this value.
    pub open spec fn field_spec(self) -> u8 {
        match self {
            GyroODR::Hz32000 => 0b0001,
            GyroODR::Hz16000 => 0b0010,
            GyroODR::Hz8000 => 0b0011,
            GyroODR::Hz4000 => 0b0100,
            GyroODR::Hz2000 => 0b0101,
            GyroODR::Hz1000 => 0b0110,
            GyroODR::Hz200 => 0b0111,
            GyroODR::Hz100 => 0b1000,
            GyroODR::Hz50 => 0b1001,
            GyroODR::Hz25 => 0b1010,
            GyroODR::Hz12_5 => 0b1011,
            GyroODR::Hz500 => 0b1111,
        }
    }

    /// The bit pattern shifted to its register position.
    pub open spec fn bits_spec(self) -> u8 {
        self.field_spec()
    }

    /// Bit value of this variant, shifted to its register position.
    pub fn bits(self) -> (r: u8)
        ensures
            r == self.bits_spec(),
    {
        let field: u8 = match self {
            GyroODR::Hz32000 => 0b0001,
            GyroODR::Hz16000 => 0b0010,
            GyroODR::Hz8000 => 0b0011,
            GyroODR::Hz4000 => 0b0100,
            GyroODR::Hz2000 => 0b0101,
            GyroODR::Hz1000 => 0b0110,
            GyroODR::Hz200 => 0b0111,
            GyroODR::Hz100 => 0b1000,
            GyroODR::Hz50 => 0b1001,
            GyroODR::Hz25 => 0b1010,
            GyroODR::Hz12_5 => 0b1011,
            GyroODR::Hz500 => 0b1111,
        };
        field
    }

    /// Decode an unshifted field value; exactly the legal patterns
    /// are accepted.
    pub open spec fn from_bits_spec(value: u8) -> Result<GyroODR, SensorError> {
        if value == 0b0001 {
            Ok(GyroODR::Hz32000)
        } else if value == 0b0010 {
            Ok(GyroODR::Hz16000)
        } else if value == 0b0011 {
            Ok(GyroODR::Hz8000)
        } else if value == 0b0100 {
            Ok(GyroODR::Hz4000)
        } else if value == 0b0101 {
            Ok(GyroODR::Hz2000)
        } else if value == 0b0110 {
            Ok(GyroODR::Hz1000)
        } else if value == 0b0111 {
            Ok(GyroODR::Hz200)
        } else if value == 0b1000 {
            Ok(GyroODR::Hz100)
        } else if value == 0b1001 {
            Ok(GyroODR::Hz50)
        } else if value == 0b1010 {
            Ok(GyroODR::Hz25)
        } else if value == 0b1011 {
            Ok(GyroODR::Hz12_5)
        } else if value == 0b1111 {
            Ok(GyroODR::Hz500)
        } else {
            Err(SensorError::InvalidDiscriminant)
        }
    }

    /// Decode an unshifted field value.
    pub fn from_bits(value: u8) -> (r: Result<GyroODR, SensorError>)
        ensures
            r == GyroODR::from_bits_spec(value),
    {
        if value == 0b0001 {
            Ok(GyroODR::Hz32000)
        } else if value == 0b0010 {
            Ok(GyroODR::Hz16000)
        } else if value == 0b0011 {
            Ok(GyroODR::Hz8000)
        } else if value == 0b0100 {
            Ok(GyroODR::Hz4000)
        } else if value == 0b0101 {
            Ok(GyroODR::Hz2000)
        } else if value == 0b0110 {
            Ok(GyroODR::Hz1000)
        } else if value == 0b0111 {
            Ok(GyroODR::Hz200)
        } else if value == 0b1000 {
            Ok(GyroODR::Hz100)
        } else if value == 0b1001 {
            Ok(GyroODR::Hz50)
        } else if value == 0b1010 {
            Ok(GyroODR::Hz25)
        } else if value == 0b1011 {
            Ok(GyroODR::Hz12_5)
        } else if value == 0b1111 {
            Ok(GyroODR::Hz500)
        } else {
            Err(SensorError::InvalidDiscriminant)
        }
    }

    /// This rate in ten-thousandths of a hertz: 1.5625 Hz is 15625.
    /// Decoded values are never zero.
    pub open spec fn hz_x10000_spec(self) -> u32 {
        match self {
            GyroODR::Hz32000 => 320000000,
            GyroODR::Hz16000 => 160000000,
            GyroODR::Hz8000 => 80000000,
            GyroODR::Hz4000 => 40000000,
            GyroODR::Hz2000 => 20000000,
            GyroODR::Hz1000 => 10000000,
            GyroODR::Hz200 => 2000000,
            GyroODR::Hz100 => 1000000,
            GyroODR::Hz50 => 500000,
            GyroODR::Hz25 => 250000,
            GyroODR::Hz12_5 => 125000,
            GyroODR::Hz500 => 5000000,
        }
    }

    /// This rate in ten-thousandths of a hertz.
    pub fn hz_x10000(self) -> (r: u32)
        ensures
            r == self.hz_x10000_spec(),
            r > 0,
    {
        match self {
            GyroODR::Hz32000 => 320000000,
            GyroODR::Hz16000 => 160000000,
            GyroODR::Hz8000 => 80000000,
            GyroODR::Hz4000 => 40000000,
            GyroODR::Hz2000 => 20000000,
            GyroODR::Hz1000 => 10000000,
            GyroODR::Hz200 => 2000000,
            GyroODR::Hz100 => 1000000,
            GyroODR::Hz50 => 500000,
            GyroODR::Hz25 => 250000,
            GyroODR::Hz12_5 => 125000,
            GyroODR::Hz500 => 5000000,
        }
    }
}

impl Default for GyroODR {
    /// The device's reset value of this field.
    fn default() -> (r: GyroODR)
        ensures
            r == GyroODR::Hz1000,
    {
        GyroODR::Hz1000
    }
}

/// Low-pass filter bandwidths of the gyroscope.
#[derive(Clone, Copy, Debug, PartialEq, Eq, Structural)]
pub enum GyroBandwidth {
    /// Half the configured output data rate (filter bypassed)
    OdrHalf,
    /// A quarter of the output data rate (default)
    OdrQuarter,
    /// A fifth of the output data rate
    OdrFifth,
    /// An eighth of the output data rate
    OdrEighth,
    /// A tenth of the output data rate
    OdrTenth,
    /// A sixteenth of the output data rate
    OdrSixteenth,
    /// A twentieth of the output data rate
    OdrTwenty,
    /// A fortieth of the output data rate
    OdrFourteen,
    /// Low latency: decimation at the output data rate, filter at 400 Hz or the rate, whichever is higher
    OdrLowLatency400,
    /// Low latency: decimation at the output data rate, filter at 200 Hz or eight times the rate, whichever is higher
    OdrLowLatency200,
}

impl GyroBandwidth {
    /// The register bits this field owns.
    pub const BITMASK: u8 = 0b0000_1111;

    /// The unshifted bit pattern of this value.
    pub open spec fn field_spec(self) -> u8 {
        match self {
            GyroBandwidth::OdrHalf => 0b0000,
            GyroBandwidth::OdrQuarter => 0b0001,
            GyroBandwidth::OdrFifth => 0b0010,
            GyroBandwidth::OdrEighth => 0b0011,
            GyroBandwidth::OdrTenth => 0b0100,
            GyroBandwidth::OdrSixteenth => 0b0101,
            GyroBandwidth::OdrTwenty => 0b0110,
            GyroBandwidth::OdrFourteen => 0b0111,
            GyroBandwidth::OdrLowLatency400 => 0b1110,
            GyroBandwidth::OdrLowLatency200 => 0b1111,
        }
    }

    /// The bit pattern shifted to its register position.
    pub open spec fn bits_spec(self) -> u8 {
        self.field_spec()
    }

    /// Bit value of this variant, shifted to its register position.
    pub fn bits(self) -> (r: u8)
        ensures
            r == self.bits_spec(),
    {
        let field: u8 = match self {
            GyroBandwidth::OdrHalf => 0b0000,
            GyroBandwidth::OdrQuarter => 0b0001,
            GyroBandwidth::OdrFifth => 0b0010,
            GyroBandwidth::OdrEighth => 0b0011,
            GyroBandwidth::OdrTenth => 0b0100,
            GyroBandwidth::OdrSixteenth => 0b0101,
            GyroBandwidth::OdrTwenty => 0b0110,
            GyroBandwidth::OdrFourteen => 0b0111,
            GyroBandwidth::OdrLowLatency400 => 0b1110,
            GyroBandwidth::OdrLowLatency200 => 0b1111,
        };
        field
    }

    /// Decode an unshifted field value; exactly the legal patterns
    /// are accepted.
    pub open spec fn from_bits_spec(value: u8) -> Result<GyroBandwidth, SensorError> {
        if value == 0b0000 {
            Ok(GyroBandwidth::OdrHalf)
        } else if value == 0b0001 {
            Ok(GyroBandwidth::OdrQuarter)
        } else if value == 0b0010 {
            Ok(GyroBandwidth::OdrFifth)
        } else if value == 0b0011 {
            Ok(GyroBandwidth::OdrEighth)
        } else if value == 0b0100 {
            Ok(GyroBandwidth::OdrTenth)
        } else if value == 0b0101 {
            Ok(GyroBandwidth::OdrSixteenth)
        } else if value == 0b0110 {
            Ok(GyroBandwidth::OdrTwenty)
        } else if value == 0b0111 {
            Ok(GyroBandwidth::OdrFourteen)
        } else if value == 0b1110 {
            Ok(GyroBandwidth::OdrLowLatency400)
        } else if value == 0b1111 {
            Ok(GyroBandwidth::OdrLowLatency200)
        } else {
            Err(SensorError::InvalidDiscriminant)
        }
    }

    /// Decode an unshifted field value.
    pub fn from_bits(value: u8) -> (r: Result<GyroBandwidth, SensorError>)
        ensures
            r == GyroBandwidth::from_bits_spec(value),
    {
        if value == 0b0000 {
            Ok(GyroBandwidth::OdrHalf)
        } else if value == 0b0001 {
            Ok(GyroBandwidth::OdrQuarter)
        } else if value == 0b0010 {
            Ok(GyroBandwidth::OdrFifth)
        } else if value == 0b0011 {
            Ok(GyroBandwidth::OdrEighth)
        } else if value == 0b0100 {
            Ok(GyroBandwidth::OdrTenth)
        } else if value == 0b0101 {
            Ok(GyroBandwidth::OdrSixteenth)
        } else if value == 0b0110 {
            Ok(GyroBandwidth::OdrTwenty)
        } else if value == 0b0111 {
            Ok(GyroBandwidth::OdrFourteen)
        } else if value == 0b1110 {
            Ok(GyroBandwidth::OdrLowLatency400)
        } else if value == 0b1111 {
            Ok(GyroBandwidth::OdrLowLatency200)
        } else {
            Err(SensorError::InvalidDiscriminant)
        }
    }

    /// The bandwidth in ten-thousandths: a ratio of the output data rate
    /// for the filtering settings (a half is 5000), absolute hertz for the
    /// two low-latency settings (400 Hz is 4000000).  Decoded values are
    /// never zero.
    pub open spec fn ratio_x10000_spec(self) -> u32 {
        match self {
            GyroBandwidth::OdrHalf => 5000,
            GyroBandwidth::OdrQuarter => 2500,
            GyroBandwidth::OdrFifth => 2000,
            GyroBandwidth::OdrEighth => 1250,
            GyroBandwidth::OdrTenth => 1000,
            GyroBandwidth::OdrSixteenth => 625,
            GyroBandwidth::OdrTwenty => 500,
            GyroBandwidth::OdrFourteen => 250,
            GyroBandwidth::OdrLowLatency400 => 4000000,
            GyroBandwidth::OdrLowLatency200 => 2000000,
        }
    }

    /// The bandwidth in ten-thousandths.
    pub fn ratio_x10000(self) -> (r: u32)
        ensures
            r == self.ratio_x10000_spec(),
            r > 0,
    {
        match self {
            GyroBandwidth::OdrHalf => 5000,
            GyroBandwidth::OdrQuarter => 2500,
            GyroBandwidth::OdrFifth => 2000,
            GyroBandwidth::OdrEighth => 1250,
            GyroBandwidth::OdrTenth => 1000,
            GyroBandwidth::OdrSixteenth => 625,
            GyroBandwidth::OdrTwenty => 500,
            GyroBandwidth::OdrFourteen => 250,
            GyroBandwidth::OdrLowLatency400 => 4000000,
            GyroBandwidth::OdrLowLatency200 => 2000000,
        }
    }
}

impl Default for GyroBandwidth {
    /// The device's reset value of this field.
    fn default() -> (r: GyroBandwidth)
        ensures
            r == GyroBandwidth::OdrQuarter,
    {
        GyroBandwidth::OdrQuarter
    }
}

/// Low-pass filter bandwidths of the accelerometer.
#[derive(Clone, Copy, Debug, PartialEq, Eq, Structural)]
pub enum AccelBandwidth {
    /// Half the configured output data rate (filter bypassed)
    OdrHalf,
    /// A quarter of the output data rate (default)
    OdrQuarter,
    /// A fifth of the output data rate
    OdrFifth,
    /// An eighth of the output data rate
    OdrEighth,
    /// A tenth of the output data rate
    OdrTenth,
    /// A sixteenth of the output data rate
    OdrSixteenth,
    /// A twentieth of the output data rate
    OdrTwenty,
    /// A fortieth of the output data rate
    OdrFourteen,
    /// Low latency: decimation at the output data rate, filter at 400 Hz or the rate, whichever is higher
    OdrLowLatency400,
    /// Low latency: decimation at the output data rate, filter at 200 Hz or eight times the rate, whichever is higher
    OdrLowLatency200,
}

impl AccelBandwidth {
    /// The register bits this field owns: the high nibble of the shared
    /// filter register (the low nibble belongs to the gyroscope filter).
    pub const BITMASK: u8 = 0b1111_0000;

    /// The unshifted bit pattern of this value.
    pub open spec fn field_spec(self) -> u8 {
        match self {
            AccelBandwidth::OdrHalf => 0b0000,
            AccelBandwidth::OdrQuarter => 0b0001,
            AccelBandwidth::OdrFifth => 0b0010,
            AccelBandwidth::OdrEighth => 0b0011,
            AccelBandwidth::OdrTenth => 0b0100,
            AccelBandwidth::OdrSixteenth => 0b0101,
            AccelBandwidth::OdrTwenty => 0b0110,
            AccelBandwidth::OdrFourteen => 0b0111,
            AccelBandwidth::OdrLowLatency400 => 0b1110,
            AccelBandwidth::OdrLowLatency200 => 0b1111,
        }
    }

    /// The bit pattern shifted to its register position.
    pub open spec fn bits_spec(self) -> u8 {
        self.field_spec() << 4
    }

    /// Bit value of this variant, shifted to its register position.
    pub fn bits(self) -> (r: u8)
        ensures
            r == self.bits_spec(),
    {
        let field: u8 = match self {
            AccelBandwidth::OdrHalf => 0b0000,
            AccelBandwidth::OdrQuarter => 0b0001,
            AccelBandwidth::OdrFifth => 0b0010,
            AccelBandwidth::OdrEighth => 0b0011,
            AccelBandwidth::OdrTenth => 0b0100,
            AccelBandwidth::OdrSixteenth => 0b0101,
            AccelBandwidth::OdrTwenty => 0b0110,
            AccelBandwidth::OdrFourteen => 0b0111,
            AccelBandwidth::OdrLowLatency400 => 0b1110,
            AccelBandwidth::OdrLowLatency200 => 0b1111,
        };
        field << 4
    }

    /// Decode an unshifted field value; exactly the legal patterns
    /// are accepted.
    pub open spec fn from_bits_spec(value: u8) -> Result<AccelBandwidth, SensorError> {
        if value == 0b0000 {
            Ok(AccelBandwidth::OdrHalf)
        } else if value == 0b0001 {
            Ok(AccelBandwidth::OdrQuarter)
        } else if value == 0b0010 {
            Ok(AccelBandwidth::OdrFifth)
        } else if value == 0b0011 {
            Ok(AccelBandwidth::OdrEighth)
        } else if value == 0b0100 {
            Ok(AccelBandwidth::OdrTenth)
        } else if value == 0b0101 {
            Ok(AccelBandwidth::OdrSixteenth)
        } else if value == 0b0110 {
            Ok(AccelBandwidth::OdrTwenty)
        } else if value == 0b0111 {
            Ok(AccelBandwidth::OdrFourteen)
        } else if value == 0b1110 {
            Ok(AccelBandwidth::OdrLowLatency400)
        } else if value == 0b1111 {
            Ok(AccelBandwidth::OdrLowLatency200)
        } else {
            Err(SensorError::InvalidDiscriminant)
        }
    }

    /// Decode an unshifted field value.
    pub fn from_bits(value: u8) -> (r: Result<AccelBandwidth, SensorError>)
        ensures
            r == AccelBandwidth::from_bits_spec(value),
    {
        if value == 0b0000 {
            Ok(AccelBandwidth::OdrHalf)
        } else if value == 0b0001 {
            Ok(AccelBandwidth::OdrQuarter)
        } else if value == 0b0010 {
            Ok(AccelBandwidth::OdrFifth)
        } else if value == 0b0011 {
            Ok(AccelBandwidth::OdrEighth)
        } else if value == 0b0100 {
            Ok(AccelBandwidth::OdrTenth)
        } else if value == 0b0101 {
            Ok(AccelBandwidth::OdrSixteenth)
        } else if value == 0b0110 {
            Ok(AccelBandwidth::OdrTwenty)
        } else if value == 0b0111 {
            Ok(AccelBandwidth::OdrFourteen)
        } else if value == 0b1110 {
            Ok(AccelBandwidth::OdrLowLatency400)
        } else if value == 0b1111 {
            Ok(AccelBandwidth::OdrLowLatency200)
        } else {
            Err(SensorError::InvalidDiscriminant)
        }
    }

    /// The bandwidth in ten-thousandths: a ratio of the output data rate
    /// for the filtering settings (a half is 5000), absolute hertz for the
    /// two low-latency settings (400 Hz is 4000000).  Decoded values are
    /// never zero.
    pub open spec fn ratio_x10000_spec(self) -> u32 {
        match self {
            AccelBandwidth::OdrHalf => 5000,
            AccelBandwidth::OdrQuarter => 2500,
            AccelBandwidth::OdrFifth => 2000,
            AccelBandwidth::OdrEighth => 1250,
            AccelBandwidth::OdrTenth => 1000,
            AccelBandwidth::OdrSixteenth => 625,
            AccelBandwidth::OdrTwenty => 500,
            AccelBandwidth::OdrFourteen => 250,
            AccelBandwidth::OdrLowLatency400 => 4000000,
            AccelBandwidth::OdrLowLatency200 => 2000000,
        }
    }

    /// The bandwidth in ten-thousandths.
    pub fn ratio_x10000(self) -> (r: u32)
        ensures
            r == self.ratio_x10000_spec(),
            r > 0,
    {
        match self {
            AccelBandwidth::OdrHalf => 5000,
            AccelBandwidth::OdrQuarter => 2500,
            AccelBandwidth::OdrFifth => 2000,
            AccelBandwidth::OdrEighth => 1250,
            AccelBandwidth::OdrTenth => 1000,
            AccelBandwidth::OdrSixteenth => 625,
            AccelBandwidth::OdrTwenty => 500,
            AccelBandwidth::OdrFourteen => 250,
            AccelBandwidth::OdrLowLatency400 => 4000000,
            AccelBandwidth::OdrLowLatency200 => 2000000,
        }
    }
}

impl Default for AccelBandwidth {
    /// The device's reset value of this field.
    fn default() -> (r: AccelBandwidth)
        ensures
            r == AccelBandwidth::OdrQuarter,
    {
        AccelBandwidth::OdrQuarter
    }
}


/// Shift facts used by the round-trip laws of the fields that sit at
/// bit 5 of their register.
proof fn lemma_shift5()
    ensures
        forall|x: u8| x < 8 ==> ((x << 5) >> 5) == x,
        forall|x: u8| x < 8 ==> ((x << 5) & !0b1110_0000u8) == 0,
        forall|x: u8| x < 4 ==> ((x << 5) & !0b0110_0000u8) == 0,
{
    assert(forall|x: u8| x < 8 ==> ((x << 5) >> 5) == x) by (bit_vector);
    assert(forall|x: u8| x < 8 ==> ((x << 5) & !0b1110_0000u8) == 0) by (bit_vector);
    assert(forall|x: u8| x < 4 ==> ((x << 5) & !0b0110_0000u8) == 0) by (bit_vector);
}

/// Shift facts used by the round-trip law of the slew-rate field, which
/// sits at bit 3 of its register.
proof fn lemma_shift3()
    ensures
        forall|x: u8| x < 8 ==> ((x << 3) >> 3) == x,
        forall|x: u8| x < 8 ==> ((x << 3) & !0b0011_1000u8) == 0,
{
    assert(forall|x: u8| x < 8 ==> ((x << 3) >> 3) == x) by (bit_vector);
    assert(forall|x: u8| x < 8 ==> ((x << 3) & !0b0011_1000u8) == 0) by (bit_vector);
}

/// Shift facts used by the round-trip law of the accelerometer filter
/// field, which sits in the high nibble of its register.
proof fn lemma_shift4()
    ensures
        forall|x: u8| x < 16 ==> (((x << 4) >> 4) & 0x0Fu8) == x,
        forall|x: u8| x < 16 ==> ((x << 4) & !0b1111_0000u8) == 0,
{
    assert(forall|x: u8| x < 16 ==> (((x << 4) >> 4) & 0x0Fu8) == x) by (bit_vector);
    assert(forall|x: u8| x < 16 ==> ((x << 4) & !0b1111_0000u8) == 0) by (bit_vector);
}

/// A value below sixteen owns no bit outside the low nibble.
proof fn lemma_low4()
    ensures
        forall|x: u8| x < 16 ==> (x & !0b0000_1111u8) == 0,
{
    assert(forall|x: u8| x < 16 ==> (x & !0b0000_1111u8) == 0) by (bit_vector);
}

/// A value below sixty-four owns no bit outside the low six bits.
proof fn lemma_low6()
    ensures
        forall|x: u8| x < 64 ==> (x & !0b0011_1111u8) == 0,
{
    assert(forall|x: u8| x < 64 ==> (x & !0b0011_1111u8) == 0) by (bit_vector);
}

/// Decoding an encoded accelerometer range gives it back, and the
/// encoding never produces a bit outside the field's mask.
pub proof fn lemma_accel_range_roundtrip(v: AccelRange)
    ensures
        AccelRange::from_bits_spec(v.bits_spec() >> 5) == Ok::<AccelRange, SensorError>(v),
        v.bits_spec() & !AccelRange::BITMASK == 0,
{
    lemma_shift5();
    assert(v.field_spec() < 4);
}

/// Decoding an encoded gyroscope range gives it back, and the encoding
/// never produces a bit outside the field's mask.
pub proof fn lemma_gyro_range_roundtrip(v: GyroRange)
    ensures
        GyroRange::from_bits_spec(v.bits_spec() >> 5) == Ok::<GyroRange, SensorError>(v),
        v.bits_spec() & !GyroRange::BITMASK == 0,
{
    lemma_shift5();
    assert(v.field_spec() < 8);
}

/// Decoding an encoded slew rate gives it back, and the encoding never
/// produces a bit outside the field's mask.
pub proof fn lemma_slew_rate_roundtrip(v: I2CSlewRate)
    ensures
        I2CSlewRate::from_bits_spec(v.bits_spec() >> 3) == Ok::<I2CSlewRate, SensorError>(v),
        v.bits_spec() & !I2CSlewRate::BITMASK == 0,
{
    lemma_shift3();
    assert(v.field_spec() < 8);
}

/// Decoding an encoded power mode gives it back, and the encoding never
/// produces a bit outside the field's mask.
pub proof fn lemma_power_mode_roundtrip(v: PowerMode)
    ensures
        PowerMode::from_bits_spec(v.bits_spec()) == Ok::<PowerMode, SensorError>(v),
        v.bits_spec() & !PowerMode::BITMASK == 0,
{
    lemma_low6();
    assert(v.field_spec() < 64);
}

/// Decoding an encoded accelerometer output data rate gives it back, and
/// the encoding never produces a bit outside the field's mask.
pub proof fn lemma_accel_odr_roundtrip(v: AccelODR)
    ensures
        AccelODR::from_bits_spec(v.bits_spec()) == Ok::<AccelODR, SensorError>(v),
        v.bits_spec() & !AccelODR::BITMASK == 0,
{
    lemma_low4();
    assert(v.field_spec() < 16);
}

/// Decoding an encoded gyroscope output data rate gives it back, and the
/// encoding never produces a bit outside the field's mask.
pub proof fn lemma_gyro_odr_roundtrip(v: GyroODR)
    ensures
        GyroODR::from_bits_spec(v.bits_spec()) == Ok::<GyroODR, SensorError>(v),
        v.bits_spec() & !GyroODR::BITMASK == 0,
{
    lemma_low4();
    assert(v.field_spec() < 16);
}

/// Decoding an encoded gyroscope bandwidth gives it back, and the
/// encoding never produces a bit outside the field's mask.
pub proof fn lemma_gyro_bandwidth_roundtrip(v: GyroBandwidth)
    ensures
        GyroBandwidth::from_bits_spec(v.bits_spec()) == Ok::<GyroBandwidth, SensorError>(v),
        v.bits_spec() & !GyroBandwidth::BITMASK == 0,
{
    lemma_low4();
    assert(v.field_spec() < 16);
}

/// Decoding an encoded accelerometer bandwidth gives it back, and the
/// encoding never produces a bit outside the field's mask.
pub proof fn lemma_accel_bandwidth_roundtrip(v: AccelBandwidth)
    ensures
        AccelBandwidth::from_bits_spec(
            (v.bits_spec() >> 4) & 0x0F,
        ) == Ok::<AccelBandwidth, SensorError>(v),
        v.bits_spec() & !AccelBandwidth::BITMASK == 0,
{
    lemma_shift4();
    assert(v.field_spec() < 16);
}

} // verus!
