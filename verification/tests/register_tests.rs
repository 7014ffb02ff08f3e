//! The register map: addresses, home banks, read-only flags.

use icm42688::icm::{I16x3, ICM42688};
use icm42688::registers::{Register, RegisterBank};

#[test]
fn map_entries() {
    assert_eq!(Register::WHO_AM_I.lookup(), (0x75, 0, true));
    assert_eq!(Register::REG_BANK_SEL.lookup(), (0x76, 0, false));
    assert_eq!(Register::PWR_MGMT0.lookup(), (0x4E, 0, false));
    assert_eq!(Register::DEVICE_CONFIG.lookup(), (0x11, 0, false));
    assert_eq!(Register::DRIVE_CONFIG.lookup(), (0x13, 0, false));
    assert_eq!(Register::GYRO_CONFIG0.lookup(), (0x4F, 0, false));
    assert_eq!(Register::ACCEL_CONFIG0.lookup(), (0x50, 0, false));
    assert_eq!(Register::GYRO_ACCEL_CONFIG0.lookup(), (0x52, 0, false));
}

#[test]
fn data_registers_are_read_only() {
    let data_regs = [
        Register::TEMP_DATA1,
        Register::TEMP_DATA0,
        Register::ACCEL_DATA_X1,
        Register::ACCEL_DATA_X0,
        Register::ACCEL_DATA_Y1,
        Register::ACCEL_DATA_Y0,
        Register::ACCEL_DATA_Z1,
        Register::ACCEL_DATA_Z0,
        Register::GYRO_DATA_X1,
        Register::GYRO_DATA_X0,
        Register::GYRO_DATA_Y1,
        Register::GYRO_DATA_Y0,
        Register::GYRO_DATA_Z1,
        Register::GYRO_DATA_Z0,
        Register::TMST_FSYNCH,
        Register::TMST_FSYNCL,
        Register::FIFO_COUNTH,
        Register::FIFO_COUNTL,
    ];
    for reg in data_regs {
        assert!(reg.read_only(), "{:?} must be read-only", reg);
        assert_eq!(reg.bank(), 0);
    }
}

#[test]
fn sensor_data_addresses_are_consecutive() {
    assert_eq!(Register::TEMP_DATA1.addr(), 0x1D);
    assert_eq!(Register::TEMP_DATA0.addr(), 0x1E);
    assert_eq!(Register::ACCEL_DATA_X1.addr(), 0x1F);
    assert_eq!(Register::GYRO_DATA_Z0.addr(), 0x2A);
    assert_eq!(Register::TMST_FSYNCH.addr(), 0x2B);
    assert_eq!(Register::FIFO_COUNTL.addr(), 0x2F);
}

#[test]
fn bank_select_values() {
    assert_eq!(RegisterBank::Bank0.blk_sel(), 0);
    assert_eq!(RegisterBank::Bank1.blk_sel(), 1);
    assert_eq!(RegisterBank::Bank2.blk_sel(), 2);
    assert_eq!(RegisterBank::Bank3.blk_sel(), 3);
}

#[test]
fn device_identity_constant() {
    assert_eq!(ICM42688::DEVICE_ID, 0x47);
}

#[test]
fn vector_construction() {
    let v = I16x3::new(-1, 0, 32767);
    assert_eq!((v.x, v.y, v.z), (-1, 0, 32767));
}
