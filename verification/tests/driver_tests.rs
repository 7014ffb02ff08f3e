//! Driver protocol: register operations, the banked-access bracket,
//! initialization, and the measurement accessors, all against the
//! recording port.

use icm42688::bus::BusEvent;
use icm42688::config::{AccelRange, GyroRange, I2CSlewRate, PowerMode};
use icm42688::error::{BusError, Error, SensorError};
use icm42688::gpio::Pin;
use icm42688::i2c::I2C;
use icm42688::icm::{CommunicationProtocol, ICM42688};
use icm42688::registers::{Register, RegisterBank};
use icm42688::spi::{Instance, SPI};

fn spi_driver() -> ICM42688 {
    let mut spi = SPI::new(Instance::SPI0, Pin::new_init(17));
    spi.init(1_000_000);
    let mut icm = ICM42688::with_spi(spi);
    icm.ready = true;
    icm
}

fn i2c_driver() -> ICM42688 {
    let mut icm = ICM42688::with_i2c(I2C::new(), icm42688::config::Address::Primary);
    icm.ready = true;
    icm
}

/// The values written to the bank-select register, in log order.
fn bank_select_writes(icm: &ICM42688) -> Vec<u8> {
    let mut out = Vec::new();
    for ev in &icm.port_ref().log {
        if let BusEvent::Write { bytes, .. } = ev {
            if bytes.len() == 2 && bytes[0] == 0x76 {
                out.push(bytes[1] & 0x07);
            }
        }
    }
    out
}

#[test]
fn not_ready_fails_without_transactions() {
    let mut icm = ICM42688::with_i2c(I2C::new(), icm42688::config::Address::Primary);
    assert_eq!(icm.read_register(Register::WHO_AM_I), Err(Error::NotReady));
    assert_eq!(icm.write_register(Register::PWR_MGMT0, 1), Err(Error::NotReady));
    assert_eq!(icm.update_register(Register::PWR_MGMT0, 1, 1), Err(Error::NotReady));
    assert!(matches!(icm.init(), Err(Error::BusError(_))));
    assert_eq!(icm.port_ref().log.len(), 1); // only init's identity probe
}

#[test]
fn write_to_read_only_performs_zero_transactions() {
    let mut icm = spi_driver();
    icm.script_reply(0, vec![]);
    assert_eq!(
        icm.write_register(Register::WHO_AM_I, 0x55),
        Err(Error::SensorError(SensorError::WriteToReadOnly))
    );
    assert_eq!(
        icm.update_register(Register::TEMP_DATA0, 0x55, 0xFF),
        Err(Error::SensorError(SensorError::WriteToReadOnly))
    );
    assert_eq!(
        icm.write_bank(RegisterBank::Bank1, Register::FIFO_COUNTH, 1),
        Err(Error::SensorError(SensorError::WriteToReadOnly))
    );
    assert_eq!(icm.port_ref().log.len(), 0);
    assert_eq!(icm.port_ref().next, 0);
}

#[test]
fn write_register_frames_address_and_value() {
    let mut icm = spi_driver();
    icm.script_reply(0, vec![]);
    assert_eq!(icm.write_register(Register::PWR_MGMT0, 0x0F), Ok(()));
    let log = &icm.port_ref().log;
    assert_eq!(log.len(), 1);
    match &log[0] {
        BusEvent::Write { addr, bytes, stop } => {
            assert_eq!(*addr, 0);
            assert_eq!(bytes.as_slice(), &[0x4E, 0x0F]);
            assert!(*stop);
        }
        other => panic!("unexpected event {:?}", other),
    }
}

#[test]
fn update_register_preserves_bits_outside_mask() {
    let mut icm = spi_driver();
    icm.script_reply(0, vec![0b1010_1010]); // current register byte
    icm.script_reply(0, vec![]); // the write-back
    assert_eq!(
        icm.update_register(Register::DRIVE_CONFIG, 0b0000_0101, 0b0000_1111),
        Ok(())
    );
    let log = &icm.port_ref().log;
    assert_eq!(log.len(), 2);
    match &log[1] {
        BusEvent::Write { bytes, .. } => {
            assert_eq!(bytes.as_slice(), &[0x13, 0b1010_0101]);
        }
        other => panic!("unexpected event {:?}", other),
    }
}

#[test]
fn init_rejects_wrong_identity_before_any_write() {
    let mut icm = spi_driver();
    icm.script_reply(0, vec![0x12]); // not the device's identity code
    assert_eq!(icm.init(), Err(Error::SensorError(SensorError::BadChip)));
    // nothing but the identity read was performed
    assert_eq!(icm.port_ref().log.len(), 1);
    assert!(matches!(icm.port_ref().log[0], BusEvent::WriteRead { .. }));
    assert!(icm.ready);
}

#[test]
fn init_happy_path_over_spi() {
    let mut spi = SPI::new(Instance::SPI0, Pin::new_init(17));
    spi.init(1_000_000);
    let mut icm = ICM42688::with_spi(spi);
    icm.script_reply(0, vec![0x47]); // identity
    icm.script_reply(0, vec![0x00]); // soft reset: read DEVICE_CONFIG
    icm.script_reply(0, vec![]); //                write back
    icm.script_reply(0, vec![0x00]); // accel range: read ACCEL_CONFIG0
    icm.script_reply(0, vec![]);
    icm.script_reply(0, vec![0x00]); // gyro range: read GYRO_CONFIG0
    icm.script_reply(0, vec![]);
    icm.script_reply(0, vec![0x00]); // power mode: read PWR_MGMT0
    icm.script_reply(0, vec![]);
    assert_eq!(icm.init(), Ok(()));
    assert!(icm.ready);
    let log = &icm.port_ref().log;
    // identity read, 2 events per update, one settling delay
    assert_eq!(log.len(), 1 + 2 + 1 + 2 + 2 + 2);
    assert!(matches!(log[3], BusEvent::Delay { ms: 1 }));
    // the last write wakes both sub-sensors
    match &log[9] {
        BusEvent::Write { bytes, .. } => assert_eq!(bytes.as_slice(), &[0x4E, 0b0010_1111]),
        other => panic!("unexpected event {:?}", other),
    }
}

#[test]
fn init_happy_path_over_i2c() {
    let mut icm = ICM42688::with_i2c(I2C::new(), icm42688::config::Address::Primary);
    // each register read is an address write then a read
    icm.script_reply(0, vec![]);
    icm.script_reply(0, vec![0x47]); // identity
    for _ in 0..4 {
        icm.script_reply(0, vec![]);
        icm.script_reply(0, vec![0x00]); // read half of each update
        icm.script_reply(0, vec![]); // write half
    }
    assert_eq!(icm.init(), Ok(()));
    assert_eq!(icm.port_ref().next, 14);
}

#[test]
fn init_aborts_on_failed_soft_reset() {
    let mut icm = spi_driver();
    icm.ready = false;
    icm.script_reply(0, vec![0x47]); // identity passes
    icm.script_reply(-1, vec![]); // soft-reset read fails
    assert_eq!(
        icm.init(),
        Err(Error::BusError(BusError::SPI(icm42688::spi::Error::UnknownError)))
    );
    // identity read and the failed read: nothing more
    assert_eq!(icm.port_ref().log.len(), 2);
}

#[test]
fn device_id_reads_identity_register() {
    let mut icm = spi_driver();
    icm.script_reply(0, vec![0x47]);
    assert_eq!(icm.device_id(), Ok(0x47));
    match &icm.port_ref().log[0] {
        BusEvent::WriteRead { bytes, n, .. } => {
            assert_eq!(bytes.as_slice(), &[0x75]);
            assert_eq!(*n, 1);
        }
        other => panic!("unexpected event {:?}", other),
    }
}

#[test]
fn banked_read_brackets_with_reset_to_bank_zero() {
    let mut icm = spi_driver();
    icm.script_reply(0, vec![0x00]); // select: read back REG_BANK_SEL
    icm.script_reply(0, vec![]); // select: write bank 2
    icm.script_reply(0, vec![0xAB]); // the banked register read
    icm.script_reply(0, vec![0b0000_0010]); // reset: read back REG_BANK_SEL
    icm.script_reply(0, vec![]); // reset: write bank zero
    assert_eq!(icm.read_bank(RegisterBank::Bank2, Register::DRIVE_CONFIG), Ok(0xAB));
    // the bank-select byte sequence is: select 2, then reset to 0
    assert_eq!(bank_select_writes(&icm), vec![2, 0]);
    let log = &icm.port_ref().log;
    // select (read + write), settle, read, settle, reset (read + write)
    assert_eq!(log.len(), 7);
    assert!(matches!(log[2], BusEvent::Delay { ms: 10 }));
    assert!(matches!(log[4], BusEvent::Delay { ms: 10 }));
    // a plain read afterwards sees bank-zero addressing: no further
    // bank-select write happened
    icm.script_reply(0, vec![0x11]);
    assert_eq!(icm.read_register(Register::DRIVE_CONFIG), Ok(0x11));
    assert_eq!(bank_select_writes(&icm), vec![2, 0]);
}

#[test]
fn banked_write_brackets_with_reset_to_bank_zero() {
    let mut icm = spi_driver();
    icm.script_reply(0, vec![0x00]); // select: read REG_BANK_SEL
    icm.script_reply(0, vec![]); // select: write bank 3
    icm.script_reply(0, vec![]); // the banked register write
    icm.script_reply(0, vec![0b0000_0011]); // reset: read back
    icm.script_reply(0, vec![]); // reset: write bank zero
    assert_eq!(
        icm.write_bank(RegisterBank::Bank3, Register::DRIVE_CONFIG, 0x5A),
        Ok(())
    );
    assert_eq!(bank_select_writes(&icm), vec![3, 0]);
    let log = &icm.port_ref().log;
    // select (read + write), settle, write, settle, reset (read + write)
    assert_eq!(log.len(), 7);
    assert!(matches!(log[2], BusEvent::Delay { ms: 10 }));
    assert!(matches!(log[4], BusEvent::Delay { ms: 10 }));
    match &log[3] {
        BusEvent::Write { bytes, .. } => assert_eq!(bytes.as_slice(), &[0x13, 0x5A]),
        other => panic!("unexpected event {:?}", other),
    }
}

#[test]
fn sixteen_bit_reads_assemble_big_endian_low_byte_first() {
    let mut icm = spi_driver();
    icm.script_reply(0, vec![0x34]); // low register, read first
    icm.script_reply(0, vec![0x12]); // high register, read second
    assert_eq!(icm.read_tmst(), Ok(0x1234));
    let log = &icm.port_ref().log;
    match (&log[0], &log[1]) {
        (BusEvent::WriteRead { bytes: b0, .. }, BusEvent::WriteRead { bytes: b1, .. }) => {
            assert_eq!(b0.as_slice(), &[0x2C]); // TMST_FSYNCL before TMST_FSYNCH
            assert_eq!(b1.as_slice(), &[0x2B]);
        }
        other => panic!("unexpected events {:?}", other),
    }
}

#[test]
fn temperature_raw_is_twos_complement() {
    let mut icm = spi_driver();
    icm.script_reply(0, vec![0xC0]); // low byte
    icm.script_reply(0, vec![0x33]); // high byte: 0x33C0 == 13248
    assert_eq!(icm.temperature_raw(), Ok(13248));
    icm.script_reply(0, vec![0xFF]);
    icm.script_reply(0, vec![0xFF]); // 0xFFFF == -1
    assert_eq!(icm.temperature_raw(), Ok(-1));
}

#[test]
fn temperature_conversion_formula() {
    // degrees = raw / 132.48 + 25.0
    let mut icm = spi_driver();
    icm.script_reply(0, vec![0x00]);
    icm.script_reply(0, vec![0x00]);
    let raw = icm.temperature_raw().unwrap();
    let deg = raw as f32 / 132.48 + 25.0;
    assert_eq!(deg, 25.0);
    icm.script_reply(0, vec![0xC0]);
    icm.script_reply(0, vec![0x33]);
    let raw = icm.temperature_raw().unwrap();
    let deg = raw as f32 / 132.48 + 25.0;
    assert!((deg - 125.0).abs() < 0.01);
}

#[test]
fn accel_normalization_at_two_g() {
    let mut icm = spi_driver();
    // X axis raw 16384 (0x4000), Y and Z zero; low byte first per axis
    icm.script_reply(0, vec![0x00]);
    icm.script_reply(0, vec![0x40]);
    for _ in 0..4 {
        icm.script_reply(0, vec![0x00]);
    }
    let raw = icm.accel_raw().unwrap();
    assert_eq!(raw.x, 16384);
    let scale = AccelRange::G2.counts_per_g() as f32;
    let norm = raw.x as f32 / scale;
    assert!((norm - 1.0).abs() < 1e-6);
}

#[test]
fn gyro_raw_reads_three_axes_in_order() {
    let mut icm = spi_driver();
    icm.script_reply(0, vec![0x01]); // X low
    icm.script_reply(0, vec![0x00]); // X high
    icm.script_reply(0, vec![0x02]); // Y low
    icm.script_reply(0, vec![0x00]);
    icm.script_reply(0, vec![0x03]); // Z low
    icm.script_reply(0, vec![0x00]);
    let raw = icm.gyro_raw().unwrap();
    assert_eq!((raw.x, raw.y, raw.z), (1, 2, 3));
    let log = &icm.port_ref().log;
    let addrs: Vec<u8> = log
        .iter()
        .map(|ev| match ev {
            BusEvent::WriteRead { bytes, .. } => bytes[0],
            other => panic!("unexpected event {:?}", other),
        })
        .collect();
    assert_eq!(addrs, vec![0x26, 0x25, 0x28, 0x27, 0x2A, 0x29]);
}

#[test]
fn configuration_getters_decode_their_fields() {
    let mut icm = spi_driver();
    icm.script_reply(0, vec![0b0110_0000]); // ACCEL_UI_FS_SEL == 3: two g
    assert_eq!(icm.accel_range(), Ok(AccelRange::G2));
    icm.script_reply(0, vec![0b0010_1111]);
    assert_eq!(icm.power_mode(), Ok(PowerMode::SixAxisLowNoise));
    icm.script_reply(0, vec![0b0000_0110]);
    assert_eq!(icm.gyro_odr(), Ok(icm42688::config::GyroODR::Hz1000));
    icm.script_reply(0, vec![0b0001_0010]); // accel bandwidth from the high nibble
    assert_eq!(
        icm.accel_bandwith(),
        Ok(icm42688::config::AccelBandwidth::OdrQuarter)
    );
    icm.script_reply(0, vec![0b0000_0010]);
    assert_eq!(
        icm.gyro_bandwith(),
        Ok(icm42688::config::GyroBandwidth::OdrFifth)
    );
}

#[test]
fn configuration_getter_rejects_illegal_field() {
    let mut icm = spi_driver();
    icm.script_reply(0, vec![0b1000_0000]); // accel range field 4: no such range
    assert_eq!(
        icm.accel_range(),
        Err(Error::SensorError(SensorError::InvalidDiscriminant))
    );
}

#[test]
fn setters_use_masked_updates() {
    let mut icm = spi_driver();
    icm.script_reply(0, vec![0b0000_0110]); // current GYRO_CONFIG0
    icm.script_reply(0, vec![]);
    assert_eq!(icm.set_gyro_range(GyroRange::Deg250), Ok(()));
    match &icm.port_ref().log[1] {
        BusEvent::Write { bytes, .. } => {
            // range bits 7:5 become 3, the data-rate bits survive
            assert_eq!(bytes.as_slice(), &[0x4F, 0b0110_0110]);
        }
        other => panic!("unexpected event {:?}", other),
    }
}

#[test]
fn accel_bandwidth_set_then_get_agree() {
    let mut icm = spi_driver();
    // current byte: gyro bandwidth nibble holds 0b0111
    icm.script_reply(0, vec![0b0000_0111]);
    icm.script_reply(0, vec![]);
    assert_eq!(
        icm.set_accel_bw(icm42688::config::AccelBandwidth::OdrFifth),
        Ok(())
    );
    let written: u8 = match &icm.port_ref().log[1] {
        BusEvent::Write { bytes, .. } => {
            // accel pattern in the high nibble, gyro nibble preserved
            assert_eq!(bytes.as_slice(), &[0x52, 0b0010_0111]);
            bytes[1]
        }
        other => panic!("unexpected event {:?}", other),
    };
    // reading the stored byte back decodes the bandwidth that was set
    icm.script_reply(0, vec![written]);
    assert_eq!(
        icm.accel_bandwith(),
        Ok(icm42688::config::AccelBandwidth::OdrFifth)
    );
    icm.script_reply(0, vec![written]);
    assert_eq!(
        icm.gyro_bandwith(),
        Ok(icm42688::config::GyroBandwidth::OdrFourteen)
    );
}

#[test]
fn slew_rate_is_written_pre_shifted() {
    let mut icm = spi_driver();
    icm.script_reply(0, vec![]);
    assert_eq!(icm.set_i2c_slew_rate(I2CSlewRate::Slew2ns), Ok(()));
    match &icm.port_ref().log[0] {
        BusEvent::Write { bytes, .. } => {
            assert_eq!(bytes.as_slice(), &[0x13, 0b0010_1000]);
        }
        other => panic!("unexpected event {:?}", other),
    }
}

#[test]
fn read_fifo_holds_selection_across_the_delay() {
    let mut icm = spi_driver();
    icm.script_reply(0, vec![]);
    icm.script_reply(0, vec![9, 8, 7, 6, 5, 4, 3, 2]);
    assert_eq!(icm.read_fifo(0x30), Ok(9));
    let log = &icm.port_ref().log;
    assert_eq!(log.len(), 3);
    assert!(matches!(&log[0], BusEvent::Write { stop: false, .. }));
    assert!(matches!(&log[1], BusEvent::Delay { ms: 10 }));
    assert!(matches!(&log[2], BusEvent::Read { n: 8, stop: true, .. }));
}

#[test]
fn read_fifo_over_i2c_is_one_combined_access() {
    let mut icm = i2c_driver();
    icm.script_reply(0, vec![]);
    icm.script_reply(0, vec![0x42, 0, 0, 0, 0, 0, 0, 0]);
    assert_eq!(icm.read_fifo(0x30), Ok(0x42));
    assert_eq!(icm.port_ref().log.len(), 2);
}

#[test]
fn fifo_count_reads_both_bytes() {
    let mut icm = spi_driver();
    icm.script_reply(0, vec![0x10]); // low
    icm.script_reply(0, vec![0x02]); // high
    assert_eq!(icm.read_fifo_cnt(), Ok(0x0210));
}

#[test]
fn bus_errors_propagate_per_transport() {
    let mut icm = spi_driver();
    icm.script_reply(-2, vec![]);
    assert_eq!(
        icm.read_register(Register::WHO_AM_I),
        Err(Error::BusError(BusError::SPI(icm42688::spi::Error::UnknownError)))
    );
    let mut icm = i2c_driver();
    icm.script_reply(-1, vec![]);
    assert_eq!(
        icm.read_register(Register::WHO_AM_I),
        Err(Error::BusError(BusError::I2C(icm42688::i2c::Error::Timeout)))
    );
    let mut icm = i2c_driver();
    icm.script_reply(0, vec![]);
    icm.script_reply(-2, vec![]);
    assert_eq!(
        icm.read_register(Register::WHO_AM_I),
        Err(Error::BusError(BusError::I2C(icm42688::i2c::Error::Both)))
    );
}

#[test]
fn exhausted_reply_script_reads_as_generic_failure() {
    let mut icm = spi_driver();
    assert_eq!(
        icm.read_register(Register::WHO_AM_I),
        Err(Error::BusError(BusError::SPI(icm42688::spi::Error::UnknownError)))
    );
}

#[test]
fn constructors_and_default() {
    let icm = ICM42688::default();
    assert!(!icm.ready);
    match &icm.comm {
        CommunicationProtocol::I2C(d) => assert_eq!(d.address, 0x68),
        other => panic!("unexpected transport {:?}", other),
    }
    let icm = ICM42688::with_i2c(I2C::new(), icm42688::config::Address::Secondary);
    match &icm.comm {
        CommunicationProtocol::I2C(d) => assert_eq!(d.address, 0x69),
        other => panic!("unexpected transport {:?}", other),
    }
    let icm = ICM42688::new(CommunicationProtocol::SPI(SPI::new(
        Instance::SPI1,
        Pin::new(5),
    )));
    assert!(!icm.ready);
}

#[test]
fn update_register_stops_after_failed_read() {
    let mut icm = spi_driver();
    icm.script_reply(-2, vec![]);
    assert_eq!(
        icm.update_register(Register::DRIVE_CONFIG, 0x05, 0x0F),
        Err(Error::BusError(BusError::SPI(icm42688::spi::Error::UnknownError)))
    );
    // the read was attempted, the write never was
    assert_eq!(icm.port_ref().log.len(), 1);
    assert!(matches!(icm.port_ref().log[0], BusEvent::WriteRead { .. }));
}

#[test]
fn failed_banked_read_propagates_before_the_reset() {
    let mut icm = spi_driver();
    icm.script_reply(0, vec![0x00]); // select: read back REG_BANK_SEL
    icm.script_reply(0, vec![]); // select: write bank 1
    icm.script_reply(-1, vec![]); // the banked read fails
    assert_eq!(
        icm.read_bank(RegisterBank::Bank1, Register::DRIVE_CONFIG),
        Err(Error::BusError(BusError::SPI(icm42688::spi::Error::UnknownError)))
    );
    // select, settle, failed read: the error returns at once
    assert_eq!(bank_select_writes(&icm), vec![1]);
    assert_eq!(icm.port_ref().log.len(), 4);
}

#[test]
fn set_bank_is_a_masked_update() {
    let mut icm = spi_driver();
    icm.script_reply(0, vec![0b1010_0001]);
    icm.script_reply(0, vec![]);
    assert_eq!(icm.set_bank(RegisterBank::Bank2), Ok(()));
    match &icm.port_ref().log[1] {
        BusEvent::Write { bytes, .. } => {
            // only the three bank bits change; the rest of the byte survives
            assert_eq!(bytes.as_slice(), &[0x76, 0b1010_0010]);
        }
        other => panic!("unexpected event {:?}", other),
    }
}
