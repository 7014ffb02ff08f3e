//! Transports, pins, status codes, and clock arithmetic.

use icm42688::bus::{BusEvent, BusPort, BusReply};
use icm42688::gpio::{Direction, Pin};
use icm42688::i2c::{reserved_addr, Device, Error as I2cError, I2C};
use icm42688::spi::{Error as SpiError, Instance, SPI};
use icm42688::time::Instant;
use icm42688::{PicoErrorCodes, ToResult};

#[test]
fn i2c_status_mapping() {
    let mut i2c = I2C::new();
    i2c.port.replies.push(BusReply { status: -1, data: vec![] });
    i2c.port.replies.push(BusReply { status: -2, data: vec![] });
    i2c.port.replies.push(BusReply { status: -7, data: vec![] });
    i2c.port.replies.push(BusReply { status: 1, data: vec![] });
    assert_eq!(i2c.write(0x68, &vec![1], true), Err(I2cError::Timeout));
    assert_eq!(i2c.write(0x68, &vec![1], true), Err(I2cError::Both));
    assert_eq!(i2c.write(0x68, &vec![1], true), Err(I2cError::Both));
    assert_eq!(i2c.write(0x68, &vec![1], true), Ok(()));
}

#[test]
fn i2c_read_pads_and_truncates() {
    let mut i2c = I2C::new();
    i2c.port.replies.push(BusReply { status: 0, data: vec![1, 2] });
    i2c.port.replies.push(BusReply { status: 0, data: vec![1, 2, 3, 4] });
    assert_eq!(i2c.read(0x68, 4, true), Ok(vec![1, 2, 0, 0]));
    assert_eq!(i2c.read(0x68, 2, true), Ok(vec![1, 2]));
}

#[test]
fn i2c_write_read_stops_after_failed_write() {
    let mut i2c = I2C::new();
    i2c.port.replies.push(BusReply { status: -2, data: vec![] });
    i2c.port.replies.push(BusReply { status: 0, data: vec![7] });
    assert_eq!(i2c.write_read(0x68, &vec![0x75], 1), Err(I2cError::Both));
    // the read never ran: one event logged, one reply consumed
    assert_eq!(i2c.port.log.len(), 1);
    assert_eq!(i2c.port.next, 1);
    // the leftover reply serves the next transaction's write half
    assert_eq!(i2c.read(0x68, 1, true), Ok(vec![7]));
}

#[test]
fn i2c_write_read_holds_the_bus_between_halves() {
    let mut i2c = I2C::new();
    i2c.port.replies.push(BusReply { status: 0, data: vec![] });
    i2c.port.replies.push(BusReply { status: 0, data: vec![0x47] });
    assert_eq!(i2c.write_read(0x68, &vec![0x75], 1), Ok(vec![0x47]));
    match (&i2c.port.log[0], &i2c.port.log[1]) {
        (
            BusEvent::Write { stop: false, bytes, .. },
            BusEvent::Read { stop: true, n: 1, .. },
        ) => {
            assert_eq!(bytes.as_slice(), &[0x75]);
        }
        other => panic!("unexpected events {:?}", other),
    }
}

#[test]
fn i2c_device_binds_its_address() {
    let mut dev = Device::new(I2C::new(), 0x69);
    dev.i2c.port.replies.push(BusReply { status: 0, data: vec![] });
    assert_eq!(dev.write(&vec![0x4E, 1], true), Ok(()));
    match &dev.i2c.port.log[0] {
        BusEvent::Write { addr, .. } => assert_eq!(*addr, 0x69),
        other => panic!("unexpected event {:?}", other),
    }
}

#[test]
fn timeout_variants_behave_like_their_plain_forms() {
    let mut dev = Device::new(I2C::new(), 0x68);
    dev.i2c.port.replies.push(BusReply { status: -1, data: vec![] });
    dev.i2c.port.replies.push(BusReply { status: 0, data: vec![5] });
    assert_eq!(dev.write_timeout(&vec![1], 1000, true), Err(I2cError::Timeout));
    assert_eq!(dev.read_timeout(1, 1000, true), Ok(vec![5]));
    dev.i2c.port.replies.push(BusReply { status: 0, data: vec![] });
    dev.i2c.port.replies.push(BusReply { status: 0, data: vec![9] });
    assert_eq!(dev.write_read_timeout(&vec![2], 1, 1000), Ok(vec![9]));
}

#[test]
fn reserved_addresses() {
    assert!(reserved_addr(0x00));
    assert!(reserved_addr(0x07));
    assert!(reserved_addr(0x78));
    assert!(reserved_addr(0x7F));
    assert!(!reserved_addr(0x08));
    assert!(!reserved_addr(0x68));
    assert!(!reserved_addr(0x77));
}

#[test]
fn scan_reports_answering_addresses_in_order() {
    let mut i2c = I2C::new();
    for a in 8u8..0x78 {
        let status = if a == 0x42 || a == 0x68 { 0 } else { -2 };
        i2c.port.replies.push(BusReply { status, data: vec![] });
    }
    assert_eq!(i2c.scan(), vec![0x42, 0x68]);
    // one probe per non-reserved address
    assert_eq!(i2c.port.log.len(), 112);
    assert_eq!(i2c.port.next, 112);
}

#[test]
fn spi_chip_select_frames_transfers() {
    let mut spi = SPI::new(Instance::SPI0, Pin::new_init(17));
    assert_eq!(spi.init(48_000), 48_000);
    assert!(spi.cs.level); // deselected after init
    spi.port.replies.push(BusReply { status: 0, data: vec![] });
    spi.port.replies.push(BusReply { status: 0, data: vec![3] });
    assert_eq!(spi.write(&vec![1], false), Ok(()));
    assert!(!spi.cs.level); // held selected
    assert_eq!(spi.read(0xFF, 1, true), Ok(vec![3]));
    assert!(spi.cs.level); // released
    match &spi.port.log[1] {
        BusEvent::Read { fill, .. } => assert_eq!(*fill, 0xFF),
        other => panic!("unexpected event {:?}", other),
    }
}

#[test]
fn spi_write_read_is_one_transaction() {
    let mut spi = SPI::new(Instance::SPI1, Pin::new_init(9));
    spi.init(1_000_000);
    spi.port.replies.push(BusReply { status: 0, data: vec![0x47] });
    assert_eq!(spi.write_read(&vec![0x75], 1), Ok(vec![0x47]));
    assert_eq!(spi.port.log.len(), 1);
    assert!(spi.cs.level);
    spi.port.replies.push(BusReply { status: -3, data: vec![] });
    assert_eq!(spi.write_read(&vec![0x75], 1), Err(SpiError::UnknownError));
}

#[test]
fn spi_baudrate() {
    let mut spi = SPI::default();
    assert!(!spi.initialized);
    spi.init(125_000);
    assert!(spi.initialized);
    assert_eq!(spi.get_baudrate(), 125_000);
    assert_eq!(spi.set_baudrate(250_000), 250_000);
    assert_eq!(spi.get_baudrate(), 250_000);
}

#[test]
fn pins_track_direction_and_level() {
    let mut pin = Pin::new_init(5);
    assert_eq!(pin.get_direction(), Direction::IN);
    assert!(!pin.get());
    pin.set_direction(Direction::OUT);
    pin.put(true);
    assert_eq!(pin.get_direction(), Direction::OUT);
    assert!(pin.get());
    pin.init();
    assert!(!pin.get());
    let mut pin = Pin::new(6);
    pin.init_with_direction(Direction::OUT);
    assert_eq!(pin.get_direction(), Direction::OUT);
}

#[test]
fn bus_port_fits_data_to_request() {
    let mut port = BusPort::new();
    port.replies.push(BusReply { status: 3, data: vec![1, 2, 3] });
    let (st, data) = port.take_reply(5);
    assert_eq!(st, 3);
    assert_eq!(data, vec![1, 2, 3, 0, 0]);
    // exhausted script reads as the generic failure
    let (st, data) = port.take_reply(2);
    assert_eq!(st, -2);
    assert_eq!(data, vec![0, 0]);
    assert_eq!(port.next, 1);
}

#[test]
fn platform_status_codes() {
    assert_eq!(PicoErrorCodes::NONE.code(), 0);
    assert_eq!(PicoErrorCodes::TIMEOUT.code(), -1);
    assert_eq!(PicoErrorCodes::GENERIC.code(), -2);
    assert_eq!(PicoErrorCodes::INSUFFICIENT_RESOURCES.code(), -9);
    assert_eq!(3i32.to_result(), Err(3));
    assert_eq!(0i32.to_result(), Ok(()));
    assert_eq!((-2i32).to_result(), Ok(()));
}

#[test]
fn instant_arithmetic() {
    let a = Instant::from_micros(1_000);
    let b = Instant::from_micros(250);
    assert_eq!(a.duration_since(b), 750);
    assert_eq!(b.duration_since(a), 0);
    assert_eq!(a.checked_duration_since(b), Some(750));
    assert_eq!(b.checked_duration_since(a), None);
    assert_eq!(a.checked_add(10), Some(Instant::from_micros(1_010)));
    assert_eq!(Instant::from_micros(u64::MAX).checked_add(1), None);
    assert_eq!(a.checked_sub(1_000), Some(Instant::from_micros(0)));
    assert_eq!(b.checked_sub(251), None);
}
