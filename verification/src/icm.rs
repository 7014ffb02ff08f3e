//! The device driver: initialization, bank selection, register
//! read/modify/write, and the measurement accessors.
//!
//! Every operation's contract states the exact bus transactions it
//! performs, the scripted replies it consumes, and the result it returns
//! for every reply script — over whichever of the two transports the
//! driver owns.

use crate::bus::{grew, is_write, is_write_read, BusEvent, BusPort};
use crate::config::{
    AccelBandwidth, AccelODR, AccelRange, Address, GyroBandwidth, GyroODR, GyroRange, I2CSlewRate,
    PowerMode,
};
use crate::error::{BusError, Error, SensorError};
use crate::registers::{Register, RegisterBank};
use vstd::prelude::*;

verus! {

/// The transport the driver owns: a two-wire device or a four-wire bus.
#[derive(Debug)]
#[allow(non_camel_case_types)]
pub enum CommunicationProtocol {
    I2C(crate::i2c::Device),
    SPI(crate::spi::SPI),
}

/// A raw three-axis reading, one signed sixteen-bit count per axis.
#[derive(Clone, Copy, Debug, PartialEq, Eq, Structural)]
pub struct I16x3 {
    pub x: i16,
    pub y: i16,
    pub z: i16,
}

impl I16x3 {
    pub fn new(x: i16, y: i16, z: i16) -> (r: I16x3)
        ensures
            r == (I16x3 { x, y, z }),
    {
        I16x3 { x, y, z }
    }
}

/// The inertial measurement unit driver.  It owns exactly one transport
/// and a readiness flag that stays false until initialization succeeds.
#[derive(Debug)]
pub struct ICM42688 {
    pub comm: CommunicationProtocol,
    pub ready: bool,
}

/// The error a failed transfer maps to, by transport.
pub open spec fn bus_fail(spi: bool, st: int) -> Error {
    if spi {
        Error::BusError(BusError::SPI(crate::spi::Error::UnknownError))
    } else {
        Error::BusError(BusError::I2C(crate::i2c::status_error(st)))
    }
}

/// The read-modify-write combination: bits under `mask` come from
/// `value`, all others from `current`.
pub open spec fn rmw(current: u8, value: u8, mask: u8) -> u8 {
    (current & !mask) | (value & mask)
}

/// Transfers one register read consumes, with the reply script standing
/// at offset `o`: the four-wire transport uses one combined transaction,
/// the two-wire one an address write and a read — unless the write fails.
pub open spec fn rd_t(p: BusPort, spi: bool, o: int) -> int {
    if spi {
        1
    } else if p.status_at(o) < 0 {
        1
    } else {
        2
    }
}

/// Whether a register read at offset `o` succeeds.
pub open spec fn rd_ok(p: BusPort, spi: bool, o: int) -> bool {
    if spi {
        p.status_at(o) >= 0
    } else {
        p.status_at(o) >= 0 && p.status_at(o + 1) >= 0
    }
}

/// The error a failed register read at offset `o` returns.
pub open spec fn rd_err(p: BusPort, spi: bool, o: int) -> Error {
    if spi || p.status_at(o) < 0 {
        bus_fail(spi, p.status_at(o))
    } else {
        bus_fail(spi, p.status_at(o + 1))
    }
}

/// The byte a register read at offset `o` returns.
pub open spec fn rd_byte(p: BusPort, spi: bool, o: int) -> u8 {
    if spi {
        p.byte_at(o)
    } else {
        p.byte_at(o + 1)
    }
}

/// The transactions a register read of `reg` appends to the log at
/// position `base`.
pub open spec fn rd_shape(
    log: Seq<BusEvent>,
    base: int,
    p: BusPort,
    spi: bool,
    o: int,
    dev: u8,
    reg: u8,
) -> bool {
    if spi {
        is_write_read(log[base], 0, seq![reg], 1)
    } else {
        &&& is_write(log[base], dev, seq![reg], false)
        &&& (p.status_at(o) >= 0 ==> log[base + 1] == (BusEvent::Read {
            addr: dev,
            n: 1usize,
            fill: 0u8,
            stop: true,
        }))
    }
}

/// Transfers one read-modify-write consumes at offset `o`.
pub open spec fn upd_t(p: BusPort, spi: bool, o: int) -> int {
    if rd_ok(p, spi, o) {
        rd_t(p, spi, o) + 1
    } else {
        rd_t(p, spi, o)
    }
}

/// Whether a read-modify-write at offset `o` succeeds.
pub open spec fn upd_ok(p: BusPort, spi: bool, o: int) -> bool {
    rd_ok(p, spi, o) && p.status_at(o + rd_t(p, spi, o)) >= 0
}

/// The error a failed read-modify-write at offset `o` returns.
pub open spec fn upd_err(p: BusPort, spi: bool, o: int) -> Error {
    if !rd_ok(p, spi, o) {
        rd_err(p, spi, o)
    } else {
        bus_fail(spi, p.status_at(o + rd_t(p, spi, o)))
    }
}

/// The byte a read-modify-write of (`value`, `mask`) at offset `o`
/// writes back: the masked combination of what it read.
pub open spec fn upd_written(p: BusPort, spi: bool, o: int, value: u8, mask: u8) -> u8 {
    rmw(rd_byte(p, spi, o), value, mask)
}

/// The transactions a read-modify-write of `reg` appends at `base`.
pub open spec fn upd_shape(
    log: Seq<BusEvent>,
    base: int,
    p: BusPort,
    spi: bool,
    o: int,
    dev: u8,
    reg: u8,
    value: u8,
    mask: u8,
) -> bool {
    &&& rd_shape(log, base, p, spi, o, dev, reg)
    &&& (rd_ok(p, spi, o) ==> is_write(
        log[base + rd_t(p, spi, o)],
        dev,
        seq![reg, upd_written(p, spi, o, value, mask)],
        true,
    ))
}

impl ICM42688 {
    /// The self-identification code the device must report.
    pub const DEVICE_ID: u8 = 0x47;

    /// The port of whichever transport the driver owns.
    pub open spec fn port_spec(self) -> BusPort {
        match self.comm {
            CommunicationProtocol::I2C(d) => d.i2c.port,
            CommunicationProtocol::SPI(s) => s.port,
        }
    }

    /// Whether the four-wire transport is active.
    pub open spec fn is_spi(self) -> bool {
        self.comm is SPI
    }

    /// The two-wire device address; zero on the four-wire transport.
    pub open spec fn dev_addr(self) -> u8 {
        match self.comm {
            CommunicationProtocol::I2C(d) => d.address,
            CommunicationProtocol::SPI(_) => 0,
        }
    }

    /// The chip-select line is released; vacuously true on the two-wire
    /// transport, which has no such line.
    pub open spec fn cs_idle(self) -> bool {
        match self.comm {
            CommunicationProtocol::I2C(_) => true,
            CommunicationProtocol::SPI(s) => s.cs.level,
        }
    }

    /// `self` is `other` with at most the port cursor, the log, and the
    /// chip-select level moved: same transport, same device address, same
    /// bus settings, same scripted replies.
    pub open spec fn same_device(self, other: ICM42688) -> bool {
        &&& match (self.comm, other.comm) {
            (CommunicationProtocol::I2C(nd), CommunicationProtocol::I2C(od)) => nd.address
                == od.address,
            (CommunicationProtocol::SPI(ns), CommunicationProtocol::SPI(os)) => {
                &&& ns.instance == os.instance
                &&& ns.initialized == os.initialized
                &&& ns.baudrate == os.baudrate
                &&& ns.cs.gpio == os.cs.gpio
                &&& ns.cs.dir == os.cs.dir
            },
            _ => false,
        }
        &&& self.port_spec().replies == other.port_spec().replies
    }

    /// Take ownership of a transport.
    pub fn new(protocol: CommunicationProtocol) -> (r: ICM42688)
        ensures
            r.comm == protocol,
            !r.ready,
    {
        ICM42688 { comm: protocol, ready: false }
    }

    /// Drive the device over the two-wire bus at `address`.
    pub fn with_i2c(i2c: crate::i2c::I2C, address: Address) -> (r: ICM42688)
        ensures
            r.comm matches CommunicationProtocol::I2C(d) && d.i2c == i2c && d.address
                == address.value_spec(),
            !r.ready,
    {
        let a = address.value();
        ICM42688::new(CommunicationProtocol::I2C(crate::i2c::Device::new(i2c, a)))
    }

    /// Drive the device over the four-wire bus.
    pub fn with_spi(spi: crate::spi::SPI) -> (r: ICM42688)
        ensures
            r.comm matches CommunicationProtocol::SPI(s) && s == spi,
            !r.ready,
    {
        ICM42688::new(CommunicationProtocol::SPI(spi))
    }

    /// Append one scripted reply to the owned transport's port.
    pub fn script_reply(&mut self, status: i32, data: Vec<u8>)
        ensures
            final(self).port_spec().replies@ == old(self).port_spec().replies@.push(
                crate::bus::BusReply { status, data },
            ),
            final(self).port_spec().next == old(self).port_spec().next,
            final(self).port_spec().log == old(self).port_spec().log,
            final(self).ready == old(self).ready,
            final(self).same_device_but_replies(*old(self)),
    {
        match &mut self.comm {
            CommunicationProtocol::I2C(d) => d.i2c.port.script(status, data),
            CommunicationProtocol::SPI(s) => s.port.script(status, data),
        }
    }

    /// `self` is `other` with at most the reply script extended.
    pub open spec fn same_device_but_replies(self, other: ICM42688) -> bool {
        match (self.comm, other.comm) {
            (CommunicationProtocol::I2C(nd), CommunicationProtocol::I2C(od)) => nd.address
                == od.address,
            (CommunicationProtocol::SPI(ns), CommunicationProtocol::SPI(os)) => {
                &&& ns.instance == os.instance
                &&& ns.initialized == os.initialized
                &&& ns.baudrate == os.baudrate
                &&& ns.cs == os.cs
            },
            _ => false,
        }
    }

    /// A reference to the owned transport's port: its log is the record
    /// of every transaction performed.
    pub fn port_ref(&self) -> (r: &BusPort)
        ensures
            *r == self.port_spec(),
    {
        match &self.comm {
            CommunicationProtocol::I2C(d) => &d.i2c.port,
            CommunicationProtocol::SPI(s) => &s.port,
        }
    }

    /// Wait `ms` milliseconds: a settling delay, recorded in the log.
    fn settle(&mut self, ms: u32)
        ensures
            final(self).same_device(*old(self)),
            final(self).ready == old(self).ready,
            final(self).cs_idle() == old(self).cs_idle(),
            final(self).port_spec().next == old(self).port_spec().next,
            final(self).port_spec().log@ == old(self).port_spec().log@.push(
                BusEvent::Delay { ms },
            ),
    {
        match &mut self.comm {
            CommunicationProtocol::I2C(d) => d.i2c.port.delay(ms),
            CommunicationProtocol::SPI(s) => s.port.delay(ms),
        }
    }
}

/// What `read_register` promises: nothing happens while the driver is
/// not ready; otherwise one register access runs on the active transport
/// and the result is the byte read, or the first failure.
pub open spec fn read_register_post(
    old_s: ICM42688,
    new_s: ICM42688,
    reg: Register,
    r: Result<u8, Error>,
) -> bool {
    if !old_s.ready {
        new_s == old_s && r == Err::<u8, Error>(Error::NotReady)
    } else {
        let p = old_s.port_spec();
        let spi = old_s.is_spi();
        &&& new_s.same_device(old_s)
        &&& new_s.ready == old_s.ready
        &&& new_s.cs_idle()
        &&& new_s.port_spec().next == p.after(rd_t(p, spi, 0))
        &&& grew(new_s.port_spec().log@, p.log@, rd_t(p, spi, 0))
        &&& rd_shape(
            new_s.port_spec().log@,
            p.log@.len() as int,
            p,
            spi,
            0,
            old_s.dev_addr(),
            reg.addr_spec(),
        )
        &&& (rd_ok(p, spi, 0) ==> r == Ok::<u8, Error>(rd_byte(p, spi, 0)))
        &&& (!rd_ok(p, spi, 0) ==> r == Err::<u8, Error>(rd_err(p, spi, 0)))
    }
}

/// What `write_register` promises: a read-only register fails before any
/// bus transaction; otherwise address and value go out as one framed
/// write.
pub open spec fn write_register_post(
    old_s: ICM42688,
    new_s: ICM42688,
    reg: Register,
    value: u8,
    r: Result<(), Error>,
) -> bool {
    if reg.read_only_spec() {
        new_s == old_s && r == Err::<(), Error>(Error::SensorError(SensorError::WriteToReadOnly))
    } else if !old_s.ready {
        new_s == old_s && r == Err::<(), Error>(Error::NotReady)
    } else {
        let p = old_s.port_spec();
        let spi = old_s.is_spi();
        &&& new_s.same_device(old_s)
        &&& new_s.ready == old_s.ready
        &&& new_s.cs_idle()
        &&& new_s.port_spec().next == p.after(1)
        &&& grew(new_s.port_spec().log@, p.log@, 1)
        &&& is_write(
            new_s.port_spec().log@.last(),
            old_s.dev_addr(),
            seq![reg.addr_spec(), value],
            true,
        )
        &&& (p.status_at(0) >= 0 ==> r == Ok::<(), Error>(()))
        &&& (p.status_at(0) < 0 ==> r == Err::<(), Error>(bus_fail(spi, p.status_at(0))))
    }
}

/// What `update_register` promises: a read-only register fails before
/// any bus transaction; otherwise the register is read, the masked bits
/// replaced, the combination written back — bits outside `mask` are
/// preserved.
pub open spec fn update_register_post(
    old_s: ICM42688,
    new_s: ICM42688,
    reg: Register,
    value: u8,
    mask: u8,
    r: Result<(), Error>,
) -> bool {
    if reg.read_only_spec() {
        new_s == old_s && r == Err::<(), Error>(Error::SensorError(SensorError::WriteToReadOnly))
    } else if !old_s.ready {
        new_s == old_s && r == Err::<(), Error>(Error::NotReady)
    } else {
        let p = old_s.port_spec();
        let spi = old_s.is_spi();
        &&& new_s.same_device(old_s)
        &&& new_s.ready == old_s.ready
        &&& new_s.cs_idle()
        &&& new_s.port_spec().next == p.after(upd_t(p, spi, 0))
        &&& grew(new_s.port_spec().log@, p.log@, upd_t(p, spi, 0))
        &&& upd_shape(
            new_s.port_spec().log@,
            p.log@.len() as int,
            p,
            spi,
            0,
            old_s.dev_addr(),
            reg.addr_spec(),
            value,
            mask,
        )
        &&& (upd_ok(p, spi, 0) ==> r == Ok::<(), Error>(()))
        &&& (!upd_ok(p, spi, 0) ==> r == Err::<(), Error>(upd_err(p, spi, 0)))
    }
}

impl ICM42688 {
    /// Read one byte from `reg` on whichever transport is active.
    pub fn read_register(&mut self, reg: Register) -> (r: Result<u8, Error>)
        ensures
            read_register_post(*old(self), *final(self), reg, r),
    {
        if !self.ready {
            return Err(Error::NotReady);
        }
        let a = reg.addr();
        let frame = vec![a];
        proof {
            assert(frame@ =~= seq![reg.addr_spec()]);
        }
        match &mut self.comm {
            CommunicationProtocol::I2C(device) => {
                match device.write_read(&frame, 1) {
                    Ok(data) => Ok(data[0]),
                    Err(e) => Err(Error::BusError(BusError::I2C(e))),
                }
            },
            CommunicationProtocol::SPI(s) => {
                match s.write_read(&frame, 1) {
                    Ok(data) => Ok(data[0]),
                    Err(e) => Err(Error::BusError(BusError::SPI(e))),
                }
            },
        }
    }

    /// Write `value` to `reg` as one framed `[address, value]`
    /// transaction.  A read-only register is rejected before any bus
    /// transaction is attempted.
    pub fn write_register(&mut self, reg: Register, value: u8) -> (r: Result<(), Error>)
        ensures
            write_register_post(*old(self), *final(self), reg, value, r),
    {
        if reg.read_only() {
            return Err(Error::SensorError(SensorError::WriteToReadOnly));
        }
        if !self.ready {
            return Err(Error::NotReady);
        }
        let a = reg.addr();
        let frame = vec![a, value];
        proof {
            assert(frame@ =~= seq![reg.addr_spec(), value]);
        }
        match &mut self.comm {
            CommunicationProtocol::I2C(device) => {
                match device.write(&frame, true) {
                    Ok(()) => Ok(()),
                    Err(e) => Err(Error::BusError(BusError::I2C(e))),
                }
            },
            CommunicationProtocol::SPI(s) => {
                match s.write(&frame, true) {
                    Ok(()) => Ok(()),
                    Err(e) => Err(Error::BusError(BusError::SPI(e))),
                }
            },
        }
    }

    /// Read `reg`, combine `(current & !mask) | (value & mask)`, write it
    /// back: the one path every configuration setter uses, so unrelated
    /// bits of a shared register are always preserved.
    pub fn update_register(&mut self, reg: Register, value: u8, mask: u8) -> (r: Result<(), Error>)
        ensures
            update_register_post(*old(self), *final(self), reg, value, mask, r),
    {
        if reg.read_only() {
            return Err(Error::SensorError(SensorError::WriteToReadOnly));
        }
        let ghost s0 = *self;
        let current = match self.read_register(reg) {
            Ok(c) => c,
            Err(e) => {
                return Err(e);
            },
        };
        let ghost s1 = *self;
        let new_value = (current & !mask) | (value & mask);
        let r = self.write_register(reg, new_value);
        proof {
            let p0 = s0.port_spec();
            let p1 = s1.port_spec();
            let t = rd_t(p0, s0.is_spi(), 0);
            crate::bus::lemma_port_shift(p0, p1, t, 0);
            crate::bus::lemma_grew_trans(p0.log@, p1.log@, final(self).port_spec().log@, t, 1);
        }
        r
    }
}


/// Bits outside `mask` survive a read-modify-write unchanged, and bits
/// under `mask` take the new value: the masked-update law.
pub proof fn lemma_rmw_preserves(current: u8, value: u8, mask: u8)
    ensures
        rmw(current, value, mask) & !mask == current & !mask,
        rmw(current, value, mask) & mask == value & mask,
{
    assert(((current & !mask) | (value & mask)) & !mask == current & !mask) by (bit_vector);
    assert(((current & !mask) | (value & mask)) & mask == value & mask) by (bit_vector);
}

/// The reset a banked access writes on its way out clears the bank bits:
/// whatever byte the bank-select register held, the value written back
/// selects bank zero.
pub proof fn lemma_bank_reset_clears_select(current: u8)
    ensures
        rmw(current, 0, 0x07) & 0x07 == 0,
{
    assert(((current & !0x07u8) | (0u8 & 0x07u8)) & 0x07u8 == 0) by (bit_vector);
}

/// What `read_bank` promises: the register access is bracketed by a
/// masked bank-select update, settling delays, and a masked reset of the
/// bank-select register back to bank zero — in that order, every time.
pub open spec fn read_bank_post(
    old_s: ICM42688,
    new_s: ICM42688,
    bank: RegisterBank,
    reg: Register,
    r: Result<u8, Error>,
) -> bool {
    let p = old_s.port_spec();
    let spi = old_s.is_spi();
    let dev = old_s.dev_addr();
    let base = p.log@.len() as int;
    let log = new_s.port_spec().log@;
    let u0 = upd_t(p, spi, 0);
    let t_rd = rd_t(p, spi, u0);
    let o_r = u0 + t_rd;
    if !old_s.ready {
        new_s == old_s && r == Err::<u8, Error>(Error::NotReady)
    } else if !upd_ok(p, spi, 0) {
        // selecting the bank failed
        &&& new_s.same_device(old_s)
        &&& new_s.ready
        &&& new_s.cs_idle()
        &&& new_s.port_spec().next == p.after(u0)
        &&& grew(log, p.log@, u0)
        &&& upd_shape(
            log,
            base,
            p,
            spi,
            0,
            dev,
            Register::REG_BANK_SEL.addr_spec(),
            bank.blk_sel_spec(),
            0x07,
        )
        &&& r == Err::<u8, Error>(upd_err(p, spi, 0))
    } else if !rd_ok(p, spi, u0) {
        // the banked register read failed; its error is returned
        &&& new_s.same_device(old_s)
        &&& new_s.ready
        &&& new_s.cs_idle()
        &&& new_s.port_spec().next == p.after(u0 + t_rd)
        &&& grew(log, p.log@, u0 + 1 + t_rd)
        &&& upd_shape(
            log,
            base,
            p,
            spi,
            0,
            dev,
            Register::REG_BANK_SEL.addr_spec(),
            bank.blk_sel_spec(),
            0x07,
        )
        &&& log[base + u0] == (BusEvent::Delay { ms: 10u32 })
        &&& rd_shape(log, base + u0 + 1, p, spi, u0, dev, reg.addr_spec())
        &&& r == Err::<u8, Error>(rd_err(p, spi, u0))
    } else {
        // select, settle, read, settle, reset to bank zero
        &&& new_s.same_device(old_s)
        &&& new_s.ready
        &&& new_s.cs_idle()
        &&& new_s.port_spec().next == p.after(o_r + upd_t(p, spi, o_r))
        &&& grew(log, p.log@, u0 + 2 + t_rd + upd_t(p, spi, o_r))
        &&& upd_shape(
            log,
            base,
            p,
            spi,
            0,
            dev,
            Register::REG_BANK_SEL.addr_spec(),
            bank.blk_sel_spec(),
            0x07,
        )
        &&& log[base + u0] == (BusEvent::Delay { ms: 10u32 })
        &&& rd_shape(log, base + u0 + 1, p, spi, u0, dev, reg.addr_spec())
        &&& log[base + u0 + 1 + t_rd] == (BusEvent::Delay { ms: 10u32 })
        &&& upd_shape(
            log,
            base + u0 + 2 + t_rd,
            p,
            spi,
            o_r,
            dev,
            Register::REG_BANK_SEL.addr_spec(),
            0,
            0x07,
        )
        &&& (upd_ok(p, spi, o_r) ==> r == Ok::<u8, Error>(rd_byte(p, spi, u0)))
        &&& (!upd_ok(p, spi, o_r) ==> r == Err::<u8, Error>(upd_err(p, spi, o_r)))
    }
}

/// What `write_bank` promises: a read-only target is rejected before any
/// bus transaction; otherwise the write is bracketed by a masked
/// bank-select update, settling delays, and a masked reset back to bank
/// zero.
pub open spec fn write_bank_post(
    old_s: ICM42688,
    new_s: ICM42688,
    bank: RegisterBank,
    reg: Register,
    value: u8,
    r: Result<(), Error>,
) -> bool {
    let p = old_s.port_spec();
    let spi = old_s.is_spi();
    let dev = old_s.dev_addr();
    let base = p.log@.len() as int;
    let log = new_s.port_spec().log@;
    let u0 = upd_t(p, spi, 0);
    if reg.read_only_spec() {
        new_s == old_s && r == Err::<(), Error>(Error::SensorError(SensorError::WriteToReadOnly))
    } else if !old_s.ready {
        new_s == old_s && r == Err::<(), Error>(Error::NotReady)
    } else if !upd_ok(p, spi, 0) {
        // selecting the bank failed
        &&& new_s.same_device(old_s)
        &&& new_s.ready
        &&& new_s.cs_idle()
        &&& new_s.port_spec().next == p.after(u0)
        &&& grew(log, p.log@, u0)
        &&& upd_shape(
            log,
            base,
            p,
            spi,
            0,
            dev,
            Register::REG_BANK_SEL.addr_spec(),
            bank.blk_sel_spec(),
            0x07,
        )
        &&& r == Err::<(), Error>(upd_err(p, spi, 0))
    } else if p.status_at(u0) < 0 {
        // the banked register write failed; its error is returned
        &&& new_s.same_device(old_s)
        &&& new_s.ready
        &&& new_s.cs_idle()
        &&& new_s.port_spec().next == p.after(u0 + 1)
        &&& grew(log, p.log@, u0 + 2)
        &&& upd_shape(
            log,
            base,
            p,
            spi,
            0,
            dev,
            Register::REG_BANK_SEL.addr_spec(),
            bank.blk_sel_spec(),
            0x07,
        )
        &&& log[base + u0] == (BusEvent::Delay { ms: 10u32 })
        &&& is_write(log[base + u0 + 1], dev, seq![reg.addr_spec(), value], true)
        &&& r == Err::<(), Error>(bus_fail(spi, p.status_at(u0)))
    } else {
        // select, settle, write, settle, reset to bank zero
        &&& new_s.same_device(old_s)
        &&& new_s.ready
        &&& new_s.cs_idle()
        &&& new_s.port_spec().next == p.after(u0 + 1 + upd_t(p, spi, u0 + 1))
        &&& grew(log, p.log@, u0 + 3 + upd_t(p, spi, u0 + 1))
        &&& upd_shape(
            log,
            base,
            p,
            spi,
            0,
            dev,
            Register::REG_BANK_SEL.addr_spec(),
            bank.blk_sel_spec(),
            0x07,
        )
        &&& log[base + u0] == (BusEvent::Delay { ms: 10u32 })
        &&& is_write(log[base + u0 + 1], dev, seq![reg.addr_spec(), value], true)
        &&& log[base + u0 + 2] == (BusEvent::Delay { ms: 10u32 })
        &&& upd_shape(
            log,
            base + u0 + 3,
            p,
            spi,
            u0 + 1,
            dev,
            Register::REG_BANK_SEL.addr_spec(),
            0,
            0x07,
        )
        &&& (upd_ok(p, spi, u0 + 1) ==> r == Ok::<(), Error>(()))
        &&& (!upd_ok(p, spi, u0 + 1) ==> r == Err::<(), Error>(upd_err(p, spi, u0 + 1)))
    }
}

impl ICM42688 {
    /// Select `bank` through a masked write of the bank-select register.
    pub fn set_bank(&mut self, bank: RegisterBank) -> (r: Result<(), Error>)
        ensures
            update_register_post(
                *old(self),
                *final(self),
                Register::REG_BANK_SEL,
                bank.blk_sel_spec(),
                0x07,
                r,
            ),
    {
        let sel = bank.blk_sel();
        self.update_register(Register::REG_BANK_SEL, sel, 0x07)
    }

    /// Read one byte of `reg` in `bank`: select the bank through a masked
    /// update, settle, read, settle, and reset the selection to bank
    /// zero.  The bracket runs even when the target is bank zero, and the
    /// trailing reset is never skipped on a successful read.
    #[verifier::rlimit(100)]
    #[verifier::spinoff_prover]
    pub fn read_bank(&mut self, bank: RegisterBank, reg: Register) -> (r: Result<u8, Error>)
        ensures
            read_bank_post(*old(self), *final(self), bank, reg, r),
    {
        let ghost s0 = *self;
        let sel = bank.blk_sel();
        match self.update_register(Register::REG_BANK_SEL, sel, 0x07) {
            Err(e) => {
                return Err(e);
            },
            Ok(()) => {},
        }
        let ghost s1 = *self;
        self.settle(10);
        let ghost s2 = *self;
        proof {
            let u0 = upd_t(s0.port_spec(), s0.is_spi(), 0);
            crate::bus::lemma_grew_push(s1.port_spec().log@, BusEvent::Delay { ms: 10u32 });
            crate::bus::lemma_grew_trans(
                s0.port_spec().log@,
                s1.port_spec().log@,
                s2.port_spec().log@,
                u0,
                1,
            );
            crate::bus::lemma_port_shift(s0.port_spec(), s2.port_spec(), u0, 0);
            crate::bus::lemma_port_shift(s0.port_spec(), s2.port_spec(), u0, 1);
            crate::bus::lemma_port_shift(s0.port_spec(), s2.port_spec(), u0, 2);
        }
        let result = match self.read_register(reg) {
            Ok(v) => v,
            Err(e) => {
                proof {
                    crate::bus::lemma_grew_trans(
                        s0.port_spec().log@,
                        s2.port_spec().log@,
                        final(self).port_spec().log@,
                        upd_t(s0.port_spec(), s0.is_spi(), 0) + 1,
                        rd_t(s2.port_spec(), s2.is_spi(), 0),
                    );
                }
                return Err(e);
            },
        };
        let ghost s3 = *self;
        proof {
            crate::bus::lemma_grew_trans(
                s0.port_spec().log@,
                s2.port_spec().log@,
                s3.port_spec().log@,
                upd_t(s0.port_spec(), s0.is_spi(), 0) + 1,
                rd_t(s2.port_spec(), s2.is_spi(), 0),
            );
        }
        self.settle(10);
        let ghost s4 = *self;
        proof {
            let u0 = upd_t(s0.port_spec(), s0.is_spi(), 0);
            let t_rd = rd_t(s2.port_spec(), s2.is_spi(), 0);
            crate::bus::lemma_grew_push(s3.port_spec().log@, BusEvent::Delay { ms: 10u32 });
            crate::bus::lemma_grew_trans(
                s0.port_spec().log@,
                s3.port_spec().log@,
                s4.port_spec().log@,
                u0 + 1 + t_rd,
                1,
            );
            crate::bus::lemma_port_shift(s0.port_spec(), s4.port_spec(), u0 + t_rd, 0);
            crate::bus::lemma_port_shift(s0.port_spec(), s4.port_spec(), u0 + t_rd, 1);
            crate::bus::lemma_port_shift(s0.port_spec(), s4.port_spec(), u0 + t_rd, 2);
        }
        let r2 = self.update_register(Register::REG_BANK_SEL, 0x00, 0x07);
        proof {
            let u0 = upd_t(s0.port_spec(), s0.is_spi(), 0);
            let t_rd = rd_t(s2.port_spec(), s2.is_spi(), 0);
            crate::bus::lemma_grew_trans(
                s0.port_spec().log@,
                s4.port_spec().log@,
                final(self).port_spec().log@,
                u0 + 2 + t_rd,
                upd_t(s4.port_spec(), s4.is_spi(), 0),
            );
        }
        match r2 {
            Ok(()) => Ok(result),
            Err(e) => Err(e),
        }
    }

    /// Write one byte to `reg` in `bank`: reject a read-only target
    /// before any bus transaction, then select the bank through a masked
    /// update, settle, write, settle, and reset the selection to bank
    /// zero.
    #[verifier::rlimit(100)]
    #[verifier::spinoff_prover]
    pub fn write_bank(&mut self, bank: RegisterBank, reg: Register, value: u8) -> (r: Result<
        (),
        Error,
    >)
        ensures
            write_bank_post(*old(self), *final(self), bank, reg, value, r),
    {
        if reg.read_only() {
            return Err(Error::SensorError(SensorError::WriteToReadOnly));
        }
        let ghost s0 = *self;
        let sel = bank.blk_sel();
        match self.update_register(Register::REG_BANK_SEL, sel, 0x07) {
            Err(e) => {
                return Err(e);
            },
            Ok(()) => {},
        }
        let ghost s1 = *self;
        self.settle(10);
        let ghost s2 = *self;
        proof {
            let u0 = upd_t(s0.port_spec(), s0.is_spi(), 0);
            crate::bus::lemma_grew_push(s1.port_spec().log@, BusEvent::Delay { ms: 10u32 });
            crate::bus::lemma_grew_trans(
                s0.port_spec().log@,
                s1.port_spec().log@,
                s2.port_spec().log@,
                u0,
                1,
            );
            crate::bus::lemma_port_shift(s0.port_spec(), s2.port_spec(), u0, 0);
            crate::bus::lemma_port_shift(s0.port_spec(), s2.port_spec(), u0, 1);
        }
        match self.write_register(reg, value) {
            Err(e) => {
                proof {
                    crate::bus::lemma_grew_trans(
                        s0.port_spec().log@,
                        s2.port_spec().log@,
                        final(self).port_spec().log@,
                        upd_t(s0.port_spec(), s0.is_spi(), 0) + 1,
                        1,
                    );
                }
                return Err(e);
            },
            Ok(()) => {},
        }
        let ghost s3 = *self;
        proof {
            crate::bus::lemma_grew_trans(
                s0.port_spec().log@,
                s2.port_spec().log@,
                s3.port_spec().log@,
                upd_t(s0.port_spec(), s0.is_spi(), 0) + 1,
                1,
            );
        }
        self.settle(10);
        let ghost s4 = *self;
        proof {
            let u0 = upd_t(s0.port_spec(), s0.is_spi(), 0);
            crate::bus::lemma_grew_push(s3.port_spec().log@, BusEvent::Delay { ms: 10u32 });
            crate::bus::lemma_grew_trans(
                s0.port_spec().log@,
                s3.port_spec().log@,
                s4.port_spec().log@,
                u0 + 2,
                1,
            );
            crate::bus::lemma_port_shift(s0.port_spec(), s4.port_spec(), u0 + 1, 0);
            crate::bus::lemma_port_shift(s0.port_spec(), s4.port_spec(), u0 + 1, 1);
            crate::bus::lemma_port_shift(s0.port_spec(), s4.port_spec(), u0 + 1, 2);
        }
        let r2 = self.update_register(Register::REG_BANK_SEL, 0x00, 0x07);
        proof {
            let u0 = upd_t(s0.port_spec(), s0.is_spi(), 0);
            crate::bus::lemma_grew_trans(
                s0.port_spec().log@,
                s4.port_spec().log@,
                final(self).port_spec().log@,
                u0 + 3,
                upd_t(s4.port_spec(), s4.is_spi(), 0),
            );
        }
        r2
    }
}

/// The sixteen-bit value assembled big-endian from two register bytes.
pub open spec fn to_u16(hi: u8, lo: u8) -> u16 {
    ((hi as int) * 256 + (lo as int)) as u16
}

/// The signed sixteen-bit value assembled big-endian from two register
/// bytes, in two's complement.
pub open spec fn i16_val(hi: u8, lo: u8) -> int {
    if hi < 0x80 {
        (hi as int) * 256 + (lo as int)
    } else {
        (hi as int) * 256 + (lo as int) - 0x10000
    }
}

/// Big-endian assembly by shift and or is multiplication and addition.
proof fn lemma_be_u16()
    ensures
        forall|h: u16, l: u16| h < 256 && l < 256 ==> ((h << 8) | l) == h * 256 + l,
{
    assert(forall|h: u16, l: u16| h < 256 && l < 256 ==> ((h << 8) | l) == h * 256 + l)
        by (bit_vector);
}

/// Transfers a two-register word read consumes at offset `o`: the low
/// byte's read, then — if it succeeded — the high byte's.
pub open spec fn rdw_t(p: BusPort, spi: bool, o: int) -> int {
    if rd_ok(p, spi, o) {
        rd_t(p, spi, o) + rd_t(p, spi, o + rd_t(p, spi, o))
    } else {
        rd_t(p, spi, o)
    }
}

/// Whether both halves of a word read at offset `o` succeed.
pub open spec fn rdw_ok(p: BusPort, spi: bool, o: int) -> bool {
    rd_ok(p, spi, o) && rd_ok(p, spi, o + rd_t(p, spi, o))
}

/// The error a failed word read at offset `o` returns.
pub open spec fn rdw_err(p: BusPort, spi: bool, o: int) -> Error {
    if !rd_ok(p, spi, o) {
        rd_err(p, spi, o)
    } else {
        rd_err(p, spi, o + rd_t(p, spi, o))
    }
}

/// The low byte a word read at offset `o` returns; it is read first.
pub open spec fn rdw_lo(p: BusPort, spi: bool, o: int) -> u8 {
    rd_byte(p, spi, o)
}

/// The high byte a word read at offset `o` returns; it is read second,
/// so the device may update the pair between the two reads.
pub open spec fn rdw_hi(p: BusPort, spi: bool, o: int) -> u8 {
    rd_byte(p, spi, o + rd_t(p, spi, o))
}

/// The transactions a word read appends at `base`: the low register's
/// access, then the high register's.
pub open spec fn rdw_shape(
    log: Seq<BusEvent>,
    base: int,
    p: BusPort,
    spi: bool,
    o: int,
    dev: u8,
    reg_hi: u8,
    reg_lo: u8,
) -> bool {
    &&& rd_shape(log, base, p, spi, o, dev, reg_lo)
    &&& (rd_ok(p, spi, o) ==> rd_shape(
        log,
        base + rd_t(p, spi, o),
        p,
        spi,
        o + rd_t(p, spi, o),
        dev,
        reg_hi,
    ))
}

/// What the word reads promise: the low register is read first, the high
/// register second, and the value is assembled big-endian.
pub open spec fn read_word_post(
    old_s: ICM42688,
    new_s: ICM42688,
    reg_hi: Register,
    reg_lo: Register,
    ok_value: Option<u16>,
    err_value: Option<Error>,
) -> bool {
    if !old_s.ready {
        new_s == old_s && err_value == Some(Error::NotReady)
    } else {
        let p = old_s.port_spec();
        let spi = old_s.is_spi();
        &&& new_s.same_device(old_s)
        &&& new_s.ready == old_s.ready
        &&& new_s.cs_idle()
        &&& new_s.port_spec().next == p.after(rdw_t(p, spi, 0))
        &&& grew(new_s.port_spec().log@, p.log@, rdw_t(p, spi, 0))
        &&& rdw_shape(
            new_s.port_spec().log@,
            p.log@.len() as int,
            p,
            spi,
            0,
            old_s.dev_addr(),
            reg_hi.addr_spec(),
            reg_lo.addr_spec(),
        )
        &&& (rdw_ok(p, spi, 0) ==> ok_value == Some(to_u16(rdw_hi(p, spi, 0), rdw_lo(p, spi, 0)))
            && err_value is None)
        &&& (!rdw_ok(p, spi, 0) ==> err_value == Some(rdw_err(p, spi, 0)) && ok_value is None)
    }
}

impl ICM42688 {
    /// Read the registers of a sixteen-bit value — the low byte first,
    /// then the high byte — and assemble them big-endian.  The two reads
    /// are not atomic: the device may update the pair in between; that
    /// small tear risk is accepted.
    pub fn read_register_u16(&mut self, reg_hi: Register, reg_lo: Register) -> (r: Result<
        u16,
        Error,
    >)
        ensures
            (r matches Ok(v) ==> read_word_post(
                *old(self),
                *final(self),
                reg_hi,
                reg_lo,
                Some(v),
                Option::None,
            )),
            (r matches Err(e) ==> read_word_post(
                *old(self),
                *final(self),
                reg_hi,
                reg_lo,
                Option::None,
                Some(e),
            )),
    {
        let ghost s0 = *self;
        let data_lo = match self.read_register(reg_lo) {
            Ok(v) => v,
            Err(e) => {
                return Err(e);
            },
        };
        let ghost s1 = *self;
        proof {
            crate::bus::lemma_port_shift(
                s0.port_spec(),
                s1.port_spec(),
                rd_t(s0.port_spec(), s0.is_spi(), 0),
                0,
            );
            crate::bus::lemma_port_shift(
                s0.port_spec(),
                s1.port_spec(),
                rd_t(s0.port_spec(), s0.is_spi(), 0),
                1,
            );
        }
        let data_hi = match self.read_register(reg_hi) {
            Ok(v) => v,
            Err(e) => {
                proof {
                    crate::bus::lemma_grew_trans(
                        s0.port_spec().log@,
                        s1.port_spec().log@,
                        final(self).port_spec().log@,
                        rd_t(s0.port_spec(), s0.is_spi(), 0),
                        rd_t(s1.port_spec(), s1.is_spi(), 0),
                    );
                }
                return Err(e);
            },
        };
        proof {
            crate::bus::lemma_grew_trans(
                s0.port_spec().log@,
                s1.port_spec().log@,
                final(self).port_spec().log@,
                rd_t(s0.port_spec(), s0.is_spi(), 0),
                rd_t(s1.port_spec(), s1.is_spi(), 0),
            );
            lemma_be_u16();
        }
        let v: u16 = ((data_hi as u16) << 8) | (data_lo as u16);
        Ok(v)
    }

    /// Read a signed sixteen-bit value: the low byte first, then the high
    /// byte, assembled big-endian in two's complement.
    pub fn read_register_i16(&mut self, reg_hi: Register, reg_lo: Register) -> (r: Result<
        i16,
        Error,
    >)
        ensures
            (r matches Ok(w) ==> read_word_post(
                *old(self),
                *final(self),
                reg_hi,
                reg_lo,
                Some(to_u16(rdw_hi(old(self).port_spec(), old(self).is_spi(), 0), rdw_lo(old(self).port_spec(), old(self).is_spi(), 0))),
                Option::None,
            ) && w as int == i16_val(
                rdw_hi(old(self).port_spec(), old(self).is_spi(), 0),
                rdw_lo(old(self).port_spec(), old(self).is_spi(), 0),
            )),
            (r matches Err(e) ==> read_word_post(
                *old(self),
                *final(self),
                reg_hi,
                reg_lo,
                Option::None,
                Some(e),
            )),
    {
        let v = match self.read_register_u16(reg_hi, reg_lo) {
            Ok(v) => v,
            Err(e) => {
                return Err(e);
            },
        };
        let w: i16 = if v < 0x8000 {
            v as i16
        } else {
            let d: u16 = 0xFFFFu16 - v;
            -1i16 - (d as i16)
        };
        Ok(w)
    }
}


/// A device-specific decode failure lifted into the driver's error type.
pub open spec fn lift_sensor<T>(x: Result<T, SensorError>) -> Result<T, Error> {
    match x {
        Ok(v) => Ok(v),
        Err(e) => Err(Error::SensorError(e)),
    }
}

/// What every configuration getter promises: one register read, then the
/// named field decoded by `dec` — a decode failure is an error, never a
/// nearest fit.
pub open spec fn decode_getter_post<T>(
    old_s: ICM42688,
    new_s: ICM42688,
    reg: Register,
    dec: spec_fn(u8) -> Result<T, SensorError>,
    r: Result<T, Error>,
) -> bool {
    if !old_s.ready {
        new_s == old_s && r == Err::<T, Error>(Error::NotReady)
    } else {
        let p = old_s.port_spec();
        let spi = old_s.is_spi();
        &&& new_s.same_device(old_s)
        &&& new_s.ready == old_s.ready
        &&& new_s.cs_idle()
        &&& new_s.port_spec().next == p.after(rd_t(p, spi, 0))
        &&& grew(new_s.port_spec().log@, p.log@, rd_t(p, spi, 0))
        &&& rd_shape(
            new_s.port_spec().log@,
            p.log@.len() as int,
            p,
            spi,
            0,
            old_s.dev_addr(),
            reg.addr_spec(),
        )
        &&& (rd_ok(p, spi, 0) ==> r == lift_sensor(dec(rd_byte(p, spi, 0))))
        &&& (!rd_ok(p, spi, 0) ==> r == Err::<T, Error>(rd_err(p, spi, 0)))
    }
}

/// Transfers a three-axis read consumes at offset `o`: three word reads,
/// stopping at the first failure.
pub open spec fn rdv_t(p: BusPort, spi: bool, o: int) -> int {
    let t0 = rdw_t(p, spi, o);
    if !rdw_ok(p, spi, o) {
        t0
    } else {
        let t1 = rdw_t(p, spi, o + t0);
        if !rdw_ok(p, spi, o + t0) {
            t0 + t1
        } else {
            t0 + t1 + rdw_t(p, spi, o + t0 + t1)
        }
    }
}

/// Whether all three word reads of a three-axis read succeed.
pub open spec fn rdv_ok(p: BusPort, spi: bool, o: int) -> bool {
    let t0 = rdw_t(p, spi, o);
    let t1 = rdw_t(p, spi, o + t0);
    rdw_ok(p, spi, o) && rdw_ok(p, spi, o + t0) && rdw_ok(p, spi, o + t0 + t1)
}

/// The error a failed three-axis read returns: the first failure's.
pub open spec fn rdv_err(p: BusPort, spi: bool, o: int) -> Error {
    let t0 = rdw_t(p, spi, o);
    let t1 = rdw_t(p, spi, o + t0);
    if !rdw_ok(p, spi, o) {
        rdw_err(p, spi, o)
    } else if !rdw_ok(p, spi, o + t0) {
        rdw_err(p, spi, o + t0)
    } else {
        rdw_err(p, spi, o + t0 + t1)
    }
}

/// What the raw three-axis reads promise: the X, Y and Z words read in
/// that order, each low byte before its high byte, each axis assembled
/// big-endian in two's complement.
pub open spec fn read_vector_post(
    old_s: ICM42688,
    new_s: ICM42688,
    x1: Register,
    x0: Register,
    y1: Register,
    y0: Register,
    z1: Register,
    z0: Register,
    r: Result<I16x3, Error>,
) -> bool {
    if !old_s.ready {
        new_s == old_s && r == Err::<I16x3, Error>(Error::NotReady)
    } else {
        let p = old_s.port_spec();
        let spi = old_s.is_spi();
        let dev = old_s.dev_addr();
        let base = p.log@.len() as int;
        let log = new_s.port_spec().log@;
        let t0 = rdw_t(p, spi, 0);
        let t1 = rdw_t(p, spi, t0);
        &&& new_s.same_device(old_s)
        &&& new_s.ready == old_s.ready
        &&& new_s.cs_idle()
        &&& new_s.port_spec().next == p.after(rdv_t(p, spi, 0))
        &&& grew(log, p.log@, rdv_t(p, spi, 0))
        &&& rdw_shape(log, base, p, spi, 0, dev, x1.addr_spec(), x0.addr_spec())
        &&& (rdw_ok(p, spi, 0) ==> rdw_shape(
            log,
            base + t0,
            p,
            spi,
            t0,
            dev,
            y1.addr_spec(),
            y0.addr_spec(),
        ))
        &&& (rdw_ok(p, spi, 0) && rdw_ok(p, spi, t0) ==> rdw_shape(
            log,
            base + t0 + t1,
            p,
            spi,
            t0 + t1,
            dev,
            z1.addr_spec(),
            z0.addr_spec(),
        ))
        &&& (rdv_ok(p, spi, 0) ==> (r matches Ok(v) && v.x as int == i16_val(
            rdw_hi(p, spi, 0),
            rdw_lo(p, spi, 0),
        ) && v.y as int == i16_val(rdw_hi(p, spi, t0), rdw_lo(p, spi, t0)) && v.z as int == i16_val(
            rdw_hi(p, spi, t0 + t1),
            rdw_lo(p, spi, t0 + t1),
        )))
        &&& (!rdv_ok(p, spi, 0) ==> r == Err::<I16x3, Error>(rdv_err(p, spi, 0)))
    }
}

impl ICM42688 {
    /// Read the device's self-identification register.
    pub fn device_id(&mut self) -> (r: Result<u8, Error>)
        ensures
            read_register_post(*old(self), *final(self), Register::WHO_AM_I, r),
    {
        self.read_register(Register::WHO_AM_I)
    }

    /// Request a soft reset: a masked write of the reset bit of the
    /// device-configuration register.
    pub fn soft_reset(&mut self) -> (r: Result<(), Error>)
        ensures
            update_register_post(
                *old(self),
                *final(self),
                Register::DEVICE_CONFIG,
                0x01,
                0b0000_0001,
                r,
            ),
    {
        self.update_register(Register::DEVICE_CONFIG, 0x01, 0b0000_0001)
    }

    /// Set the slew rate of the two-wire bus pads.
    pub fn set_i2c_slew_rate(&mut self, slew_rate: I2CSlewRate) -> (r: Result<(), Error>)
        ensures
            write_register_post(
                *old(self),
                *final(self),
                Register::DRIVE_CONFIG,
                slew_rate.bits_spec(),
                r,
            ),
    {
        let bits = slew_rate.bits();
        match self.write_register(Register::DRIVE_CONFIG, bits) {
            Ok(()) => Ok(()),
            Err(e) => Err(e),
        }
    }

    /// The currently configured power mode.
    pub fn power_mode(&mut self) -> (r: Result<PowerMode, Error>)
        ensures
            decode_getter_post(
                *old(self),
                *final(self),
                Register::PWR_MGMT0,
                |b: u8| PowerMode::from_bits_spec(b & 0x3F),
                r,
            ),
    {
        let b = match self.read_register(Register::PWR_MGMT0) {
            Ok(b) => b,
            Err(e) => {
                return Err(e);
            },
        };
        match PowerMode::from_bits(b & 0x3F) {
            Ok(v) => Ok(v),
            Err(e) => Err(Error::SensorError(e)),
        }
    }

    /// Set the power mode of the device.
    pub fn set_power_mode(&mut self, mode: PowerMode) -> (r: Result<(), Error>)
        ensures
            update_register_post(
                *old(self),
                *final(self),
                Register::PWR_MGMT0,
                mode.bits_spec(),
                PowerMode::BITMASK,
                r,
            ),
    {
        let bits = mode.bits();
        self.update_register(Register::PWR_MGMT0, bits, PowerMode::BITMASK)
    }

    /// The currently configured accelerometer range.
    pub fn accel_range(&mut self) -> (r: Result<AccelRange, Error>)
        ensures
            decode_getter_post(
                *old(self),
                *final(self),
                Register::ACCEL_CONFIG0,
                |b: u8| AccelRange::from_bits_spec(b >> 5),
                r,
            ),
    {
        let b = match self.read_register(Register::ACCEL_CONFIG0) {
            Ok(b) => b,
            Err(e) => {
                return Err(e);
            },
        };
        match AccelRange::from_bits(b >> 5) {
            Ok(v) => Ok(v),
            Err(e) => Err(Error::SensorError(e)),
        }
    }

    /// Set the range of the accelerometer.
    pub fn set_accel_range(&mut self, range: AccelRange) -> (r: Result<(), Error>)
        ensures
            update_register_post(
                *old(self),
                *final(self),
                Register::ACCEL_CONFIG0,
                range.bits_spec(),
                AccelRange::BITMASK,
                r,
            ),
    {
        let bits = range.bits();
        self.update_register(Register::ACCEL_CONFIG0, bits, AccelRange::BITMASK)
    }

    /// The currently configured gyroscope range.
    pub fn gyro_range(&mut self) -> (r: Result<GyroRange, Error>)
        ensures
            decode_getter_post(
                *old(self),
                *final(self),
                Register::GYRO_CONFIG0,
                |b: u8| GyroRange::from_bits_spec(b >> 5),
                r,
            ),
    {
        let b = match self.read_register(Register::GYRO_CONFIG0) {
            Ok(b) => b,
            Err(e) => {
                return Err(e);
            },
        };
        match GyroRange::from_bits(b >> 5) {
            Ok(v) => Ok(v),
            Err(e) => Err(Error::SensorError(e)),
        }
    }

    /// Set the range of the gyroscope.
    pub fn set_gyro_range(&mut self, range: GyroRange) -> (r: Result<(), Error>)
        ensures
            update_register_post(
                *old(self),
                *final(self),
                Register::GYRO_CONFIG0,
                range.bits_spec(),
                GyroRange::BITMASK,
                r,
            ),
    {
        let bits = range.bits();
        self.update_register(Register::GYRO_CONFIG0, bits, GyroRange::BITMASK)
    }

    /// The currently configured output data rate of the gyroscope.
    pub fn gyro_odr(&mut self) -> (r: Result<GyroODR, Error>)
        ensures
            decode_getter_post(
                *old(self),
                *final(self),
                Register::GYRO_CONFIG0,
                |b: u8| GyroODR::from_bits_spec(b & 0x0F),
                r,
            ),
    {
        let b = match self.read_register(Register::GYRO_CONFIG0) {
            Ok(b) => b,
            Err(e) => {
                return Err(e);
            },
        };
        match GyroODR::from_bits(b & 0x0F) {
            Ok(v) => Ok(v),
            Err(e) => Err(Error::SensorError(e)),
        }
    }

    /// Set the output data rate of the gyroscope.
    pub fn set_gyro_odr(&mut self, odr: GyroODR) -> (r: Result<(), Error>)
        ensures
            update_register_post(
                *old(self),
                *final(self),
                Register::GYRO_CONFIG0,
                odr.bits_spec(),
                GyroODR::BITMASK,
                r,
            ),
    {
        let bits = odr.bits();
        self.update_register(Register::GYRO_CONFIG0, bits, GyroODR::BITMASK)
    }

    /// The currently configured low-pass bandwidth of the gyroscope.
    pub fn gyro_bandwith(&mut self) -> (r: Result<GyroBandwidth, Error>)
        ensures
            decode_getter_post(
                *old(self),
                *final(self),
                Register::GYRO_ACCEL_CONFIG0,
                |b: u8| GyroBandwidth::from_bits_spec(b & 0x0F),
                r,
            ),
    {
        let b = match self.read_register(Register::GYRO_ACCEL_CONFIG0) {
            Ok(b) => b,
            Err(e) => {
                return Err(e);
            },
        };
        match GyroBandwidth::from_bits(b & 0x0F) {
            Ok(v) => Ok(v),
            Err(e) => Err(Error::SensorError(e)),
        }
    }

    /// Set the low-pass bandwidth of the gyroscope.
    pub fn set_gyro_bw(&mut self, range: GyroBandwidth) -> (r: Result<(), Error>)
        ensures
            update_register_post(
                *old(self),
                *final(self),
                Register::GYRO_ACCEL_CONFIG0,
                range.bits_spec(),
                GyroBandwidth::BITMASK,
                r,
            ),
    {
        let bits = range.bits();
        self.update_register(Register::GYRO_ACCEL_CONFIG0, bits, GyroBandwidth::BITMASK)
    }

    /// The currently configured output data rate of the accelerometer.
    pub fn accel_odr(&mut self) -> (r: Result<AccelODR, Error>)
        ensures
            decode_getter_post(
                *old(self),
                *final(self),
                Register::ACCEL_CONFIG0,
                |b: u8| AccelODR::from_bits_spec(b & 0x0F),
                r,
            ),
    {
        let b = match self.read_register(Register::ACCEL_CONFIG0) {
            Ok(b) => b,
            Err(e) => {
                return Err(e);
            },
        };
        match AccelODR::from_bits(b & 0x0F) {
            Ok(v) => Ok(v),
            Err(e) => Err(Error::SensorError(e)),
        }
    }

    /// Set the output data rate of the accelerometer.
    pub fn set_accel_odr(&mut self, odr: AccelODR) -> (r: Result<(), Error>)
        ensures
            update_register_post(
                *old(self),
                *final(self),
                Register::ACCEL_CONFIG0,
                odr.bits_spec(),
                AccelODR::BITMASK,
                r,
            ),
    {
        let bits = odr.bits();
        self.update_register(Register::ACCEL_CONFIG0, bits, AccelODR::BITMASK)
    }

    /// The currently configured low-pass bandwidth of the accelerometer,
    /// read from the high nibble of the shared filter register.
    pub fn accel_bandwith(&mut self) -> (r: Result<AccelBandwidth, Error>)
        ensures
            decode_getter_post(
                *old(self),
                *final(self),
                Register::GYRO_ACCEL_CONFIG0,
                |b: u8| AccelBandwidth::from_bits_spec((b >> 4) & 0x0F),
                r,
            ),
    {
        let b = match self.read_register(Register::GYRO_ACCEL_CONFIG0) {
            Ok(b) => b,
            Err(e) => {
                return Err(e);
            },
        };
        match AccelBandwidth::from_bits((b >> 4) & 0x0F) {
            Ok(v) => Ok(v),
            Err(e) => Err(Error::SensorError(e)),
        }
    }

    /// Set the low-pass bandwidth of the accelerometer.
    pub fn set_accel_bw(&mut self, range: AccelBandwidth) -> (r: Result<(), Error>)
        ensures
            update_register_post(
                *old(self),
                *final(self),
                Register::GYRO_ACCEL_CONFIG0,
                range.bits_spec(),
                AccelBandwidth::BITMASK,
                r,
            ),
    {
        let bits = range.bits();
        self.update_register(Register::GYRO_ACCEL_CONFIG0, bits, AccelBandwidth::BITMASK)
    }

    /// Read the raw value of the built-in temperature sensor.
    pub fn temperature_raw(&mut self) -> (r: Result<i16, Error>)
        ensures
            (r matches Ok(w) ==> read_word_post(
                *old(self),
                *final(self),
                Register::TEMP_DATA1,
                Register::TEMP_DATA0,
                Some(
                    to_u16(
                        rdw_hi(old(self).port_spec(), old(self).is_spi(), 0),
                        rdw_lo(old(self).port_spec(), old(self).is_spi(), 0),
                    ),
                ),
                Option::None,
            ) && w as int == i16_val(
                rdw_hi(old(self).port_spec(), old(self).is_spi(), 0),
                rdw_lo(old(self).port_spec(), old(self).is_spi(), 0),
            )),
            (r matches Err(e) ==> read_word_post(
                *old(self),
                *final(self),
                Register::TEMP_DATA1,
                Register::TEMP_DATA0,
                Option::None,
                Some(e),
            )),
    {
        self.read_register_i16(Register::TEMP_DATA1, Register::TEMP_DATA0)
    }

    /// Read the time stamp latched at the last frame-sync event.
    pub fn read_tmst(&mut self) -> (r: Result<u16, Error>)
        ensures
            (r matches Ok(v) ==> read_word_post(
                *old(self),
                *final(self),
                Register::TMST_FSYNCH,
                Register::TMST_FSYNCL,
                Some(v),
                Option::None,
            )),
            (r matches Err(e) ==> read_word_post(
                *old(self),
                *final(self),
                Register::TMST_FSYNCH,
                Register::TMST_FSYNCL,
                Option::None,
                Some(e),
            )),
    {
        self.read_register_u16(Register::TMST_FSYNCH, Register::TMST_FSYNCL)
    }

    /// Read how many bytes wait in the FIFO.
    pub fn read_fifo_cnt(&mut self) -> (r: Result<u16, Error>)
        ensures
            (r matches Ok(v) ==> read_word_post(
                *old(self),
                *final(self),
                Register::FIFO_COUNTH,
                Register::FIFO_COUNTL,
                Some(v),
                Option::None,
            )),
            (r matches Err(e) ==> read_word_post(
                *old(self),
                *final(self),
                Register::FIFO_COUNTH,
                Register::FIFO_COUNTL,
                Option::None,
                Some(e),
            )),
    {
        self.read_register_u16(Register::FIFO_COUNTH, Register::FIFO_COUNTL)
    }

    /// Read the raw gyroscope counts of the three axes.
    pub fn gyro_raw(&mut self) -> (r: Result<I16x3, Error>)
        ensures
            read_vector_post(
                *old(self),
                *final(self),
                Register::GYRO_DATA_X1,
                Register::GYRO_DATA_X0,
                Register::GYRO_DATA_Y1,
                Register::GYRO_DATA_Y0,
                Register::GYRO_DATA_Z1,
                Register::GYRO_DATA_Z0,
                r,
            ),
    {
        self.read_vector(
            Register::GYRO_DATA_X1,
            Register::GYRO_DATA_X0,
            Register::GYRO_DATA_Y1,
            Register::GYRO_DATA_Y0,
            Register::GYRO_DATA_Z1,
            Register::GYRO_DATA_Z0,
        )
    }

    /// Read the raw accelerometer counts of the three axes.
    pub fn accel_raw(&mut self) -> (r: Result<I16x3, Error>)
        ensures
            read_vector_post(
                *old(self),
                *final(self),
                Register::ACCEL_DATA_X1,
                Register::ACCEL_DATA_X0,
                Register::ACCEL_DATA_Y1,
                Register::ACCEL_DATA_Y0,
                Register::ACCEL_DATA_Z1,
                Register::ACCEL_DATA_Z0,
                r,
            ),
    {
        self.read_vector(
            Register::ACCEL_DATA_X1,
            Register::ACCEL_DATA_X0,
            Register::ACCEL_DATA_Y1,
            Register::ACCEL_DATA_Y0,
            Register::ACCEL_DATA_Z1,
            Register::ACCEL_DATA_Z0,
        )
    }

    /// Read one axis word after another: X, then Y, then Z.
    #[verifier::rlimit(100)]
    #[verifier::spinoff_prover]
    fn read_vector(
        &mut self,
        x1: Register,
        x0: Register,
        y1: Register,
        y0: Register,
        z1: Register,
        z0: Register,
    ) -> (r: Result<I16x3, Error>)
        ensures
            read_vector_post(*old(self), *final(self), x1, x0, y1, y0, z1, z0, r),
    {
        let ghost s0 = *self;
        let x = match self.read_register_i16(x1, x0) {
            Ok(v) => v,
            Err(e) => {
                return Err(e);
            },
        };
        let ghost s1 = *self;
        proof {
            let t0 = rdw_t(s0.port_spec(), s0.is_spi(), 0);
            crate::bus::lemma_port_shift(s0.port_spec(), s1.port_spec(), t0, 0);
            crate::bus::lemma_port_shift(s0.port_spec(), s1.port_spec(), t0, 1);
            crate::bus::lemma_port_shift(s0.port_spec(), s1.port_spec(), t0, 2);
            crate::bus::lemma_port_shift(s0.port_spec(), s1.port_spec(), t0, 3);
        }
        let y = match self.read_register_i16(y1, y0) {
            Ok(v) => v,
            Err(e) => {
                proof {
                    crate::bus::lemma_grew_trans(
                        s0.port_spec().log@,
                        s1.port_spec().log@,
                        final(self).port_spec().log@,
                        rdw_t(s0.port_spec(), s0.is_spi(), 0),
                        rdw_t(s1.port_spec(), s1.is_spi(), 0),
                    );
                }
                return Err(e);
            },
        };
        let ghost s2 = *self;
        proof {
            let t0 = rdw_t(s0.port_spec(), s0.is_spi(), 0);
            let t1 = rdw_t(s1.port_spec(), s1.is_spi(), 0);
            crate::bus::lemma_grew_trans(
                s0.port_spec().log@,
                s1.port_spec().log@,
                s2.port_spec().log@,
                t0,
                t1,
            );
            crate::bus::lemma_port_shift(s1.port_spec(), s2.port_spec(), t1, 0);
            crate::bus::lemma_port_shift(s1.port_spec(), s2.port_spec(), t1, 1);
            crate::bus::lemma_port_shift(s1.port_spec(), s2.port_spec(), t1, 2);
            crate::bus::lemma_port_shift(s1.port_spec(), s2.port_spec(), t1, 3);
            crate::bus::lemma_port_shift(s0.port_spec(), s2.port_spec(), t0 + t1, 0);
            crate::bus::lemma_port_shift(s0.port_spec(), s2.port_spec(), t0 + t1, 1);
            crate::bus::lemma_port_shift(s0.port_spec(), s2.port_spec(), t0 + t1, 2);
            crate::bus::lemma_port_shift(s0.port_spec(), s2.port_spec(), t0 + t1, 3);
            crate::bus::lemma_port_shift(s0.port_spec(), s1.port_spec(), t0, t1);
        }
        let z = match self.read_register_i16(z1, z0) {
            Ok(v) => v,
            Err(e) => {
                proof {
                    crate::bus::lemma_grew_trans(
                        s0.port_spec().log@,
                        s2.port_spec().log@,
                        final(self).port_spec().log@,
                        rdw_t(s0.port_spec(), s0.is_spi(), 0) + rdw_t(
                            s1.port_spec(),
                            s1.is_spi(),
                            0,
                        ),
                        rdw_t(s2.port_spec(), s2.is_spi(), 0),
                    );
                }
                return Err(e);
            },
        };
        proof {
            crate::bus::lemma_grew_trans(
                s0.port_spec().log@,
                s2.port_spec().log@,
                final(self).port_spec().log@,
                rdw_t(s0.port_spec(), s0.is_spi(), 0) + rdw_t(s1.port_spec(), s1.is_spi(), 0),
                rdw_t(s2.port_spec(), s2.is_spi(), 0),
            );
        }
        Ok(I16x3::new(x, y, z))
    }
}


/// What `read_fifo` promises: the FIFO address goes out, the transport
/// holds the device selected (the four-wire transport with a settling
/// delay between the halves), eight bytes come back, and the first is
/// returned.
pub open spec fn read_fifo_post(
    old_s: ICM42688,
    new_s: ICM42688,
    addr: u8,
    r: Result<u8, Error>,
) -> bool {
    let p = old_s.port_spec();
    let spi = old_s.is_spi();
    let dev = old_s.dev_addr();
    let base = p.log@.len() as int;
    let log = new_s.port_spec().log@;
    if !old_s.ready {
        new_s == old_s && r == Err::<u8, Error>(Error::NotReady)
    } else if p.status_at(0) < 0 {
        // the address write failed; on the four-wire bus the chip stays
        // selected, since the frame was to be held open
        &&& new_s.same_device(old_s)
        &&& new_s.ready
        &&& new_s.port_spec().next == p.after(1)
        &&& grew(log, p.log@, 1)
        &&& is_write(log[base], dev, seq![addr], false)
        &&& new_s.cs_idle() == !spi
        &&& r == Err::<u8, Error>(bus_fail(spi, p.status_at(0)))
    } else {
        &&& new_s.same_device(old_s)
        &&& new_s.ready
        &&& new_s.cs_idle()
        &&& new_s.port_spec().next == p.after(2)
        &&& grew(log, p.log@, if spi { 3int } else { 2int })
        &&& is_write(log[base], dev, seq![addr], false)
        &&& (spi ==> log[base + 1] == (BusEvent::Delay { ms: 10u32 }) && log[base + 2] == (
        BusEvent::Read { addr: dev, n: 8usize, fill: 0u8, stop: true }))
        &&& (!spi ==> log[base + 1] == (BusEvent::Read {
            addr: dev,
            n: 8usize,
            fill: 0u8,
            stop: true,
        }))
        &&& (p.status_at(1) >= 0 ==> r == Ok::<u8, Error>(p.byte_at(1)))
        &&& (p.status_at(1) < 0 ==> r == Err::<u8, Error>(bus_fail(spi, p.status_at(1))))
    }
}

impl ICM42688 {
    /// Read the first of eight bytes fetched from the FIFO at `addr`.
    /// The four-wire transport keeps the chip selected across a settling
    /// delay between addressing and reading.
    pub fn read_fifo(&mut self, addr: u8) -> (r: Result<u8, Error>)
        ensures
            read_fifo_post(*old(self), *final(self), addr, r),
    {
        if !self.ready {
            return Err(Error::NotReady);
        }
        let frame = vec![addr];
        proof {
            assert(frame@ =~= seq![addr]);
        }
        match &mut self.comm {
            CommunicationProtocol::I2C(device) => {
                match device.write_read(&frame, 8) {
                    Ok(buffer) => Ok(buffer[0]),
                    Err(e) => Err(Error::BusError(BusError::I2C(e))),
                }
            },
            CommunicationProtocol::SPI(s) => {
                let ghost q0 = s.port;
                match s.write(&frame, false) {
                    Err(e) => {
                        return Err(Error::BusError(BusError::SPI(e)));
                    },
                    Ok(()) => {},
                }
                let ghost q1 = s.port;
                s.port.delay(10);
                let ghost q2 = s.port;
                proof {
                    crate::bus::lemma_grew_push(q1.log@, BusEvent::Delay { ms: 10u32 });
                    crate::bus::lemma_grew_trans(q0.log@, q1.log@, q2.log@, 1, 1);
                    crate::bus::lemma_port_shift(q0, q2, 1, 0);
                }
                let rd = s.read(0, 8, true);
                proof {
                    crate::bus::lemma_grew_trans(q0.log@, q2.log@, s.port.log@, 2, 1);
                }
                match rd {
                    Ok(buffer) => Ok(buffer[0]),
                    Err(_e) => Err(
                        Error::BusError(BusError::SPI(crate::spi::Error::UnknownError)),
                    ),
                }
            },
        }
    }
}

/// What `init` promises: the identity register is read first; a wrong
/// identity byte aborts with `BadChip` before any configuration write; a
/// soft reset, a settling delay, the two range defaults, and the
/// six-axis low-noise power mode follow in that order, each aborting the
/// sequence with its own error.  The readiness flag is set first and
/// stays set whatever happens.
pub open spec fn init_post(old_s: ICM42688, new_s: ICM42688, r: Result<(), Error>) -> bool {
    let p = old_s.port_spec();
    let spi = old_s.is_spi();
    let dev = old_s.dev_addr();
    let base = p.log@.len() as int;
    let log = new_s.port_spec().log@;
    let t_id = rd_t(p, spi, 0);
    let o1 = t_id;
    let t1 = upd_t(p, spi, o1);
    let o2 = o1 + t1;
    let t2 = upd_t(p, spi, o2);
    let o3 = o2 + t2;
    let t3 = upd_t(p, spi, o3);
    let o4 = o3 + t3;
    let t4 = upd_t(p, spi, o4);
    let id_ok = rd_ok(p, spi, 0) && rd_byte(p, spi, 0) == 0x47;
    let c1 = id_ok && upd_ok(p, spi, o1);
    let c2 = c1 && upd_ok(p, spi, o2);
    let c3 = c2 && upd_ok(p, spi, o3);
    let c4 = c3 && upd_ok(p, spi, o4);
    &&& new_s.same_device(old_s)
    &&& new_s.ready
    &&& new_s.cs_idle()
    &&& rd_shape(log, base, p, spi, 0, dev, Register::WHO_AM_I.addr_spec())
    &&& (id_ok ==> upd_shape(
        log,
        base + t_id,
        p,
        spi,
        o1,
        dev,
        Register::DEVICE_CONFIG.addr_spec(),
        0x01,
        0x01,
    ))
    &&& (c1 ==> log[base + t_id + t1] == (BusEvent::Delay { ms: 1u32 }) && upd_shape(
        log,
        base + t_id + t1 + 1,
        p,
        spi,
        o2,
        dev,
        Register::ACCEL_CONFIG0.addr_spec(),
        AccelRange::G16.bits_spec(),
        AccelRange::BITMASK,
    ))
    &&& (c2 ==> upd_shape(
        log,
        base + t_id + t1 + 1 + t2,
        p,
        spi,
        o3,
        dev,
        Register::GYRO_CONFIG0.addr_spec(),
        GyroRange::Deg2000.bits_spec(),
        GyroRange::BITMASK,
    ))
    &&& (c3 ==> upd_shape(
        log,
        base + t_id + t1 + 1 + t2 + t3,
        p,
        spi,
        o4,
        dev,
        Register::PWR_MGMT0.addr_spec(),
        PowerMode::SixAxisLowNoise.bits_spec(),
        PowerMode::BITMASK,
    ))
    &&& if !rd_ok(p, spi, 0) {
        &&& new_s.port_spec().next == p.after(t_id)
        &&& grew(log, p.log@, t_id)
        &&& r == Err::<(), Error>(rd_err(p, spi, 0))
    } else if rd_byte(p, spi, 0) != 0x47 {
        // the chip is not ours: abort before any configuration write
        &&& new_s.port_spec().next == p.after(t_id)
        &&& grew(log, p.log@, t_id)
        &&& r == Err::<(), Error>(Error::SensorError(SensorError::BadChip))
    } else if !upd_ok(p, spi, o1) {
        &&& new_s.port_spec().next == p.after(o1 + t1)
        &&& grew(log, p.log@, t_id + t1)
        &&& r == Err::<(), Error>(upd_err(p, spi, o1))
    } else if !upd_ok(p, spi, o2) {
        &&& new_s.port_spec().next == p.after(o2 + t2)
        &&& grew(log, p.log@, t_id + t1 + 1 + t2)
        &&& r == Err::<(), Error>(upd_err(p, spi, o2))
    } else if !upd_ok(p, spi, o3) {
        &&& new_s.port_spec().next == p.after(o3 + t3)
        &&& grew(log, p.log@, t_id + t1 + 1 + t2 + t3)
        &&& r == Err::<(), Error>(upd_err(p, spi, o3))
    } else if !upd_ok(p, spi, o4) {
        &&& new_s.port_spec().next == p.after(o4 + t4)
        &&& grew(log, p.log@, t_id + t1 + 1 + t2 + t3 + t4)
        &&& r == Err::<(), Error>(upd_err(p, spi, o4))
    } else {
        &&& new_s.port_spec().next == p.after(o4 + t4)
        &&& grew(log, p.log@, t_id + t1 + 1 + t2 + t3 + t4)
        &&& r == Ok::<(), Error>(())
    }
}

impl ICM42688 {
    /// Initialize the device: mark the driver ready, check the identity
    /// register, soft-reset, wait a settling delay, force both range
    /// registers to their defaults, and wake both sub-sensors in the
    /// six-axis low-noise mode.  The sequence short-circuits on the first
    /// failure; the readiness flag stays set, and a caller must run a
    /// full `init` again rather than trust a partially initialized
    /// device.
    #[verifier::rlimit(100)]
    #[verifier::spinoff_prover]
    pub fn init(&mut self) -> (r: Result<(), Error>)
        ensures
            init_post(*old(self), *final(self), r),
    {
        self.ready = true;
        let ghost s0 = *self;
        let id = match self.device_id() {
            Ok(v) => v,
            Err(e) => {
                return Err(e);
            },
        };
        if id != 0x47 {
            return Err(Error::SensorError(SensorError::BadChip));
        }
        let ghost s1 = *self;
        proof {
            let t_id = rd_t(s0.port_spec(), s0.is_spi(), 0);
            crate::bus::lemma_port_shift(s0.port_spec(), s1.port_spec(), t_id, 0);
            crate::bus::lemma_port_shift(s0.port_spec(), s1.port_spec(), t_id, 1);
            crate::bus::lemma_port_shift(s0.port_spec(), s1.port_spec(), t_id, 2);
        }
        match self.soft_reset() {
            Ok(()) => {},
            Err(e) => {
                proof {
                    crate::bus::lemma_grew_trans(
                        s0.port_spec().log@,
                        s1.port_spec().log@,
                        final(self).port_spec().log@,
                        rd_t(s0.port_spec(), s0.is_spi(), 0),
                        upd_t(s1.port_spec(), s1.is_spi(), 0),
                    );
                }
                return Err(e);
            },
        }
        let ghost s2 = *self;
        proof {
            let t_id = rd_t(s0.port_spec(), s0.is_spi(), 0);
            let t1 = upd_t(s1.port_spec(), s1.is_spi(), 0);
            crate::bus::lemma_grew_trans(
                s0.port_spec().log@,
                s1.port_spec().log@,
                s2.port_spec().log@,
                t_id,
                t1,
            );
        }
        self.settle(1);
        let ghost s3 = *self;
        proof {
            let t_id = rd_t(s0.port_spec(), s0.is_spi(), 0);
            let t1 = upd_t(s0.port_spec(), s0.is_spi(), t_id);
            crate::bus::lemma_grew_push(s2.port_spec().log@, BusEvent::Delay { ms: 1u32 });
            crate::bus::lemma_grew_trans(
                s0.port_spec().log@,
                s2.port_spec().log@,
                s3.port_spec().log@,
                t_id + t1,
                1,
            );
            crate::bus::lemma_port_shift(s1.port_spec(), s3.port_spec(), t1, 0);
            crate::bus::lemma_port_shift(s1.port_spec(), s3.port_spec(), t1, 1);
            crate::bus::lemma_port_shift(s1.port_spec(), s3.port_spec(), t1, 2);
            crate::bus::lemma_port_shift(s0.port_spec(), s3.port_spec(), t_id + t1, 0);
            crate::bus::lemma_port_shift(s0.port_spec(), s3.port_spec(), t_id + t1, 1);
            crate::bus::lemma_port_shift(s0.port_spec(), s3.port_spec(), t_id + t1, 2);
        }
        match self.set_accel_range(AccelRange::G16) {
            Ok(()) => {},
            Err(e) => {
                proof {
                    let t_id = rd_t(s0.port_spec(), s0.is_spi(), 0);
                    let t1 = upd_t(s0.port_spec(), s0.is_spi(), t_id);
                    crate::bus::lemma_grew_trans(
                        s0.port_spec().log@,
                        s3.port_spec().log@,
                        final(self).port_spec().log@,
                        t_id + t1 + 1,
                        upd_t(s3.port_spec(), s3.is_spi(), 0),
                    );
                }
                return Err(e);
            },
        }
        let ghost s4 = *self;
        proof {
            let t_id = rd_t(s0.port_spec(), s0.is_spi(), 0);
            let t1 = upd_t(s0.port_spec(), s0.is_spi(), t_id);
            let t2 = upd_t(s0.port_spec(), s0.is_spi(), t_id + t1);
            crate::bus::lemma_grew_trans(
                s0.port_spec().log@,
                s3.port_spec().log@,
                s4.port_spec().log@,
                t_id + t1 + 1,
                t2,
            );
            crate::bus::lemma_port_shift(s3.port_spec(), s4.port_spec(), t2, 0);
            crate::bus::lemma_port_shift(s3.port_spec(), s4.port_spec(), t2, 1);
            crate::bus::lemma_port_shift(s3.port_spec(), s4.port_spec(), t2, 2);
            crate::bus::lemma_port_shift(s0.port_spec(), s4.port_spec(), t_id + t1 + t2, 0);
            crate::bus::lemma_port_shift(s0.port_spec(), s4.port_spec(), t_id + t1 + t2, 1);
            crate::bus::lemma_port_shift(s0.port_spec(), s4.port_spec(), t_id + t1 + t2, 2);
        }
        match self.set_gyro_range(GyroRange::Deg2000) {
            Ok(()) => {},
            Err(e) => {
                proof {
                    let t_id = rd_t(s0.port_spec(), s0.is_spi(), 0);
                    let t1 = upd_t(s0.port_spec(), s0.is_spi(), t_id);
                    let t2 = upd_t(s0.port_spec(), s0.is_spi(), t_id + t1);
                    crate::bus::lemma_grew_trans(
                        s0.port_spec().log@,
                        s4.port_spec().log@,
                        final(self).port_spec().log@,
                        t_id + t1 + 1 + t2,
                        upd_t(s4.port_spec(), s4.is_spi(), 0),
                    );
                }
                return Err(e);
            },
        }
        let ghost s5 = *self;
        proof {
            let t_id = rd_t(s0.port_spec(), s0.is_spi(), 0);
            let t1 = upd_t(s0.port_spec(), s0.is_spi(), t_id);
            let t2 = upd_t(s0.port_spec(), s0.is_spi(), t_id + t1);
            let t3 = upd_t(s0.port_spec(), s0.is_spi(), t_id + t1 + t2);
            crate::bus::lemma_grew_trans(
                s0.port_spec().log@,
                s4.port_spec().log@,
                s5.port_spec().log@,
                t_id + t1 + 1 + t2,
                t3,
            );
            crate::bus::lemma_port_shift(s4.port_spec(), s5.port_spec(), t3, 0);
            crate::bus::lemma_port_shift(s4.port_spec(), s5.port_spec(), t3, 1);
            crate::bus::lemma_port_shift(s4.port_spec(), s5.port_spec(), t3, 2);
            crate::bus::lemma_port_shift(s0.port_spec(), s5.port_spec(), t_id + t1 + t2 + t3, 0);
            crate::bus::lemma_port_shift(s0.port_spec(), s5.port_spec(), t_id + t1 + t2 + t3, 1);
            crate::bus::lemma_port_shift(s0.port_spec(), s5.port_spec(), t_id + t1 + t2 + t3, 2);
        }
        let r = self.set_power_mode(PowerMode::SixAxisLowNoise);
        proof {
            let t_id = rd_t(s0.port_spec(), s0.is_spi(), 0);
            let t1 = upd_t(s0.port_spec(), s0.is_spi(), t_id);
            let t2 = upd_t(s0.port_spec(), s0.is_spi(), t_id + t1);
            let t3 = upd_t(s0.port_spec(), s0.is_spi(), t_id + t1 + t2);
            crate::bus::lemma_grew_trans(
                s0.port_spec().log@,
                s5.port_spec().log@,
                final(self).port_spec().log@,
                t_id + t1 + 1 + t2 + t3,
                upd_t(s5.port_spec(), s5.is_spi(), 0),
            );
        }
        r
    }
}


impl Default for ICM42688 {
    /// A driver on the two-wire bus at the primary address, with a fresh
    /// port and the readiness flag down.
    fn default() -> (r: ICM42688)
        ensures
            r.comm matches CommunicationProtocol::I2C(d) && d.address == 0x68
                && d.i2c.port.replies@.len() == 0 && d.i2c.port.next == 0
                && d.i2c.port.log@.len() == 0,
            !r.ready,
    {
        ICM42688::with_i2c(crate::i2c::I2C::new(), Address::Primary)
    }
}


/// Writing a nibble-wide field through a masked update stores exactly
/// the field's bits in the low nibble.
proof fn lemma_rmw_low4_extract()
    ensures
        forall|c: u8, x: u8| x < 16 ==> (((c & !0x0Fu8) | (x & 0x0Fu8)) & 0x0Fu8) == x,
{
    assert(forall|c: u8, x: u8| x < 16 ==> (((c & !0x0Fu8) | (x & 0x0Fu8)) & 0x0Fu8) == x)
        by (bit_vector);
}

/// The byte `set_gyro_range` stores decodes back to the range that was
/// set, whatever the register held before: the setter and the getter
/// agree through a faithful register.
pub proof fn lemma_gyro_range_set_get(current: u8, v: GyroRange)
    ensures
        GyroRange::from_bits_spec(
            rmw(current, v.bits_spec(), GyroRange::BITMASK) >> 5,
        ) == Ok::<GyroRange, SensorError>(v),
{
    assert(forall|c: u8, x: u8|
        x < 8 ==> ((((c & !0b1110_0000u8) | ((x << 5) & 0b1110_0000u8))) >> 5) == x)
        by (bit_vector);
    assert(v.field_spec() < 8);
}

/// The byte `set_accel_range` stores decodes back to the range that was
/// set, provided the register's reserved top bit is clear — the getter
/// reads that bit into the field.
pub proof fn lemma_accel_range_set_get(current: u8, v: AccelRange)
    requires
        current & 0x80 == 0,
    ensures
        AccelRange::from_bits_spec(
            rmw(current, v.bits_spec(), AccelRange::BITMASK) >> 5,
        ) == Ok::<AccelRange, SensorError>(v),
{
    assert(forall|c: u8, x: u8|
        c & 0x80 == 0 && x < 4 ==> ((((c & !0b0110_0000u8) | ((x << 5) & 0b0110_0000u8))) >> 5)
            == x) by (bit_vector);
    assert(v.field_spec() < 4);
}

/// The byte `set_power_mode` stores decodes back to the mode that was
/// set, whatever the register held before.
pub proof fn lemma_power_mode_set_get(current: u8, v: PowerMode)
    ensures
        PowerMode::from_bits_spec(
            rmw(current, v.bits_spec(), PowerMode::BITMASK) & 0x3F,
        ) == Ok::<PowerMode, SensorError>(v),
{
    assert(forall|c: u8, x: u8|
        x < 64 ==> (((c & !0b0011_1111u8) | (x & 0b0011_1111u8)) & 0b0011_1111u8) == x)
        by (bit_vector);
    assert(v.field_spec() < 64);
}

/// The byte `set_gyro_odr` stores decodes back to the rate that was set.
pub proof fn lemma_gyro_odr_set_get(current: u8, v: GyroODR)
    ensures
        GyroODR::from_bits_spec(
            rmw(current, v.bits_spec(), GyroODR::BITMASK) & 0x0F,
        ) == Ok::<GyroODR, SensorError>(v),
{
    lemma_rmw_low4_extract();
    assert(v.field_spec() < 16);
}

/// The byte `set_accel_odr` stores decodes back to the rate that was set.
pub proof fn lemma_accel_odr_set_get(current: u8, v: AccelODR)
    ensures
        AccelODR::from_bits_spec(
            rmw(current, v.bits_spec(), AccelODR::BITMASK) & 0x0F,
        ) == Ok::<AccelODR, SensorError>(v),
{
    lemma_rmw_low4_extract();
    assert(v.field_spec() < 16);
}

/// The byte `set_accel_bw` stores decodes back to the bandwidth that
/// was set, whatever the register held before — the pattern lands in the
/// high nibble the getter reads, and the gyroscope's nibble survives.
pub proof fn lemma_accel_bandwidth_set_get(current: u8, v: AccelBandwidth)
    ensures
        AccelBandwidth::from_bits_spec(
            (rmw(current, v.bits_spec(), AccelBandwidth::BITMASK) >> 4) & 0x0F,
        ) == Ok::<AccelBandwidth, SensorError>(v),
        rmw(current, v.bits_spec(), AccelBandwidth::BITMASK) & 0x0F == current & 0x0F,
{
    assert(forall|c: u8, x: u8|
        x < 16 ==> ((((c & !0b1111_0000u8) | ((x << 4) & 0b1111_0000u8)) >> 4) & 0x0Fu8) == x)
        by (bit_vector);
    assert(forall|c: u8, x: u8|
        (((c & !0b1111_0000u8) | ((x << 4) & 0b1111_0000u8)) & 0x0Fu8) == (c & 0x0Fu8))
        by (bit_vector);
    assert(v.field_spec() < 16);
}

/// The byte `set_gyro_bw` stores decodes back to the bandwidth that was
/// set.
pub proof fn lemma_gyro_bandwidth_set_get(current: u8, v: GyroBandwidth)
    ensures
        GyroBandwidth::from_bits_spec(
            rmw(current, v.bits_spec(), GyroBandwidth::BITMASK) & 0x0F,
        ) == Ok::<GyroBandwidth, SensorError>(v),
{
    lemma_rmw_low4_extract();
    assert(v.field_spec() < 16);
}

} // verus!
