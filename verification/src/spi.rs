//! The four-wire synchronous bus transport: chip-select framed transfers.
//!
//! The bus peripheral is an external collaborator reached through a
//! [`BusPort`].  The transport additionally manages an explicit
//! chip-select line: selection is asserted before a transfer and, when the
//! transfer ends the frame, deasserted after it; asserting or deasserting
//! a line already in the requested state does nothing.

use crate::bus::{fitted, grew, is_write, is_write_read, BusEvent, BusPort};
use crate::gpio::{Direction, Pin};
use vstd::prelude::*;

verus! {

/// The default chip-select pin of the platform.
pub const DEFAULT_CS_PIN: u32 = 17;

/// Failures of a four-wire transfer.
#[derive(Clone, Copy, Debug, PartialEq, Eq, Structural)]
pub enum Error {
    UnknownError,
}

/// The outcome of a four-wire transfer that returns no data.
pub open spec fn unit_result(st: int) -> Result<(), Error> {
    if st >= 0 {
        Ok(())
    } else {
        Err(Error::UnknownError)
    }
}

/// The two bus peripherals of the platform.
#[derive(Clone, Copy, Debug, PartialEq, Eq, Structural)]
#[allow(non_camel_case_types)]
pub enum Instance {
    SPI0,
    SPI1,
}

/// A four-wire bus controller with its chip-select line.
#[derive(Debug)]
pub struct SPI {
    pub port: BusPort,
    pub instance: Instance,
    pub cs: Pin,
    pub initialized: bool,
    pub baudrate: u32,
}

impl SPI {
    /// A controller on `instance` with chip-select line `cs_pin` and a
    /// fresh port.
    pub fn new(instance: Instance, cs_pin: Pin) -> (r: SPI)
        ensures
            r.port.replies@ =~= Seq::<crate::bus::BusReply>::empty(),
            r.port.next == 0,
            r.port.log@ =~= Seq::<BusEvent>::empty(),
            r.instance == instance,
            r.cs == cs_pin,
            !r.initialized,
            r.baudrate == 0,
    {
        SPI { port: BusPort::new(), instance, cs: cs_pin, initialized: false, baudrate: 0 }
    }

    /// Put the bus into a known state and enable it: the chip-select line
    /// becomes an output driven high (deselected) and `baudrate` is
    /// adopted.  Must be called before any transfer.
    pub fn init(&mut self, baudrate: u32) -> (r: u32)
        ensures
            final(self).port == old(self).port,
            final(self).instance == old(self).instance,
            final(self).cs == (Pin { gpio: old(self).cs.gpio, dir: Direction::OUT, level: true }),
            final(self).initialized,
            final(self).baudrate == baudrate,
            r == baudrate,
    {
        self.cs.set_direction(Direction::OUT);
        self.cs.put(true);
        self.initialized = true;
        self.baudrate = baudrate;
        baudrate
    }

    /// Adopt a new baudrate.
    pub fn set_baudrate(&mut self, baudrate: u32) -> (r: u32)
        ensures
            final(self).port == old(self).port,
            final(self).instance == old(self).instance,
            final(self).cs == old(self).cs,
            final(self).initialized == old(self).initialized,
            final(self).baudrate == baudrate,
            r == baudrate,
    {
        self.baudrate = baudrate;
        baudrate
    }

    /// The baudrate currently adopted.
    pub fn get_baudrate(&self) -> (r: u32)
        ensures
            r == self.baudrate,
    {
        self.baudrate
    }

    /// Assert chip-select (drive the line low).  Doing so while already
    /// asserted changes nothing.
    fn cs_select(&mut self)
        ensures
            final(self).port == old(self).port,
            final(self).instance == old(self).instance,
            final(self).initialized == old(self).initialized,
            final(self).baudrate == old(self).baudrate,
            final(self).cs == (Pin {
                gpio: old(self).cs.gpio,
                dir: old(self).cs.dir,
                level: false,
            }),
            !old(self).cs.level ==> *final(self) == *old(self),
    {
        if self.cs.get() {
            self.cs.put(false);
        }
    }

    /// Deassert chip-select (drive the line high).  Doing so while already
    /// deasserted changes nothing.
    fn cs_deselect(&mut self)
        ensures
            final(self).port == old(self).port,
            final(self).instance == old(self).instance,
            final(self).initialized == old(self).initialized,
            final(self).baudrate == old(self).baudrate,
            final(self).cs == (Pin {
                gpio: old(self).cs.gpio,
                dir: old(self).cs.dir,
                level: true,
            }),
            old(self).cs.level ==> *final(self) == *old(self),
    {
        if !self.cs.get() {
            self.cs.put(true);
        }
    }

    /// Read `n` bytes while repeating `repeated_tx_data` on the transmit
    /// line; `stop` deasserts chip-select afterwards, otherwise the device
    /// stays selected for a following transfer.
    pub fn read(&mut self, repeated_tx_data: u8, n: usize, stop: bool) -> (r: Result<
        Vec<u8>,
        Error,
    >)
        ensures
            final(self).port.replies == old(self).port.replies,
            final(self).port.next == old(self).port.after(1),
            grew(final(self).port.log@, old(self).port.log@, 1),
            final(self).port.log@.last() == (BusEvent::Read {
                addr: 0u8,
                n,
                fill: repeated_tx_data,
                stop,
            }),
            old(self).port.status_at(0) >= 0 ==> (r matches Ok(d) && d@ == fitted(
                old(self).port.data_at(0),
                n as int,
            )),
            old(self).port.status_at(0) < 0 ==> r == Err::<Vec<u8>, Error>(Error::UnknownError),
            final(self).instance == old(self).instance,
            final(self).initialized == old(self).initialized,
            final(self).baudrate == old(self).baudrate,
            final(self).cs == (Pin { gpio: old(self).cs.gpio, dir: old(self).cs.dir, level: stop }),
    {
        self.cs_select();
        self.port.record(BusEvent::Read { addr: 0, n, fill: repeated_tx_data, stop });
        proof {
            crate::bus::lemma_grew_push(old(self).port.log@, final(self).port.log@.last());
        }
        let (st, data) = self.port.take_reply(n);
        if stop {
            self.cs_deselect();
        }
        if st >= 0 {
            Ok(data)
        } else {
            Err(Error::UnknownError)
        }
    }

    /// Send `src`; `stop` deasserts chip-select afterwards.
    pub fn write(&mut self, src: &Vec<u8>, stop: bool) -> (r: Result<(), Error>)
        ensures
            final(self).port.replies == old(self).port.replies,
            final(self).port.next == old(self).port.after(1),
            grew(final(self).port.log@, old(self).port.log@, 1),
            is_write(final(self).port.log@.last(), 0u8, src@, stop),
            r == unit_result(old(self).port.status_at(0)),
            final(self).instance == old(self).instance,
            final(self).initialized == old(self).initialized,
            final(self).baudrate == old(self).baudrate,
            final(self).cs == (Pin { gpio: old(self).cs.gpio, dir: old(self).cs.dir, level: stop }),
    {
        self.cs_select();
        let bytes = crate::i2c::clone_bytes(src);
        self.port.record(BusEvent::Write { addr: 0, bytes, stop });
        proof {
            crate::bus::lemma_grew_push(old(self).port.log@, final(self).port.log@.last());
        }
        let (st, _data) = self.port.take_reply(0);
        if stop {
            self.cs_deselect();
        }
        if st >= 0 {
            Ok(())
        } else {
            Err(Error::UnknownError)
        }
    }

    /// Send `src` and simultaneously read `n` bytes back, as one framed
    /// transaction; chip-select is deasserted afterwards.
    pub fn write_read(&mut self, src: &Vec<u8>, n: usize) -> (r: Result<Vec<u8>, Error>)
        ensures
            final(self).port.replies == old(self).port.replies,
            final(self).port.next == old(self).port.after(1),
            grew(final(self).port.log@, old(self).port.log@, 1),
            is_write_read(final(self).port.log@.last(), 0u8, src@, n as int),
            old(self).port.status_at(0) >= 0 ==> (r matches Ok(d) && d@ == fitted(
                old(self).port.data_at(0),
                n as int,
            )),
            old(self).port.status_at(0) < 0 ==> r == Err::<Vec<u8>, Error>(Error::UnknownError),
            final(self).instance == old(self).instance,
            final(self).initialized == old(self).initialized,
            final(self).baudrate == old(self).baudrate,
            final(self).cs == (Pin { gpio: old(self).cs.gpio, dir: old(self).cs.dir, level: true }),
    {
        self.cs_select();
        let bytes = crate::i2c::clone_bytes(src);
        self.port.record(BusEvent::WriteRead { addr: 0, bytes, n });
        proof {
            crate::bus::lemma_grew_push(old(self).port.log@, final(self).port.log@.last());
        }
        let (st, data) = self.port.take_reply(n);
        self.cs_deselect();
        if st >= 0 {
            Ok(data)
        } else {
            Err(Error::UnknownError)
        }
    }
}

impl Default for SPI {
    /// The default controller: the first peripheral, the platform's
    /// default chip-select pin, uninitialized.
    fn default() -> (r: SPI)
        ensures
            r.port.replies@ =~= Seq::<crate::bus::BusReply>::empty(),
            r.port.next == 0,
            r.port.log@ =~= Seq::<BusEvent>::empty(),
            r.instance == Instance::SPI0,
            r.cs == (Pin { gpio: DEFAULT_CS_PIN, dir: Direction::IN, level: false }),
            !r.initialized,
            r.baudrate == 0,
    {
        SPI::new(Instance::SPI0, Pin::new_init(DEFAULT_CS_PIN))
    }
}

} // verus!
