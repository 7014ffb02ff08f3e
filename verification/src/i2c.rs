//! The two-wire bus transport: address-framed blocking transfers.
//!
//! The bus peripheral is an external collaborator reached through a
//! [`BusPort`].  Every transfer records one transaction in the port's log
//! and consumes one scripted reply; the reply's status code selects the
//! error exactly as the platform's status codes prescribe: `-1` is a
//! timeout, every other negative value a generic failure.

use crate::bus::{fitted, grew, is_write, BusEvent, BusPort};
use vstd::prelude::*;

verus! {

/// Failures of a two-wire transfer.
#[derive(Clone, Copy, Debug, PartialEq, Eq, Structural)]
pub enum Error {
    /// The device did not acknowledge its address.
    AddressNotAcknowledged,
    /// No device answered at the address.
    NoDevicePresent,
    /// Generic failure: no acknowledgment or no device present.
    Both,
    /// The deadline passed before the transfer completed.
    Timeout,
}

/// The error a negative bus status maps to.
pub open spec fn status_error(st: int) -> Error {
    if st == -1 {
        Error::Timeout
    } else {
        Error::Both
    }
}

/// The outcome of a transfer that returns no data.
pub open spec fn unit_result(st: int) -> Result<(), Error> {
    if st >= 0 {
        Ok(())
    } else {
        Err(status_error(st))
    }
}

/// True of the two-wire addresses reserved by the bus standard, which a
/// bus scan must not probe.
pub open spec fn reserved_addr_spec(addr: u8) -> bool {
    (addr & 0x78) == 0 || (addr & 0x78) == 0x78
}

/// True of the two-wire addresses reserved by the bus standard.
pub fn reserved_addr(addr: u8) -> (r: bool)
    ensures
        r == reserved_addr_spec(addr),
{
    (addr & 0x78) == 0 || (addr & 0x78) == 0x78
}

/// A two-wire bus controller.
#[derive(Debug)]
pub struct I2C {
    pub port: BusPort,
}

impl I2C {
    /// A controller with a fresh port: nothing scripted, nothing logged.
    pub fn new() -> (r: I2C)
        ensures
            r.port.replies@ =~= Seq::<crate::bus::BusReply>::empty(),
            r.port.next == 0,
            r.port.log@ =~= Seq::<BusEvent>::empty(),
    {
        I2C { port: BusPort::new() }
    }

    /// Send `src` to the device at `address`; `stop` releases the bus
    /// afterwards.
    pub fn write(&mut self, address: u8, src: &Vec<u8>, stop: bool) -> (r: Result<(), Error>)
        ensures
            final(self).port.replies == old(self).port.replies,
            final(self).port.next == old(self).port.after(1),
            grew(final(self).port.log@, old(self).port.log@, 1),
            is_write(final(self).port.log@.last(), address, src@, stop),
            r == unit_result(old(self).port.status_at(0)),
    {
        let bytes = clone_bytes(src);
        self.port.record(BusEvent::Write { addr: address, bytes, stop });
        proof {
            crate::bus::lemma_grew_push(old(self).port.log@, final(self).port.log@.last());
        }
        let (st, _data) = self.port.take_reply(0);
        if st >= 0 {
            Ok(())
        } else if st == -1 {
            Err(Error::Timeout)
        } else {
            Err(Error::Both)
        }
    }

    /// Send `src` with a deadline; the collaborator reports `-1` when the
    /// deadline passes first.
    pub fn write_timeout(&mut self, address: u8, src: &Vec<u8>, timeout_us: u64, stop: bool) -> (r:
        Result<(), Error>)
        ensures
            final(self).port.replies == old(self).port.replies,
            final(self).port.next == old(self).port.after(1),
            grew(final(self).port.log@, old(self).port.log@, 1),
            is_write(final(self).port.log@.last(), address, src@, stop),
            r == unit_result(old(self).port.status_at(0)),
    {
        let _ = timeout_us;
        self.write(address, src, stop)
    }

    /// Receive exactly `n` bytes from the device at `address`.
    pub fn read(&mut self, address: u8, n: usize, stop: bool) -> (r: Result<Vec<u8>, Error>)
        ensures
            final(self).port.replies == old(self).port.replies,
            final(self).port.next == old(self).port.after(1),
            grew(final(self).port.log@, old(self).port.log@, 1),
            final(self).port.log@.last() == (BusEvent::Read { addr: address, n, fill: 0u8, stop }),
            old(self).port.status_at(0) >= 0 ==> (r matches Ok(d) && d@ == fitted(
                old(self).port.data_at(0),
                n as int,
            )),
            old(self).port.status_at(0) < 0 ==> r == Err::<Vec<u8>, Error>(
                status_error(old(self).port.status_at(0)),
            ),
    {
        self.port.record(BusEvent::Read { addr: address, n, fill: 0, stop });
        proof {
            crate::bus::lemma_grew_push(old(self).port.log@, final(self).port.log@.last());
        }
        let (st, data) = self.port.take_reply(n);
        if st >= 0 {
            Ok(data)
        } else if st == -1 {
            Err(Error::Timeout)
        } else {
            Err(Error::Both)
        }
    }

    /// Receive exactly `n` bytes with a deadline.
    pub fn read_timeout(&mut self, address: u8, n: usize, timeout_us: u64, stop: bool) -> (r:
        Result<Vec<u8>, Error>)
        ensures
            final(self).port.replies == old(self).port.replies,
            final(self).port.next == old(self).port.after(1),
            grew(final(self).port.log@, old(self).port.log@, 1),
            final(self).port.log@.last() == (BusEvent::Read { addr: address, n, fill: 0u8, stop }),
            old(self).port.status_at(0) >= 0 ==> (r matches Ok(d) && d@ == fitted(
                old(self).port.data_at(0),
                n as int,
            )),
            old(self).port.status_at(0) < 0 ==> r == Err::<Vec<u8>, Error>(
                status_error(old(self).port.status_at(0)),
            ),
    {
        let _ = timeout_us;
        self.read(address, n, stop)
    }

    /// Address the device, send `src` holding the bus, then read `n`
    /// bytes back: the combined register-access transaction.
    pub fn write_read(&mut self, address: u8, src: &Vec<u8>, n: usize) -> (r: Result<
        Vec<u8>,
        Error,
    >)
        ensures
            final(self).port.replies == old(self).port.replies,
            old(self).port.status_at(0) < 0 ==> {
                &&& final(self).port.next == old(self).port.after(1)
                &&& grew(final(self).port.log@, old(self).port.log@, 1)
                &&& is_write(final(self).port.log@.last(), address, src@, false)
                &&& r == Err::<Vec<u8>, Error>(status_error(old(self).port.status_at(0)))
            },
            old(self).port.status_at(0) >= 0 ==> {
                &&& final(self).port.next == old(self).port.after(2)
                &&& grew(final(self).port.log@, old(self).port.log@, 2)
                &&& is_write(
                    final(self).port.log@[old(self).port.log@.len() as int],
                    address,
                    src@,
                    false,
                )
                &&& final(self).port.log@.last() == (BusEvent::Read {
                    addr: address,
                    n,
                    fill: 0u8,
                    stop: true,
                })
                &&& (old(self).port.status_at(1) >= 0 ==> (r matches Ok(d) && d@ == fitted(
                    old(self).port.data_at(1),
                    n as int,
                )))
                &&& (old(self).port.status_at(1) < 0 ==> r == Err::<Vec<u8>, Error>(
                    status_error(old(self).port.status_at(1)),
                ))
            },
    {
        let ghost p0 = self.port;
        match self.write(address, src, false) {
            Err(e) => Err(e),
            Ok(()) => {
                let ghost p1 = self.port;
                let r = self.read(address, n, true);
                proof {
                    crate::bus::lemma_port_shift(p0, p1, 1, 0);
                    crate::bus::lemma_port_shift(p0, p1, 1, 1);
                    crate::bus::lemma_grew_trans(p0.log@, p1.log@, final(self).port.log@, 1, 1);
                }
                r
            },
        }
    }

    /// The combined transaction with a deadline on each half.
    pub fn write_read_timeout(&mut self, address: u8, src: &Vec<u8>, n: usize, timeout_us: u64) -> (
        r: Result<Vec<u8>, Error>)
        ensures
            final(self).port.replies == old(self).port.replies,
            old(self).port.status_at(0) < 0 ==> {
                &&& final(self).port.next == old(self).port.after(1)
                &&& grew(final(self).port.log@, old(self).port.log@, 1)
                &&& is_write(final(self).port.log@.last(), address, src@, false)
                &&& r == Err::<Vec<u8>, Error>(status_error(old(self).port.status_at(0)))
            },
            old(self).port.status_at(0) >= 0 ==> {
                &&& final(self).port.next == old(self).port.after(2)
                &&& grew(final(self).port.log@, old(self).port.log@, 2)
                &&& is_write(
                    final(self).port.log@[old(self).port.log@.len() as int],
                    address,
                    src@,
                    false,
                )
                &&& final(self).port.log@.last() == (BusEvent::Read {
                    addr: address,
                    n,
                    fill: 0u8,
                    stop: true,
                })
                &&& (old(self).port.status_at(1) >= 0 ==> (r matches Ok(d) && d@ == fitted(
                    old(self).port.data_at(1),
                    n as int,
                )))
                &&& (old(self).port.status_at(1) < 0 ==> r == Err::<Vec<u8>, Error>(
                    status_error(old(self).port.status_at(1)),
                ))
            },
    {
        let _ = timeout_us;
        self.write_read(address, src, n)
    }
}

/// A two-wire bus controller bound to one device address.
#[derive(Debug)]
pub struct Device {
    pub i2c: I2C,
    pub address: u8,
}

impl Device {
    /// Bind `i2c` to the device at `address`.
    pub fn new(i2c: I2C, address: u8) -> (r: Device)
        ensures
            r.i2c == i2c,
            r.address == address,
    {
        Device { i2c, address }
    }

    /// Receive exactly `n` bytes from the bound device.
    pub fn read(&mut self, n: usize, stop: bool) -> (r: Result<Vec<u8>, Error>)
        ensures
            final(self).address == old(self).address,
            final(self).i2c.port.replies == old(self).i2c.port.replies,
            final(self).i2c.port.next == old(self).i2c.port.after(1),
            grew(final(self).i2c.port.log@, old(self).i2c.port.log@, 1),
            final(self).i2c.port.log@.last() == (BusEvent::Read {
                addr: old(self).address,
                n,
                fill: 0u8,
                stop,
            }),
            old(self).i2c.port.status_at(0) >= 0 ==> (r matches Ok(d) && d@ == fitted(
                old(self).i2c.port.data_at(0),
                n as int,
            )),
            old(self).i2c.port.status_at(0) < 0 ==> r == Err::<Vec<u8>, Error>(
                status_error(old(self).i2c.port.status_at(0)),
            ),
    {
        let address = self.address;
        self.i2c.read(address, n, stop)
    }

    /// Receive exactly `n` bytes from the bound device, with a deadline.
    pub fn read_timeout(&mut self, n: usize, timeout_us: u64, stop: bool) -> (r: Result<
        Vec<u8>,
        Error,
    >)
        ensures
            final(self).address == old(self).address,
            final(self).i2c.port.replies == old(self).i2c.port.replies,
            final(self).i2c.port.next == old(self).i2c.port.after(1),
            grew(final(self).i2c.port.log@, old(self).i2c.port.log@, 1),
            final(self).i2c.port.log@.last() == (BusEvent::Read {
                addr: old(self).address,
                n,
                fill: 0u8,
                stop,
            }),
            old(self).i2c.port.status_at(0) >= 0 ==> (r matches Ok(d) && d@ == fitted(
                old(self).i2c.port.data_at(0),
                n as int,
            )),
            old(self).i2c.port.status_at(0) < 0 ==> r == Err::<Vec<u8>, Error>(
                status_error(old(self).i2c.port.status_at(0)),
            ),
    {
        let address = self.address;
        self.i2c.read_timeout(address, n, timeout_us, stop)
    }

    /// Send `src` to the bound device.
    pub fn write(&mut self, src: &Vec<u8>, stop: bool) -> (r: Result<(), Error>)
        ensures
            final(self).address == old(self).address,
            final(self).i2c.port.replies == old(self).i2c.port.replies,
            final(self).i2c.port.next == old(self).i2c.port.after(1),
            grew(final(self).i2c.port.log@, old(self).i2c.port.log@, 1),
            is_write(final(self).i2c.port.log@.last(), old(self).address, src@, stop),
            r == unit_result(old(self).i2c.port.status_at(0)),
    {
        let address = self.address;
        self.i2c.write(address, src, stop)
    }

    /// Send `src` to the bound device, with a deadline.
    pub fn write_timeout(&mut self, src: &Vec<u8>, timeout_us: u64, stop: bool) -> (r: Result<
        (),
        Error,
    >)
        ensures
            final(self).address == old(self).address,
            final(self).i2c.port.replies == old(self).i2c.port.replies,
            final(self).i2c.port.next == old(self).i2c.port.after(1),
            grew(final(self).i2c.port.log@, old(self).i2c.port.log@, 1),
            is_write(final(self).i2c.port.log@.last(), old(self).address, src@, stop),
            r == unit_result(old(self).i2c.port.status_at(0)),
    {
        let address = self.address;
        self.i2c.write_timeout(address, src, timeout_us, stop)
    }

    /// The combined write-then-read transaction on the bound device.
    pub fn write_read(&mut self, src: &Vec<u8>, n: usize) -> (r: Result<Vec<u8>, Error>)
        ensures
            final(self).address == old(self).address,
            final(self).i2c.port.replies == old(self).i2c.port.replies,
            old(self).i2c.port.status_at(0) < 0 ==> {
                &&& final(self).i2c.port.next == old(self).i2c.port.after(1)
                &&& grew(final(self).i2c.port.log@, old(self).i2c.port.log@, 1)
                &&& is_write(final(self).i2c.port.log@.last(), old(self).address, src@, false)
                &&& r == Err::<Vec<u8>, Error>(status_error(old(self).i2c.port.status_at(0)))
            },
            old(self).i2c.port.status_at(0) >= 0 ==> {
                &&& final(self).i2c.port.next == old(self).i2c.port.after(2)
                &&& grew(final(self).i2c.port.log@, old(self).i2c.port.log@, 2)
                &&& is_write(
                    final(self).i2c.port.log@[old(self).i2c.port.log@.len() as int],
                    old(self).address,
                    src@,
                    false,
                )
                &&& final(self).i2c.port.log@.last() == (BusEvent::Read {
                    addr: old(self).address,
                    n,
                    fill: 0u8,
                    stop: true,
                })
                &&& (old(self).i2c.port.status_at(1) >= 0 ==> (r matches Ok(d) && d@ == fitted(
                    old(self).i2c.port.data_at(1),
                    n as int,
                )))
                &&& (old(self).i2c.port.status_at(1) < 0 ==> r == Err::<Vec<u8>, Error>(
                    status_error(old(self).i2c.port.status_at(1)),
                ))
            },
    {
        let address = self.address;
        self.i2c.write_read(address, src, n)
    }

    /// The combined write-then-read transaction, with a deadline.
    pub fn write_read_timeout(&mut self, src: &Vec<u8>, n: usize, timeout_us: u64) -> (r: Result<
        Vec<u8>,
        Error,
    >)
        ensures
            final(self).address == old(self).address,
            final(self).i2c.port.replies == old(self).i2c.port.replies,
            old(self).i2c.port.status_at(0) < 0 ==> {
                &&& final(self).i2c.port.next == old(self).i2c.port.after(1)
                &&& grew(final(self).i2c.port.log@, old(self).i2c.port.log@, 1)
                &&& is_write(final(self).i2c.port.log@.last(), old(self).address, src@, false)
                &&& r == Err::<Vec<u8>, Error>(status_error(old(self).i2c.port.status_at(0)))
            },
            old(self).i2c.port.status_at(0) >= 0 ==> {
                &&& final(self).i2c.port.next == old(self).i2c.port.after(2)
                &&& grew(final(self).i2c.port.log@, old(self).i2c.port.log@, 2)
                &&& is_write(
                    final(self).i2c.port.log@[old(self).i2c.port.log@.len() as int],
                    old(self).address,
                    src@,
                    false,
                )
                &&& final(self).i2c.port.log@.last() == (BusEvent::Read {
                    addr: old(self).address,
                    n,
                    fill: 0u8,
                    stop: true,
                })
                &&& (old(self).i2c.port.status_at(1) >= 0 ==> (r matches Ok(d) && d@ == fitted(
                    old(self).i2c.port.data_at(1),
                    n as int,
                )))
                &&& (old(self).i2c.port.status_at(1) < 0 ==> r == Err::<Vec<u8>, Error>(
                    status_error(old(self).i2c.port.status_at(1)),
                ))
            },
    {
        let _ = timeout_us;
        let address = self.address;
        self.i2c.write_read(address, src, n)
    }
}

/// A byte-for-byte copy of `src`.
pub(crate) fn clone_bytes(src: &Vec<u8>) -> (r: Vec<u8>)
    ensures
        r@ == src@,
{
    let mut out: Vec<u8> = Vec::new();
    let mut i: usize = 0;
    while i < src.len()
        invariant
            i <= src@.len(),
            out@ == src@.subrange(0, i as int),
        decreases src@.len() - i,
    {
        let b = src[i];
        out.push(b);
        proof {
            assert(out@ =~= src@.subrange(0, i + 1));
        }
        i += 1;
    }
    proof {
        assert(out@ =~= src@);
    }
    out
}


/// The addresses a scan reports, probing from address `a` with the reply
/// script standing at offset `k`: reserved addresses are skipped, and an
/// address is reported exactly when its one-byte probe succeeds.
pub open spec fn scan_results(p: BusPort, a: int, k: int) -> Seq<u8>
    decreases 128 - a,
{
    if a < 0 || a >= 128 {
        Seq::empty()
    } else if reserved_addr_spec(a as u8) {
        scan_results(p, a + 1, k)
    } else if p.status_at(k) >= 0 {
        seq![a as u8] + scan_results(p, a + 1, k + 1)
    } else {
        scan_results(p, a + 1, k + 1)
    }
}

/// How many probes a scan from address `a` performs: one per
/// non-reserved address.
pub open spec fn scan_probes(a: int) -> int
    decreases 128 - a,
{
    if a < 0 || a >= 128 {
        0
    } else if reserved_addr_spec(a as u8) {
        scan_probes(a + 1)
    } else {
        1 + scan_probes(a + 1)
    }
}

/// One scan probe as it appears in the log: a single-byte read of a
/// non-reserved address, releasing the bus.
pub open spec fn is_probe(e: BusEvent) -> bool {
    e matches BusEvent::Read { addr, n, fill, stop } && n == 1 && fill == 0 && stop
        && !reserved_addr_spec(addr) && addr < 128
}

impl I2C {
    /// Probe every non-reserved seven-bit address, in order, and collect
    /// those that answer.
    pub fn scan(&mut self) -> (r: Vec<u8>)
        ensures
            final(self).port.replies == old(self).port.replies,
            final(self).port.next == old(self).port.after(scan_probes(0)),
            grew(final(self).port.log@, old(self).port.log@, scan_probes(0)),
            r@ == scan_results(old(self).port, 0, 0),
            forall|j: int|
                old(self).port.log@.len() <= j < final(self).port.log@.len() ==> is_probe(
                    #[trigger] final(self).port.log@[j],
                ),
    {
        let ghost p0 = self.port;
        let ghost total = scan_results(p0, 0, 0);
        let mut found: Vec<u8> = Vec::new();
        let mut addr: u8 = 0;
        let ghost k: int = 0;
        proof {
            assert(p0.log@.subrange(0, p0.log@.len() as int) =~= p0.log@);
        }
        while addr < 128
            invariant
                addr <= 128,
                k == scan_probes(0) - scan_probes(addr as int),
                0 <= k,
                self.port.replies == p0.replies,
                self.port.next == p0.after(k),
                grew(self.port.log@, p0.log@, k),
                forall|j: int|
                    p0.log@.len() <= j < self.port.log@.len() ==> is_probe(
                        #[trigger] self.port.log@[j],
                    ),
                found@ + scan_results(p0, addr as int, k) == total,
                total == scan_results(p0, 0, 0),
            decreases 128 - addr,
        {
            let ghost pk = self.port;
            let ghost found0 = found@;
            if !reserved_addr(addr) {
                let res = self.read(addr, 1, true);
                proof {
                    crate::bus::lemma_port_shift(p0, pk, k, 0);
                    crate::bus::lemma_port_shift(p0, pk, k, 1);
                    crate::bus::lemma_grew_trans(p0.log@, pk.log@, self.port.log@, k, 1);
                }
                if res.is_ok() {
                    found.push(addr);
                    proof {
                        assert(found@ + scan_results(p0, addr + 1, k + 1) =~= found0 + (seq![
                            addr,
                        ] + scan_results(p0, addr + 1, k + 1)));
                    }
                }
                proof {
                    k = k + 1;
                }
            }
            addr += 1;
        }
        proof {
            assert(scan_probes(128) == 0);
            assert(scan_results(p0, 128, k) =~= Seq::<u8>::empty());
            assert(found@ + Seq::<u8>::empty() =~= found@);
        }
        found
    }
}

} // verus!
