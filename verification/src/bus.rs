//! The byte-transfer capability that both serial transports share.
//!
//! The blocking bus peripherals are external collaborators of this crate.
//! They are represented by [`BusPort`]: a queue of scripted replies (what
//! the peripheral will answer, one entry per transfer) and a log of every
//! transaction the driver performed.  The contracts of the transports and
//! of the device driver are stated against this port, so the exact
//! sequence of bus transactions of each operation is part of its
//! specification, and a recording stub for tests is the port itself.

use vstd::prelude::*;

verus! {

/// One scripted answer of the bus peripheral.
///
/// A non-negative `status` is a success (the peripheral's transfer count);
/// a negative one is a failure status code.  `data` holds the bytes the
/// peripheral returns on a read; a transfer that reads `n` bytes receives
/// `data` truncated or zero-padded to `n`.
#[derive(Debug, Clone)]
pub struct BusReply {
    pub status: i32,
    pub data: Vec<u8>,
}

/// One bus transaction as the driver issued it.
///
/// `addr` is the two-wire device address; the four-wire transport has no
/// address and records zero.  `stop` tells whether the device is released
/// (two-wire: stop condition; four-wire: chip-select deasserted) after the
/// transfer; `hold` semantics are `stop == false`.
#[derive(Debug, Clone)]
pub enum BusEvent {
    /// Bytes sent to the device.
    Write { addr: u8, bytes: Vec<u8>, stop: bool },
    /// `n` bytes received from the device; `fill` is repeated on the
    /// transmit line while reading (four-wire bus only).
    Read { addr: u8, n: usize, fill: u8, stop: bool },
    /// Combined transaction: `bytes` sent, then `n` bytes received.
    WriteRead { addr: u8, bytes: Vec<u8>, n: usize },
    /// A settling delay of `ms` milliseconds, no bus activity.
    Delay { ms: u32 },
}

/// The port to a blocking byte-transfer peripheral: scripted replies in,
/// performed transactions out.
#[derive(Debug)]
pub struct BusPort {
    /// Replies the peripheral will give, in order.
    pub replies: Vec<BusReply>,
    /// Index of the reply the next transfer will consume.
    pub next: usize,
    /// Every transaction performed so far, oldest first.
    pub log: Vec<BusEvent>,
}

/// `data` truncated or zero-padded to exactly `n` bytes.
pub open spec fn fitted(data: Seq<u8>, n: int) -> Seq<u8> {
    Seq::new(n as nat, |i: int| if i < data.len() { data[i] } else { 0u8 })
}

/// `new` extends `old` by exactly `k` elements.
pub open spec fn grew<T>(new: Seq<T>, old: Seq<T>, k: int) -> bool {
    &&& new.len() == old.len() + k
    &&& new.subrange(0, old.len() as int) == old
}

/// The event is a write of exactly `bytes` to `addr`.
pub open spec fn is_write(e: BusEvent, addr: u8, bytes: Seq<u8>, stop: bool) -> bool {
    e matches BusEvent::Write { addr: a, bytes: b, stop: s } && a == addr && b@ == bytes
        && s == stop
}

/// The event is a combined write-then-read of exactly `bytes`, reading `n`.
pub open spec fn is_write_read(e: BusEvent, addr: u8, bytes: Seq<u8>, n: int) -> bool {
    e matches BusEvent::WriteRead { addr: a, bytes: b, n: m } && a == addr && b@ == bytes
        && m == n
}

impl BusPort {
    /// The cursor after `t` further transfers: each transfer consumes one
    /// reply while any remain.
    pub open spec fn after(self, t: int) -> int {
        if self.next >= self.replies@.len() {
            self.next as int
        } else if self.next + t <= self.replies@.len() {
            self.next + t
        } else {
            self.replies@.len() as int
        }
    }

    /// Status of the reply `k` transfers ahead of the cursor; a missing
    /// reply reads as the generic failure status.
    pub open spec fn status_at(self, k: int) -> int {
        if self.next + k < self.replies@.len() {
            self.replies@[self.next + k].status as int
        } else {
            -2
        }
    }

    /// Data of the reply `k` transfers ahead of the cursor.
    pub open spec fn data_at(self, k: int) -> Seq<u8> {
        if self.next + k < self.replies@.len() {
            self.replies@[self.next + k].data@
        } else {
            Seq::empty()
        }
    }

    /// First data byte of the reply `k` transfers ahead, zero if absent.
    pub open spec fn byte_at(self, k: int) -> u8 {
        fitted(self.data_at(k), 1)[0]
    }

    /// A port with no scripted replies and an empty log.
    pub fn new() -> (r: BusPort)
        ensures
            r.replies@ =~= Seq::<BusReply>::empty(),
            r.next == 0,
            r.log@ =~= Seq::<BusEvent>::empty(),
    {
        BusPort { replies: Vec::new(), next: 0, log: Vec::new() }
    }

    /// Append one scripted reply for a coming transfer.
    pub fn script(&mut self, status: i32, data: Vec<u8>)
        ensures
            final(self).replies@ == old(self).replies@.push(BusReply { status, data }),
            final(self).next == old(self).next,
            final(self).log == old(self).log,
    {
        self.replies.push(BusReply { status, data });
    }

    /// Record a transaction in the log.
    pub fn record(&mut self, ev: BusEvent)
        ensures
            final(self).log@ == old(self).log@.push(ev),
            final(self).replies == old(self).replies,
            final(self).next == old(self).next,
    {
        self.log.push(ev);
    }

    /// Record a settling delay of `ms` milliseconds.
    pub fn delay(&mut self, ms: u32)
        ensures
            final(self).log@ == old(self).log@.push(BusEvent::Delay { ms }),
            final(self).replies == old(self).replies,
            final(self).next == old(self).next,
    {
        self.log.push(BusEvent::Delay { ms });
    }

    /// Consume one reply: its status, and its data fitted to `n` bytes.
    pub fn take_reply(&mut self, n: usize) -> (r: (i32, Vec<u8>))
        ensures
            final(self).replies == old(self).replies,
            final(self).log == old(self).log,
            final(self).next == old(self).after(1),
            r.0 as int == old(self).status_at(0),
            r.1@ == fitted(old(self).data_at(0), n as int),
    {
        let mut out: Vec<u8> = Vec::new();
        if self.next < self.replies.len() {
            let status = self.replies[self.next].status;
            let mut i: usize = 0;
            while i < n
                invariant
                    self == old(self),
                    self.next < self.replies@.len(),
                    i <= n,
                    out@.len() == i,
                    forall|j: int|
                        0 <= j < i ==> out@[j] == #[trigger] fitted(
                            self.data_at(0),
                            n as int,
                        )[j],
                decreases n - i,
            {
                let d = &self.replies[self.next].data;
                if i < d.len() {
                    let b = d[i];
                    out.push(b);
                } else {
                    out.push(0);
                }
                i += 1;
            }
            self.next = self.next + 1;
            proof {
                assert(out@ =~= fitted(old(self).data_at(0), n as int));
            }
            (status, out)
        } else {
            let mut i: usize = 0;
            while i < n
                invariant
                    self == old(self),
                    self.next >= self.replies@.len(),
                    i <= n,
                    out@.len() == i,
                    forall|j: int| 0 <= j < i ==> out@[j] == 0u8,
                decreases n - i,
            {
                out.push(0);
                i += 1;
            }
            proof {
                assert(out@ =~= fitted(old(self).data_at(0), n as int));
            }
            (-2, out)
        }
    }
}

/// Moving the cursor by `t` and then by `u` is moving it by `t + u`, and
/// the replies `t` transfers ahead of the old cursor stand at the new one.
pub proof fn lemma_port_shift(p1: BusPort, p2: BusPort, t: int, k: int)
    requires
        p2.replies == p1.replies,
        p2.next == p1.after(t),
        0 <= t,
        0 <= k,
    ensures
        p2.status_at(k) == p1.status_at(t + k),
        p2.data_at(k) == p1.data_at(t + k),
        p2.byte_at(k) == p1.byte_at(t + k),
        p2.after(k) == p1.after(t + k),
{
}

/// A sequence extended by a push grew by one, with the pushed element last.
pub proof fn lemma_grew_push<T>(s: Seq<T>, e: T)
    ensures
        grew(s.push(e), s, 1),
        s.push(e)[s.len() as int] == e,
{
    assert(s.push(e).subrange(0, s.len() as int) =~= s);
}

/// Growth composes, and the middle stretch keeps its place.
pub proof fn lemma_grew_trans<T>(a: Seq<T>, b: Seq<T>, c: Seq<T>, j: int, k: int)
    requires
        grew(b, a, j),
        grew(c, b, k),
        0 <= j,
        0 <= k,
    ensures
        grew(c, a, j + k),
        forall|i: int| a.len() <= i < b.len() ==> c[i] == b[i],
{
    assert(c.subrange(0, a.len() as int) =~= a);
    assert forall|i: int| a.len() <= i < b.len() implies c[i] == b[i] by {
        assert(c.subrange(0, b.len() as int)[i] == c[i]);
        assert(c.subrange(0, b.len() as int)[i] == b[i]);
    }
}

} // verus!
