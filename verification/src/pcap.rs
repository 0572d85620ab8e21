//! Copies of packets for control connections that watch them.
use crate::clock::Instant;
use crate::daemon::{Conn, ConnId, Daemon};
use vstd::prelude::*;

verus! {

/// A connection that is fed packets does not count as idle for an hour.
pub const PCAP_IDLE_NANOS: u128 = 3_600_000_000_000;

/// One copy: first the line of [`pcap_header`], then the packet's first `len`
/// bytes.
#[derive(Debug, Clone, Copy, PartialEq, Eq, Structural)]
pub struct PcapSend {
    pub conn: ConnId,
    pub len: usize,
}

/// How much of a packet a watcher gets: what it asked for, or all of it.
pub open spec fn pcap_len(snaplen: u16, len: nat) -> nat {
    if snaplen != 0 && snaplen < len {
        snaplen as nat
    } else {
        len
    }
}

/// One copy for each watcher, in the order of the connections.
pub open spec fn pcap_sends(conns: Seq<Conn>, len: nat) -> Seq<PcapSend>
    decreases conns.len(),
{
    if conns.len() == 0 {
        seq![]
    } else {
        let front = pcap_sends(conns.drop_last(), len);
        let conn = conns.last();
        if conn.pcap {
            front.push(PcapSend { conn: conn.id, len: pcap_len(conn.pcap_snaplen, len) as usize })
        } else {
            front
        }
    }
}

/// The digits of a number, most significant first.
pub open spec fn decimal(n: nat) -> Seq<u8>
    decreases n,
{
    if n < 10 {
        seq![(48 + n) as u8]
    } else {
        decimal(n / 10).push((48 + n % 10) as u8)
    }
}

/// The line that announces a copy: request 18 (control), type 14 (packet),
/// the length. Its terminator is the connection's.
pub open spec fn header_line(len: nat) -> Seq<u8> {
    vstd::utf8::encode_utf8("18 14 "@) + decimal(len)
}

/// The number that a line of digits stands for.
pub open spec fn decimal_value(digits: Seq<u8>) -> nat
    decreases digits.len(),
{
    if digits.len() == 0 {
        0
    } else {
        decimal_value(digits.drop_last()) * 10 + (digits.last() - 48) as nat
    }
}

/// Appends the digits of `n`.
fn push_decimal(out: &mut Vec<u8>, n: usize)
    ensures
        final(out)@ == old(out)@ + decimal(n as nat),
    decreases n,
{
    if n < 10 {
        out.push(48 + n as u8);
        assert(out@ == old(out)@ + seq![(48 + n) as u8]);
    } else {
        push_decimal(out, n / 10);
        out.push(48 + (n % 10) as u8);
        assert(out@ == old(out)@ + decimal((n / 10) as nat).push((48 + n % 10) as u8));
    }
}

/// The line that announces a copy of `len` bytes.
pub fn pcap_header(len: usize) -> (r: Vec<u8>)
    ensures
        r@ == header_line(len as nat),
{
    let mut out: Vec<u8> = crate::paths::copy_bytes("18 14 ".as_bytes());
    push_decimal(&mut out, len);
    out
}

impl Daemon {
    /// Some connection watches packets.
    pub open spec fn watched(&self) -> bool {
        exists|i: int| 0 <= i < self.conns@.len() && (#[trigger] self.conns@[i]).pcap
    }

    /// The state after packets were copied at `now`: every watcher counts as
    /// busy, `any_pcap` tells whether there is one, and nothing else changes.
    pub open spec fn pcap_updated(&self, before: &Daemon, now: Instant) -> bool {
        &&& self.conns@.len() == before.conns@.len()
        &&& forall|i: int|
            0 <= i < before.conns@.len() ==> #[trigger] self.conns@[i] == (if before.conns@[i].pcap {
                Conn {
                    last_ping_time: Instant { nanos: (now.nanos + PCAP_IDLE_NANOS) as u128 },
                    ..before.conns@[i]
                }
            } else {
                before.conns@[i]
            })
        &&& self.any_pcap == before.watched()
        &&& *self == (Daemon { conns: self.conns, any_pcap: self.any_pcap, ..*before })
    }

    /// Copies a packet of `len` bytes to every watcher. The flag is found
    /// anew, so that a watcher that has left costs one walk at most.
    pub fn send_pcap(&mut self, now: Instant, len: usize) -> (r: Vec<PcapSend>)
        requires
            old(self).watched() ==> now.nanos + PCAP_IDLE_NANOS <= u128::MAX,
        ensures
            r@ == pcap_sends(old(self).conns@, len as nat),
            final(self).pcap_updated(old(self), now),
    {
        let ghost before = *self;
        let mut out: Vec<PcapSend> = Vec::new();
        let mut still_armed: bool = false;
        let mut i: usize = 0;
        while i < self.conns.len()
            invariant
                i <= self.conns@.len(),
                self.conns@.len() == before.conns@.len(),
                before.watched() ==> now.nanos + PCAP_IDLE_NANOS <= u128::MAX,
                out@ == pcap_sends(before.conns@.take(i as int), len as nat),
                still_armed == exists|j: int| 0 <= j < i && (#[trigger] before.conns@[j]).pcap,
                forall|j: int|
                    0 <= j < i ==> #[trigger] self.conns@[j] == (if before.conns@[j].pcap {
                        Conn {
                            last_ping_time: Instant {
                                nanos: (now.nanos + PCAP_IDLE_NANOS) as u128,
                            },
                            ..before.conns@[j]
                        }
                    } else {
                        before.conns@[j]
                    }),
                forall|j: int| i <= j < self.conns@.len() ==> self.conns@[j] == before.conns@[j],
                *self == (Daemon { conns: self.conns, ..before }),
            decreases self.conns@.len() - i,
        {
            assert(before.conns@.take(i + 1).drop_last() == before.conns@.take(i as int));
            assert(before.conns@.take(i + 1).last() == before.conns@[i as int]);
            if self.conns[i].pcap {
                assert(before.conns@[i as int].pcap);
                still_armed = true;
                let snap: usize = self.conns[i].pcap_snaplen as usize;
                let id: ConnId = self.conns[i].id;
                self.conns[i].last_ping_time = Instant { nanos: now.nanos + PCAP_IDLE_NANOS };
                let take: usize = if snap != 0 && snap < len {
                    snap
                } else {
                    len
                };
                out.push(PcapSend { conn: id, len: take });
            }
            i = i + 1;
        }
        assert(before.conns@.take(i as int) == before.conns@);
        self.any_pcap = still_armed;
        out
    }
}

/// What the header announces can be read back: its digits stand for the
/// length. Nothing in it ends the line early.
pub proof fn law_header_tells_the_length(len: nat)
    ensures
        decimal_value(decimal(len)) == len,
        forall|i: int| 0 <= i < decimal(len).len() ==> 48 <= #[trigger] decimal(len)[i] <= 57,
        forall|i: int| 0 <= i < header_line(len).len() ==> #[trigger] header_line(len)[i] != 10,
{
    lemma_digits(len);
    reveal_strlit("18 14 ");
    vstd::utf8::is_ascii_chars_encode_utf8("18 14 "@);
}

proof fn lemma_digits(n: nat)
    ensures
        decimal_value(decimal(n)) == n,
        forall|i: int| 0 <= i < decimal(n).len() ==> 48 <= #[trigger] decimal(n)[i] <= 57,
    decreases n,
{
    if n < 10 {
        assert(decimal(n).drop_last() == Seq::<u8>::empty());
        assert(decimal_value(Seq::<u8>::empty()) == 0);
    } else {
        lemma_digits(n / 10);
        assert(decimal(n).drop_last() == decimal(n / 10));
    }
}

/// A watcher never gets more than the packet, nor more than it asked for.
pub proof fn law_copies_are_clipped(snaplen: u16, len: nat)
    ensures
        pcap_len(snaplen, len) <= len,
        snaplen != 0 ==> pcap_len(snaplen, len) <= snaplen,
        snaplen == 0 ==> pcap_len(snaplen, len) == len,
{
}

} // verus!
