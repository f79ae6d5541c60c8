//! The transport: a bounded, lossy, first-in-first-out ring of fixed-size
//! serialized records.
//!
//! Capacity is fixed at creation to a power-of-two byte size. Publication
//! is non-blocking: when the remaining space cannot hold one whole record,
//! the record is dropped, the loss is counted, and the publisher goes on —
//! producers never wait, and a record is carried all-or-nothing.

use crate::schema::RECORD_LEN;
use vstd::prelude::*;

verus! {

/// Whether `n` is a power of two, the shape required of a ring's byte size.
pub open spec fn is_pow2(n: int) -> bool
    decreases n,
{
    if n <= 0 {
        false
    } else if n == 1 {
        true
    } else {
        n % 2 == 0 && is_pow2(n / 2)
    }
}

/// Saturating increment of a loss or publication counter.
pub open spec fn sat_inc(x: u64) -> u64 {
    if x == u64::MAX {
        x
    } else {
        (x + 1) as u64
    }
}

/// One serialized record, exactly as the transport carries it.
pub struct Record {
    /// The record's bytes; a well-formed record has exactly `RECORD_LEN`
    /// of them.
    pub bytes: Vec<u8>,
}

impl Record {
    /// The carried bytes.
    pub open spec fn view(self) -> Seq<u8> {
        self.bytes@
    }

    /// A record of the fixed serialized size.
    pub open spec fn wf(self) -> bool {
        self.bytes@.len() == RECORD_LEN
    }
}

/// Publication accounting: losses are counted, never surfaced per event.
#[derive(Clone, Copy, Debug, PartialEq, Eq, Structural)]
pub struct Stats {
    /// Records accepted into the ring.
    pub published: u64,
    /// Records dropped because the ring was full.
    pub dropped: u64,
}

/// The bounded ring. Records are read back in publication order.
pub struct Transport {
    queued: Vec<Record>,
    capacity: usize,
    stats: Stats,
}

impl Transport {
    /// The queued records, oldest first.
    pub closed spec fn view(self) -> Seq<Seq<u8>> {
        self.queued@.map_values(|r: Record| r.bytes@)
    }

    /// The ring's byte capacity.
    pub closed spec fn cap(self) -> int {
        self.capacity as int
    }

    /// The publication and loss counters.
    pub closed spec fn spec_stats(self) -> Stats {
        self.stats
    }

    /// The ring's invariant: a power-of-two capacity that the queued
    /// records never exceed, each of them of the fixed size.
    pub closed spec fn wf(self) -> bool {
        &&& is_pow2(self.capacity as int)
        &&& self.queued@.len() * RECORD_LEN <= self.capacity
        &&& forall|i: int|
            0 <= i < self.queued@.len() ==> (#[trigger] self.queued@[i]).bytes@.len() == RECORD_LEN
    }

    /// Whether one more whole record fits.
    pub open spec fn has_room(self) -> bool {
        self@.len() * RECORD_LEN + RECORD_LEN <= self.cap()
    }

    /// How one non-blocking publication of `rec` relates a ring state to
    /// the next: appended and counted when it fits, dropped whole and the
    /// loss counted when not — never a partial record, never a wait.
    pub open spec fn publish_post(pre: Transport, post: Transport, rec: Seq<u8>) -> bool {
        &&& post.cap() == pre.cap()
        &&& pre.has_room() ==> post@ == pre@.push(rec) && post.spec_stats() == (Stats {
            published: sat_inc(pre.spec_stats().published),
            dropped: pre.spec_stats().dropped,
        })
        &&& !pre.has_room() ==> post@ == pre@ && post.spec_stats() == (Stats {
            published: pre.spec_stats().published,
            dropped: sat_inc(pre.spec_stats().dropped),
        })
    }

    /// An empty ring of the given byte capacity.
    pub fn with_byte_size(capacity: usize) -> (t: Transport)
        requires
            is_pow2(capacity as int),
        ensures
            t.wf(),
            t@ == Seq::<Seq<u8>>::empty(),
            t.cap() == capacity,
            t.spec_stats() == (Stats { published: 0, dropped: 0 }),
    {
        let t = Transport {
            queued: Vec::new(),
            capacity,
            stats: Stats { published: 0, dropped: 0 },
        };
        proof {
            assert(t@ =~= Seq::<Seq<u8>>::empty());
        }
        t
    }

    /// The counters, for loss reporting.
    pub fn stats(&self) -> (s: Stats)
        ensures
            s == self.spec_stats(),
    {
        self.stats
    }

    /// Publishes one record without blocking. When the ring is full the
    /// record is dropped whole — the ring never carries a partial record —
    /// the loss is counted, and `false` comes back.
    pub fn publish(&mut self, rec: Record) -> (ok: bool)
        requires
            old(self).wf(),
            rec.wf(),
        ensures
            final(self).wf(),
            ok == old(self).has_room(),
            Transport::publish_post(*old(self), *final(self), rec@),
    {
        let used = self.queued.len() * RECORD_LEN;
        if self.capacity - used >= RECORD_LEN {
            self.queued.push(rec);
            if self.stats.published < u64::MAX {
                self.stats.published = self.stats.published + 1;
            }
            proof {
                let n = old(self).queued@.len();
                assert((n + 1) * RECORD_LEN == n * RECORD_LEN + RECORD_LEN) by (nonlinear_arith);
                assert(self@ =~= old(self)@.push(rec@));
                assert forall|i: int| 0 <= i < self.queued@.len() implies (#[trigger] self
                    .queued@[i]).bytes@.len() == RECORD_LEN by {
                    if i < old(self).queued@.len() {
                        assert(self.queued@[i] == old(self).queued@[i]);
                    }
                }
            }
            true
        } else {
            if self.stats.dropped < u64::MAX {
                self.stats.dropped = self.stats.dropped + 1;
            }
            false
        }
    }

    /// Takes the oldest queued record, if any. Records come out in the
    /// order they were published.
    pub fn poll(&mut self) -> (rec: Option<Record>)
        requires
            old(self).wf(),
        ensures
            final(self).wf(),
            final(self).cap() == old(self).cap(),
            final(self).spec_stats() == old(self).spec_stats(),
            old(self)@.len() == 0 ==> rec is None && final(self)@ == old(self)@,
            old(self)@.len() > 0 ==> rec is Some && rec->Some_0@ == old(self)@[0] && final(self)@
                == old(self)@.skip(1),
    {
        if self.queued.len() == 0 {
            None
        } else {
            let r = self.queued.remove(0);
            proof {
                let n = old(self).queued@.len();
                assert((n - 1) * RECORD_LEN <= n * RECORD_LEN) by (nonlinear_arith);
                assert(self@ =~= old(self)@.skip(1));
                assert forall|i: int| 0 <= i < self.queued@.len() implies (#[trigger] self
                    .queued@[i]).bytes@.len() == RECORD_LEN by {
                    assert(self.queued@[i] == old(self).queued@[i + 1]);
                }
            }
            Some(r)
        }
    }

    /// How many records are queued right now.
    pub fn len(&self) -> (n: usize)
        ensures
            n == self@.len(),
    {
        self.queued.len()
    }
}

} // verus!
