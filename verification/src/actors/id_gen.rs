use vstd::prelude::*;

verus! {

/// Node discriminators fit in 10 bits.
pub const NODE_LIMIT: u64 = 0x400;

/// Intra-millisecond counters fit in 54 bits.
pub const COUNT_LIMIT: u64 = 0x40000000000000;

/// Clock readings are clamped below 2^63 milliseconds.
pub const MILLIS_CAP: u64 = 0x8000000000000000;

/// The identifier composed of a clock reading, a node discriminator
/// and an intra-millisecond counter: time-ordered first, counter last.
pub open spec fn spec_compose(millis: u64, node: u64, count: u64) -> int {
    (millis as int) * 0x10000000000000000 + (node as int) * 0x40000000000000 + (count as int)
}

/// Composing is strictly monotone in `(millis, count)` for one node.
proof fn lemma_compose_increases(m1: u64, c1: u64, m2: u64, c2: u64, node: u64)
    requires
        m1 < MILLIS_CAP,
        m2 < MILLIS_CAP,
        c1 < COUNT_LIMIT,
        c2 < COUNT_LIMIT,
        node < NODE_LIMIT,
        m1 < m2 || (m1 == m2 && c1 < c2),
    ensures
        spec_compose(m1, node, c1) < spec_compose(m2, node, c2),
{
    if m1 == m2 {
    } else {
        assert((m2 as int - m1 as int) * 0x10000000000000000 >= 0x10000000000000000)
            by (nonlinear_arith)
            requires m1 < m2,
        ;
    }
}

/// The generator behind `next_id`: a single logical owner of a
/// time-ordered sequence. Each issued identifier is strictly greater
/// than every identifier issued before it, even when the clock stalls
/// or steps backwards within the process lifetime.
pub struct IDGenerator {
    node: u64,
    last_millis: u64,
    count: u64,
}

impl IDGenerator {
    /// Internal bounds: the node fits its field, the counter has not
    /// left its 54-bit range, and the clock reading is clamped.
    pub closed spec fn wf(self) -> bool {
        self.node < NODE_LIMIT && self.count < COUNT_LIMIT && self.last_millis < MILLIS_CAP
    }

    /// The last value handed out (or the initial floor, before any).
    pub closed spec fn last_value(self) -> int {
        spec_compose(self.last_millis, self.node, self.count)
    }

    /// The recorded clock instant.
    pub closed spec fn spec_millis(self) -> u64 {
        self.last_millis
    }

    /// The intra-millisecond counter.
    pub closed spec fn spec_count(self) -> u64 {
        self.count
    }

    /// The one state that cannot issue: the clock reading does not
    /// advance past the recorded instant and the intra-millisecond
    /// counter is exhausted.
    pub open spec fn spec_exhausted(self, now: u64) -> bool {
        now <= self.spec_millis() && self.spec_count() == COUNT_LIMIT - 1
    }

    /// A fresh generator for `node`.
    pub fn new(node: u64) -> (r: Self)
        requires
            node < NODE_LIMIT,
        ensures
            r.wf(),
            r.spec_millis() == 0,
            r.spec_count() == 0,
    {
        IDGenerator { node, last_millis: 0, count: 0 }
    }

    /// True when the next call to `next_from` with reading `now`
    /// would still issue.
    pub fn can_issue(&self, now: u64) -> (r: bool)
        requires
            self.wf(),
        ensures
            r == !self.spec_exhausted(now),
    {
        now > self.last_millis || self.count < COUNT_LIMIT - 1
    }

    /// One step of the sequence for clock reading `now`: advances to
    /// `now` when the clock moved forward, otherwise counts within
    /// the recorded instant. The issued identifier strictly exceeds
    /// everything issued before; `None` only in the exhausted state,
    /// which leaves the generator unchanged.
    pub fn next_from(&mut self, now: u64) -> (r: Option<u128>)
        requires
            old(self).wf(),
            now < MILLIS_CAP,
        ensures
            final(self).wf(),
            r is None <==> old(self).spec_exhausted(now),
            r is None ==> *final(self) == *old(self),
            r matches Some(id) ==> (id as int) == final(self).last_value()
                && final(self).last_value() > old(self).last_value(),
            now > old(self).spec_millis() ==> final(self).spec_millis() == now
                && final(self).spec_count() == 0,
            now <= old(self).spec_millis() && !old(self).spec_exhausted(now)
                ==> final(self).spec_millis() == old(self).spec_millis()
                && final(self).spec_count() == old(self).spec_count() + 1,
    {
        if now > self.last_millis {
            self.last_millis = now;
            self.count = 0;
            let id: u128 = compose(self.last_millis, self.node, self.count);
            proof {
                lemma_compose_increases(
                    old(self).last_millis,
                    old(self).count,
                    self.last_millis,
                    self.count,
                    self.node,
                );
            }
            Some(id)
        } else if self.count < COUNT_LIMIT - 1 {
            self.count = self.count + 1;
            let id: u128 = compose(self.last_millis, self.node, self.count);
            proof {
                lemma_compose_increases(
                    old(self).last_millis,
                    old(self).count,
                    self.last_millis,
                    self.count,
                    self.node,
                );
            }
            Some(id)
        } else {
            None
        }
    }

    /// Issues the next identifier from the machine clock. `None` only
    /// when the current instant has exhausted its counter range: with
    /// room left in the counter the call issues whatever the clock
    /// read.
    pub fn next_id(&mut self) -> (r: Option<u128>)
        requires
            old(self).wf(),
        ensures
            final(self).wf(),
            old(self).spec_count() < COUNT_LIMIT - 1 ==> r is Some,
            r is None ==> *final(self) == *old(self),
            r matches Some(id) ==> (id as int) == final(self).last_value()
                && final(self).last_value() > old(self).last_value(),
    {
        let t: i64 = crate::clock::now_timestamp_millis();
        let now: u64 = if t <= 0 {
            0
        } else {
            t as u64
        };
        self.next_from(now)
    }
}

fn compose(millis: u64, node: u64, count: u64) -> (r: u128)
    requires
        millis < MILLIS_CAP,
        node < NODE_LIMIT,
        count < COUNT_LIMIT,
    ensures
        (r as int) == spec_compose(millis, node, count),
{
    proof {
        assert((millis as int) * 0x10000000000000000 <= 0x7FFFFFFFFFFFFFFF * 0x10000000000000000)
            by (nonlinear_arith)
            requires millis < 0x8000000000000000u64,
        ;
        assert((node as int) * 0x40000000000000 < 0x10000000000000000) by (nonlinear_arith)
            requires node < 0x400u64,
        ;
    }
    (millis as u128) * 0x10000000000000000u128 + (node as u128) * 0x40000000000000u128 + (
    count as u128)
}

/// Strict increase along a sequence carries over any gap.
proof fn lemma_increasing_chain(ids: Seq<u128>, i: int, j: int)
    requires
        forall|k: int| 0 <= k < ids.len() - 1 ==> #[trigger] ids[k] < ids[k + 1],
        0 <= i < j < ids.len(),
    ensures
        ids[i] < ids[j],
    decreases j - i,
{
    if j > i + 1 {
        lemma_increasing_chain(ids, i, j - 1);
    }
    assert(ids[j - 1] < ids[j]);
}

/// Identifiers issued in strictly increasing order are pairwise
/// distinct, whatever the interleaving that produced the order.
pub proof fn lemma_increasing_ids_distinct(ids: Seq<u128>)
    requires
        forall|k: int| 0 <= k < ids.len() - 1 ==> #[trigger] ids[k] < ids[k + 1],
    ensures
        forall|i: int, j: int| 0 <= i < j < ids.len() ==> ids[i] != ids[j],
{
    assert forall|i: int, j: int| 0 <= i < j < ids.len() implies ids[i] != ids[j] by {
        lemma_increasing_chain(ids, i, j);
    }
}

} // verus!
