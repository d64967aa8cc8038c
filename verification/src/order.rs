//! The re-ordering stage.  The dispatcher completes work in arrival
//! order; this state machine buffers results that arrive early and
//! releases them in ascending, contiguous block-range order.

use std::collections::BTreeMap;

use vstd::prelude::*;

use crate::range::OrderingKey;
use crate::range::Range;

verus! {

/// What became of one offered result.
pub enum OfferOutcome<T> {
    /// The result was next in line and is released at once.
    Emitted(Range, T),
    /// The result arrived early and waits in the buffer.
    Buffered,
    /// The result carried no range: an ordering contract violation, handed
    /// back to the caller as an error.
    Unordered(T),
}

/// Re-orders range-keyed results into ascending, contiguous order.
///
/// `emitted` records the ranges released so far, in order; it carries the
/// ordering guarantee: the released ranges are contiguous, ascending, and
/// begin at `start`.
pub struct RangeOrderer<T> {
    pub next_expected: u64,
    pub buffer: BTreeMap<u64, (u64, T)>,
    pub start: Ghost<u64>,
    pub emitted: Ghost<Seq<Range>>,
}

impl<T> RangeOrderer<T> {
    pub open spec fn wf(self) -> bool {
        &&& (self.emitted@.len() == 0 ==> self.next_expected == self.start@)
        &&& (self.emitted@.len() > 0 ==> self.emitted@[0].from == self.start@
            && self.next_expected == self.emitted@[self.emitted@.len() - 1].to + 1)
        &&& (forall|i: int|
            0 <= i < self.emitted@.len() ==> (#[trigger] self.emitted@[i]).wf()
                && self.emitted@[i].to < u64::MAX)
        &&& (forall|i: int|
            0 <= i < self.emitted@.len() - 1 ==> (#[trigger] self.emitted@[i]).to + 1
                == self.emitted@[i + 1].from)
        &&& (forall|k: u64|
            #[trigger] self.buffer@.contains_key(k) ==> k <= self.buffer@[k].0 < u64::MAX)
    }

    /// An empty orderer expecting `start` as the first block.
    pub fn new(start: u64) -> (r: RangeOrderer<T>)
        ensures
            r.wf(),
            r.start@ == start,
            r.next_expected == start,
            r.emitted@.len() == 0,
            r.buffer@ == Map::<u64, (u64, T)>::empty(),
    {
        let r = RangeOrderer {
            next_expected: start,
            buffer: BTreeMap::new(),
            start: Ghost(start),
            emitted: Ghost(Seq::empty()),
        };
        proof {
            assert(r.buffer@ =~= Map::<u64, (u64, T)>::empty());
        }
        r
    }

    /// Take in one result from the unordered stream.  A result keyed by
    /// the next expected block is released at once; a later range waits in
    /// the buffer; an unordered key is handed back as a contract
    /// violation.  A range keyed equal to an already-buffered `from`
    /// replaces that entry.
    pub fn offer(&mut self, key: OrderingKey, value: T) -> (r: OfferOutcome<T>)
        requires
            old(self).wf(),
            key matches OrderingKey::Range(rg) ==> rg.wf() && rg.to < u64::MAX,
        ensures
            final(self).wf(),
            final(self).start@ == old(self).start@,
            key is Unordered ==> {
                &&& r matches OfferOutcome::Unordered(v) && v == value
                &&& final(self).buffer@ == old(self).buffer@
                &&& final(self).emitted@ == old(self).emitted@
                &&& final(self).next_expected == old(self).next_expected
            },
            key matches OrderingKey::Range(rg) ==> {
                &&& rg.from == old(self).next_expected ==> {
                    &&& r matches OfferOutcome::Emitted(erg, v) && erg == rg && v == value
                    &&& final(self).emitted@ == old(self).emitted@.push(rg)
                    &&& final(self).next_expected == rg.to + 1
                    &&& final(self).buffer@ == old(self).buffer@
                }
                &&& rg.from != old(self).next_expected ==> {
                    &&& r is Buffered
                    &&& final(self).buffer@ == old(self).buffer@.insert(rg.from, (rg.to, value))
                    &&& final(self).emitted@ == old(self).emitted@
                    &&& final(self).next_expected == old(self).next_expected
                }
            },
    {
        match key {
            OrderingKey::Unordered => OfferOutcome::Unordered(value),
            OrderingKey::Range(rg) => {
                if rg.from == self.next_expected {
                    self.next_expected = rg.to + 1;
                    proof {
                        if self.emitted@.len() > 0 {
                            assert(self.emitted@[self.emitted@.len() - 1].to + 1 == rg.from);
                        }
                    }
                    self.emitted = Ghost(self.emitted@.push(rg));
                    OfferOutcome::Emitted(rg, value)
                } else {
                    self.buffer.insert(rg.from, (rg.to, value));
                    OfferOutcome::Buffered
                }
            },
        }
    }

    /// Release the buffered result for the next expected block, if it has
    /// arrived.
    pub fn next_ready(&mut self) -> (r: Option<(Range, T)>)
        requires
            old(self).wf(),
        ensures
            final(self).wf(),
            final(self).start@ == old(self).start@,
            old(self).buffer@.contains_key(old(self).next_expected) ==> {
                &&& r matches Some(p)
                &&& p.0 == (Range {
                    from: old(self).next_expected,
                    to: old(self).buffer@[old(self).next_expected].0,
                })
                &&& p.1 == old(self).buffer@[old(self).next_expected].1
                &&& final(self).buffer@ == old(self).buffer@.remove(old(self).next_expected)
                &&& final(self).emitted@ == old(self).emitted@.push(p.0)
                &&& final(self).next_expected == p.0.to + 1
            },
            !old(self).buffer@.contains_key(old(self).next_expected) ==> {
                &&& r is None
                &&& final(self).buffer@ == old(self).buffer@
                &&& final(self).emitted@ == old(self).emitted@
                &&& final(self).next_expected == old(self).next_expected
            },
    {
        let need = self.next_expected;
        match self.buffer.remove(&need) {
            Some((to, value)) => {
                let rg = Range { from: need, to };
                proof {
                    assert(old(self).buffer@.contains_key(need));
                    if self.emitted@.len() > 0 {
                        assert(self.emitted@[self.emitted@.len() - 1].to + 1 == rg.from);
                    }
                }
                self.next_expected = to + 1;
                self.emitted = Ghost(self.emitted@.push(rg));
                Some((rg, value))
            },
            None => {
                proof {
                    assert(self.buffer@ =~= old(self).buffer@);
                }
                None
            },
        }
    }
}

/// The orderer cannot stall on a partition batch: once the buffered
/// ranges cover the next expected block and none of them begins before it
/// (as holds when the offered ranges partition the planned range and the
/// blocks before `next_expected` were already released), the buffer holds
/// the range that [`RangeOrderer::next_ready`] releases next.  Repeating
/// the argument drains every buffered result.
pub proof fn lemma_no_stall<T>(o: RangeOrderer<T>)
    requires
        o.wf(),
        exists|k: u64|
            #[trigger] o.buffer@.contains_key(k) && k <= o.next_expected <= o.buffer@[k].0,
        forall|k: u64| #[trigger] o.buffer@.contains_key(k) ==> k >= o.next_expected,
    ensures
        o.buffer@.contains_key(o.next_expected),
{
    let k = choose|k: u64|
        #[trigger] o.buffer@.contains_key(k) && k <= o.next_expected <= o.buffer@[k].0;
    assert(k == o.next_expected);
}

/// The released ranges are strictly ascending and contiguous: each range
/// begins right after the one before it, so no block is released twice and
/// none is skipped.
pub proof fn lemma_emitted_ordered<T>(o: RangeOrderer<T>)
    requires
        o.wf(),
    ensures
        forall|i: int|
            0 <= i < o.emitted@.len() - 1 ==> (#[trigger] o.emitted@[i]).to + 1 == o.emitted@[
                i + 1
            ].from,
        forall|i: int, j: int|
            0 <= i < j < o.emitted@.len() ==> (#[trigger] o.emitted@[i]).to < (
            #[trigger] o.emitted@[j]).from,
{
    assert forall|i: int, j: int| 0 <= i < j < o.emitted@.len() implies (
    #[trigger] o.emitted@[i]).to < (#[trigger] o.emitted@[j]).from by {
        lemma_emitted_ordered_pair(o.emitted@, i, j);
    }
}

/// Helper induction for [`lemma_emitted_ordered`].
proof fn lemma_emitted_ordered_pair(s: Seq<Range>, i: int, j: int)
    requires
        forall|k: int| 0 <= k < s.len() ==> (#[trigger] s[k]).wf(),
        forall|k: int| 0 <= k < s.len() - 1 ==> (#[trigger] s[k]).to + 1 == s[k + 1].from,
        0 <= i < j < s.len(),
    ensures
        s[i].to < s[j].from,
    decreases j - i,
{
    if i + 1 < j {
        lemma_emitted_ordered_pair(s, i + 1, j);
    }
}

} // verus!
