//! Block-time search: find the greatest block whose timestamp is at or
//! before a target, by binary search over `[lo, hi]`.  Each probe costs
//! one RPC call, so the search is a step machine: it names the block it
//! needs next, and a driver outside the library fetches that block's
//! timestamp and feeds it back.  Timestamps are assumed non-decreasing in
//! the block number; the machine's transitions are exact for every input
//! either way.

use vstd::prelude::*;

verus! {

/// The typed outcome when the target timestamp lies outside the timestamps
/// of the search bounds.
#[derive(Clone, Copy, Debug, PartialEq, Eq, Structural)]
pub enum RangeMiss {
    BeforeRange { t: u64, lo: u64, lo_ts: u64 },
    AfterRange { t: u64, hi: u64, hi_ts: u64 },
}

impl RangeMiss {
    /// The words of the miss, for error reporting.
    pub open spec fn describe_spec(self) -> Seq<char> {
        match self {
            RangeMiss::BeforeRange { t, lo, lo_ts } => "timestamp is before range: t="@
                + crate::dec::dec_chars(t as int) + ", lo="@ + crate::dec::dec_chars(lo as int)
                + " (ts="@ + crate::dec::dec_chars(lo_ts as int) + ")"@,
            RangeMiss::AfterRange { t, hi, hi_ts } => "timestamp is after range: t="@
                + crate::dec::dec_chars(t as int) + ", hi="@ + crate::dec::dec_chars(hi as int)
                + " (ts="@ + crate::dec::dec_chars(hi_ts as int) + ")"@,
        }
    }

    /// Say in words which side of the range the target missed on.
    pub fn describe(&self) -> (r: String)
        ensures
            r@ == self.describe_spec(),
    {
        match self {
            RangeMiss::BeforeRange { t, lo, lo_ts } => {
                let mut s = String::from_str("timestamp is before range: t=");
                s.append(crate::dec::u64_to_string(*t).as_str());
                s.append(", lo=");
                s.append(crate::dec::u64_to_string(*lo).as_str());
                s.append(" (ts=");
                s.append(crate::dec::u64_to_string(*lo_ts).as_str());
                s.append(")");
                s
            },
            RangeMiss::AfterRange { t, hi, hi_ts } => {
                let mut s = String::from_str("timestamp is after range: t=");
                s.append(crate::dec::u64_to_string(*t).as_str());
                s.append(", hi=");
                s.append(crate::dec::u64_to_string(*hi).as_str());
                s.append(" (ts=");
                s.append(crate::dec::u64_to_string(*hi_ts).as_str());
                s.append(")");
                s
            },
        }
    }
}

/// What the strict search asks of its driver next.
#[derive(Clone, Copy, Debug, PartialEq, Eq, Structural)]
pub enum SearchStep {
    /// Fetch this block's timestamp and feed it back.
    FetchBlock(u64),
    /// The search is over: the greatest probed block whose timestamp was
    /// at or before the target.
    Found(u64),
    /// The target lies outside the bounds' timestamps.
    Miss(RangeMiss),
}

/// Where the strict search stands.
#[derive(Clone, Copy, Debug, PartialEq, Eq, Structural)]
pub enum SearchPhase {
    /// Waiting for the timestamp of `lo`.
    NeedLo,
    /// Waiting for the timestamp of `hi`.
    NeedHi { lo_ts: u64 },
    /// Bisecting: candidates are `[l, r_end)`, `best` is the greatest
    /// block so far seen with a timestamp at or before the target.
    Bisect { l: u64, r_end: u64, best: u64 },
    /// Finished (found or missed).
    Done,
}

/// The strict block-time search over `[lo, hi]` for target timestamp `t`.
///
/// Protocol: build with [`Self::start`], then fetch the block the returned
/// step names and feed its timestamp to [`Self::on_timestamp`] until a
/// `Found` or `Miss` step comes back.  The boundary timestamps are probed
/// first (a target before `lo`'s or after `hi`'s timestamp is a typed
/// miss), then the bisection runs; every probe after the boundary ones
/// halves the remaining interval.
pub struct BlockTimeSearch {
    pub t: u64,
    pub lo: u64,
    pub hi: u64,
    pub phase: SearchPhase,
}

/// The block the bisection probes next: the midpoint of `[l, r_end)`.
pub open spec fn bisect_mid(l: u64, r_end: u64) -> u64 {
    (l + (r_end - 1 - l) / 2) as u64
}

impl BlockTimeSearch {
    pub open spec fn wf(self) -> bool {
        &&& self.lo <= self.hi < u64::MAX
        &&& (self.phase matches SearchPhase::Bisect { l, r_end, best } ==> self.lo <= l <= r_end
            <= self.hi + 1 && l < r_end && self.lo <= best <= self.hi)
    }

    /// How much work remains; every fed timestamp strictly decreases it,
    /// so a driver's loop terminates.
    pub open spec fn fuel(self) -> int {
        match self.phase {
            SearchPhase::NeedLo => self.hi - self.lo + 4,
            SearchPhase::NeedHi { .. } => self.hi - self.lo + 3,
            SearchPhase::Bisect { l, r_end, .. } => r_end - l + 1,
            SearchPhase::Done => 0,
        }
    }

    /// Begin a search: the driver must first fetch block `lo`.
    pub fn start(t: u64, lo: u64, hi: u64) -> (r: (BlockTimeSearch, SearchStep))
        requires
            lo <= hi < u64::MAX,
        ensures
            r.0.wf(),
            r.0 == (BlockTimeSearch { t, lo, hi, phase: SearchPhase::NeedLo }),
            r.1 == SearchStep::FetchBlock(lo),
    {
        (BlockTimeSearch { t, lo, hi, phase: SearchPhase::NeedLo }, SearchStep::FetchBlock(lo))
    }

    /// The block whose timestamp the machine is waiting for.
    pub open spec fn awaiting(self) -> u64 {
        match self.phase {
            SearchPhase::NeedLo => self.lo,
            SearchPhase::NeedHi { .. } => self.hi,
            SearchPhase::Bisect { l, r_end, .. } => bisect_mid(l, r_end),
            SearchPhase::Done => 0,
        }
    }

    /// Feed the timestamp of the block the previous step asked for.
    pub fn on_timestamp(&mut self, ts: u64) -> (r: SearchStep)
        requires
            old(self).wf(),
            !(old(self).phase is Done),
        ensures
            final(self).wf(),
            final(self).t == old(self).t && final(self).lo == old(self).lo && final(self).hi
                == old(self).hi,
            final(self).fuel() < old(self).fuel(),
            search_steps_to(*old(self), ts, *final(self), r),
            old(self).phase is NeedLo ==> {
                &&& old(self).t < ts ==> r == SearchStep::Miss(
                    RangeMiss::BeforeRange { t: old(self).t, lo: old(self).lo, lo_ts: ts },
                ) && final(self).phase is Done
                &&& old(self).t >= ts ==> r == SearchStep::FetchBlock(old(self).hi) && final(self).phase == (SearchPhase::NeedHi { lo_ts: ts })
            },
            old(self).phase is NeedHi ==> {
                &&& old(self).t > ts ==> r == SearchStep::Miss(
                    RangeMiss::AfterRange { t: old(self).t, hi: old(self).hi, hi_ts: ts },
                ) && final(self).phase is Done
                &&& old(self).t <= ts ==> r == SearchStep::FetchBlock(
                    bisect_mid(old(self).lo, (old(self).hi + 1) as u64),
                ) && final(self).phase == (SearchPhase::Bisect {
                    l: old(self).lo,
                    r_end: (old(self).hi + 1) as u64,
                    best: old(self).lo,
                })
            },
            old(self).phase matches SearchPhase::Bisect { l, r_end, best } ==> {
                let mid = bisect_mid(l, r_end);
                &&& ts <= old(self).t ==> {
                    &&& mid + 1 < r_end ==> r == SearchStep::FetchBlock(
                        bisect_mid((mid + 1) as u64, r_end),
                    ) && final(self).phase == (SearchPhase::Bisect {
                        l: (mid + 1) as u64,
                        r_end,
                        best: mid,
                    })
                    &&& mid + 1 >= r_end ==> r == SearchStep::Found(mid) && final(self).phase is Done
                }
                &&& ts > old(self).t ==> {
                    &&& l < mid ==> r == SearchStep::FetchBlock(bisect_mid(l, mid)) && final(self).phase == (SearchPhase::Bisect { l, r_end: mid, best })
                    &&& l >= mid ==> r == SearchStep::Found(best) && final(self).phase is Done
                }
            },
    {
        match self.phase {
            SearchPhase::NeedLo => {
                if self.t < ts {
                    self.phase = SearchPhase::Done;
                    SearchStep::Miss(RangeMiss::BeforeRange { t: self.t, lo: self.lo, lo_ts: ts })
                } else {
                    self.phase = SearchPhase::NeedHi { lo_ts: ts };
                    SearchStep::FetchBlock(self.hi)
                }
            },
            SearchPhase::NeedHi { .. } => {
                if self.t > ts {
                    self.phase = SearchPhase::Done;
                    SearchStep::Miss(RangeMiss::AfterRange { t: self.t, hi: self.hi, hi_ts: ts })
                } else {
                    let l = self.lo;
                    let r_end = self.hi + 1;
                    self.phase = SearchPhase::Bisect { l, r_end, best: self.lo };
                    SearchStep::FetchBlock(l + (r_end - 1 - l) / 2)
                }
            },
            SearchPhase::Bisect { l, r_end, best } => {
                let mid = l + (r_end - 1 - l) / 2;
                if ts <= self.t {
                    if mid + 1 < r_end {
                        let l2 = mid + 1;
                        self.phase = SearchPhase::Bisect { l: l2, r_end, best: mid };
                        SearchStep::FetchBlock(l2 + (r_end - 1 - l2) / 2)
                    } else {
                        self.phase = SearchPhase::Done;
                        SearchStep::Found(mid)
                    }
                } else {
                    if l < mid {
                        self.phase = SearchPhase::Bisect { l, r_end: mid, best };
                        SearchStep::FetchBlock(l + (mid - 1 - l) / 2)
                    } else {
                        self.phase = SearchPhase::Done;
                        SearchStep::Found(best)
                    }
                }
            },
            SearchPhase::Done => SearchStep::Found(0),
        }
    }
}

/// The transition relation of the strict search: what feeding `ts` to a
/// machine in state `pre` does.
pub open spec fn search_steps_to(
    pre: BlockTimeSearch,
    ts: u64,
    post: BlockTimeSearch,
    r: SearchStep,
) -> bool {
    &&& post.t == pre.t && post.lo == pre.lo && post.hi == pre.hi
    &&& match pre.phase {
        SearchPhase::NeedLo => if pre.t < ts {
            r == SearchStep::Miss(RangeMiss::BeforeRange { t: pre.t, lo: pre.lo, lo_ts: ts })
                && post.phase is Done
        } else {
            r == SearchStep::FetchBlock(pre.hi) && post.phase == (SearchPhase::NeedHi {
                lo_ts: ts,
            })
        },
        SearchPhase::NeedHi { .. } => if pre.t > ts {
            r == SearchStep::Miss(RangeMiss::AfterRange { t: pre.t, hi: pre.hi, hi_ts: ts })
                && post.phase is Done
        } else {
            r == SearchStep::FetchBlock(bisect_mid(pre.lo, (pre.hi + 1) as u64)) && post.phase
                == (SearchPhase::Bisect {
                l: pre.lo,
                r_end: (pre.hi + 1) as u64,
                best: pre.lo,
            })
        },
        SearchPhase::Bisect { l, r_end, best } => {
            let mid = bisect_mid(l, r_end);
            if ts <= pre.t {
                if mid + 1 < r_end {
                    r == SearchStep::FetchBlock(bisect_mid((mid + 1) as u64, r_end))
                        && post.phase == (SearchPhase::Bisect {
                        l: (mid + 1) as u64,
                        r_end,
                        best: mid,
                    })
                } else {
                    r == SearchStep::Found(mid) && post.phase is Done
                }
            } else {
                if l < mid {
                    r == SearchStep::FetchBlock(bisect_mid(l, mid)) && post.phase
                        == (SearchPhase::Bisect { l, r_end: mid, best })
                } else {
                    r == SearchStep::Found(best) && post.phase is Done
                }
            }
        },
        SearchPhase::Done => true,
    }
}

/// Whether block timestamps never decrease with the block number.
pub open spec fn ts_monotone(f: spec_fn(u64) -> u64) -> bool {
    forall|a: u64, b: u64| a <= b ==> #[trigger] f(a) <= #[trigger] f(b)
}

/// Whether `b` is the greatest block of `[lo, hi]` whose timestamp under
/// `f` is at or before `t`.
pub open spec fn is_latest_at_or_before(t: u64, lo: u64, hi: u64, b: u64, f: spec_fn(u64) -> u64) -> bool {
    &&& lo <= b <= hi
    &&& f(b) <= t
    &&& forall|n: u64| b < n <= hi ==> #[trigger] f(n) > t
}

/// What the machine has learned about the chain so far, when every fed
/// timestamp was the true one under `f`.
pub open spec fn search_consistent(m: BlockTimeSearch, f: spec_fn(u64) -> u64) -> bool {
    match m.phase {
        SearchPhase::NeedLo => true,
        SearchPhase::NeedHi { lo_ts } => lo_ts == f(m.lo) && f(m.lo) <= m.t,
        SearchPhase::Bisect { l, r_end, best } => {
            &&& m.lo <= best <= m.hi
            &&& l - 1 <= best
            &&& f(best) <= m.t
            &&& (r_end <= m.hi ==> f(r_end as u64) > m.t)
        },
        SearchPhase::Done => true,
    }
}

/// Correctness of the strict search under non-decreasing timestamps:
/// feeding the machine the true timestamp of each block it asks for keeps
/// it consistent with the chain; a `Found` step names the greatest block
/// in the bounds whose timestamp is at or before the target; and a miss
/// means the target lies before the lower bound's timestamp or after the
/// upper bound's.
pub proof fn lemma_search_step_correct(
    pre: BlockTimeSearch,
    post: BlockTimeSearch,
    r: SearchStep,
    f: spec_fn(u64) -> u64,
)
    requires
        ts_monotone(f),
        pre.wf(),
        !(pre.phase is Done),
        search_consistent(pre, f),
        search_steps_to(pre, f(pre.awaiting()), post, r),
    ensures
        search_consistent(post, f),
        r matches SearchStep::Found(b) ==> is_latest_at_or_before(pre.t, pre.lo, pre.hi, b, f),
        r matches SearchStep::Miss(m) ==> (m matches RangeMiss::BeforeRange { t, lo, lo_ts } && t
            == pre.t && lo == pre.lo && lo_ts == f(pre.lo) && pre.t < f(pre.lo)) || (
        m matches RangeMiss::AfterRange { t, hi, hi_ts } && t == pre.t && hi == pre.hi && hi_ts
            == f(pre.hi) && pre.t > f(pre.hi)),
{
    match pre.phase {
        SearchPhase::NeedLo => {
        },
        SearchPhase::NeedHi { .. } => {
        },
        SearchPhase::Bisect { l, r_end, best } => {
            let mid = bisect_mid(l, r_end);
            let ts = f(mid);
            assert(l <= mid < r_end);
            if ts <= pre.t {
                if mid + 1 < r_end {
                } else {
                    assert forall|n: u64| mid < n <= pre.hi implies #[trigger] f(n) > pre.t by {
                        assert(r_end <= n);
                        assert(f(r_end as u64) <= f(n));
                    }
                }
            } else {
                if l < mid {
                } else {
                    assert(mid == l);
                    assert(best < l) by {
                        if best >= l {
                            assert(f(mid) <= f(best));
                        }
                    }
                    assert(best == l - 1);
                    assert forall|n: u64| best < n <= pre.hi implies #[trigger] f(n) > pre.t by {
                        assert(l <= n);
                        assert(f(mid) <= f(n));
                    }
                }
            }
        },
        SearchPhase::Done => {
        },
    }
}

/// What the bounded search asks of its driver next.
#[derive(Clone, Copy, Debug, PartialEq, Eq, Structural)]
pub enum SimpleStep {
    /// Fetch this block's timestamp and feed it back.
    FetchBlock(u64),
    /// The search is over, at this block.
    Found(u64),
    /// No block in the bounds has a timestamp at or before the target.
    NotFound,
}

/// Where the bounded search stands.
#[derive(Clone, Copy, Debug, PartialEq, Eq, Structural)]
pub enum SimplePhase {
    /// Waiting for the timestamp of `hi`.
    NeedHi,
    /// Waiting for the timestamp of `lo`.
    NeedLo,
    /// Bisecting with the invariant `ts(l) <= t < ts(h)` (under monotone
    /// timestamps).
    Bisect { l: u64, h: u64 },
    /// Finished.
    Done,
}

/// The bounded block-time search: like [`BlockTimeSearch`], but a target
/// past `hi`'s timestamp yields `hi` itself rather than a typed miss, and
/// a target before `lo`'s timestamp yields nothing.  Empty bounds
/// (`lo > hi`) yield nothing without any probe.
pub struct SimpleBlockTimeSearch {
    pub t: u64,
    pub lo: u64,
    pub hi: u64,
    pub phase: SimplePhase,
}

impl SimpleBlockTimeSearch {
    pub open spec fn wf(self) -> bool {
        self.phase matches SimplePhase::Bisect { l, h } ==> self.lo <= l && l < h && h <= self.hi
    }

    /// How much work remains; every fed timestamp strictly decreases it.
    pub open spec fn fuel(self) -> int {
        match self.phase {
            SimplePhase::NeedHi => self.hi - self.lo + 4,
            SimplePhase::NeedLo => self.hi - self.lo + 3,
            SimplePhase::Bisect { l, h } => h - l + 1,
            SimplePhase::Done => 0,
        }
    }

    /// Begin a search: with non-empty bounds the driver must first fetch
    /// block `hi`; inverted bounds end at once with nothing.
    pub fn start(t: u64, lo: u64, hi: u64) -> (r: (SimpleBlockTimeSearch, SimpleStep))
        ensures
            r.0.wf(),
            r.0.t == t && r.0.lo == lo && r.0.hi == hi,
            lo > hi ==> r.1 == SimpleStep::NotFound && r.0.phase is Done,
            lo <= hi ==> r.1 == SimpleStep::FetchBlock(hi) && r.0.phase is NeedHi,
    {
        if lo > hi {
            (SimpleBlockTimeSearch { t, lo, hi, phase: SimplePhase::Done }, SimpleStep::NotFound)
        } else {
            (
                SimpleBlockTimeSearch { t, lo, hi, phase: SimplePhase::NeedHi },
                SimpleStep::FetchBlock(hi),
            )
        }
    }

    /// Feed the timestamp of the block the previous step asked for.
    pub fn on_timestamp(&mut self, ts: u64) -> (r: SimpleStep)
        requires
            old(self).wf(),
            !(old(self).phase is Done),
            old(self).lo <= old(self).hi,
        ensures
            final(self).wf(),
            final(self).t == old(self).t && final(self).lo == old(self).lo && final(self).hi
                == old(self).hi,
            final(self).fuel() < old(self).fuel(),
            old(self).phase is NeedHi ==> {
                &&& ts < old(self).t ==> r == SimpleStep::Found(old(self).hi) && final(self).phase is Done
                &&& ts >= old(self).t ==> r == SimpleStep::FetchBlock(old(self).lo) && final(self).phase is NeedLo
            },
            old(self).phase is NeedLo ==> {
                &&& ts > old(self).t ==> r == SimpleStep::NotFound && final(self).phase is Done
                &&& ts <= old(self).t ==> {
                    &&& old(self).lo + 1 < old(self).hi ==> r == SimpleStep::FetchBlock(
                        ((old(self).lo + old(self).hi) / 2) as u64,
                    ) && final(self).phase == (SimplePhase::Bisect {
                        l: old(self).lo,
                        h: old(self).hi,
                    })
                    &&& old(self).lo + 1 >= old(self).hi ==> r == SimpleStep::Found(old(self).lo)
                        && final(self).phase is Done
                }
            },
            old(self).phase matches SimplePhase::Bisect { l, h } ==> {
                let mid = ((l + h) / 2) as u64;
                &&& ts <= old(self).t ==> {
                    &&& mid + 1 < h ==> r == SimpleStep::FetchBlock(((mid + h) / 2) as u64)
                        && final(self).phase == (SimplePhase::Bisect { l: mid, h })
                    &&& mid + 1 >= h ==> r == SimpleStep::Found(mid) && final(self).phase is Done
                }
                &&& ts > old(self).t ==> {
                    &&& l + 1 < mid ==> r == SimpleStep::FetchBlock(((l + mid) / 2) as u64)
                        && final(self).phase == (SimplePhase::Bisect { l, h: mid })
                    &&& l + 1 >= mid ==> r == SimpleStep::Found(l) && final(self).phase is Done
                }
            },
    {
        match self.phase {
            SimplePhase::NeedHi => {
                if ts < self.t {
                    self.phase = SimplePhase::Done;
                    SimpleStep::Found(self.hi)
                } else {
                    self.phase = SimplePhase::NeedLo;
                    SimpleStep::FetchBlock(self.lo)
                }
            },
            SimplePhase::NeedLo => {
                if ts > self.t {
                    self.phase = SimplePhase::Done;
                    SimpleStep::NotFound
                } else {
                    if self.hi - self.lo > 1 {
                        self.phase = SimplePhase::Bisect { l: self.lo, h: self.hi };
                        SimpleStep::FetchBlock(self.lo + (self.hi - self.lo) / 2)
                    } else {
                        self.phase = SimplePhase::Done;
                        SimpleStep::Found(self.lo)
                    }
                }
            },
            SimplePhase::Bisect { l, h } => {
                let mid = l + (h - l) / 2;
                if ts <= self.t {
                    if mid + 1 < h {
                        self.phase = SimplePhase::Bisect { l: mid, h };
                        SimpleStep::FetchBlock(mid + (h - mid) / 2)
                    } else {
                        self.phase = SimplePhase::Done;
                        SimpleStep::Found(mid)
                    }
                } else {
                    if l + 1 < mid {
                        self.phase = SimplePhase::Bisect { l, h: mid };
                        SimpleStep::FetchBlock(l + (mid - l) / 2)
                    } else {
                        self.phase = SimplePhase::Done;
                        SimpleStep::Found(l)
                    }
                }
            },
            SimplePhase::Done => SimpleStep::NotFound,
        }
    }
}

} // verus!
