//! The `eth_getBlockByNumber` planner and its fluent builder: one work
//! item per requested block.  Numeric entries are range-keyed (a one-block
//! range); named tags cannot be strictly ordered and are unordered.

use vstd::prelude::*;

use crate::error::PlanError;
use crate::range::OrderingKey;
use crate::range::Range;
use crate::work::BlockRef;
use crate::work::Params;
use crate::work::ParamsView;
use crate::work::WorkItem;
use crate::work::WorkItemView;

verus! {

/// The ordering key of a block request: numeric entries are keyed by
/// their one-block range, tags are unordered.
pub open spec fn block_key(b: BlockRef) -> OrderingKey {
    match b {
        BlockRef::Number(n) => OrderingKey::Range(Range { from: n, to: n }),
        _ => OrderingKey::Unordered,
    }
}

/// The work item that a block plan emits for entry `b`.
pub open spec fn block_work_item(b: BlockRef, full: bool) -> WorkItemView {
    WorkItemView {
        method: "eth_getBlockByNumber"@,
        params: ParamsView::BlockByNumber { block: b, full },
        key: block_key(b),
    }
}

/// A validated `eth_getBlockByNumber` batch: the requested entries and
/// whether full transaction objects are wanted.
pub struct BlockByNumberPlan {
    pub numbers: Vec<BlockRef>,
    pub full: bool,
}

impl BlockByNumberPlan {
    /// One work item per entry, in input order.
    pub fn plan(&self) -> (out: Vec<WorkItem>)
        ensures
            out@.len() == self.numbers@.len(),
            forall|i: int|
                0 <= i < out@.len() ==> (#[trigger] out@[i])@ == block_work_item(
                    self.numbers@[i],
                    self.full,
                ),
            forall|i: int| 0 <= i < out@.len() ==> (#[trigger] out@[i]).wf(),
    {
        let mut out: Vec<WorkItem> = Vec::new();
        let mut i: usize = 0;
        while i < self.numbers.len()
            invariant
                i <= self.numbers@.len(),
                out@.len() == i,
                forall|j: int|
                    0 <= j < i ==> (#[trigger] out@[j])@ == block_work_item(
                        self.numbers@[j],
                        self.full,
                    ),
                forall|j: int| 0 <= j < i ==> (#[trigger] out@[j]).wf(),
            decreases self.numbers@.len() - i,
        {
            proof {
                reveal_strlit("eth_getBlockByNumber");
            }
            let b = self.numbers[i];
            let key = match b {
                BlockRef::Number(n) => OrderingKey::Range(Range { from: n, to: n }),
                _ => OrderingKey::Unordered,
            };
            out.push(WorkItem {
                method: "eth_getBlockByNumber",
                params: Params::BlockByNumber { block: b, full: self.full },
                key,
            });
            i = i + 1;
        }
        out
    }
}

/// The numeric entries `[s, e]` expands to.
pub open spec fn range_refs(s: u64, e: u64) -> Seq<BlockRef> {
    Seq::new((e + 1 - s) as nat, |i: int| BlockRef::Number((s + i) as u64))
}

/// Fluent, validated construction of a [`BlockByNumberPlan`].
pub struct BlockByNumberBuilder {
    pub numbers: Vec<BlockRef>,
    pub from: Option<u64>,
    pub to: Option<u64>,
    pub full: bool,
    pub max_count: usize,
}

impl BlockByNumberBuilder {
    pub open spec fn wf(self) -> bool {
        self.max_count >= 1
    }

    /// Whether the configured `[from, to]` range, if any, is not inverted.
    pub open spec fn range_ok(self) -> bool {
        !(self.from matches Some(s) && self.to matches Some(e) && e < s)
    }

    /// The entry list after expanding the configured range, if any.
    pub open spec fn expanded(self) -> Seq<BlockRef> {
        match (self.from, self.to) {
            (Some(s), Some(e)) => if s <= e {
                self.numbers@ + range_refs(s, e)
            } else {
                self.numbers@
            },
            _ => self.numbers@,
        }
    }

    /// An empty builder asking for full transaction objects, with the
    /// default cap.
    pub fn new() -> (r: BlockByNumberBuilder)
        ensures
            r.wf(),
            r.numbers@.len() == 0,
            r.from is None,
            r.to is None,
            r.full == true,
            r.max_count == 10000,
    {
        BlockByNumberBuilder {
            numbers: Vec::new(),
            from: None,
            to: None,
            full: true,
            max_count: 10000,
        }
    }

    /// Append one entry.
    pub fn push(self, n: BlockRef) -> (r: BlockByNumberBuilder)
        ensures
            r.numbers@ == self.numbers@.push(n),
            r == (BlockByNumberBuilder { numbers: r.numbers, ..self }),
    {
        let mut numbers = self.numbers;
        numbers.push(n);
        BlockByNumberBuilder { numbers, ..self }
    }

    /// Replace all entries.
    pub fn numbers(self, ns: Vec<BlockRef>) -> (r: BlockByNumberBuilder)
        ensures
            r == (BlockByNumberBuilder { numbers: ns, ..self }),
    {
        BlockByNumberBuilder { numbers: ns, ..self }
    }

    /// Ask for every block of `[start, end]`; expanded when the plan is
    /// built.
    pub fn range(self, start: u64, end: u64) -> (r: BlockByNumberBuilder)
        ensures
            r == (BlockByNumberBuilder { from: Some(start), to: Some(end), ..self }),
    {
        BlockByNumberBuilder { from: Some(start), to: Some(end), ..self }
    }

    /// Append one numeric entry.
    pub fn push_number(self, n: u64) -> (r: BlockByNumberBuilder)
        ensures
            r.numbers@ == self.numbers@.push(BlockRef::Number(n)),
            r == (BlockByNumberBuilder { numbers: r.numbers, ..self }),
    {
        self.push(BlockRef::Number(n))
    }

    /// Append the `earliest` tag.
    pub fn earliest(self) -> (r: BlockByNumberBuilder)
        ensures
            r.numbers@ == self.numbers@.push(BlockRef::Earliest),
            r == (BlockByNumberBuilder { numbers: r.numbers, ..self }),
    {
        self.push(BlockRef::Earliest)
    }

    /// Append the `latest` tag.
    pub fn latest(self) -> (r: BlockByNumberBuilder)
        ensures
            r.numbers@ == self.numbers@.push(BlockRef::Latest),
            r == (BlockByNumberBuilder { numbers: r.numbers, ..self }),
    {
        self.push(BlockRef::Latest)
    }

    /// Append the `safe` tag.
    pub fn safe(self) -> (r: BlockByNumberBuilder)
        ensures
            r.numbers@ == self.numbers@.push(BlockRef::Safe),
            r == (BlockByNumberBuilder { numbers: r.numbers, ..self }),
    {
        self.push(BlockRef::Safe)
    }

    /// Append the `finalized` tag.
    pub fn finalized(self) -> (r: BlockByNumberBuilder)
        ensures
            r.numbers@ == self.numbers@.push(BlockRef::Finalized),
            r == (BlockByNumberBuilder { numbers: r.numbers, ..self }),
    {
        self.push(BlockRef::Finalized)
    }

    /// Append the `pending` tag.
    pub fn pending(self) -> (r: BlockByNumberBuilder)
        ensures
            r.numbers@ == self.numbers@.push(BlockRef::Pending),
            r == (BlockByNumberBuilder { numbers: r.numbers, ..self }),
    {
        self.push(BlockRef::Pending)
    }

    /// Ask for full transaction objects (`true`) or hashes only (`false`).
    pub fn full(self, yes: bool) -> (r: BlockByNumberBuilder)
        ensures
            r == (BlockByNumberBuilder { full: yes, ..self }),
    {
        BlockByNumberBuilder { full: yes, ..self }
    }

    /// Ask for transaction hashes only.
    pub fn hashes_only(self) -> (r: BlockByNumberBuilder)
        ensures
            r == (BlockByNumberBuilder { full: false, ..self }),
    {
        self.full(false)
    }

    /// Set the entry cap, silently clamped to at least one.
    pub fn limit(self, max: usize) -> (r: BlockByNumberBuilder)
        ensures
            r == (BlockByNumberBuilder {
                max_count: if max >= 1 { max } else { 1usize },
                ..self
            }),
    {
        let m: usize = if max >= 1 {
            max
        } else {
            1
        };
        BlockByNumberBuilder { max_count: m, ..self }
    }

    /// Validate the configuration into a plan.  A configured range must
    /// not be inverted, and the expanded entry list must stay within
    /// `max_count`.
    pub fn plan(self) -> (r: Result<BlockByNumberPlan, PlanError>)
        requires
            self.wf(),
        ensures
            r matches Err(PlanError::InvalidRange) <==> !self.range_ok(),
            r matches Err(PlanError::TooManyQueries) <==> (self.range_ok() && self.expanded().len()
                > self.max_count),
            r is Ok <==> (self.range_ok() && self.expanded().len() <= self.max_count),
            r matches Ok(p) ==> p.numbers@ == self.expanded() && p.full == self.full,
    {
        let mut numbers = self.numbers;
        if let (Some(s), Some(e)) = (self.from, self.to) {
            if e < s {
                return Err(PlanError::InvalidRange);
            }
            let need: u128 = numbers.len() as u128 + (e - s) as u128 + 1;
            if need > self.max_count as u128 {
                proof {
                    assert(self.expanded().len() == numbers@.len() + (e - s) + 1);
                }
                return Err(PlanError::TooManyQueries);
            }
            let span: u64 = e - s;
            proof {
                assert(span + 1 <= usize::MAX);
            }
            let count: u64 = span + 1;
            let mut i: u64 = 0;
            let ghost base = numbers@;
            while i < count
                invariant
                    s + span == e,
                    count == span + 1,
                    i <= count,
                    numbers@.len() == base.len() + i,
                    forall|j: int| 0 <= j < base.len() ==> numbers@[j] == base[j],
                    forall|j: int|
                        0 <= j < i ==> #[trigger] numbers@[base.len() + j] == BlockRef::Number(
                            (s + j) as u64,
                        ),
                decreases count - i,
            {
                numbers.push(BlockRef::Number(s + i));
                i = i + 1;
            }
            proof {
                assert forall|k: int| 0 <= k < numbers@.len() implies numbers@[k]
                    == self.expanded()[k] by {
                    if k >= base.len() {
                        let j = k - base.len();
                        assert(numbers@[base.len() + j] == BlockRef::Number((s + j) as u64));
                    }
                }
                assert(numbers@ =~= self.expanded());
            }
        } else {
            proof {
                assert(numbers@ == self.expanded());
            }
        }
        if numbers.len() > self.max_count {
            return Err(PlanError::TooManyQueries);
        }
        Ok(BlockByNumberPlan { numbers, full: self.full })
    }
}

} // verus!
