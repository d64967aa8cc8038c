//! The `eth_getTransactionByHash` planner and its fluent builder: one
//! unordered work item per hash, with stable deduplication.

use vstd::prelude::*;

use crate::bytes::stable_dedup;
use crate::bytes::word_views;
use crate::bytes::Word32;
use crate::error::PlanError;
use crate::range::OrderingKey;
use crate::work::words_wf;
use crate::work::Params;
use crate::work::ParamsView;
use crate::work::WorkItem;
use crate::work::WorkItemView;

verus! {

/// The work item that a transaction-by-hash plan emits for one hash.
pub open spec fn tx_work_item(hash: Seq<u8>) -> WorkItemView {
    WorkItemView {
        method: "eth_getTransactionByHash"@,
        params: ParamsView::TxByHash { hash },
        key: OrderingKey::Unordered,
    }
}

/// A validated `eth_getTransactionByHash` batch.
pub struct TxByHashPlan {
    pub hashes: Vec<Word32>,
}

impl TxByHashPlan {
    pub open spec fn wf(self) -> bool {
        words_wf(self.hashes@)
    }

    /// One unordered work item per hash, in input order.
    pub fn plan(&self) -> (out: Vec<WorkItem>)
        requires
            self.wf(),
        ensures
            out@.len() == self.hashes@.len(),
            forall|i: int|
                0 <= i < out@.len() ==> (#[trigger] out@[i])@ == tx_work_item(self.hashes@[i]@),
            forall|i: int| 0 <= i < out@.len() ==> (#[trigger] out@[i]).wf(),
    {
        let mut out: Vec<WorkItem> = Vec::new();
        let mut i: usize = 0;
        while i < self.hashes.len()
            invariant
                self.wf(),
                i <= self.hashes@.len(),
                out@.len() == i,
                forall|j: int|
                    0 <= j < i ==> (#[trigger] out@[j])@ == tx_work_item(self.hashes@[j]@),
                forall|j: int| 0 <= j < i ==> (#[trigger] out@[j]).wf(),
            decreases self.hashes@.len() - i,
        {
            proof {
                reveal_strlit("eth_getTransactionByHash");
            }
            out.push(WorkItem {
                method: "eth_getTransactionByHash",
                params: Params::TxByHash { hash: self.hashes[i].dup() },
                key: OrderingKey::Unordered,
            });
            i = i + 1;
        }
        out
    }
}

/// Fluent, validated construction of a [`TxByHashPlan`]: hashes are
/// deduplicated stably (first occurrence wins) and capped.
pub struct TxByHashBuilder {
    pub hashes: Vec<Word32>,
    pub max_hashes: usize,
}

impl TxByHashBuilder {
    pub open spec fn wf(self) -> bool {
        &&& self.max_hashes >= 1
        &&& words_wf(self.hashes@)
    }

    /// An empty builder with the default cap.
    pub fn new() -> (r: TxByHashBuilder)
        ensures
            r.wf(),
            r.hashes@.len() == 0,
            r.max_hashes == 10000,
    {
        TxByHashBuilder { hashes: Vec::new(), max_hashes: 10000 }
    }

    /// Replace all hashes (order preserved).
    pub fn hashes(self, hashes: Vec<Word32>) -> (r: TxByHashBuilder)
        requires
            words_wf(hashes@),
        ensures
            r == (TxByHashBuilder { hashes, ..self }),
    {
        TxByHashBuilder { hashes, ..self }
    }

    /// Append one hash.
    pub fn push(self, h: Word32) -> (r: TxByHashBuilder)
        requires
            h.wf(),
        ensures
            r.hashes@ == self.hashes@.push(h),
            r == (TxByHashBuilder { hashes: r.hashes, ..self }),
    {
        let mut hashes = self.hashes;
        hashes.push(h);
        TxByHashBuilder { hashes, ..self }
    }

    /// Set the hash cap, silently clamped to at least one.
    pub fn limit(self, max_hashes: usize) -> (r: TxByHashBuilder)
        ensures
            r == (TxByHashBuilder {
                max_hashes: if max_hashes >= 1 { max_hashes } else { 1usize },
                ..self
            }),
    {
        let m: usize = if max_hashes >= 1 {
            max_hashes
        } else {
            1
        };
        TxByHashBuilder { max_hashes: m, ..self }
    }

    /// Validate and deduplicate into a plan.  The input list must stay
    /// within `max_hashes`; the plan keeps the first occurrence of each
    /// hash, in input order.
    pub fn plan(self) -> (r: Result<TxByHashPlan, PlanError>)
        requires
            self.wf(),
        ensures
            r matches Err(PlanError::TooManyHashes) <==> self.hashes@.len() > self.max_hashes,
            r is Ok <==> self.hashes@.len() <= self.max_hashes,
            r matches Ok(p) ==> {
                &&& p.wf()
                &&& word_views(p.hashes@) == stable_dedup(word_views(self.hashes@))
            },
    {
        if self.hashes.len() > self.max_hashes {
            return Err(PlanError::TooManyHashes);
        }
        let hashes = crate::bytes::dedup_words(&self.hashes);
        Ok(TxByHashPlan { hashes })
    }
}

} // verus!
