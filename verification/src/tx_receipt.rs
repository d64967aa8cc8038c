//! The `eth_getTransactionReceipt` planner and its fluent builder: one
//! unordered work item per hash, with stable deduplication.

use vstd::prelude::*;

use crate::bytes::stable_dedup;
use crate::bytes::word_views;
use crate::bytes::Word32;
use crate::error::PlanError;
use crate::range::OrderingKey;
use crate::work::words_wf;
use crate::work::Params;
use crate::work::ParamsView;
use crate::work::WorkItem;
use crate::work::WorkItemView;

verus! {

/// The work item that a receipt plan emits for one hash.
pub open spec fn receipt_work_item(hash: Seq<u8>) -> WorkItemView {
    WorkItemView {
        method: "eth_getTransactionReceipt"@,
        params: ParamsView::TxReceipt { hash },
        key: OrderingKey::Unordered,
    }
}

/// A validated `eth_getTransactionReceipt` batch.
pub struct TxReceiptPlan {
    pub hashes: Vec<Word32>,
}

impl TxReceiptPlan {
    pub open spec fn wf(self) -> bool {
        words_wf(self.hashes@)
    }

    /// One unordered work item per hash, in input order.
    pub fn plan(&self) -> (out: Vec<WorkItem>)
        requires
            self.wf(),
        ensures
            out@.len() == self.hashes@.len(),
            forall|i: int|
                0 <= i < out@.len() ==> (#[trigger] out@[i])@ == receipt_work_item(
                    self.hashes@[i]@,
                ),
            forall|i: int| 0 <= i < out@.len() ==> (#[trigger] out@[i]).wf(),
    {
        let mut out: Vec<WorkItem> = Vec::new();
        let mut i: usize = 0;
        while i < self.hashes.len()
            invariant
                self.wf(),
                i <= self.hashes@.len(),
                out@.len() == i,
                forall|j: int|
                    0 <= j < i ==> (#[trigger] out@[j])@ == receipt_work_item(self.hashes@[j]@),
                forall|j: int| 0 <= j < i ==> (#[trigger] out@[j]).wf(),
            decreases self.hashes@.len() - i,
        {
            proof {
                reveal_strlit("eth_getTransactionReceipt");
            }
            out.push(WorkItem {
                method: "eth_getTransactionReceipt",
                params: Params::TxReceipt { hash: self.hashes[i].dup() },
                key: OrderingKey::Unordered,
            });
            i = i + 1;
        }
        out
    }
}

/// Fluent, validated construction of a [`TxReceiptPlan`]: hashes are
/// deduplicated stably (first occurrence wins) and capped.
pub struct TxReceiptBuilder {
    pub hashes: Vec<Word32>,
    pub max_hashes: usize,
}

impl TxReceiptBuilder {
    pub open spec fn wf(self) -> bool {
        &&& self.max_hashes >= 1
        &&& words_wf(self.hashes@)
    }

    /// An empty builder with the default cap.
    pub fn new() -> (r: TxReceiptBuilder)
        ensures
            r.wf(),
            r.hashes@.len() == 0,
            r.max_hashes == 10000,
    {
        TxReceiptBuilder { hashes: Vec::new(), max_hashes: 10000 }
    }

    /// Replace all hashes (order preserved).
    pub fn hashes(self, hashes: Vec<Word32>) -> (r: TxReceiptBuilder)
        requires
            words_wf(hashes@),
        ensures
            r == (TxReceiptBuilder { hashes, ..self }),
    {
        TxReceiptBuilder { hashes, ..self }
    }

    /// Append one hash.
    pub fn push(self, h: Word32) -> (r: TxReceiptBuilder)
        requires
            h.wf(),
        ensures
            r.hashes@ == self.hashes@.push(h),
            r == (TxReceiptBuilder { hashes: r.hashes, ..self }),
    {
        let mut hashes = self.hashes;
        hashes.push(h);
        TxReceiptBuilder { hashes, ..self }
    }

    /// Set the hash cap, silently clamped to at least one.
    pub fn limit(self, max_hashes: usize) -> (r: TxReceiptBuilder)
        ensures
            r == (TxReceiptBuilder {
                max_hashes: if max_hashes >= 1 { max_hashes } else { 1usize },
                ..self
            }),
    {
        let m: usize = if max_hashes >= 1 {
            max_hashes
        } else {
            1
        };
        TxReceiptBuilder { max_hashes: m, ..self }
    }

    /// Validate and deduplicate into a plan.  The input list must stay
    /// within `max_hashes`; the plan keeps the first occurrence of each
    /// hash, in input order.
    pub fn plan(self) -> (r: Result<TxReceiptPlan, PlanError>)
        requires
            self.wf(),
        ensures
            r matches Err(PlanError::TooManyHashes) <==> self.hashes@.len() > self.max_hashes,
            r is Ok <==> self.hashes@.len() <= self.max_hashes,
            r matches Ok(p) ==> {
                &&& p.wf()
                &&& word_views(p.hashes@) == stable_dedup(word_views(self.hashes@))
            },
    {
        if self.hashes.len() > self.max_hashes {
            return Err(PlanError::TooManyHashes);
        }
        let hashes = crate::bytes::dedup_words(&self.hashes);
        Ok(TxReceiptPlan { hashes })
    }
}

} // verus!
