//! The `eth_getBalance` planner and its single-address builder: one
//! unordered work item per `(address, block)` pair.

use vstd::prelude::*;

use vstd::string::StringSliceAdditionalSpecFns;

use crate::bytes::Address;
use crate::error::PlanError;
use crate::range::OrderingKey;
use crate::work::BlockRef;
use crate::work::Params;
use crate::work::ParamsView;
use crate::work::WorkItem;
use crate::work::WorkItemView;

verus! {

/// The work item that a balance plan emits for one query pair.
pub open spec fn balance_work_item(addr: Seq<u8>, block: BlockRef) -> WorkItemView {
    WorkItemView {
        method: "eth_getBalance"@,
        params: ParamsView::Balance { addr, block },
        key: OrderingKey::Unordered,
    }
}

/// A validated `eth_getBalance` batch.
pub struct GetBalancePlan {
    pub queries: Vec<(Address, BlockRef)>,
}

impl GetBalancePlan {
    pub open spec fn wf(self) -> bool {
        forall|i: int| 0 <= i < self.queries@.len() ==> (#[trigger] self.queries@[i]).0.wf()
    }

    /// One unordered work item per query pair, in input order.
    pub fn plan(&self) -> (out: Vec<WorkItem>)
        requires
            self.wf(),
        ensures
            out@.len() == self.queries@.len(),
            forall|i: int|
                0 <= i < out@.len() ==> (#[trigger] out@[i])@ == balance_work_item(
                    self.queries@[i].0@,
                    self.queries@[i].1,
                ),
            forall|i: int| 0 <= i < out@.len() ==> (#[trigger] out@[i]).wf(),
    {
        let mut out: Vec<WorkItem> = Vec::new();
        let mut i: usize = 0;
        while i < self.queries.len()
            invariant
                self.wf(),
                i <= self.queries@.len(),
                out@.len() == i,
                forall|j: int|
                    0 <= j < i ==> (#[trigger] out@[j])@ == balance_work_item(
                        self.queries@[j].0@,
                        self.queries@[j].1,
                    ),
                forall|j: int| 0 <= j < i ==> (#[trigger] out@[j]).wf(),
            decreases self.queries@.len() - i,
        {
            proof {
                reveal_strlit("eth_getBalance");
            }
            let addr = self.queries[i].0.dup();
            let block = self.queries[i].1;
            out.push(WorkItem {
                method: "eth_getBalance",
                params: Params::Balance { addr, block },
                key: OrderingKey::Unordered,
            });
            i = i + 1;
        }
        out
    }
}

impl GetBalancePlan {
    /// Decode the raw result of one `eth_getBalance` call: a hex quantity
    /// string, as a 32-byte big-endian word.
    pub fn decode(v: &str) -> (r: Option<crate::bytes::Word32>)
        ensures
            r is Some <==> crate::hex::is_word_quantity(v.spec_bytes()),
            r matches Some(w) ==> {
                &&& w.wf()
                &&& forall|i: int|
                    0 <= i < 32 ==> w@[i] == (crate::hex::padded_nibbles(v.spec_bytes())[2 * i]
                        * 16 + crate::hex::padded_nibbles(v.spec_bytes())[2 * i + 1]) as u8
            },
    {
        crate::hex::decode_quantity_word(v)
    }
}

/// One `eth_getBalance` work item for an address at a block position.
pub fn work_one(addr: &Address, n: BlockRef) -> (r: WorkItem)
    requires
        addr.wf(),
    ensures
        r@ == balance_work_item(addr@, n),
        r.wf(),
{
    proof {
        reveal_strlit("eth_getBalance");
    }
    WorkItem {
        method: "eth_getBalance",
        params: Params::Balance { addr: addr.dup(), block: n },
        key: OrderingKey::Unordered,
    }
}

/// What a balance query asks for: the balance at a block position, or the
/// balance at a wall-clock timestamp searched within block bounds.
#[derive(Clone, Copy, Debug, PartialEq, Eq, Structural)]
pub enum BalanceAt {
    Block(BlockRef),
    Timestamp { ts_sec: u64, lo: u64, hi: u64 },
}

/// Builder for one address balance, either at a block position or at a
/// timestamp.  Only the block form can be planned without I/O; the
/// timestamp form must be executed by a driver that can search.
pub struct GetBalanceBuilder {
    pub addr: Address,
    pub at: BalanceAt,
}

impl GetBalanceBuilder {
    pub open spec fn wf(self) -> bool {
        self.addr.wf()
    }

    /// A builder defaulting to the latest block.
    pub fn new(addr: Address) -> (r: GetBalanceBuilder)
        requires
            addr.wf(),
        ensures
            r.wf(),
            r.addr@ == addr@,
            r.at == BalanceAt::Block(BlockRef::Latest),
    {
        GetBalanceBuilder { addr, at: BalanceAt::Block(BlockRef::Latest) }
    }

    /// Query at a block number or tag.
    pub fn at_block(self, n: BlockRef) -> (r: GetBalanceBuilder)
        ensures
            r == (GetBalanceBuilder { at: BalanceAt::Block(n), ..self }),
    {
        GetBalanceBuilder { at: BalanceAt::Block(n), ..self }
    }

    /// Query at a wall-clock timestamp (seconds since the epoch); the
    /// search bounds must be supplied with [`Self::bounds`].
    pub fn at_timestamp(self, ts_sec: u64) -> (r: GetBalanceBuilder)
        ensures
            r == (GetBalanceBuilder {
                at: BalanceAt::Timestamp { ts_sec, lo: 0u64, hi: 0u64 },
                ..self
            }),
    {
        GetBalanceBuilder { at: BalanceAt::Timestamp { ts_sec, lo: 0, hi: 0 }, ..self }
    }

    /// Set the inclusive block bounds of a timestamp query; a no-op for a
    /// block query.
    pub fn bounds(self, lo: u64, hi: u64) -> (r: GetBalanceBuilder)
        ensures
            self.at matches BalanceAt::Timestamp { ts_sec, .. } ==> r == (GetBalanceBuilder {
                at: BalanceAt::Timestamp { ts_sec, lo, hi },
                ..self
            }),
            self.at is Block ==> r == self,
    {
        match self.at {
            BalanceAt::Timestamp { ts_sec, .. } => GetBalanceBuilder {
                at: BalanceAt::Timestamp { ts_sec, lo, hi },
                ..self
            },
            BalanceAt::Block(_) => self,
        }
    }

    /// Plan the single balance call.  Only the block form can be planned:
    /// a timestamp query needs I/O to find its block first.
    pub fn plan(self) -> (r: Result<GetBalancePlan, PlanError>)
        requires
            self.wf(),
        ensures
            r matches Err(PlanError::UnsupportedQuery) <==> self.at is Timestamp,
            r is Ok <==> self.at is Block,
            r matches Ok(p) ==> {
                &&& p.wf()
                &&& p.queries@.len() == 1
                &&& p.queries@[0].0@ == self.addr@
                &&& self.at matches BalanceAt::Block(n) && p.queries@[0].1 == n
            },
    {
        match self.at {
            BalanceAt::Block(n) => {
                let mut queries: Vec<(Address, BlockRef)> = Vec::new();
                queries.push((self.addr, n));
                Ok(GetBalancePlan { queries })
            },
            BalanceAt::Timestamp { .. } => Err(PlanError::UnsupportedQuery),
        }
    }
}

} // verus!
