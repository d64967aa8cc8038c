//! The `eth_call` planner: a single unordered work item carrying a
//! contract call request.

use vstd::prelude::*;

use vstd::string::StringSliceAdditionalSpecFns;

use crate::bytes::Address;
use crate::range::OrderingKey;
use crate::work::BlockRef;
use crate::work::Params;
use crate::work::ParamsView;
use crate::work::WorkItem;
use crate::work::WorkItemView;

verus! {

/// A contract call: the callee address and the calldata.
pub struct CallRequest {
    pub to: Address,
    pub data: Vec<u8>,
}

impl CallRequest {
    pub open spec fn wf(self) -> bool {
        self.to.wf()
    }
}

/// The work item that a call plan emits.
pub open spec fn call_work_item(to: Seq<u8>, data: Seq<u8>, at: BlockRef) -> WorkItemView {
    WorkItemView {
        method: "eth_call"@,
        params: ParamsView::Call { to, data, block: at },
        key: OrderingKey::Unordered,
    }
}

/// One `eth_call` work item for a call request at a block position.
pub fn work_one(call: CallRequest, at: BlockRef) -> (r: WorkItem)
    requires
        call.wf(),
    ensures
        r@ == call_work_item(call.to@, call.data@, at),
        r.wf(),
{
    proof {
        reveal_strlit("eth_call");
    }
    WorkItem {
        method: "eth_call",
        params: Params::Call { to: call.to, data: call.data, block: at },
        key: OrderingKey::Unordered,
    }
}

/// Decode the raw result of an `eth_call`: a `0x`-prefixed hex byte
/// string.
pub fn decode_bytes(v: &str) -> (r: Option<Vec<u8>>)
    ensures
        r is Some <==> crate::hex::is_hex_bytes(v.spec_bytes()),
        r matches Some(b) ==> b@ == crate::hex::hex_bytes_of(v.spec_bytes()),
{
    crate::hex::decode_hex_bytes(v)
}

} // verus!
