//! Work items: the primitive unit accepted by the dispatcher.  A work item
//! carries a short RPC method name, a typed parameter payload, and an
//! ordering key.  The payload holds plain values only; the transport
//! outside the library turns it into the JSON wire shape.

use vstd::prelude::*;

use crate::bytes::addr_views;
use crate::bytes::word_views;
use crate::bytes::Address;
use crate::bytes::Word32;
use crate::range::OrderingKey;

verus! {

/// A block position: an explicit number or a named tag.
#[derive(Clone, Copy, Debug, PartialEq, Eq, Structural)]
pub enum BlockRef {
    Number(u64),
    Latest,
    Earliest,
    Pending,
    Safe,
    Finalized,
}

/// Address-matching mode of a trace filter.
#[derive(Clone, Copy, Debug, PartialEq, Eq, Structural)]
pub enum TraceMode {
    Union,
    Intersection,
}

/// One topic slot of a log filter: match anything, one word, or any of a
/// list of words.
#[derive(Clone, Debug)]
pub enum Topic {
    Any,
    One(Word32),
    Or(Vec<Word32>),
}

/// The mathematical value of a topic slot.
#[verifier::ext_equal]
pub ghost enum TopicView {
    Any,
    One(Seq<u8>),
    Or(Seq<Seq<u8>>),
}

impl View for Topic {
    type V = TopicView;

    open spec fn view(&self) -> TopicView {
        match self {
            Topic::Any => TopicView::Any,
            Topic::One(w) => TopicView::One(w@),
            Topic::Or(v) => TopicView::Or(word_views(v@)),
        }
    }
}

impl Topic {
    pub open spec fn wf(self) -> bool {
        match self {
            Topic::Any => true,
            Topic::One(w) => w.wf(),
            Topic::Or(v) => forall|i: int| 0 <= i < v@.len() ==> (#[trigger] v@[i]).wf(),
        }
    }

    /// An owned copy with the same value.
    pub fn dup(&self) -> (r: Topic)
        ensures
            r@ == self@,
            self.wf() ==> r.wf(),
    {
        match self {
            Topic::Any => Topic::Any,
            Topic::One(w) => Topic::One(w.dup()),
            Topic::Or(v) => {
                let mut out: Vec<Word32> = Vec::new();
                let mut i: usize = 0;
                while i < v.len()
                    invariant
                        i <= v@.len(),
                        out@.len() == i,
                        forall|j: int| 0 <= j < i ==> (#[trigger] out@[j])@ == v@[j]@,
                    decreases v@.len() - i,
                {
                    out.push(v[i].dup());
                    i = i + 1;
                }
                proof {
                    assert(word_views(out@) =~= word_views(v@));
                    if self.wf() {
                        assert forall|j: int| 0 <= j < out@.len() implies (#[trigger] out@[j]).wf() by {
                            assert(v@[j].wf());
                            assert(out@[j]@ == v@[j]@);
                        }
                    }
                }
                Topic::Or(out)
            },
        }
    }
}

/// The views of a sequence of topics.
pub open spec fn topic_views(s: Seq<Topic>) -> Seq<TopicView> {
    s.map_values(|t: Topic| t@)
}

/// Whether every topic of a sequence is well formed.
pub open spec fn topics_wf(s: Seq<Topic>) -> bool {
    forall|i: int| 0 <= i < s.len() ==> (#[trigger] s[i]).wf()
}

/// Whether every address of a sequence is well formed.
pub open spec fn addrs_wf(s: Seq<Address>) -> bool {
    forall|i: int| 0 <= i < s.len() ==> (#[trigger] s[i]).wf()
}

/// Whether every word of a sequence is well formed.
pub open spec fn words_wf(s: Seq<Word32>) -> bool {
    forall|i: int| 0 <= i < s.len() ==> (#[trigger] s[i]).wf()
}

/// Copy a vector of addresses value for value.
pub fn dup_addrs(v: &Vec<Address>) -> (out: Vec<Address>)
    ensures
        addr_views(out@) == addr_views(v@),
        addrs_wf(v@) ==> addrs_wf(out@),
        out@.len() == v@.len(),
        forall|i: int| 0 <= i < v@.len() ==> (#[trigger] out@[i])@ == v@[i]@,
{
    let mut out: Vec<Address> = Vec::new();
    let mut i: usize = 0;
    while i < v.len()
        invariant
            i <= v@.len(),
            out@.len() == i,
            forall|j: int| 0 <= j < i ==> (#[trigger] out@[j])@ == v@[j]@,
        decreases v@.len() - i,
    {
        out.push(v[i].dup());
        i = i + 1;
    }
    proof {
        assert(addr_views(out@) =~= addr_views(v@));
    }
    out
}

/// Copy a vector of topics value for value.
pub fn dup_topics(v: &Vec<Topic>) -> (out: Vec<Topic>)
    ensures
        topic_views(out@) == topic_views(v@),
        topics_wf(v@) ==> topics_wf(out@),
        out@.len() == v@.len(),
{
    let mut out: Vec<Topic> = Vec::new();
    let mut i: usize = 0;
    while i < v.len()
        invariant
            i <= v@.len(),
            out@.len() == i,
            forall|j: int| 0 <= j < i ==> (#[trigger] out@[j])@ == v@[j]@,
            forall|j: int| 0 <= j < i ==> (v@[j].wf() ==> (#[trigger] out@[j]).wf()),
        decreases v@.len() - i,
    {
        out.push(v[i].dup());
        i = i + 1;
    }
    proof {
        assert(topic_views(out@) =~= topic_views(v@));
        if topics_wf(v@) {
            assert forall|j: int| 0 <= j < out@.len() implies (#[trigger] out@[j]).wf() by {
                assert(v@[j].wf());
            }
        }
    }
    out
}

/// The typed parameter payload of a work item, one variant per RPC method
/// the engine emits.
pub enum Params {
    TraceFilter {
        from_block: u64,
        to_block: u64,
        from_addrs: Vec<Address>,
        to_addrs: Vec<Address>,
        mode: TraceMode,
        after: Option<u64>,
        count: Option<u64>,
    },
    LogFilter { from_block: u64, to_block: u64, addresses: Vec<Address>, topics: Vec<Topic> },
    BlockByNumber { block: BlockRef, full: bool },
    TxByHash { hash: Word32 },
    TxReceipt { hash: Word32 },
    Balance { addr: Address, block: BlockRef },
    Call { to: Address, data: Vec<u8>, block: BlockRef },
}

/// The mathematical value of a parameter payload.
#[verifier::ext_equal]
pub ghost enum ParamsView {
    TraceFilter {
        from_block: u64,
        to_block: u64,
        from_addrs: Seq<Seq<u8>>,
        to_addrs: Seq<Seq<u8>>,
        mode: TraceMode,
        after: Option<u64>,
        count: Option<u64>,
    },
    LogFilter { from_block: u64, to_block: u64, addresses: Seq<Seq<u8>>, topics: Seq<TopicView> },
    BlockByNumber { block: BlockRef, full: bool },
    TxByHash { hash: Seq<u8> },
    TxReceipt { hash: Seq<u8> },
    Balance { addr: Seq<u8>, block: BlockRef },
    Call { to: Seq<u8>, data: Seq<u8>, block: BlockRef },
}

impl View for Params {
    type V = ParamsView;

    open spec fn view(&self) -> ParamsView {
        match self {
            Params::TraceFilter { from_block, to_block, from_addrs, to_addrs, mode, after, count } => ParamsView::TraceFilter {
                from_block: *from_block,
                to_block: *to_block,
                from_addrs: addr_views(from_addrs@),
                to_addrs: addr_views(to_addrs@),
                mode: *mode,
                after: *after,
                count: *count,
            },
            Params::LogFilter { from_block, to_block, addresses, topics } => ParamsView::LogFilter {
                from_block: *from_block,
                to_block: *to_block,
                addresses: addr_views(addresses@),
                topics: topic_views(topics@),
            },
            Params::BlockByNumber { block, full } => ParamsView::BlockByNumber {
                block: *block,
                full: *full,
            },
            Params::TxByHash { hash } => ParamsView::TxByHash { hash: hash@ },
            Params::TxReceipt { hash } => ParamsView::TxReceipt { hash: hash@ },
            Params::Balance { addr, block } => ParamsView::Balance { addr: addr@, block: *block },
            Params::Call { to, data, block } => ParamsView::Call {
                to: to@,
                data: data@,
                block: *block,
            },
        }
    }
}

/// The primitive unit scheduled by the dispatcher: an RPC method name, a
/// parameter payload, and an ordering key.
pub struct WorkItem {
    pub method: &'static str,
    pub params: Params,
    pub key: OrderingKey,
}

/// The mathematical value of a work item.
#[verifier::ext_equal]
pub ghost struct WorkItemView {
    pub method: Seq<char>,
    pub params: ParamsView,
    pub key: OrderingKey,
}

impl View for WorkItem {
    type V = WorkItemView;

    open spec fn view(&self) -> WorkItemView {
        WorkItemView { method: self.method@, params: self.params@, key: self.key }
    }
}

impl WorkItem {
    /// A work item is well formed when its method name is non-empty.
    pub open spec fn wf(self) -> bool {
        self.method@.len() > 0
    }
}

} // verus!
