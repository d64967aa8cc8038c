//! The `eth_getLogs` planner and its fluent builder.  The planner splits
//! the block range by the chunker and emits one range-keyed work item per
//! sub-range, with the topic list normalised to exactly four slots.

use vstd::prelude::*;

use crate::bytes::addr_views;
use crate::bytes::Address;
use crate::bytes::Word32;
use crate::error::PlanError;
use crate::range::chunk_range;
use crate::range::chunk_seq;
use crate::range::OrderingKey;
use crate::range::Range;
use crate::work::addrs_wf;
use crate::work::dup_addrs;
use crate::work::dup_topics;
use crate::work::topic_views;
use crate::work::topics_wf;
use crate::work::Params;
use crate::work::ParamsView;
use crate::work::Topic;
use crate::work::TopicView;
use crate::work::WorkItem;
use crate::work::WorkItemView;

verus! {

/// The topic list padded (or cut) to exactly four slots, missing slots
/// matching anything.
pub open spec fn normalized_topics(s: Seq<TopicView>) -> Seq<TopicView> {
    Seq::new(4, |i: int| if 0 <= i < s.len() { s[i] } else { TopicView::Any })
}

/// The topic list after writing `t` into slot `slot`: the list first grows
/// to cover the slot (new slots matching anything), then the slot is
/// replaced.
pub open spec fn set_topic_slot(s: Seq<TopicView>, slot: int, t: TopicView) -> Seq<TopicView> {
    let n = if s.len() >= slot + 1 {
        s.len() as int
    } else {
        slot + 1
    };
    Seq::new(n as nat, |i: int| if i == slot {
        t
    } else if 0 <= i < s.len() {
        s[i]
    } else {
        TopicView::Any
    })
}

/// The work item that a log plan emits for sub-range `c`.
pub open spec fn log_work_item(c: Range, addresses: Seq<Seq<u8>>, topics: Seq<TopicView>) -> WorkItemView {
    WorkItemView {
        method: "eth_getLogs"@,
        params: ParamsView::LogFilter { from_block: c.from, to_block: c.to, addresses, topics },
        key: OrderingKey::Range(c),
    }
}

/// A validated `eth_getLogs` batch: a block range, a chunk size, an
/// optional address filter, and up to four topic slots.
pub struct GetLogsPlan {
    pub range: Range,
    pub chunk_size: u64,
    pub addresses: Vec<Address>,
    pub topics: Vec<Topic>,
}

impl GetLogsPlan {
    pub open spec fn wf(self) -> bool {
        &&& self.chunk_size >= 1
        &&& addrs_wf(self.addresses@)
        &&& topics_wf(self.topics@)
    }

    /// One work item per sub-range of the chunked block range, each keyed
    /// by its sub-range and carrying the same normalised filter.
    pub fn plan(&self) -> (out: Vec<WorkItem>)
        requires
            self.wf(),
        ensures
            out@.len() == chunk_seq(self.range.from, self.range.to, self.chunk_size).len(),
            forall|i: int|
                0 <= i < out@.len() ==> (#[trigger] out@[i])@ == log_work_item(
                    chunk_seq(self.range.from, self.range.to, self.chunk_size)[i],
                    addr_views(self.addresses@),
                    normalized_topics(topic_views(self.topics@)),
                ),
            forall|i: int| 0 <= i < out@.len() ==> (#[trigger] out@[i]).wf(),
    {
        proof {
            reveal_strlit("eth_getLogs");
        }
        let mut slots: Vec<Topic> = Vec::new();
        let mut t: usize = 0;
        while t < 4
            invariant
                self.wf(),
                t <= 4,
                slots@.len() == t,
                forall|j: int|
                    0 <= j < t ==> (#[trigger] slots@[j])@ == normalized_topics(
                        topic_views(self.topics@),
                    )[j],
                topics_wf(slots@),
            decreases 4 - t,
        {
            if t < self.topics.len() {
                slots.push(self.topics[t].dup());
            } else {
                slots.push(Topic::Any);
            }
            t = t + 1;
        }
        let chunks = chunk_range(self.range, self.chunk_size);
        let ghost cs = chunk_seq(self.range.from, self.range.to, self.chunk_size);
        let mut out: Vec<WorkItem> = Vec::new();
        let mut i: usize = 0;
        while i < chunks.len()
            invariant
                self.wf(),
                chunks@ == cs,
                topics_wf(slots@),
                topic_views(slots@) =~= normalized_topics(topic_views(self.topics@)),
                i <= chunks@.len(),
                out@.len() == i,
                forall|j: int|
                    0 <= j < i ==> (#[trigger] out@[j])@ == log_work_item(
                        cs[j],
                        addr_views(self.addresses@),
                        normalized_topics(topic_views(self.topics@)),
                    ),
                forall|j: int| 0 <= j < i ==> (#[trigger] out@[j]).wf(),
            decreases chunks@.len() - i,
        {
            proof {
                reveal_strlit("eth_getLogs");
            }
            let c = chunks[i];
            let item = WorkItem {
                method: "eth_getLogs",
                params: Params::LogFilter {
                    from_block: c.from,
                    to_block: c.to,
                    addresses: dup_addrs(&self.addresses),
                    topics: dup_topics(&slots),
                },
                key: OrderingKey::Range(c),
            };
            proof {
                assert(item@ =~= log_work_item(
                    cs[i as int],
                    addr_views(self.addresses@),
                    normalized_topics(topic_views(self.topics@)),
                ));
            }
            out.push(item);
            i = i + 1;
        }
        out
    }
}

/// Fluent, validated construction of a [`GetLogsPlan`].
pub struct GetLogsBuilder {
    pub from: u64,
    pub to: u64,
    pub chunk_size: u64,
    pub addresses: Vec<Address>,
    pub topics: Vec<Topic>,
    pub max_blocks: u64,
    pub max_addresses: usize,
    pub max_topic_or: usize,
}

impl GetLogsBuilder {
    pub open spec fn wf(self) -> bool {
        &&& self.chunk_size >= 1
        &&& self.max_blocks >= 1
        &&& self.max_addresses >= 1
        &&& self.max_topic_or >= 1
        &&& addrs_wf(self.addresses@)
        &&& topics_wf(self.topics@)
        &&& self.topics@.len() <= 4
    }

    /// A builder over `[from, to]` with the default chunk size and caps.
    pub fn new(from: u64, to: u64) -> (r: GetLogsBuilder)
        ensures
            r.wf(),
            r.from == from,
            r.to == to,
            r.chunk_size == 5000,
            r.addresses@.len() == 0,
            r.topics@.len() == 0,
            r.max_blocks == 1000000,
            r.max_addresses == 1024,
            r.max_topic_or == 64,
    {
        GetLogsBuilder {
            from,
            to,
            chunk_size: 5000,
            addresses: Vec::new(),
            topics: Vec::new(),
            max_blocks: 1000000,
            max_addresses: 1024,
            max_topic_or: 64,
        }
    }

    /// Set the chunk size, silently clamped to at least one block.
    pub fn chunk_size(self, n: u64) -> (r: GetLogsBuilder)
        ensures
            r == (GetLogsBuilder { chunk_size: if n >= 1 { n } else { 1u64 }, ..self }),
    {
        let c: u64 = if n >= 1 {
            n
        } else {
            1
        };
        GetLogsBuilder { chunk_size: c, ..self }
    }

    /// Append one contract address to the filter.
    pub fn address(self, a: Address) -> (r: GetLogsBuilder)
        requires
            a.wf(),
        ensures
            r.addresses@ == self.addresses@.push(a),
            r == (GetLogsBuilder { addresses: r.addresses, ..self }),
    {
        let mut addresses = self.addresses;
        addresses.push(a);
        GetLogsBuilder { addresses, ..self }
    }

    /// Replace the address filter.
    pub fn addresses(self, v: Vec<Address>) -> (r: GetLogsBuilder)
        requires
            addrs_wf(v@),
        ensures
            r == (GetLogsBuilder { addresses: v, ..self }),
    {
        GetLogsBuilder { addresses: v, ..self }
    }

    /// Set topic slot `slot` to match anything.  Writing to slot four or
    /// higher is a no-op; writing to a slot beyond the current list grows
    /// it, filling the slots in between with `Any`.
    pub fn topic_any(self, slot: usize) -> (r: GetLogsBuilder)
        requires
            self.wf(),
        ensures
            r.wf(),
            slot >= 4 ==> r == self,
            slot < 4 ==> topic_views(r.topics@) == set_topic_slot(
                topic_views(self.topics@),
                slot as int,
                TopicView::Any,
            ),
            r == (GetLogsBuilder { topics: r.topics, ..self }),
    {
        self.put_topic(slot, Topic::Any)
    }

    /// Set topic slot `slot` to match exactly one word.  Same slot rules
    /// as [`Self::topic_any`].
    pub fn topic_one(self, slot: usize, t: Word32) -> (r: GetLogsBuilder)
        requires
            self.wf(),
            t.wf(),
        ensures
            r.wf(),
            slot >= 4 ==> r == self,
            slot < 4 ==> topic_views(r.topics@) == set_topic_slot(
                topic_views(self.topics@),
                slot as int,
                TopicView::One(t@),
            ),
            r == (GetLogsBuilder { topics: r.topics, ..self }),
    {
        self.put_topic(slot, Topic::One(t))
    }

    /// Set topic slot `slot` to match any word of `ts`.  The list is kept
    /// whole; one wider than `max_topic_or` fails the build when the plan
    /// is validated.  Same slot rules as [`Self::topic_any`].
    pub fn topic_or(self, slot: usize, ts: Vec<Word32>) -> (r: GetLogsBuilder)
        requires
            self.wf(),
            forall|i: int| 0 <= i < ts@.len() ==> (#[trigger] ts@[i]).wf(),
        ensures
            r.wf(),
            slot >= 4 ==> r == self,
            slot < 4 ==> topic_views(r.topics@) == set_topic_slot(
                topic_views(self.topics@),
                slot as int,
                TopicView::Or(crate::bytes::word_views(ts@)),
            ),
            r == (GetLogsBuilder { topics: r.topics, ..self }),
    {
        self.put_topic(slot, Topic::Or(ts))
    }

    /// Shared slot-writing step of the `topic_*` methods.
    fn put_topic(self, slot: usize, t: Topic) -> (r: GetLogsBuilder)
        requires
            self.wf(),
            t.wf(),
        ensures
            r.wf(),
            slot >= 4 ==> r == self,
            slot < 4 ==> topic_views(r.topics@) == set_topic_slot(
                topic_views(self.topics@),
                slot as int,
                t@,
            ),
            r == (GetLogsBuilder { topics: r.topics, ..self }),
    {
        if slot >= 4 {
            return self;
        }
        let ghost old_views = topic_views(self.topics@);
        let ghost target_len: int = if old_views.len() >= slot + 1 {
            old_views.len() as int
        } else {
            slot + 1
        };
        let mut topics = self.topics;
        while topics.len() <= slot
            invariant
                slot < 4,
                topics_wf(topics@),
                old_views.len() == self.topics@.len(),
                target_len >= slot + 1,
                self.topics@.len() <= topics@.len() <= target_len,
                forall|j: int|
                    0 <= j < topics@.len() ==> (#[trigger] topics@[j])@ == (if j
                        < old_views.len() {
                        old_views[j]
                    } else {
                        TopicView::Any
                    }),
            decreases slot + 1 - topics@.len(),
        {
            proof {
                assert(topics@.len() >= old_views.len() ==> topics@.len() < target_len);
            }
            topics.push(Topic::Any);
        }
        topics.set(slot, t);
        proof {
            assert(topic_views(topics@) =~= set_topic_slot(old_views, slot as int, t@));
        }
        GetLogsBuilder { topics, ..self }
    }

    /// Set the caps, each silently clamped to at least one.
    pub fn limits(self, max_blocks: u64, max_addresses: usize, max_topic_or: usize) -> (r:
        GetLogsBuilder)
        ensures
            r == (GetLogsBuilder {
                max_blocks: if max_blocks >= 1 { max_blocks } else { 1u64 },
                max_addresses: if max_addresses >= 1 { max_addresses } else { 1usize },
                max_topic_or: if max_topic_or >= 1 { max_topic_or } else { 1usize },
                ..self
            }),
    {
        let mb: u64 = if max_blocks >= 1 {
            max_blocks
        } else {
            1
        };
        let ma: usize = if max_addresses >= 1 {
            max_addresses
        } else {
            1
        };
        let mt: usize = if max_topic_or >= 1 {
            max_topic_or
        } else {
            1
        };
        GetLogsBuilder { max_blocks: mb, max_addresses: ma, max_topic_or: mt, ..self }
    }

    /// Whether no topic slot's OR list is wider than `max_topic_or`.
    pub open spec fn or_lists_ok(self) -> bool {
        forall|i: int|
            0 <= i < self.topics@.len() ==> ((#[trigger] self.topics@[i]) matches Topic::Or(ws)
                ==> ws@.len() <= self.max_topic_or)
    }

    /// Validate the configuration into a plan.  The range must not be
    /// inverted, must span at most `max_blocks` blocks, must name at most
    /// `max_addresses` contract addresses, and no topic slot's OR list
    /// may be wider than `max_topic_or`.
    pub fn plan(self) -> (r: Result<GetLogsPlan, PlanError>)
        requires
            self.wf(),
        ensures
            r matches Err(PlanError::InvalidRange) <==> self.to < self.from,
            r matches Err(PlanError::RangeTooLarge) <==> (self.from <= self.to && self.to
                - self.from + 1 > self.max_blocks),
            r matches Err(PlanError::TooManyAddresses) <==> (self.from <= self.to && self.to
                - self.from + 1 <= self.max_blocks && self.addresses@.len()
                > self.max_addresses),
            r matches Err(PlanError::TopicOrTooWide) <==> (self.from <= self.to && self.to
                - self.from + 1 <= self.max_blocks && self.addresses@.len()
                <= self.max_addresses && !self.or_lists_ok()),
            r matches Ok(p) <==> (self.from <= self.to && self.to - self.from + 1
                <= self.max_blocks && self.addresses@.len() <= self.max_addresses
                && self.or_lists_ok()),
            r matches Ok(p) ==> {
                &&& p.wf()
                &&& p.range == (Range { from: self.from, to: self.to })
                &&& p.chunk_size == self.chunk_size
                &&& addr_views(p.addresses@) == addr_views(self.addresses@)
                &&& topic_views(p.topics@) == topic_views(self.topics@)
            },
    {
        if self.to < self.from {
            return Err(PlanError::InvalidRange);
        }
        if self.to - self.from > self.max_blocks - 1 {
            return Err(PlanError::RangeTooLarge);
        }
        if self.addresses.len() > self.max_addresses {
            return Err(PlanError::TooManyAddresses);
        }
        let mut i: usize = 0;
        while i < self.topics.len()
            invariant
                self.from <= self.to,
                self.to - self.from + 1 <= self.max_blocks,
                self.addresses@.len() <= self.max_addresses,
                i <= self.topics@.len(),
                forall|j: int|
                    0 <= j < i ==> ((#[trigger] self.topics@[j]) matches Topic::Or(ws)
                        ==> ws@.len() <= self.max_topic_or),
            decreases self.topics@.len() - i,
        {
            match &self.topics[i] {
                Topic::Or(ws) => {
                    if ws.len() > self.max_topic_or {
                        return Err(PlanError::TopicOrTooWide);
                    }
                },
                _ => {},
            }
            i = i + 1;
        }
        Ok(GetLogsPlan {
            range: Range { from: self.from, to: self.to },
            chunk_size: self.chunk_size,
            addresses: self.addresses,
            topics: self.topics,
        })
    }
}

} // verus!
