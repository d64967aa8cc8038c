//! The `trace_filter` planner and its fluent builder: one range-keyed
//! work item per chunk of the block range, carrying the address filters,
//! the matching mode, and the optional pagination window.

use vstd::prelude::*;

use crate::bytes::addr_views;
use crate::bytes::Address;
use crate::error::PlanError;
use crate::range::chunk_range;
use crate::range::chunk_seq;
use crate::range::OrderingKey;
use crate::range::Range;
use crate::work::addrs_wf;
use crate::work::dup_addrs;
use crate::work::Params;
use crate::work::ParamsView;
use crate::work::TraceMode;
use crate::work::WorkItem;
use crate::work::WorkItemView;

verus! {

/// The work item that a trace-filter plan emits for sub-range `c`.
pub open spec fn trace_work_item(
    c: Range,
    from_addrs: Seq<Seq<u8>>,
    to_addrs: Seq<Seq<u8>>,
    mode: TraceMode,
    after: Option<u64>,
    count: Option<u64>,
) -> WorkItemView {
    WorkItemView {
        method: "trace_filter"@,
        params: ParamsView::TraceFilter {
            from_block: c.from,
            to_block: c.to,
            from_addrs,
            to_addrs,
            mode,
            after,
            count,
        },
        key: OrderingKey::Range(c),
    }
}

/// A validated `trace_filter` batch.
pub struct TraceFilterPlan {
    pub range: Range,
    pub chunk_size: u64,
    pub from: Vec<Address>,
    pub to: Vec<Address>,
    pub mode: Option<TraceMode>,
    pub after: Option<u64>,
    pub count: Option<u64>,
}

impl TraceFilterPlan {
    pub open spec fn wf(self) -> bool {
        &&& self.chunk_size >= 1
        &&& addrs_wf(self.from@)
        &&& addrs_wf(self.to@)
    }

    /// The matching mode the plan resolves to: the configured one, or
    /// union when none was configured.
    pub open spec fn resolved_mode(self) -> TraceMode {
        match self.mode {
            Some(m) => m,
            None => TraceMode::Union,
        }
    }

    /// One work item per sub-range of the chunked block range, each keyed
    /// by its sub-range and carrying the same filter.
    pub fn plan(&self) -> (out: Vec<WorkItem>)
        requires
            self.wf(),
        ensures
            out@.len() == chunk_seq(self.range.from, self.range.to, self.chunk_size).len(),
            forall|i: int|
                0 <= i < out@.len() ==> (#[trigger] out@[i])@ == trace_work_item(
                    chunk_seq(self.range.from, self.range.to, self.chunk_size)[i],
                    addr_views(self.from@),
                    addr_views(self.to@),
                    self.resolved_mode(),
                    self.after,
                    self.count,
                ),
            forall|i: int| 0 <= i < out@.len() ==> (#[trigger] out@[i]).wf(),
    {
        let mode = match self.mode {
            Some(m) => m,
            None => TraceMode::Union,
        };
        let chunks = chunk_range(self.range, self.chunk_size);
        let ghost cs = chunk_seq(self.range.from, self.range.to, self.chunk_size);
        let mut out: Vec<WorkItem> = Vec::new();
        let mut i: usize = 0;
        while i < chunks.len()
            invariant
                self.wf(),
                chunks@ == cs,
                mode == self.resolved_mode(),
                i <= chunks@.len(),
                out@.len() == i,
                forall|j: int|
                    0 <= j < i ==> (#[trigger] out@[j])@ == trace_work_item(
                        cs[j],
                        addr_views(self.from@),
                        addr_views(self.to@),
                        self.resolved_mode(),
                        self.after,
                        self.count,
                    ),
                forall|j: int| 0 <= j < i ==> (#[trigger] out@[j]).wf(),
            decreases chunks@.len() - i,
        {
            proof {
                reveal_strlit("trace_filter");
            }
            let c = chunks[i];
            let item = WorkItem {
                method: "trace_filter",
                params: Params::TraceFilter {
                    from_block: c.from,
                    to_block: c.to,
                    from_addrs: dup_addrs(&self.from),
                    to_addrs: dup_addrs(&self.to),
                    mode,
                    after: self.after,
                    count: self.count,
                },
                key: OrderingKey::Range(c),
            };
            proof {
                assert(item@ =~= trace_work_item(
                    cs[i as int],
                    addr_views(self.from@),
                    addr_views(self.to@),
                    self.resolved_mode(),
                    self.after,
                    self.count,
                ));
            }
            out.push(item);
            i = i + 1;
        }
        out
    }
}

/// Fluent, validated construction of a [`TraceFilterPlan`].
pub struct TraceFilterBuilder {
    pub start: u64,
    pub end: u64,
    pub chunk: u64,
    pub from: Vec<Address>,
    pub to: Vec<Address>,
    pub mode: TraceMode,
    pub after: Option<u64>,
    pub count: Option<u64>,
    pub max_span: u64,
    pub max_chunk: u64,
}

impl TraceFilterBuilder {
    pub open spec fn wf(self) -> bool {
        &&& addrs_wf(self.from@)
        &&& addrs_wf(self.to@)
        &&& self.max_span >= 1
        &&& self.max_chunk >= 1
    }

    /// A builder with the default range `[0, 0]`, chunk size and caps.
    pub fn new() -> (r: TraceFilterBuilder)
        ensures
            r.wf(),
            r.start == 0,
            r.end == 0,
            r.chunk == 1000,
            r.from@.len() == 0,
            r.to@.len() == 0,
            r.mode == TraceMode::Union,
            r.after is None,
            r.count is None,
            r.max_span == 100000,
            r.max_chunk == 10000,
    {
        TraceFilterBuilder {
            start: 0,
            end: 0,
            chunk: 1000,
            from: Vec::new(),
            to: Vec::new(),
            mode: TraceMode::Union,
            after: None,
            count: None,
            max_span: 100000,
            max_chunk: 10000,
        }
    }

    /// Watch one address on both sides: sender and receiver.
    pub fn target(self, addr: Address) -> (r: TraceFilterBuilder)
        requires
            addr.wf(),
        ensures
            r.from@.len() == 1 && r.from@[0]@ == addr@,
            r.to@.len() == 1 && r.to@[0]@ == addr@,
            r == (TraceFilterBuilder { from: r.from, to: r.to, ..self }),
    {
        let mut from: Vec<Address> = Vec::new();
        from.push(addr.dup());
        let mut to: Vec<Address> = Vec::new();
        to.push(addr);
        TraceFilterBuilder { from, to, ..self }
    }

    /// Replace the sender-address filter.
    pub fn from(self, addrs: Vec<Address>) -> (r: TraceFilterBuilder)
        requires
            addrs_wf(addrs@),
        ensures
            r == (TraceFilterBuilder { from: addrs, ..self }),
    {
        TraceFilterBuilder { from: addrs, ..self }
    }

    /// Replace the receiver-address filter.
    pub fn to(self, addrs: Vec<Address>) -> (r: TraceFilterBuilder)
        requires
            addrs_wf(addrs@),
        ensures
            r == (TraceFilterBuilder { to: addrs, ..self }),
    {
        TraceFilterBuilder { to: addrs, ..self }
    }

    /// Set the first block of the range.
    pub fn start_block(self, b: u64) -> (r: TraceFilterBuilder)
        ensures
            r == (TraceFilterBuilder { start: b, ..self }),
    {
        TraceFilterBuilder { start: b, ..self }
    }

    /// Set the last block of the range.
    pub fn end_block(self, b: u64) -> (r: TraceFilterBuilder)
        ensures
            r == (TraceFilterBuilder { end: b, ..self }),
    {
        TraceFilterBuilder { end: b, ..self }
    }

    /// Set the requested chunk size (clamped against `max_chunk` when the
    /// plan is built).
    pub fn chunk_size(self, sz: u64) -> (r: TraceFilterBuilder)
        ensures
            r == (TraceFilterBuilder { chunk: sz, ..self }),
    {
        TraceFilterBuilder { chunk: sz, ..self }
    }

    /// Set the address-matching mode.
    pub fn mode(self, m: TraceMode) -> (r: TraceFilterBuilder)
        ensures
            r == (TraceFilterBuilder { mode: m, ..self }),
    {
        TraceFilterBuilder { mode: m, ..self }
    }

    /// Set the caps, each silently clamped to at least one.
    pub fn limits(self, max_span: u64, max_chunk: u64) -> (r: TraceFilterBuilder)
        ensures
            r == (TraceFilterBuilder {
                max_span: if max_span >= 1 { max_span } else { 1u64 },
                max_chunk: if max_chunk >= 1 { max_chunk } else { 1u64 },
                ..self
            }),
    {
        let ms: u64 = if max_span >= 1 {
            max_span
        } else {
            1
        };
        let mc: u64 = if max_chunk >= 1 {
            max_chunk
        } else {
            1
        };
        TraceFilterBuilder { max_span: ms, max_chunk: mc, ..self }
    }

    /// Set the pagination window.
    pub fn pagination(self, after: Option<u64>, count: Option<u64>) -> (r: TraceFilterBuilder)
        ensures
            r == (TraceFilterBuilder { after, count, ..self }),
    {
        TraceFilterBuilder { after, count, ..self }
    }

    /// The chunk size the plan will use: the requested one clamped into
    /// `[1, max_chunk]`.
    pub open spec fn clamped_chunk(self) -> u64 {
        let c = if self.chunk <= self.max_chunk {
            self.chunk
        } else {
            self.max_chunk
        };
        if c >= 1 {
            c
        } else {
            1u64
        }
    }

    /// Validate the configuration into a plan.  The range must not be
    /// inverted and must span at most `max_span` blocks; the chunk size is
    /// silently clamped into `[1, max_chunk]`.
    pub fn plan(self) -> (r: Result<TraceFilterPlan, PlanError>)
        requires
            self.wf(),
        ensures
            r matches Err(PlanError::InvalidRange) <==> self.end < self.start,
            r matches Err(PlanError::RangeTooLarge) <==> (self.start <= self.end && self.end
                - self.start + 1 > self.max_span),
            r is Ok <==> (self.start <= self.end && self.end - self.start + 1 <= self.max_span),
            r matches Ok(p) ==> {
                &&& p.wf()
                &&& p.range == (Range { from: self.start, to: self.end })
                &&& p.chunk_size == self.clamped_chunk()
                &&& addr_views(p.from@) == addr_views(self.from@)
                &&& addr_views(p.to@) == addr_views(self.to@)
                &&& p.mode == Some(self.mode)
                &&& p.after == self.after
                &&& p.count == self.count
            },
    {
        if self.end < self.start {
            return Err(PlanError::InvalidRange);
        }
        if self.end - self.start > self.max_span - 1 {
            return Err(PlanError::RangeTooLarge);
        }
        let c: u64 = if self.chunk <= self.max_chunk {
            self.chunk
        } else {
            self.max_chunk
        };
        let chunk: u64 = if c >= 1 {
            c
        } else {
            1
        };
        Ok(TraceFilterPlan {
            range: Range { from: self.start, to: self.end },
            chunk_size: chunk,
            from: self.from,
            to: self.to,
            mode: Some(self.mode),
            after: self.after,
            count: self.count,
        })
    }
}

} // verus!
