//! Block ranges, ordering keys, and the chunker that splits a range into
//! contiguous sub-ranges of a bounded size.

use vstd::prelude::*;

verus! {

/// A closed block interval `[from, to]`.
#[derive(Clone, Copy, Debug, PartialEq, Eq, Structural)]
pub struct Range {
    pub from: u64,
    pub to: u64,
}

impl Range {
    /// A range is well formed when its bounds are not inverted.
    pub open spec fn wf(self) -> bool {
        self.from <= self.to
    }

    /// Number of blocks covered by the range.
    pub open spec fn span(self) -> int {
        self.to - self.from + 1
    }

    /// Whether block number `n` lies inside the range.
    pub open spec fn has_block(self, n: int) -> bool {
        self.from <= n <= self.to
    }
}

/// Tag telling whether a work item is range-ordered or inherently unordered.
#[derive(Clone, Copy, Debug, PartialEq, Eq, Structural)]
pub enum OrderingKey {
    Range(Range),
    Unordered,
}

/// What it means for `cs` to be the chunk decomposition of `r` with target
/// chunk size `size`: the chunks are non-empty, contiguous, start at
/// `r.from`, end at `r.to`, every chunk except the last spans exactly
/// `size` blocks, and the last spans at most `size`.
pub open spec fn is_chunking(r: Range, size: u64, cs: Seq<Range>) -> bool {
    &&& (r.from > r.to ==> cs.len() == 0)
    &&& (r.from <= r.to ==> {
        &&& cs.len() >= 1
        &&& cs[0].from == r.from
        &&& cs[cs.len() - 1].to == r.to
        &&& forall|i: int| 0 <= i < cs.len() ==> (#[trigger] cs[i]).wf()
        &&& forall|i: int|
            0 <= i < cs.len() - 1 ==> (#[trigger] cs[i]).to + 1 == cs[i + 1].from
        &&& forall|i: int| 0 <= i < cs.len() - 1 ==> (#[trigger] cs[i]).span() == size
        &&& cs[cs.len() - 1].span() <= size
    })
}

/// Where the chunk that begins at `from` ends: `size` blocks further on,
/// or at `to` if that comes first.
pub open spec fn chunk_end(from: u64, to: u64, size: u64) -> u64 {
    if from + size - 1 < to {
        (from + size - 1) as u64
    } else {
        to
    }
}

/// The chunk decomposition of `[from, to]` with target size `size`, as a
/// sequence of ranges.
pub open spec fn chunk_seq(from: u64, to: u64, size: u64) -> Seq<Range>
    decreases to + 1 - from
        when size >= 1
{
    if from > to {
        Seq::empty()
    } else if chunk_end(from, to, size) == to {
        seq![Range { from, to }]
    } else {
        seq![Range { from, to: chunk_end(from, to, size) }] + chunk_seq(
            (chunk_end(from, to, size) + 1) as u64,
            to,
            size,
        )
    }
}

/// Split `r` into contiguous, non-overlapping sub-ranges of at most `size`
/// blocks each.  The last chunk may be shorter; an inverted range yields no
/// chunks.
pub fn chunk_range(r: Range, chunk_size: u64) -> (out: Vec<Range>)
    requires
        chunk_size >= 1,
    ensures
        out@ == chunk_seq(r.from, r.to, chunk_size),
        is_chunking(r, chunk_size, out@),
{
    let mut out: Vec<Range> = Vec::new();
    if r.from > r.to {
        return out;
    }
    let mut s: u64 = r.from;
    loop
        invariant_except_break
            out@.len() >= 1 ==> out@[out@.len() - 1].to + 1 == s,
            forall|i: int| 0 <= i < out@.len() ==> (#[trigger] out@[i]).span() == chunk_size,
            chunk_seq(r.from, r.to, chunk_size) == out@ + chunk_seq(s, r.to, chunk_size),
        invariant
            chunk_size >= 1,
            r.from <= s <= r.to,
            out@.len() == 0 ==> s == r.from,
            out@.len() >= 1 ==> out@[0].from == r.from,
            forall|i: int| 0 <= i < out@.len() ==> (#[trigger] out@[i]).wf(),
            forall|i: int|
                0 <= i < out@.len() - 1 ==> (#[trigger] out@[i]).to + 1 == out@[i + 1].from,
            forall|i: int| 0 <= i < out@.len() - 1 ==> (#[trigger] out@[i]).span() == chunk_size,
        ensures
            is_chunking(r, chunk_size, out@),
            out@ == chunk_seq(r.from, r.to, chunk_size),
        decreases r.to - s,
    {
        let e: u64 = if chunk_size - 1 <= r.to - s {
            s + (chunk_size - 1)
        } else {
            r.to
        };
        proof {
            assert(e == chunk_end(s, r.to, chunk_size));
        }
        out.push(Range { from: s, to: e });
        if e == r.to {
            proof {
                assert(chunk_seq(s, r.to, chunk_size) =~= seq![Range { from: s, to: e }]);
                assert(out@ =~= chunk_seq(r.from, r.to, chunk_size));
            }
            break;
        }
        proof {
            assert(chunk_seq(s, r.to, chunk_size) =~= seq![Range { from: s, to: e }] + chunk_seq(
                (e + 1) as u64,
                r.to,
                chunk_size,
            ));
            assert(out@ + chunk_seq((e + 1) as u64, r.to, chunk_size) =~= chunk_seq(
                r.from,
                r.to,
                chunk_size,
            ));
        }
        s = e + 1;
    }
    out
}

/// A one-block range yields exactly one chunk: the range itself.
pub proof fn lemma_single_block_one_chunk(a: u64, size: u64)
    requires
        size >= 1,
    ensures
        chunk_seq(a, a, size) == seq![Range { from: a, to: a }],
{
    assert(chunk_end(a, a, size) == a);
}

/// A chunk size at least the span yields exactly one chunk: the whole
/// range.
pub proof fn lemma_oversized_chunk(r: Range, size: u64)
    requires
        r.wf(),
        size >= r.span(),
    ensures
        chunk_seq(r.from, r.to, size) == seq![r],
{
    assert(chunk_end(r.from, r.to, size) == r.to);
}

/// Every pair of distinct chunks of a chunking is disjoint, and together
/// the chunks cover exactly the blocks of the parent range.
pub proof fn lemma_chunking_partitions(r: Range, size: u64, cs: Seq<Range>)
    requires
        size >= 1,
        is_chunking(r, size, cs),
    ensures
        forall|i: int, j: int, n: int|
            0 <= i < cs.len() && 0 <= j < cs.len() && i != j ==> !(#[trigger] cs[i].has_block(n)
                && #[trigger] cs[j].has_block(n)),
        forall|n: int| r.has_block(n) <==> exists|i: int| 0 <= i < cs.len() && #[trigger] cs[i].has_block(n),
{
    assert forall|i: int, j: int| 0 <= i < j < cs.len() implies (#[trigger] cs[i]).to
        < (#[trigger] cs[j]).from by {
        lemma_chunks_ordered(r, size, cs, i, j);
    }
    assert forall|n: int| r.has_block(n) implies exists|i: int|
        0 <= i < cs.len() && (#[trigger] cs[i]).has_block(n) by {
        lemma_chunks_cover(r, size, cs, n);
    }
    assert forall|n: int, i: int|
        0 <= i < cs.len() && #[trigger] cs[i].has_block(n) implies r.has_block(n) by {
        lemma_chunks_ordered(r, size, cs, 0, i);
        lemma_chunks_ordered(r, size, cs, i, cs.len() - 1);
    }
}

/// Chunks appear in strictly ascending block order: an earlier chunk ends
/// before a later one begins.  (Calling it with `i == j` just gives the
/// bounds of chunk `i` inside `r`.)
proof fn lemma_chunks_ordered(r: Range, size: u64, cs: Seq<Range>, i: int, j: int)
    requires
        is_chunking(r, size, cs),
        r.from <= r.to,
        0 <= i <= j < cs.len(),
    ensures
        i < j ==> cs[i].to < cs[j].from,
        cs[i].from <= cs[j].from,
        cs[i].to <= cs[j].to,
    decreases j - i,
{
    if i < j {
        lemma_chunks_ordered(r, size, cs, i + 1, j);
    }
}

/// Every block of the parent range falls inside some chunk.
proof fn lemma_chunks_cover(r: Range, size: u64, cs: Seq<Range>, n: int)
    requires
        is_chunking(r, size, cs),
        r.from <= r.to,
        r.has_block(n),
    ensures
        exists|i: int| 0 <= i < cs.len() && (#[trigger] cs[i]).has_block(n),
    decreases cs.len(),
{
    if cs[0].has_block(n) {
        assert(cs[0].has_block(n));
    } else {
        let tail = cs.drop_first();
        let rest = Range { from: cs[1].from, to: r.to };
        assert(is_chunking(rest, size, tail)) by {
            assert forall|k: int| 0 <= k < tail.len() - 1 implies (#[trigger] tail[k]).to + 1
                == tail[k + 1].from by {
                assert(cs[k + 1].to + 1 == cs[k + 2].from);
            }
            assert forall|k: int| 0 <= k < tail.len() - 1 implies (#[trigger] tail[k]).span()
                == size by {
                assert(cs[k + 1].span() == size);
            }
        }
        lemma_chunks_cover(rest, size, tail, n);
        let w = choose|i: int| 0 <= i < tail.len() && (#[trigger] tail[i]).has_block(n);
        assert(cs[w + 1].has_block(n));
    }
}

} // verus!
