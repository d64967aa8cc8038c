//! Balance at a timestamp: compose the strict block-time search with one
//! `eth_getBalance` call, under one of three miss policies.  The RPC calls
//! themselves happen outside the library; these functions make every
//! decision of the flow, from plain values to plain values.

use vstd::prelude::*;

use crate::block_time::RangeMiss;

verus! {

/// How a balance query handles a target timestamp outside its bounds.
#[derive(Clone, Copy, Debug, PartialEq, Eq, Structural)]
pub enum OnMiss {
    /// Report nothing.
    Strict,
    /// Take the balance at the nearer bound.
    ClampToBounds,
    /// Widen the upper bound to the finalized block and retry once.
    AutoWidenToLatest,
}

/// What the flow does after the block-time search.
#[derive(Clone, Copy, Debug, PartialEq, Eq, Structural)]
pub enum MissDecision {
    /// Issue one `eth_getBalance` at this block and report its result.
    FetchBalanceAt(u64),
    /// Report nothing.
    ReportNone,
    /// Fetch the finalized block header, then decide how to widen past
    /// the old upper bound.
    FetchFinalized { after_hi: u64 },
}

/// What the flow does once the finalized block number is known.
#[derive(Clone, Copy, Debug, PartialEq, Eq, Structural)]
pub enum WidenDecision {
    /// Nothing to widen into: take the balance at this block.
    FetchBalanceAt(u64),
    /// Retry the search once over these widened bounds.
    RetrySearch { lo: u64, hi: u64 },
}

/// Decide what follows the strict block-time search.  A found block gets
/// its balance fetched.  A miss below the bounds yields nothing (widening
/// downward is not possible) unless the policy clamps, in which case the
/// lower bound's balance is taken.  A miss above the bounds yields
/// nothing under the strict policy, the upper bound's balance under
/// clamping, and a widening attempt under auto-widen.
pub fn on_search_result(res: Result<u64, RangeMiss>, policy: OnMiss) -> (r: MissDecision)
    ensures
        res matches Ok(b) ==> r == MissDecision::FetchBalanceAt(b),
        res matches Err(RangeMiss::BeforeRange { lo, .. }) ==> r == (match policy {
            OnMiss::Strict => MissDecision::ReportNone,
            OnMiss::ClampToBounds => MissDecision::FetchBalanceAt(lo),
            OnMiss::AutoWidenToLatest => MissDecision::ReportNone,
        }),
        res matches Err(RangeMiss::AfterRange { hi, .. }) ==> r == (match policy {
            OnMiss::Strict => MissDecision::ReportNone,
            OnMiss::ClampToBounds => MissDecision::FetchBalanceAt(hi),
            OnMiss::AutoWidenToLatest => MissDecision::FetchFinalized { after_hi: hi },
        }),
{
    match res {
        Ok(b) => MissDecision::FetchBalanceAt(b),
        Err(RangeMiss::BeforeRange { lo, .. }) => match policy {
            OnMiss::Strict => MissDecision::ReportNone,
            OnMiss::ClampToBounds => MissDecision::FetchBalanceAt(lo),
            OnMiss::AutoWidenToLatest => MissDecision::ReportNone,
        },
        Err(RangeMiss::AfterRange { hi, .. }) => match policy {
            OnMiss::Strict => MissDecision::ReportNone,
            OnMiss::ClampToBounds => MissDecision::FetchBalanceAt(hi),
            OnMiss::AutoWidenToLatest => MissDecision::FetchFinalized { after_hi: hi },
        },
    }
}

/// Decide the widened bounds once the finalized block number is known.
/// The new window begins one past the old upper bound; if even the
/// finalized block lies before that, there is nothing to widen into and
/// the old upper bound's balance is taken.  Widening happens at most
/// once.
pub fn on_finalized(after_hi: u64, finalized: u64) -> (r: WidenDecision)
    ensures
        after_hi >= finalized ==> r == WidenDecision::FetchBalanceAt(after_hi),
        after_hi < finalized ==> r == (WidenDecision::RetrySearch {
            lo: (after_hi + 1) as u64,
            hi: finalized,
        }),
{
    if after_hi >= finalized {
        WidenDecision::FetchBalanceAt(after_hi)
    } else {
        WidenDecision::RetrySearch { lo: after_hi + 1, hi: finalized }
    }
}

/// Decide the block whose balance is reported after the one retried
/// search: the block it found, or, on a second miss, the widened upper
/// bound itself.
pub fn on_retry_result(res: Result<u64, RangeMiss>, widened_hi: u64) -> (r: u64)
    ensures
        res matches Ok(b) ==> r == b,
        res is Err ==> r == widened_hi,
{
    match res {
        Ok(b) => b,
        Err(_) => widened_hi,
    }
}

} // verus!
