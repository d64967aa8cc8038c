//! Validation errors raised by the builders before any work is planned.
//! Each cap has its own kind; none of these is ever retried.

use vstd::prelude::*;

verus! {

/// Why a builder refused to produce a plan.
#[derive(Clone, Copy, Debug, PartialEq, Eq, Structural)]
pub enum PlanError {
    /// The range is inverted: `to < from`.
    InvalidRange,
    /// The range spans more blocks than the configured maximum.
    RangeTooLarge,
    /// More filter addresses than the configured maximum.
    TooManyAddresses,
    /// More token addresses than the configured maximum.
    TooManyTokens,
    /// A topic slot's OR list is wider than the configured maximum.
    TopicOrTooWide,
    /// More hashes than the configured maximum.
    TooManyHashes,
    /// More block queries than the configured maximum.
    TooManyQueries,
    /// The query kind cannot be planned without I/O (a timestamp query
    /// must be executed, not planned).
    UnsupportedQuery,
}

} // verus!
