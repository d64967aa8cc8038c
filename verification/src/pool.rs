//! Pool bookkeeping: per-endpoint statistics and round-robin endpoint
//! selection.  The clients themselves, their semaphores and the awaiting
//! live outside the library; this state decides which endpoint a call
//! goes to and records what came of it.

use vstd::prelude::*;

use vstd::arithmetic::div_mod::lemma_add_mod_noop;
use vstd::arithmetic::div_mod::lemma_mod_add_multiples_vanish;
use vstd::arithmetic::div_mod::lemma_mod_bound;
use vstd::arithmetic::div_mod::lemma_small_mod;

verus! {

/// Per-endpoint counters: requests issued, successful requests, and the
/// cumulative latency in milliseconds.  All three only ever grow (they
/// saturate at the top of `u64` rather than wrap).
#[derive(Clone, Copy, Debug, PartialEq, Eq, Structural)]
pub struct RpcStats {
    pub requests: u64,
    pub successes: u64,
    pub total_ms: u64,
}

/// What one recorded call does to a stats cell.
pub open spec fn recorded(pre: RpcStats, post: RpcStats, ok: bool, dur_ms: u64) -> bool {
    &&& post.requests == (if pre.requests + 1 > u64::MAX {
        u64::MAX
    } else {
        (pre.requests + 1) as u64
    })
    &&& post.successes == (if ok {
        if pre.successes + 1 > u64::MAX {
            u64::MAX
        } else {
            (pre.successes + 1) as u64
        }
    } else {
        pre.successes
    })
    &&& post.total_ms == (if pre.total_ms + dur_ms > u64::MAX {
        u64::MAX
    } else {
        (pre.total_ms + dur_ms) as u64
    })
}

impl RpcStats {
    /// A zeroed cell.
    pub fn new() -> (r: RpcStats)
        ensures
            r.requests == 0,
            r.successes == 0,
            r.total_ms == 0,
    {
        RpcStats { requests: 0, successes: 0, total_ms: 0 }
    }

    /// Record one finished call: whether it succeeded, and how long it
    /// took in milliseconds.
    pub fn record(&mut self, ok: bool, dur_ms: u64)
        ensures
            recorded(*old(self), *final(self), ok, dur_ms),
    {
        self.requests = self.requests.saturating_add(1);
        if ok {
            self.successes = self.successes.saturating_add(1);
        }
        self.total_ms = self.total_ms.saturating_add(dur_ms);
    }

    /// A snapshot: `(requests, successes, average latency in ms)`, the
    /// average rounded down and zero while nothing was recorded.
    pub fn snapshot(&self) -> (r: (u64, u64, u64))
        ensures
            r.0 == self.requests,
            r.1 == self.successes,
            r.2 == (if self.requests > 0 {
                self.total_ms / self.requests
            } else {
                0u64
            }),
    {
        let avg: u64 = if self.requests > 0 {
            self.total_ms / self.requests
        } else {
            0
        };
        (self.requests, self.successes, avg)
    }
}

/// Recording a call never decreases a counter: snapshots are monotonic in
/// `requests` and `successes` (and in the cumulative latency).
pub proof fn lemma_stats_monotonic(pre: RpcStats, post: RpcStats, ok: bool, dur_ms: u64)
    requires
        recorded(pre, post, ok, dur_ms),
    ensures
        post.requests >= pre.requests,
        post.successes >= pre.successes,
        post.total_ms >= pre.total_ms,
{
}

/// The endpoint that the round-robin counter value `c + i` selects among
/// `n` endpoints.
pub open spec fn rr_pick(c: int, i: int, n: int) -> int {
    (c + i) % n
}

/// How many of the `m` counter values `c, c + 1, ..., c + m - 1` select
/// endpoint `j`.
pub open spec fn rr_count(c: int, m: nat, n: int, j: int) -> nat
    decreases m,
{
    if m == 0 {
        0
    } else {
        (if c % n == j {
            1nat
        } else {
            0nat
        }) + rr_count(c + 1, (m - 1) as nat, n, j)
    }
}

/// Counting over a split window adds up.
proof fn lemma_rr_count_split(c: int, a: nat, b: nat, n: int, j: int)
    requires
        n >= 1,
    ensures
        rr_count(c, (a + b) as nat, n, j) == rr_count(c, a, n, j) + rr_count(c + a, b, n, j),
    decreases a,
{
    if a > 0 {
        lemma_rr_count_split(c + 1, (a - 1) as nat, b, n, j);
    }
}

/// Two counter values less than `n` apart never select the same endpoint.
proof fn lemma_rr_distinct(c: int, d: int, n: int)
    requires
        c >= 0,
        n >= 1,
        0 < d < n,
    ensures
        (c + d) % n != c % n,
{
    lemma_add_mod_noop(c, d, n);
    lemma_small_mod(d as nat, n as nat);
    lemma_mod_bound(c, n);
    let r = c % n;
    if r + d < n {
        lemma_small_mod((r + d) as nat, n as nat);
    } else {
        lemma_mod_add_multiples_vanish(r + d - n, n);
        lemma_small_mod((r + d - n) as nat, n as nat);
    }
}

/// Within any window of exactly `n` consecutive counter values, endpoint
/// `j` is selected exactly once.
proof fn lemma_rr_window(c: int, m: nat, n: int, j: int)
    requires
        c >= 0,
        n >= 1,
        0 <= j < n,
        m <= n,
    ensures
        rr_count(c, m, n, j) == (if exists|i: int| 0 <= i < m && #[trigger] rr_pick(c, i, n) == j {
            1int
        } else {
            0int
        }),
    decreases m,
{
    if m > 0 {
        lemma_rr_window(c + 1, (m - 1) as nat, n, j);
        if c % n == j {
            assert(rr_pick(c, 0, n) == j);
            assert forall|i: int| 0 <= i < m - 1 implies #[trigger] rr_pick(c + 1, i, n) != j by {
                lemma_rr_distinct(c, i + 1, n);
            }
        } else {
            if exists|i: int| 0 <= i < m && #[trigger] rr_pick(c, i, n) == j {
                let i = choose|i: int| 0 <= i < m && #[trigger] rr_pick(c, i, n) == j;
                assert(i != 0);
                assert(rr_pick(c + 1, i - 1, n) == j);
            }
            if exists|i: int| 0 <= i < m - 1 && #[trigger] rr_pick(c + 1, i, n) == j {
                let i = choose|i: int| 0 <= i < m - 1 && #[trigger] rr_pick(c + 1, i, n) == j;
                assert(rr_pick(c, i + 1, n) == j);
            }
        }
    }
}

/// Some counter value within any window of `n` consecutive values selects
/// endpoint `j`.
proof fn lemma_rr_window_hit(c: int, n: int, j: int)
    requires
        c >= 0,
        n >= 1,
        0 <= j < n,
    ensures
        exists|i: int| 0 <= i < n && #[trigger] rr_pick(c, i, n) == j,
{
    lemma_mod_bound(c, n);
    let r = c % n;
    let i = if j >= r {
        j - r
    } else {
        j + n - r
    };
    lemma_add_mod_noop(c, i, n);
    lemma_small_mod(i as nat, n as nat);
    if j >= r {
        lemma_small_mod(j as nat, n as nat);
    } else {
        lemma_mod_add_multiples_vanish(j, n);
        lemma_small_mod(j as nat, n as nat);
    }
    assert(rr_pick(c, i, n) == j);
}

/// Round-robin fairness: over any `k * n` consecutive counter values,
/// every endpoint is selected exactly `k` times, so no two per-endpoint
/// counts differ.  (This covers counter windows that do not wrap around
/// the top of the counter's machine range.)
pub proof fn lemma_round_robin_fair(c: int, k: nat, n: int, j: int)
    requires
        c >= 0,
        n >= 1,
        0 <= j < n,
    ensures
        rr_count(c, (k * n) as nat, n, j) == k,
    decreases k,
{
    if k == 0 {
        assert(k * n == 0);
    } else {
        assert((k - 1) * n + n == k * n) by (nonlinear_arith);
        assert((k - 1) * n >= 0) by (nonlinear_arith)
            requires
                k >= 1,
                n >= 1,
        ;
        lemma_rr_count_split(c, ((k - 1) * n) as nat, n as nat, n, j);
        lemma_round_robin_fair(c, (k - 1) as nat, n, j);
        let c2 = c + (k - 1) * n;
        lemma_rr_window(c2, n as nat, n, j);
        lemma_rr_window_hit(c2, n, j);
    }
}

/// The pure state of the endpoint pool: how many endpoints, the
/// per-endpoint parallelism, the round-robin counter, and one stats cell
/// per endpoint.
pub struct PoolState {
    pub n_endpoints: usize,
    pub per_endpoint: usize,
    pub rr: u64,
    pub stats: Vec<RpcStats>,
}

impl PoolState {
    pub open spec fn wf(self) -> bool {
        &&& self.n_endpoints >= 1
        &&& self.per_endpoint >= 1
        &&& self.stats@.len() == self.n_endpoints
    }

    /// A pool over `n` endpoints with `per_endpoint` parallel permits
    /// each, all counters zeroed.
    pub fn new(n_endpoints: usize, per_endpoint: usize) -> (r: PoolState)
        requires
            n_endpoints >= 1,
            per_endpoint >= 1,
        ensures
            r.wf(),
            r.n_endpoints == n_endpoints,
            r.per_endpoint == per_endpoint,
            r.rr == 0,
            forall|i: int| 0 <= i < n_endpoints ==> (#[trigger] r.stats@[i]) == (RpcStats {
                requests: 0,
                successes: 0,
                total_ms: 0,
            }),
    {
        let mut stats: Vec<RpcStats> = Vec::new();
        let mut i: usize = 0;
        while i < n_endpoints
            invariant
                i <= n_endpoints,
                stats@.len() == i,
                forall|k: int| 0 <= k < i ==> (#[trigger] stats@[k]) == (RpcStats {
                    requests: 0,
                    successes: 0,
                    total_ms: 0,
                }),
            decreases n_endpoints - i,
        {
            stats.push(RpcStats::new());
            i = i + 1;
        }
        PoolState { n_endpoints, per_endpoint, rr: 0, stats }
    }

    /// How many endpoints the pool holds.
    pub fn len(&self) -> (r: usize)
        ensures
            r == self.n_endpoints,
    {
        self.n_endpoints
    }

    /// The global in-flight bound: endpoints times per-endpoint permits.
    pub fn global_parallel(&self) -> (r: usize)
        requires
            self.n_endpoints * self.per_endpoint <= usize::MAX,
        ensures
            r == self.n_endpoints * self.per_endpoint,
    {
        self.n_endpoints * self.per_endpoint
    }

    /// Advance the round-robin counter and return the endpoint it
    /// selects.  The counter wraps at the top of `u64`.
    pub fn next_index(&mut self) -> (r: usize)
        requires
            old(self).wf(),
        ensures
            final(self).wf(),
            r == old(self).rr as int % old(self).n_endpoints as int,
            r < final(self).n_endpoints,
            final(self).rr == (if old(self).rr == u64::MAX {
                0u64
            } else {
                (old(self).rr + 1) as u64
            }),
            final(self).n_endpoints == old(self).n_endpoints,
            final(self).per_endpoint == old(self).per_endpoint,
            final(self).stats@ == old(self).stats@,
    {
        let idx: u64 = self.rr % (self.n_endpoints as u64);
        proof {
            lemma_mod_bound(self.rr as int, self.n_endpoints as int);
        }
        self.rr = self.rr.wrapping_add(1);
        idx as usize
    }

    /// Record the outcome of one call against the endpoint it ran on.
    pub fn record_result(&mut self, idx: usize, ok: bool, dur_ms: u64)
        requires
            old(self).wf(),
            idx < old(self).n_endpoints,
        ensures
            final(self).wf(),
            recorded(old(self).stats@[idx as int], final(self).stats@[idx as int], ok, dur_ms),
            forall|i: int|
                0 <= i < old(self).stats@.len() && i != idx ==> final(self).stats@[i] == old(
                    self,
                ).stats@[i],
            final(self).n_endpoints == old(self).n_endpoints,
            final(self).per_endpoint == old(self).per_endpoint,
            final(self).rr == old(self).rr,
    {
        let cell = &mut self.stats[idx];
        cell.record(ok, dur_ms);
    }

    /// Snapshots of every endpoint's counters, in endpoint order.
    pub fn snapshots(&self) -> (r: Vec<(u64, u64, u64)>)
        ensures
            r@.len() == self.stats@.len(),
            forall|i: int|
                0 <= i < r@.len() ==> (#[trigger] r@[i]) == (
                    self.stats@[i].requests,
                    self.stats@[i].successes,
                    if self.stats@[i].requests > 0 {
                        self.stats@[i].total_ms / self.stats@[i].requests
                    } else {
                        0u64
                    },
                ),
    {
        let mut r: Vec<(u64, u64, u64)> = Vec::new();
        let mut i: usize = 0;
        while i < self.stats.len()
            invariant
                i <= self.stats@.len(),
                r@.len() == i,
                forall|k: int|
                    0 <= k < i ==> (#[trigger] r@[k]) == (
                        self.stats@[k].requests,
                        self.stats@[k].successes,
                        if self.stats@[k].requests > 0 {
                            self.stats@[k].total_ms / self.stats@[k].requests
                        } else {
                            0u64
                        },
                    ),
            decreases self.stats@.len() - i,
        {
            r.push(self.stats[i].snapshot());
            i = i + 1;
        }
        r
    }
}

} // verus!
