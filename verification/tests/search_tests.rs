use indexer::balance::on_finalized;
use indexer::balance::on_retry_result;
use indexer::balance::on_search_result;
use indexer::balance::MissDecision;
use indexer::balance::WidenDecision;
use indexer::block_time::SearchStep;
use indexer::block_time::SimpleBlockTimeSearch;
use indexer::block_time::SimpleStep;
use indexer::BlockTimeSearch;
use indexer::OnMiss;
use indexer::RangeMiss;

/// The mocked chain of the search scenarios: twelve seconds per block.
fn ts(n: u64) -> u64 {
    1_000_000 + 12 * n
}

/// Drive the strict search against the mocked chain.
fn run_strict(t: u64, lo: u64, hi: u64) -> Result<u64, RangeMiss> {
    let (mut search, mut step) = BlockTimeSearch::start(t, lo, hi);
    let mut fuel = 0;
    loop {
        match step {
            SearchStep::FetchBlock(n) => {
                step = search.on_timestamp(ts(n));
            }
            SearchStep::Found(b) => return Ok(b),
            SearchStep::Miss(m) => return Err(m),
        }
        fuel += 1;
        assert!(fuel < 100, "the search must terminate");
    }
}

/// Drive the bounded search against the mocked chain.
fn run_simple(t: u64, lo: u64, hi: u64) -> Option<u64> {
    let (mut search, mut step) = SimpleBlockTimeSearch::start(t, lo, hi);
    let mut fuel = 0;
    loop {
        match step {
            SimpleStep::FetchBlock(n) => {
                step = search.on_timestamp(ts(n));
            }
            SimpleStep::Found(b) => return Some(b),
            SimpleStep::NotFound => return None,
        }
        fuel += 1;
        assert!(fuel < 100, "the search must terminate");
    }
}

#[test]
fn strict_search_finds_block_fifty() {
    assert_eq!(run_strict(1_000_600, 0, 200), Ok(50));
}

#[test]
fn strict_search_reports_before_range() {
    assert_eq!(
        run_strict(999_000, 0, 200),
        Err(RangeMiss::BeforeRange {
            t: 999_000,
            lo: 0,
            lo_ts: 1_000_000,
        })
    );
}

#[test]
fn strict_search_reports_after_range() {
    assert_eq!(
        run_strict(1_100_000, 0, 200),
        Err(RangeMiss::AfterRange {
            t: 1_100_000,
            hi: 200,
            hi_ts: 1_002_400,
        })
    );
}

#[test]
fn strict_search_exact_boundaries() {
    assert_eq!(run_strict(1_000_000, 0, 200), Ok(0));
    assert_eq!(run_strict(1_002_400, 0, 200), Ok(200));
    assert_eq!(run_strict(1_000_611, 0, 200), Ok(50));
    assert_eq!(run_strict(1_000_612, 0, 200), Ok(51));
}

#[test]
fn simple_search_clamps_high() {
    assert_eq!(run_simple(5_000_000, 0, 200), Some(200));
}

#[test]
fn simple_search_misses_low() {
    assert_eq!(run_simple(999_000, 0, 200), None);
}

#[test]
fn simple_search_finds_block() {
    assert_eq!(run_simple(1_000_600, 0, 200), Some(50));
}

#[test]
fn simple_search_empty_bounds() {
    assert_eq!(run_simple(1_000_600, 10, 5), None);
}

#[test]
fn balance_policy_clamps_to_upper_bound() {
    let miss = run_strict(1_100_000, 0, 200);
    let d = on_search_result(miss, OnMiss::ClampToBounds);
    assert_eq!(d, MissDecision::FetchBalanceAt(200));
}

#[test]
fn balance_policy_strict_reports_none() {
    let miss = run_strict(1_100_000, 0, 200);
    assert_eq!(
        on_search_result(miss, OnMiss::Strict),
        MissDecision::ReportNone
    );
    let below = run_strict(999_000, 0, 200);
    assert_eq!(
        on_search_result(below, OnMiss::Strict),
        MissDecision::ReportNone
    );
}

#[test]
fn balance_policy_cannot_widen_downward() {
    let below = run_strict(999_000, 0, 200);
    assert_eq!(
        on_search_result(below, OnMiss::AutoWidenToLatest),
        MissDecision::ReportNone
    );
}

#[test]
fn balance_policy_auto_widen_clamps_after_second_miss() {
    let miss = run_strict(1_100_000, 0, 200);
    let d = on_search_result(miss, OnMiss::AutoWidenToLatest);
    assert_eq!(d, MissDecision::FetchFinalized { after_hi: 200 });
    let w = on_finalized(200, 500);
    assert_eq!(w, WidenDecision::RetrySearch { lo: 201, hi: 500 });
    let retry = run_strict(1_100_000, 201, 500);
    assert!(retry.is_err(), "the mocked chain still ends too early");
    assert_eq!(on_retry_result(retry, 500), 500);
}

#[test]
fn balance_policy_widen_with_nothing_beyond() {
    let w = on_finalized(200, 200);
    assert_eq!(w, WidenDecision::FetchBalanceAt(200));
    let w = on_finalized(500, 300);
    assert_eq!(w, WidenDecision::FetchBalanceAt(500));
}

#[test]
fn balance_found_block_gets_fetched() {
    let found = run_strict(1_000_600, 0, 200);
    assert_eq!(
        on_search_result(found, OnMiss::AutoWidenToLatest),
        MissDecision::FetchBalanceAt(50)
    );
}
