use indexer::order::OfferOutcome;
use indexer::OrderingKey;
use indexer::PoolState;
use indexer::Range;
use indexer::RangeOrderer;
use indexer::RpcStats;

#[test]
fn orderer_stall_and_recovery() {
    let mut o: RangeOrderer<&str> = RangeOrderer::new(0);
    let r = o.offer(OrderingKey::Range(Range { from: 2, to: 3 }), "v1");
    assert!(matches!(r, OfferOutcome::Buffered));
    assert!(o.next_ready().is_none());
    let r = o.offer(OrderingKey::Range(Range { from: 0, to: 1 }), "v0");
    match r {
        OfferOutcome::Emitted(rg, v) => {
            assert_eq!(rg, Range { from: 0, to: 1 });
            assert_eq!(v, "v0");
        }
        _ => panic!("the head range should be released at once"),
    }
    let (rg, v) = o.next_ready().unwrap();
    assert_eq!(rg, Range { from: 2, to: 3 });
    assert_eq!(v, "v1");
    assert!(o.next_ready().is_none());
}

#[test]
fn orderer_emits_in_ascending_contiguous_order() {
    let ranges = [
        Range { from: 40, to: 49 },
        Range { from: 10, to: 19 },
        Range { from: 30, to: 39 },
        Range { from: 0, to: 9 },
        Range { from: 20, to: 29 },
    ];
    let mut o: RangeOrderer<u64> = RangeOrderer::new(0);
    let mut emitted: Vec<Range> = Vec::new();
    for rg in ranges {
        match o.offer(OrderingKey::Range(rg), rg.from) {
            OfferOutcome::Emitted(e, _) => emitted.push(e),
            OfferOutcome::Buffered => {}
            OfferOutcome::Unordered(_) => panic!("keys are ranges"),
        }
        while let Some((e, _)) = o.next_ready() {
            emitted.push(e);
        }
    }
    assert_eq!(emitted.len(), 5);
    assert_eq!(emitted[0].from, 0);
    for i in 1..emitted.len() {
        assert_eq!(emitted[i].from, emitted[i - 1].to + 1);
    }
    assert_eq!(emitted[4].to, 49);
}

#[test]
fn orderer_flags_unordered_keys() {
    let mut o: RangeOrderer<u32> = RangeOrderer::new(7);
    let r = o.offer(OrderingKey::Unordered, 5);
    match r {
        OfferOutcome::Unordered(v) => assert_eq!(v, 5),
        _ => panic!("an unordered key is a contract violation"),
    }
    assert!(o.next_ready().is_none());
}

#[test]
fn orderer_starts_at_given_block() {
    let mut o: RangeOrderer<u8> = RangeOrderer::new(100);
    let r = o.offer(OrderingKey::Range(Range { from: 100, to: 149 }), 1);
    assert!(matches!(r, OfferOutcome::Emitted(_, 1)));
}

#[test]
fn round_robin_counts_are_even() {
    let mut pool = PoolState::new(3, 2);
    let mut counts = [0u32; 3];
    for _ in 0..9 {
        let idx = pool.next_index();
        counts[idx] += 1;
    }
    assert_eq!(counts, [3, 3, 3]);
}

#[test]
fn round_robin_cycles_in_order() {
    let mut pool = PoolState::new(4, 1);
    let picked: Vec<usize> = (0..8).map(|_| pool.next_index()).collect();
    assert_eq!(picked, vec![0, 1, 2, 3, 0, 1, 2, 3]);
}

#[test]
fn stats_snapshots_are_monotonic() {
    let mut s = RpcStats::new();
    let mut last = s.snapshot();
    for i in 0..10 {
        s.record(i % 3 != 0, 10 * i as u64);
        let now = s.snapshot();
        assert!(now.0 >= last.0);
        assert!(now.1 >= last.1);
        last = now;
    }
    assert_eq!(last.0, 10);
    assert_eq!(last.1, 6);
}

#[test]
fn stats_average_is_exact() {
    let mut s = RpcStats::new();
    s.record(true, 10);
    s.record(false, 31);
    let (requests, successes, avg) = s.snapshot();
    assert_eq!(requests, 2);
    assert_eq!(successes, 1);
    assert_eq!(avg, 20);
}

#[test]
fn empty_stats_average_is_zero() {
    let s = RpcStats::new();
    assert_eq!(s.snapshot(), (0, 0, 0));
}

#[test]
fn pool_records_against_selected_endpoint() {
    let mut pool = PoolState::new(2, 5);
    let idx = pool.next_index();
    pool.record_result(idx, true, 12);
    let snaps = pool.snapshots();
    assert_eq!(snaps.len(), 2);
    assert_eq!(snaps[0], (1, 1, 12));
    assert_eq!(snaps[1], (0, 0, 0));
    assert_eq!(pool.len(), 2);
    assert_eq!(pool.global_parallel(), 10);
}
