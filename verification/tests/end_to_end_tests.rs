use indexer::order::OfferOutcome;
use indexer::Address;
use indexer::BlockRef;
use indexer::GetBalancePlan;
use indexer::GetLogsBuilder;
use indexer::OrderingKey;
use indexer::Range;
use indexer::RangeOrderer;
use indexer::TraceFilterBuilder;

/// A canned upstream: each range-keyed call answers with a value derived
/// from its range, arriving in an arbitrary order.
fn canned_result(r: Range) -> String {
    format!("result-{}-{}", r.from, r.to)
}

#[test]
fn planned_batch_reorders_to_ascending() {
    let plan = TraceFilterBuilder::new()
        .target(Address::repeat_byte(0xAA))
        .start_block(100)
        .end_block(349)
        .chunk_size(50)
        .plan()
        .unwrap();
    let items = plan.plan();
    assert_eq!(items.len(), 5);

    // Complete the calls out of order, as a concurrent pool would.
    let arrival = [3usize, 0, 4, 1, 2];
    let mut orderer: RangeOrderer<String> = RangeOrderer::new(plan.range.from);
    let mut emitted: Vec<(Range, String)> = Vec::new();
    for &i in &arrival {
        let key = items[i].key;
        let OrderingKey::Range(r) = key else {
            panic!("trace items are range-keyed");
        };
        match orderer.offer(key, canned_result(r)) {
            OfferOutcome::Emitted(rg, v) => emitted.push((rg, v)),
            OfferOutcome::Buffered => {}
            OfferOutcome::Unordered(_) => panic!("trace items are range-keyed"),
        }
        while let Some(p) = orderer.next_ready() {
            emitted.push(p);
        }
    }

    assert_eq!(emitted.len(), 5);
    for (i, (r, v)) in emitted.iter().enumerate() {
        let expect = Range {
            from: 100 + 50 * i as u64,
            to: 149 + 50 * i as u64,
        };
        assert_eq!(*r, expect);
        assert_eq!(*v, canned_result(expect));
    }
}

#[test]
fn balance_batch_decodes_canned_quantities() {
    let queries = vec![
        (Address::repeat_byte(1), BlockRef::Number(10)),
        (Address::repeat_byte(2), BlockRef::Latest),
        (Address::repeat_byte(3), BlockRef::Number(11)),
    ];
    let plan = GetBalancePlan { queries };
    let items = plan.plan();
    assert_eq!(items.len(), 3);
    let canned = ["0x01", "0x1f", "0x100"];
    let expected = [1u8, 0x1f, 0x00];
    for (raw, want_last) in canned.iter().zip(expected) {
        let w = GetBalancePlan::decode(raw).unwrap();
        assert_eq!(w.byte_at(31), want_last);
    }
    let w = GetBalancePlan::decode("0x100").unwrap();
    assert_eq!(w.byte_at(30), 0x01);
}

#[test]
fn log_plan_end_to_end_with_orderer() {
    let plan = GetLogsBuilder::new(0, 9)
        .chunk_size(5)
        .plan()
        .unwrap();
    let items = plan.plan();
    assert_eq!(items.len(), 2);
    let mut orderer: RangeOrderer<&str> = RangeOrderer::new(0);
    // The second chunk lands first and must wait for the head of line.
    let OrderingKey::Range(r1) = items[1].key else {
        panic!()
    };
    assert!(matches!(
        orderer.offer(OrderingKey::Range(r1), "late"),
        OfferOutcome::Buffered
    ));
    let OrderingKey::Range(r0) = items[0].key else {
        panic!()
    };
    assert!(matches!(
        orderer.offer(OrderingKey::Range(r0), "head"),
        OfferOutcome::Emitted(_, "head")
    ));
    assert_eq!(orderer.next_ready(), Some((Range { from: 5, to: 9 }, "late")));
}
