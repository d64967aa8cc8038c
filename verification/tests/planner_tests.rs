use indexer::bytes::indexed_address_topic;
use indexer::Address;
use indexer::BlockByNumberBuilder;
use indexer::BlockRef;
use indexer::GetLogsBuilder;
use indexer::OrderingKey;
use indexer::Params;
use indexer::PlanError;
use indexer::Range;
use indexer::Topic;
use indexer::TraceFilterBuilder;
use indexer::TxByHashBuilder;
use indexer::Word32;

fn chunk_range(r: Range, size: u64) -> Vec<Range> {
    indexer::chunk_range(r, size)
}

#[test]
fn chunk_single_block() {
    let out = chunk_range(Range { from: 5, to: 5 }, 10);
    assert_eq!(out, vec![Range { from: 5, to: 5 }]);
}

#[test]
fn chunk_oversized_size_yields_span() {
    let out = chunk_range(Range { from: 10, to: 20 }, 100);
    assert_eq!(out, vec![Range { from: 10, to: 20 }]);
}

#[test]
fn chunk_partitions_exactly() {
    let out = chunk_range(Range { from: 100, to: 349 }, 50);
    assert_eq!(
        out,
        vec![
            Range { from: 100, to: 149 },
            Range { from: 150, to: 199 },
            Range { from: 200, to: 249 },
            Range { from: 250, to: 299 },
            Range { from: 300, to: 349 },
        ]
    );
}

#[test]
fn chunk_uneven_tail() {
    let out = chunk_range(Range { from: 0, to: 10 }, 4);
    assert_eq!(
        out,
        vec![
            Range { from: 0, to: 3 },
            Range { from: 4, to: 7 },
            Range { from: 8, to: 10 },
        ]
    );
}

#[test]
fn chunk_inverted_range_is_empty() {
    let out = chunk_range(Range { from: 10, to: 5 }, 4);
    assert!(out.is_empty());
}

#[test]
fn trace_filter_fan_out() {
    let target = Address::repeat_byte(0xAA);
    let plan = TraceFilterBuilder::new()
        .target(target)
        .start_block(100)
        .end_block(349)
        .chunk_size(50)
        .plan()
        .unwrap();
    assert_eq!(plan.range, Range { from: 100, to: 349 });
    let items = plan.plan();
    assert_eq!(items.len(), 5);
    for (i, item) in items.iter().enumerate() {
        assert_eq!(item.method, "trace_filter");
        let expect = Range {
            from: 100 + 50 * i as u64,
            to: 149 + 50 * i as u64,
        };
        assert_eq!(item.key, OrderingKey::Range(expect));
        match &item.params {
            Params::TraceFilter {
                from_block,
                to_block,
                from_addrs,
                to_addrs,
                ..
            } => {
                assert_eq!(*from_block, expect.from);
                assert_eq!(*to_block, expect.to);
                assert_eq!(from_addrs.len(), 1);
                assert_eq!(to_addrs.len(), 1);
                assert_eq!(from_addrs[0], Address::repeat_byte(0xAA));
                assert_eq!(to_addrs[0], Address::repeat_byte(0xAA));
            }
            _ => panic!("wrong params variant"),
        }
    }
}

#[test]
fn trace_filter_rejects_inverted_range() {
    let r = TraceFilterBuilder::new().start_block(10).end_block(5).plan();
    assert!(matches!(r, Err(PlanError::InvalidRange)));
}

#[test]
fn trace_filter_rejects_oversized_span() {
    let r = TraceFilterBuilder::new()
        .start_block(0)
        .end_block(200_000)
        .plan();
    assert!(matches!(r, Err(PlanError::RangeTooLarge)));
}

#[test]
fn trace_filter_clamps_chunk() {
    let plan = TraceFilterBuilder::new()
        .start_block(0)
        .end_block(10)
        .chunk_size(99_999)
        .plan()
        .unwrap();
    assert_eq!(plan.chunk_size, 10_000);
    let plan = TraceFilterBuilder::new()
        .start_block(0)
        .end_block(10)
        .chunk_size(0)
        .plan()
        .unwrap();
    assert_eq!(plan.chunk_size, 1);
}

#[test]
fn logs_builder_rejects_inverted_range() {
    let r = GetLogsBuilder::new(7, 3).plan();
    assert!(matches!(r, Err(PlanError::InvalidRange)));
}

#[test]
fn logs_builder_rejects_oversized_span() {
    let r = GetLogsBuilder::new(0, 5_000_000).plan();
    assert!(matches!(r, Err(PlanError::RangeTooLarge)));
}

#[test]
fn logs_builder_rejects_too_many_addresses() {
    let mut b = GetLogsBuilder::new(0, 10).limits(1_000_000, 2, 64);
    for _ in 0..3 {
        b = b.address(Address::repeat_byte(1));
    }
    assert!(matches!(b.plan(), Err(PlanError::TooManyAddresses)));
}

#[test]
fn topic_slot_filling() {
    let h = Word32::repeat_byte(0x55);
    let plan = GetLogsBuilder::new(0, 10).topic_one(2, h).plan().unwrap();
    let items = plan.plan();
    assert_eq!(items.len(), 1);
    match &items[0].params {
        Params::LogFilter { topics, .. } => {
            assert_eq!(topics.len(), 4);
            assert!(matches!(topics[0], Topic::Any));
            assert!(matches!(topics[1], Topic::Any));
            match &topics[2] {
                Topic::One(w) => assert_eq!(*w, Word32::repeat_byte(0x55)),
                _ => panic!("slot two should hold the word"),
            }
            assert!(matches!(topics[3], Topic::Any));
        }
        _ => panic!("wrong params variant"),
    }
}

#[test]
fn topic_slot_out_of_range_is_noop() {
    let h = Word32::repeat_byte(0x55);
    let plan = GetLogsBuilder::new(0, 10).topic_one(4, h).plan().unwrap();
    let items = plan.plan();
    match &items[0].params {
        Params::LogFilter { topics, .. } => {
            assert!(topics.iter().all(|t| matches!(t, Topic::Any)));
        }
        _ => panic!("wrong params variant"),
    }
}

#[test]
fn topic_or_over_cap_fails_the_build() {
    let words: Vec<Word32> = (0..5).map(|i| Word32::repeat_byte(i as u8)).collect();
    let r = GetLogsBuilder::new(0, 10)
        .limits(1_000_000, 1024, 3)
        .topic_or(0, words)
        .plan();
    assert!(matches!(r, Err(PlanError::TopicOrTooWide)));
    let r = GetLogsBuilder::new(0, 10)
        .limits(1_000_000, 1024, 1)
        .topic_or(2, vec![Word32::repeat_byte(7), Word32::repeat_byte(8)])
        .plan();
    assert!(matches!(r, Err(PlanError::TopicOrTooWide)));
}

#[test]
fn topic_or_within_cap_is_kept_whole() {
    let words: Vec<Word32> = (0..3).map(|i| Word32::repeat_byte(i as u8)).collect();
    let plan = GetLogsBuilder::new(0, 10)
        .limits(1_000_000, 1024, 3)
        .topic_or(0, words)
        .plan()
        .unwrap();
    match &plan.topics[0] {
        Topic::Or(ws) => {
            assert_eq!(ws.len(), 3);
            assert_eq!(ws[0], Word32::repeat_byte(0));
            assert_eq!(ws[2], Word32::repeat_byte(2));
        }
        _ => panic!("slot zero should hold the list"),
    }
}

#[test]
fn hash_dedup_stable() {
    let h1 = Word32::repeat_byte(1);
    let h2 = Word32::repeat_byte(2);
    let h3 = Word32::repeat_byte(3);
    let plan = TxByHashBuilder::new()
        .hashes(vec![
            h1.clone(),
            h2.clone(),
            h1.clone(),
            h3.clone(),
            h2.clone(),
        ])
        .plan()
        .unwrap();
    assert_eq!(plan.hashes, vec![h1, h2, h3]);
    let items = plan.plan();
    assert_eq!(items.len(), 3);
    assert_eq!(items[0].method, "eth_getTransactionByHash");
    assert!(items.iter().all(|w| w.key == OrderingKey::Unordered));
}

#[test]
fn hash_builder_rejects_too_many() {
    let mut b = TxByHashBuilder::new().limit(2);
    for i in 0..3 {
        b = b.push(Word32::repeat_byte(i as u8));
    }
    assert!(matches!(b.plan(), Err(PlanError::TooManyHashes)));
}

#[test]
fn receipt_builder_dedups_too() {
    let h = Word32::repeat_byte(9);
    let plan = indexer::TxReceiptBuilder::new()
        .push(h.clone())
        .push(h.clone())
        .plan()
        .unwrap();
    assert_eq!(plan.hashes, vec![h]);
    let items = plan.plan();
    assert_eq!(items[0].method, "eth_getTransactionReceipt");
}

#[test]
fn single_tag_is_unordered() {
    let plan = BlockByNumberBuilder::new().latest().plan().unwrap();
    let items = plan.plan();
    assert_eq!(items.len(), 1);
    assert_eq!(items[0].method, "eth_getBlockByNumber");
    assert_eq!(items[0].key, OrderingKey::Unordered);
}

#[test]
fn numeric_blocks_are_range_keyed() {
    let plan = BlockByNumberBuilder::new().range(3, 5).plan().unwrap();
    let items = plan.plan();
    assert_eq!(items.len(), 3);
    for (i, item) in items.iter().enumerate() {
        let n = 3 + i as u64;
        assert_eq!(item.key, OrderingKey::Range(Range { from: n, to: n }));
        match item.params {
            Params::BlockByNumber { block, full } => {
                assert_eq!(block, BlockRef::Number(n));
                assert!(full);
            }
            _ => panic!("wrong params variant"),
        }
    }
}

#[test]
fn block_builder_rejects_inverted_range() {
    let r = BlockByNumberBuilder::new().range(9, 2).plan();
    assert!(matches!(r, Err(PlanError::InvalidRange)));
}

#[test]
fn block_builder_rejects_too_many() {
    let r = BlockByNumberBuilder::new().range(0, 100).limit(10).plan();
    assert!(matches!(r, Err(PlanError::TooManyQueries)));
}

#[test]
fn address_topic_encoding() {
    let a = Address::repeat_byte(0xCD);
    let topic = indexed_address_topic(&a);
    for i in 0..12 {
        assert_eq!(topic.byte_at(i), 0);
    }
    for i in 12..32 {
        assert_eq!(topic.byte_at(i), 0xCD);
    }
}
