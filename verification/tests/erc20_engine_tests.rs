use indexer::erc20::decode_transfer_log;
use indexer::erc20::encode_balance_of;
use indexer::erc20::transfer_signature;
use indexer::erc20::LogEntry;
use indexer::eth_call;
use indexer::eth_call::CallRequest;
use indexer::get_balance;
use indexer::bytes::indexed_address_topic;
use indexer::Address;
use indexer::BlockRef;
use indexer::Erc20TokenTransfersBuilder;
use indexer::Erc20WalletTransfersBuilder;
use indexer::EngineBuilder;
use indexer::GetBalanceBuilder;
use indexer::GetBalancePlan;
use indexer::OrderingKey;
use indexer::Params;
use indexer::PlanError;
use indexer::Range;
use indexer::Topic;
use indexer::Word32;

fn zero_word() -> Word32 {
    Word32::repeat_byte(0)
}

#[test]
fn transfer_signature_bytes() {
    let sig = transfer_signature();
    let expected = [
        0xdd, 0xf2, 0x52, 0xad, 0x1b, 0xe2, 0xc8, 0x9b, 0x69, 0xc2, 0xb0, 0x68, 0xfc, 0x37, 0x8d,
        0xaa, 0x95, 0x2b, 0xa7, 0xf1, 0x63, 0xc4, 0xa1, 0x16, 0x28, 0xf5, 0x5a, 0x4d, 0xf5, 0x23,
        0xb3, 0xef,
    ];
    for (i, b) in expected.iter().enumerate() {
        assert_eq!(sig.byte_at(i), *b);
    }
}

#[test]
fn wallet_lanes_fill_opposite_slots() {
    let wallet = Address::repeat_byte(0x11);
    let (from_items, to_items, range) =
        Erc20WalletTransfersBuilder::new(wallet.clone(), 0, 99, zero_word())
            .chunk_size(50)
            .plan_split()
            .unwrap();
    assert_eq!(range, Range { from: 0, to: 99 });
    assert_eq!(from_items.len(), 2);
    assert_eq!(to_items.len(), 2);
    let wallet_topic = indexed_address_topic(&wallet);
    match &from_items[0].params {
        Params::LogFilter { topics, .. } => {
            match &topics[0] {
                Topic::One(w) => assert_eq!(*w, transfer_signature()),
                _ => panic!("slot zero must hold the signature"),
            }
            match &topics[1] {
                Topic::One(w) => assert_eq!(*w, wallet_topic),
                _ => panic!("the outgoing lane indexes the sender"),
            }
            assert!(matches!(topics[2], Topic::Any));
        }
        _ => panic!("wrong params variant"),
    }
    match &to_items[0].params {
        Params::LogFilter { topics, .. } => {
            assert!(matches!(topics[1], Topic::Any));
            match &topics[2] {
                Topic::One(w) => assert_eq!(*w, wallet_topic),
                _ => panic!("the incoming lane indexes the receiver"),
            }
        }
        _ => panic!("wrong params variant"),
    }
}

#[test]
fn wallet_work_items_concatenate_lanes() {
    let wallet = Address::repeat_byte(0x11);
    let items = Erc20WalletTransfersBuilder::new(wallet, 0, 99, zero_word())
        .chunk_size(50)
        .work_items()
        .unwrap();
    assert_eq!(items.len(), 4);
    assert_eq!(items[0].key, OrderingKey::Range(Range { from: 0, to: 49 }));
    assert_eq!(items[2].key, OrderingKey::Range(Range { from: 0, to: 49 }));
}

#[test]
fn wallet_builder_rejects_bad_ranges() {
    let wallet = Address::repeat_byte(0x11);
    let r = Erc20WalletTransfersBuilder::new(wallet.clone(), 9, 2, zero_word()).plan_split();
    assert!(matches!(r, Err(PlanError::InvalidRange)));
    let r = Erc20WalletTransfersBuilder::new(wallet, 0, 5_000_000, zero_word()).work_items();
    assert!(matches!(r, Err(PlanError::RangeTooLarge)));
}

#[test]
fn token_stream_filters_by_contract() {
    let token = Address::repeat_byte(0x22);
    let (items, range) = Erc20TokenTransfersBuilder::new(token.clone(), 10, 19, zero_word())
        .chunk_size(5)
        .plan()
        .unwrap();
    assert_eq!(range, Range { from: 10, to: 19 });
    assert_eq!(items.len(), 2);
    match &items[0].params {
        Params::LogFilter { addresses, topics, .. } => {
            assert_eq!(addresses.len(), 1);
            assert_eq!(addresses[0], token);
            match &topics[0] {
                Topic::One(w) => assert_eq!(*w, transfer_signature()),
                _ => panic!("slot zero must hold the signature"),
            }
        }
        _ => panic!("wrong params variant"),
    }
}

#[test]
fn custom_signature_is_kept() {
    let token = Address::repeat_byte(0x22);
    let sig = Word32::repeat_byte(0x77);
    let (items, _) = Erc20TokenTransfersBuilder::new(token, 0, 0, sig.clone())
        .plan()
        .unwrap();
    match &items[0].params {
        Params::LogFilter { topics, .. } => match &topics[0] {
            Topic::One(w) => assert_eq!(*w, sig),
            _ => panic!("slot zero must hold the signature"),
        },
        _ => panic!("wrong params variant"),
    }
}

#[test]
fn transfer_log_decodes() {
    let token = Address::repeat_byte(0x22);
    let from = Address::repeat_byte(0x33);
    let to = Address::repeat_byte(0x44);
    let mut data = vec![0u8; 32];
    data[31] = 9;
    let log = LogEntry {
        address: token.clone(),
        topics: vec![
            transfer_signature(),
            indexed_address_topic(&from),
            indexed_address_topic(&to),
        ],
        data,
    };
    let t = decode_transfer_log(&log).unwrap();
    assert_eq!(t.token, token);
    assert_eq!(t.from_addr, from);
    assert_eq!(t.to_addr, to);
    assert_eq!(t.value[31], 9);
}

#[test]
fn non_transfer_logs_are_refused() {
    let log = LogEntry {
        address: Address::repeat_byte(0x22),
        topics: vec![Word32::repeat_byte(0x01)],
        data: vec![0u8; 32],
    };
    assert!(decode_transfer_log(&log).is_none());
    let log = LogEntry {
        address: Address::repeat_byte(0x22),
        topics: vec![
            transfer_signature(),
            Word32::repeat_byte(0),
            Word32::repeat_byte(0),
        ],
        data: vec![0u8; 31],
    };
    assert!(decode_transfer_log(&log).is_none());
}

#[test]
fn balance_of_calldata_layout() {
    let owner = Address::repeat_byte(0x55);
    let data = encode_balance_of(&owner);
    assert_eq!(data.len(), 36);
    assert_eq!(&data[0..4], &[0x70, 0xa0, 0x82, 0x31]);
    assert!(data[4..16].iter().all(|b| *b == 0));
    assert!(data[16..36].iter().all(|b| *b == 0x55));
}

#[test]
fn call_work_item_carries_request() {
    let to = Address::repeat_byte(0x66);
    let data = encode_balance_of(&Address::repeat_byte(0x55));
    let item = eth_call::work_one(
        CallRequest { to: to.clone(), data: data.clone() },
        BlockRef::Number(77),
    );
    assert_eq!(item.method, "eth_call");
    assert_eq!(item.key, OrderingKey::Unordered);
    match &item.params {
        Params::Call { to: t, data: d, block } => {
            assert_eq!(*t, to);
            assert_eq!(*d, data);
            assert_eq!(*block, BlockRef::Number(77));
        }
        _ => panic!("wrong params variant"),
    }
}

#[test]
fn call_results_decode_as_bytes() {
    assert_eq!(eth_call::decode_bytes("0x00ff"), Some(vec![0, 0xff]));
    assert_eq!(eth_call::decode_bytes("ff"), None);
}

#[test]
fn engine_builder_validates() {
    let r = EngineBuilder::new().build();
    assert!(matches!(
        r,
        Err(indexer::engine::ConfigError::NoEndpoints)
    ));
    let r = EngineBuilder::new()
        .rpc_urls(vec!["http://localhost:8545".to_string()])
        .parallel_per_rpc(0)
        .build();
    assert!(matches!(
        r,
        Err(indexer::engine::ConfigError::ZeroParallelism)
    ));
    let cfg = EngineBuilder::new()
        .rpc_urls(vec![
            "http://localhost:8545".to_string(),
            "http://localhost:8546".to_string(),
        ])
        .parallel_per_rpc(7)
        .retry(3, 1000, 500)
        .build()
        .unwrap();
    assert_eq!(cfg.urls.len(), 2);
    assert_eq!(cfg.per_rpc_parallel, 7);
    assert_eq!(cfg.retry, Some((3, 1000, 500)));
    assert_eq!(cfg.global_parallel(), 14);
}

#[test]
fn balance_builder_plans_block_queries_only() {
    let addr = Address::repeat_byte(0x01);
    let plan = GetBalanceBuilder::new(addr.clone()).plan().unwrap();
    assert_eq!(plan.queries.len(), 1);
    assert_eq!(plan.queries[0].1, BlockRef::Latest);
    let items = plan.plan();
    assert_eq!(items[0].method, "eth_getBalance");
    assert_eq!(items[0].key, OrderingKey::Unordered);

    let r = GetBalanceBuilder::new(addr.clone())
        .at_timestamp(1_000_000)
        .bounds(0, 200)
        .plan();
    assert!(matches!(r, Err(PlanError::UnsupportedQuery)));

    let plan = GetBalanceBuilder::new(addr)
        .at_block(BlockRef::Number(42))
        .plan()
        .unwrap();
    assert_eq!(plan.queries[0].1, BlockRef::Number(42));
}

#[test]
fn balance_results_decode_as_words() {
    let w = GetBalancePlan::decode("0x0de0b6b3a7640000").unwrap();
    assert_eq!(w.byte_at(24), 0x0d);
    assert_eq!(w.byte_at(31), 0x00);
    assert!(GetBalancePlan::decode("wei").is_none());
}

#[test]
fn balance_work_one_shape() {
    let addr = Address::repeat_byte(0x01);
    let item = get_balance::work_one(&addr, BlockRef::Finalized);
    assert_eq!(item.method, "eth_getBalance");
    match &item.params {
        Params::Balance { addr: a, block } => {
            assert_eq!(*a, addr);
            assert_eq!(*block, BlockRef::Finalized);
        }
        _ => panic!("wrong params variant"),
    }
}
