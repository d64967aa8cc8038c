use indexer::date::parse_date_to_timestamp;
use indexer::date::days_since_unix_epoch;
use indexer::date::is_leap_year;
use indexer::date::DateError;
use indexer::dec::decode_decimal;
use indexer::hex::decode_hex_bytes;
use indexer::hex::decode_quantity;
use indexer::hex::decode_quantity_word;
use indexer::validate::estimate_lower_bound;
use indexer::validate::parse_numeric_block;
use indexer::validate::validate_block_range;
use indexer::validate::validate_ethereum_address;
use indexer::validate::validate_word;
use indexer::PlanError;

#[test]
fn leap_years() {
    assert!(is_leap_year(2000));
    assert!(!is_leap_year(1900));
    assert!(is_leap_year(2024));
    assert!(!is_leap_year(2023));
}

#[test]
fn epoch_day_arithmetic() {
    assert_eq!(days_since_unix_epoch(1970, 1, 1), Ok(0));
    assert_eq!(days_since_unix_epoch(1970, 1, 2), Ok(1));
    assert_eq!(days_since_unix_epoch(1970, 3, 1), Ok(59));
    assert_eq!(days_since_unix_epoch(1972, 3, 1), Ok(790));
    assert_eq!(days_since_unix_epoch(1969, 1, 1), Err(DateError::BeforeEpoch));
}

#[test]
fn date_parses_to_midnight_timestamp() {
    assert_eq!(parse_date_to_timestamp("1970-01-01"), Ok(0));
    assert_eq!(parse_date_to_timestamp("1970-01-02"), Ok(86_400));
    assert_eq!(parse_date_to_timestamp("2023-01-01"), Ok(1_672_531_200));
    assert_eq!(parse_date_to_timestamp("2015-07-30"), Ok(1_438_214_400));
}

#[test]
fn date_errors_name_the_part_at_fault() {
    assert_eq!(parse_date_to_timestamp("abc"), Err(DateError::Format));
    assert_eq!(parse_date_to_timestamp("2023-01"), Err(DateError::Format));
    assert_eq!(
        parse_date_to_timestamp("2023-01-01-01"),
        Err(DateError::Format)
    );
    assert_eq!(parse_date_to_timestamp("20x3-01-01"), Err(DateError::Year));
    assert_eq!(parse_date_to_timestamp("2023-13-01"), Err(DateError::Month));
    assert_eq!(parse_date_to_timestamp("2023-00-01"), Err(DateError::Month));
    assert_eq!(parse_date_to_timestamp("2023--01"), Err(DateError::Month));
    assert_eq!(parse_date_to_timestamp("2023-01-32"), Err(DateError::Day));
    assert_eq!(parse_date_to_timestamp("2023-01-00"), Err(DateError::Day));
    assert_eq!(
        parse_date_to_timestamp("1969-12-31"),
        Err(DateError::BeforeEpoch)
    );
}

#[test]
fn quantities_decode_exactly() {
    assert_eq!(decode_quantity("0x0"), Some(0));
    assert_eq!(decode_quantity("0x10"), Some(16));
    assert_eq!(decode_quantity("0xDeadBeef"), Some(0xdead_beef));
    assert_eq!(decode_quantity("0xffffffffffffffff"), Some(u64::MAX));
    assert_eq!(decode_quantity("0x10000000000000000"), None);
    assert_eq!(decode_quantity("0x"), None);
    assert_eq!(decode_quantity("10"), None);
    assert_eq!(decode_quantity("0xg1"), None);
}

#[test]
fn decimals_decode_exactly() {
    assert_eq!(decode_decimal("0"), Some(0));
    assert_eq!(decode_decimal("1234567890"), Some(1_234_567_890));
    assert_eq!(decode_decimal("18446744073709551615"), Some(u64::MAX));
    assert_eq!(decode_decimal("18446744073709551616"), None);
    assert_eq!(decode_decimal(""), None);
    assert_eq!(decode_decimal("12a"), None);
    assert_eq!(decode_decimal("+12"), None);
}

#[test]
fn numeric_blocks_accept_decimal_and_hex() {
    assert_eq!(parse_numeric_block("123"), Some(123));
    assert_eq!(parse_numeric_block("0x7b"), Some(123));
    assert_eq!(parse_numeric_block("0X7B"), Some(123));
    assert_eq!(parse_numeric_block("latest"), None);
    assert_eq!(parse_numeric_block(""), None);
}

#[test]
fn hex_byte_strings_decode() {
    assert_eq!(decode_hex_bytes("0xdead"), Some(vec![0xde, 0xad]));
    assert_eq!(decode_hex_bytes("0x"), Some(vec![]));
    assert_eq!(decode_hex_bytes("0xabc"), None);
    assert_eq!(decode_hex_bytes("dead"), None);
}

#[test]
fn hex_encoding_round_trips() {
    let bytes = vec![0x00, 0x0f, 0xde, 0xad, 0xff];
    let text = indexer::hex::encode_hex(&bytes);
    assert_eq!(text, "0x000fdeadff");
    assert_eq!(decode_hex_bytes(&text), Some(bytes));
    assert_eq!(indexer::hex::encode_hex(&vec![]), "0x");
}

#[test]
fn quantity_words_are_left_padded() {
    let w = decode_quantity_word("0x1a").unwrap();
    for i in 0..31 {
        assert_eq!(w.byte_at(i), 0);
    }
    assert_eq!(w.byte_at(31), 0x1a);
    let w = decode_quantity_word("0xde0b6b3a7640000").unwrap();
    assert_eq!(w.byte_at(24), 0x0d);
    assert_eq!(w.byte_at(25), 0xe0);
    assert_eq!(w.byte_at(31), 0x00);
    assert!(decode_quantity_word("0x").is_none());
    assert!(decode_quantity_word(
        "0x10000000000000000000000000000000000000000000000000000000000000000"
    )
    .is_none());
}

#[test]
fn address_strings_validate() {
    let a = validate_ethereum_address("0xaaaaaaaaaaaaaaaaaaaaaaaaaaaaaaaaaaaaaaaa").unwrap();
    for i in 0..20 {
        assert_eq!(a.byte_at(i), 0xaa);
    }
    assert!(validate_ethereum_address("0xaaaa").is_none());
    assert!(validate_ethereum_address("aaaaaaaaaaaaaaaaaaaaaaaaaaaaaaaaaaaaaaaaaa").is_none());
    assert!(
        validate_ethereum_address("0xzzaaaaaaaaaaaaaaaaaaaaaaaaaaaaaaaaaaaaaa").is_none()
    );
}

#[test]
fn word_strings_validate() {
    let w = validate_word("0x1111111111111111111111111111111111111111111111111111111111111111")
        .unwrap();
    for i in 0..32 {
        assert_eq!(w.byte_at(i), 0x11);
    }
    assert!(validate_word("0x1111").is_none());
}

#[test]
fn block_range_validation() {
    assert!(validate_block_range(5, 4).is_err());
    assert!(matches!(
        validate_block_range(5, 4),
        Err(PlanError::InvalidRange)
    ));
    assert!(matches!(
        validate_block_range(0, 10_000),
        Err(PlanError::RangeTooLarge)
    ));
    assert!(validate_block_range(0, 9_999).is_ok());
    assert!(validate_block_range(7, 7).is_ok());
}

#[test]
fn decimal_rendering() {
    assert_eq!(indexer::dec::u64_to_string(0), "0");
    assert_eq!(indexer::dec::u64_to_string(7), "7");
    assert_eq!(indexer::dec::u64_to_string(1089), "1089");
    assert_eq!(indexer::dec::u64_to_string(u64::MAX), "18446744073709551615");
}

#[test]
fn range_miss_describes_itself() {
    let m = indexer::RangeMiss::BeforeRange {
        t: 999_000,
        lo: 0,
        lo_ts: 1_000_000,
    };
    assert_eq!(
        m.describe(),
        "timestamp is before range: t=999000, lo=0 (ts=1000000)"
    );
    let m = indexer::RangeMiss::AfterRange {
        t: 1_100_000,
        hi: 200,
        hi_ts: 1_002_400,
    };
    assert_eq!(
        m.describe(),
        "timestamp is after range: t=1100000, hi=200 (ts=1002400)"
    );
}

#[test]
fn lower_bound_estimate() {
    assert_eq!(estimate_lower_bound(0), 1);
    assert_eq!(estimate_lower_bound(1_438_269_973), 1);
    assert_eq!(estimate_lower_bound(1_438_269_973 + 120), 10);
}
