//! Request validation helpers shared by the front ends: address and hash
//! strings, block-range sanity, block-number text in decimal or hex, and
//! the rough lower-bound estimate for timestamp searches.

use vstd::prelude::*;

use vstd::string::StringSliceAdditionalSpecFns;

use crate::bytes::Address;
use crate::bytes::Word32;
use crate::dec::dec_num;
use crate::dec::decode_decimal;
use crate::dec::is_u64_decimal;
use crate::error::PlanError;
use crate::hex::decode_hex_bytes;
use crate::hex::decode_quantity;
use crate::hex::hex_bytes_of;
use crate::hex::hex_num;
use crate::hex::is_hex_bytes;
use crate::hex::is_u64_quantity;

verus! {

/// Whether `s` is a well-formed address string: `0x` and forty hex
/// digits.
pub open spec fn is_address_str(s: Seq<u8>) -> bool {
    s.len() == 42 && is_hex_bytes(s)
}

/// Parse a `0x`-prefixed, forty-digit hex string into an address.
pub fn validate_ethereum_address(address: &str) -> (r: Option<Address>)
    ensures
        r is Some <==> is_address_str(address.spec_bytes()),
        r matches Some(a) ==> a.wf() && a@ == hex_bytes_of(address.spec_bytes()),
{
    if address.len() != 42 {
        return None;
    }
    match decode_hex_bytes(address) {
        Some(bytes) => {
            let a = Address::from_bytes(bytes);
            a
        },
        None => None,
    }
}

/// Whether `s` is a well-formed 32-byte word string: `0x` and sixty-four
/// hex digits.
pub open spec fn is_word_str(s: Seq<u8>) -> bool {
    s.len() == 66 && is_hex_bytes(s)
}

/// Parse a `0x`-prefixed, sixty-four-digit hex string into a 32-byte
/// word (a transaction hash or topic).
pub fn validate_word(s: &str) -> (r: Option<Word32>)
    ensures
        r is Some <==> is_word_str(s.spec_bytes()),
        r matches Some(w) ==> w.wf() && w@ == hex_bytes_of(s.spec_bytes()),
{
    if s.len() != 66 {
        return None;
    }
    match decode_hex_bytes(s) {
        Some(bytes) => Word32::from_bytes(bytes),
        None => None,
    }
}

/// The block-span cap the HTTP log handlers enforce.
pub const MAX_HANDLER_SPAN: u64 = 10000;

/// Check a requested block range: not inverted, and spanning at most
/// [`MAX_HANDLER_SPAN`] blocks.
pub fn validate_block_range(from_block: u64, to_block: u64) -> (r: Result<(), PlanError>)
    ensures
        r matches Err(PlanError::InvalidRange) <==> to_block < from_block,
        r matches Err(PlanError::RangeTooLarge) <==> (from_block <= to_block && to_block
            - from_block + 1 > MAX_HANDLER_SPAN),
        r is Ok <==> (from_block <= to_block && to_block - from_block + 1 <= MAX_HANDLER_SPAN),
    {
    if to_block < from_block {
        return Err(PlanError::InvalidRange);
    }
    if to_block - from_block > MAX_HANDLER_SPAN - 1 {
        return Err(PlanError::RangeTooLarge);
    }
    Ok(())
}

/// Parse block-number text: plain decimal first, then `0x` hex.
pub fn parse_numeric_block(s: &str) -> (r: Option<u64>)
    ensures
        r is Some <==> (is_u64_decimal(s.spec_bytes()) || is_u64_quantity(s.spec_bytes())),
        is_u64_decimal(s.spec_bytes()) ==> r == Some(dec_num(s.spec_bytes()) as u64),
        !is_u64_decimal(s.spec_bytes()) && is_u64_quantity(s.spec_bytes()) ==> r == Some(
            hex_num(s.spec_bytes().subrange(2, s.spec_bytes().len() as int)) as u64,
        ),
{
    match decode_decimal(s) {
        Some(v) => Some(v),
        None => decode_quantity(s),
    }
}

/// The timestamp of the first mainnet block, used only for the rough
/// search-bound estimate below.
pub const GENESIS_TIMESTAMP: u64 = 1438269973;

/// A rough lower search bound for a timestamp: twelve seconds per block
/// since the genesis timestamp, never below block one.
pub fn estimate_lower_bound(timestamp: u64) -> (r: u64)
    ensures
        timestamp <= GENESIS_TIMESTAMP ==> r == 1,
        timestamp > GENESIS_TIMESTAMP ==> r == (if (timestamp - GENESIS_TIMESTAMP) / 12 >= 1 {
            ((timestamp - GENESIS_TIMESTAMP) / 12) as u64
        } else {
            1u64
        }),
{
    if timestamp <= GENESIS_TIMESTAMP {
        1
    } else {
        let blocks = (timestamp - GENESIS_TIMESTAMP) / 12;
        if blocks >= 1 {
            blocks
        } else {
            1
        }
    }
}

} // verus!
