//! Plain request and response shapes of the HTTP front end.  They carry
//! only plain values; the front end itself (routing, JSON) lives outside
//! the library and converts to and from these.

use vstd::prelude::*;

verus! {

/// Health-check reply.
pub struct PingResponse {
    pub message: String,
}

/// Query options of a trace-filter request.
pub struct TraceFilterQuery {
    pub startblock: Option<u64>,
    pub endblock: Option<u64>,
}

/// Query options of a block-by-number request.
pub struct BlockByNumberQuery {
    pub from: Option<u64>,
    pub to: Option<u64>,
    pub full: Option<bool>,
}

/// Query options of a balance-at-date request.
pub struct BalanceQuery {
    pub block_range_lo: Option<u64>,
    pub block_range_hi: Option<u64>,
    pub on_miss: Option<String>,
}

/// Reply of a balance-at-date request.
pub struct BalanceResponse {
    pub address: String,
    pub date: String,
    pub timestamp: u64,
    pub block_number: Option<u64>,
    pub block_timestamp: Option<u64>,
    pub balance_wei: String,
    pub balance_eth: String,
}

/// Reply of a token balance-at-date request.
pub struct Erc20BalanceResponse {
    pub token_address: String,
    pub owner_address: String,
    pub date: String,
    pub timestamp: u64,
    pub block_number: Option<u64>,
    pub block_timestamp: Option<u64>,
    pub balance: String,
}

/// Query options of a general log request.
pub struct GetLogsQuery {
    pub from: Option<u64>,
    pub to: Option<u64>,
    pub addresses: Vec<String>,
    pub topics: Vec<String>,
    pub chunk_size: Option<u64>,
}

/// Query options of a wallet transfer-log request.
pub struct Erc20WalletQuery {
    pub from: Option<u64>,
    pub to: Option<u64>,
    pub tokens: Vec<String>,
    pub chunk_size: Option<u64>,
}

/// Query options of a token transfer-log request.
pub struct Erc20TokenQuery {
    pub from: Option<u64>,
    pub to: Option<u64>,
    pub chunk_size: Option<u64>,
}

/// Reply describing the configured upstream endpoints.
pub struct RpcInfoResponse {
    pub rpc_urls: Vec<String>,
    pub parallel_per_rpc: usize,
}

} // verus!
