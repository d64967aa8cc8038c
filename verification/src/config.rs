//! The command-line front end's configuration shape.  Argument parsing
//! itself lives outside the library; this is the plain form it parses
//! into.

use vstd::prelude::*;

verus! {

/// Which RPC method a run exercises.
#[derive(Clone, Copy, Debug, PartialEq, Eq, Structural)]
pub enum Method {
    TraceFilter,
    GetBlockByNumber,
    GetTransactionByHash,
    GetTransactionReceipt,
    GetBalance,
}

/// A parsed command line.
pub struct Config {
    pub method: Method,
    pub rpcs: Vec<String>,
    pub target_address: Option<String>,
    pub hashes: Vec<String>,
    pub address: Option<String>,
    pub date: Option<String>,
    pub block_range_lo: Option<u64>,
    pub block_range_hi: Option<u64>,
    pub tag: Option<String>,
    pub numbers: Vec<u64>,
    pub from: Option<u64>,
    pub to: Option<u64>,
    pub chunk_size: u64,
    pub full: bool,
    pub parallel_requests_per_rpc: usize,
    pub erc20_transfers_for: Option<String>,
    pub erc20_token_transfers: Option<String>,
}

} // verus!
