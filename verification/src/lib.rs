//! Client-side aggregation engine for Ethereum-style JSON-RPC endpoints.
//!
//! The crate plans batches of primitive RPC calls from typed queries,
//! spreads them over a pool of upstream endpoints, and re-orders the
//! results into ascending block order.  Everything here is pure logic:
//! planners, builders, the chunker, the re-ordering stage, the round-robin
//! pool bookkeeping, the block-time search and the balance-at-timestamp
//! policies are all verified.  The transport (HTTP, JSON wire encoding,
//! task scheduling) lives outside the library and talks to it through
//! plain values.

pub mod balance;
pub mod block_by_number;
pub mod block_time;
pub mod bytes;
pub mod config;
pub mod date;
pub mod dec;
pub mod engine;
pub mod erc20;
pub mod error;
pub mod eth_call;
pub mod get_balance;
pub mod get_logs;
pub mod hex;
pub mod order;
pub mod pool;
pub mod range;
pub mod trace_filter;
pub mod tx_by_hash;
pub mod tx_receipt;
pub mod types;
pub mod validate;
pub mod work;

pub use balance::OnMiss;
pub use block_by_number::BlockByNumberBuilder;
pub use block_by_number::BlockByNumberPlan;
pub use block_time::BlockTimeSearch;
pub use block_time::RangeMiss;
pub use block_time::SimpleBlockTimeSearch;
pub use bytes::Address;
pub use bytes::Word32;
pub use config::Config;
pub use config::Method;
pub use engine::EngineBuilder;
pub use engine::EngineConfig;
pub use erc20::Erc20TokenTransfersBuilder;
pub use erc20::Erc20WalletTransfersBuilder;
pub use error::PlanError;
pub use get_balance::GetBalanceBuilder;
pub use get_balance::GetBalancePlan;
pub use get_logs::GetLogsBuilder;
pub use get_logs::GetLogsPlan;
pub use order::RangeOrderer;
pub use pool::PoolState;
pub use pool::RpcStats;
pub use range::chunk_range;
pub use range::OrderingKey;
pub use range::Range;
pub use trace_filter::TraceFilterBuilder;
pub use trace_filter::TraceFilterPlan;
pub use tx_by_hash::TxByHashBuilder;
pub use tx_by_hash::TxByHashPlan;
pub use tx_receipt::TxReceiptBuilder;
pub use tx_receipt::TxReceiptPlan;
pub use work::BlockRef;
pub use work::Params;
pub use work::Topic;
pub use work::TraceMode;
pub use work::WorkItem;
