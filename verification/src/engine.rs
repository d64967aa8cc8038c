//! Engine construction: a validated configuration for the indexer.  The
//! transport outside the library turns the configuration into live RPC
//! clients; everything the configuration decides is checked here.

use vstd::prelude::*;

verus! {

/// Why an engine configuration was refused.
#[derive(Clone, Copy, Debug, PartialEq, Eq, Structural)]
pub enum ConfigError {
    /// No endpoint URL was given.
    NoEndpoints,
    /// The per-endpoint parallelism is zero.
    ZeroParallelism,
}

/// A validated engine configuration: the endpoint URLs, the per-endpoint
/// parallelism, and the optional retry policy for the transport
/// (`(max_retries, base_backoff_ms, jitter_ms)`).
pub struct EngineConfig {
    pub urls: Vec<String>,
    pub per_rpc_parallel: usize,
    pub retry: Option<(u32, u64, u64)>,
}

impl EngineConfig {
    pub open spec fn wf(self) -> bool {
        &&& self.urls@.len() >= 1
        &&& self.per_rpc_parallel >= 1
    }

    /// The dispatcher's global in-flight bound: endpoints times
    /// per-endpoint permits.
    pub fn global_parallel(&self) -> (r: usize)
        requires
            self.urls@.len() * self.per_rpc_parallel <= usize::MAX,
        ensures
            r == self.urls@.len() * self.per_rpc_parallel,
    {
        self.urls.len() * self.per_rpc_parallel
    }
}

/// Fluent construction of an [`EngineConfig`].
pub struct EngineBuilder {
    pub urls: Vec<String>,
    pub per_rpc_parallel: usize,
    pub retry: Option<(u32, u64, u64)>,
}

impl EngineBuilder {
    /// An empty builder with the default parallelism and no retry policy.
    pub fn new() -> (r: EngineBuilder)
        ensures
            r.urls@.len() == 0,
            r.per_rpc_parallel == 5,
            r.retry is None,
    {
        EngineBuilder { urls: Vec::new(), per_rpc_parallel: 5, retry: None }
    }

    /// Replace the endpoint URL list.
    pub fn rpc_urls(self, urls: Vec<String>) -> (r: EngineBuilder)
        ensures
            r == (EngineBuilder { urls, ..self }),
    {
        EngineBuilder { urls, ..self }
    }

    /// Set the per-endpoint parallelism.
    pub fn parallel_per_rpc(self, n: usize) -> (r: EngineBuilder)
        ensures
            r == (EngineBuilder { per_rpc_parallel: n, ..self }),
    {
        EngineBuilder { per_rpc_parallel: n, ..self }
    }

    /// Set the transport retry policy.
    pub fn retry(self, max: u32, backoff_ms: u64, jitter_ms: u64) -> (r: EngineBuilder)
        ensures
            r == (EngineBuilder { retry: Some((max, backoff_ms, jitter_ms)), ..self }),
    {
        EngineBuilder { retry: Some((max, backoff_ms, jitter_ms)), ..self }
    }

    /// Validate into a configuration: at least one endpoint, parallelism
    /// at least one.
    pub fn build(self) -> (r: Result<EngineConfig, ConfigError>)
        ensures
            r matches Err(ConfigError::NoEndpoints) <==> self.urls@.len() == 0,
            r matches Err(ConfigError::ZeroParallelism) <==> (self.urls@.len() >= 1
                && self.per_rpc_parallel == 0),
            r is Ok <==> (self.urls@.len() >= 1 && self.per_rpc_parallel >= 1),
            r matches Ok(c) ==> {
                &&& c.wf()
                &&& c.urls@ == self.urls@
                &&& c.per_rpc_parallel == self.per_rpc_parallel
                &&& c.retry == self.retry
            },
    {
        if self.urls.len() == 0 {
            return Err(ConfigError::NoEndpoints);
        }
        if self.per_rpc_parallel == 0 {
            return Err(ConfigError::ZeroParallelism);
        }
        Ok(EngineConfig {
            urls: self.urls,
            per_rpc_parallel: self.per_rpc_parallel,
            retry: self.retry,
        })
    }
}

} // verus!
