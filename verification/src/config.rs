//! Settings of the benchmark service.

use vstd::prelude::*;

verus! {

/// Settings of the benchmark service, as a node's configuration holds them.
#[derive(Clone, Copy, Debug, PartialEq, Eq)]
pub struct BenchmarkConfig {
    pub enable_benchmark_service: bool,
    /// Most network messages that may wait to be handled.
    pub max_network_channel_size: u64,
    /// Kernel threads of the service's runtime; `None` means one per core.
    pub benchmark_service_threads: Option<usize>,
    /// Whether the direct-send test mode is on.
    pub enable_direct_send_testing: bool,
    /// Bytes of payload in each request.
    pub direct_send_data_size: u64,
    /// Interval between requests, in microseconds.
    pub direct_send_per_second: u64,
}

/// The configuration a node starts with when it states none.
pub open spec fn default_benchmark_config() -> BenchmarkConfig {
    BenchmarkConfig {
        enable_benchmark_service: false,
        max_network_channel_size: 1000,
        benchmark_service_threads: None,
        enable_direct_send_testing: true,
        direct_send_data_size: 102_400,
        direct_send_per_second: 1_000,
    }
}

impl Default for BenchmarkConfig {
    fn default() -> (config: Self)
        ensures
            config == default_benchmark_config(),
    {
        BenchmarkConfig {
            enable_benchmark_service: false,
            max_network_channel_size: 1000,
            benchmark_service_threads: None,
            enable_direct_send_testing: true,
            direct_send_data_size: 100 * 1024,  // 100 KB
            direct_send_per_second: 1_000,
        }
    }
}

} // verus!
