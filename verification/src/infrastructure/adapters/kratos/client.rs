//! Where the Kratos service is and how it is called.
use vstd::prelude::*;

verus! {

/// How to reach Kratos.
pub struct KratosClientConfig {
    pub admin_url: String,
    pub public_url: String,
    pub timeout_secs: u64,
    pub connect_timeout_secs: u64,
    pub pool_idle_timeout_secs: u64,
    pub pool_max_idle_per_host: usize,
    pub max_retries: u32,
    pub retry_delay_ms: u64,
    pub accept_invalid_certs: bool,
}

/// The addresses of a Kratos service and how often a call to it is retried.
pub struct KratosClient {
    pub public_url: String,
    pub admin_url: String,
    pub max_retries: u32,
    pub retry_delay_ms: u64,
}

impl KratosClient {
    pub fn new(config: &KratosClientConfig) -> (r: KratosClient)
        ensures
            r.public_url@ == config.public_url@,
            r.admin_url@ == config.admin_url@,
            r.max_retries == config.max_retries,
            r.retry_delay_ms == config.retry_delay_ms,
    {
        KratosClient {
            public_url: config.public_url.clone(),
            admin_url: config.admin_url.clone(),
            max_retries: config.max_retries,
            retry_delay_ms: config.retry_delay_ms,
        }
    }
}

} // verus!
