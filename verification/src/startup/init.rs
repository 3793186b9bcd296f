//! Checking the configuration and deriving the container's configuration from it.
use vstd::prelude::*;
use crate::infrastructure::adapters::kratos::client::KratosClientConfig;
use crate::infrastructure::di::container::{ContainerConfig, RedisCacheConfig};
use crate::startup::config::Config;

verus! {

/// Why a configuration cannot be run with, if it cannot: the Kratos public URL and
/// the Redis URL must not be empty.
pub open spec fn config_problem(config: Config) -> Option<Seq<char>> {
    if config.kratos.public_url@.len() == 0 {
        Some("Kratos public URL cannot be empty"@)
    } else if config.redis.url@.len() == 0 {
        Some("Redis URL cannot be empty"@)
    } else {
        None
    }
}

/// Checks that the configuration can be run with.
pub fn validate_config(config: &Config) -> (r: Result<(), String>)
    ensures
        r is Ok <==> config_problem(*config) is None,
        r matches Err(m) ==> config_problem(*config) == Some(m@),
{
    if config.kratos.public_url.as_str().is_empty() {
        return Err(String::from_str("Kratos public URL cannot be empty"));
    }
    if config.redis.url.as_str().is_empty() {
        return Err(String::from_str("Redis URL cannot be empty"));
    }
    Ok(())
}

/// The container's configuration: the Kratos and Redis settings, copied.
pub fn container_config(config: &Config) -> (r: ContainerConfig)
    ensures
        r.kratos.admin_url@ == config.kratos.admin_url@,
        r.kratos.public_url@ == config.kratos.public_url@,
        r.kratos.timeout_secs == config.kratos.timeout_secs,
        r.kratos.connect_timeout_secs == config.kratos.connect_timeout_secs,
        r.kratos.pool_idle_timeout_secs == config.kratos.pool_idle_timeout_secs,
        r.kratos.pool_max_idle_per_host == config.kratos.pool_max_idle_per_host,
        r.kratos.max_retries == config.kratos.max_retries,
        r.kratos.retry_delay_ms == config.kratos.retry_delay_ms,
        r.kratos.accept_invalid_certs == config.kratos.accept_invalid_certs,
        r.redis.url@ == config.redis.url@,
        r.redis.max_retries == config.redis.max_retries,
        r.redis.retry_delay_ms == config.redis.retry_delay_ms,
        r.redis.cache_ttl_secs == config.redis.cache_ttl_secs,
{
    ContainerConfig {
        kratos: KratosClientConfig {
            admin_url: config.kratos.admin_url.clone(),
            public_url: config.kratos.public_url.clone(),
            timeout_secs: config.kratos.timeout_secs,
            connect_timeout_secs: config.kratos.connect_timeout_secs,
            pool_idle_timeout_secs: config.kratos.pool_idle_timeout_secs,
            pool_max_idle_per_host: config.kratos.pool_max_idle_per_host,
            max_retries: config.kratos.max_retries,
            retry_delay_ms: config.kratos.retry_delay_ms,
            accept_invalid_certs: config.kratos.accept_invalid_certs,
        },
        redis: RedisCacheConfig {
            url: config.redis.url.clone(),
            max_retries: config.redis.max_retries,
            retry_delay_ms: config.redis.retry_delay_ms,
            cache_ttl_secs: config.redis.cache_ttl_secs,
        },
    }
}

} // verus!
