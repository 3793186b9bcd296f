//! The values that a configuration file may leave out.
use vstd::prelude::*;

verus! {

pub fn cache_ttl() -> (r: u64)
    ensures
        r == 300,
{
    300
}

pub fn redis_max_retries() -> (r: u32)
    ensures
        r == 5,
{
    5
}

pub fn redis_retry_delay() -> (r: u64)
    ensures
        r == 2000,
{
    2000
}

pub fn timeout() -> (r: u64)
    ensures
        r == 120,
{
    120
}

pub fn connect_timeout() -> (r: u64)
    ensures
        r == 30,
{
    30
}

pub fn pool_idle_timeout() -> (r: u64)
    ensures
        r == 120,
{
    120
}

pub fn pool_max_idle() -> (r: usize)
    ensures
        r == 10,
{
    10
}

pub fn max_retries() -> (r: u32)
    ensures
        r == 3,
{
    3
}

pub fn retry_delay() -> (r: u64)
    ensures
        r == 1000,
{
    1000
}

pub fn accept_invalid_certs() -> (r: bool)
    ensures
        !r,
{
    false
}

pub fn log_level() -> (r: String)
    ensures
        r@ == "info"@,
{
    String::from_str("info")
}

pub fn cors_max_age() -> (r: usize)
    ensures
        r == 3600,
{
    3600
}

pub fn cors_allowed_origins() -> (r: Vec<String>)
    ensures
        r.deep_view() == seq!["http://localhost:3000"@],
{
    let mut v: Vec<String> = Vec::new();
    v.push(String::from_str("http://localhost:3000"));
    assert(v.deep_view() =~= seq!["http://localhost:3000"@]);
    v
}

} // verus!
