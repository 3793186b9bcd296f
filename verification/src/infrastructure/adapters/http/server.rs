//! The HTTP server's settings.
use vstd::prelude::*;
use crate::text::text_eq;

verus! {

/// How the HTTP server runs.
pub struct HttpServerConfig {
    pub host: String,
    pub port: u16,
    pub cors_max_age: usize,
    pub cors_allowed_origins: Vec<String>,
    pub max_connections: usize,
    pub max_concurrent_requests: usize,
    pub worker_threads: usize,
}

/// Which origins may call the API with credentials.
pub enum CorsOrigins {
    /// Any origin: the list names `*`.
    Any,
    /// Exactly the listed origins.
    Listed(Vec<String>),
}

/// The origins policy for a configured list: `*` anywhere in it opens the API to
/// any origin; otherwise exactly the listed origins are allowed.
pub fn cors_origins(allowed: &Vec<String>) -> (r: CorsOrigins)
    ensures
        r is Any <==> allowed.deep_view().contains("*"@),
        r matches CorsOrigins::Listed(list) ==> list.deep_view() == allowed.deep_view(),
{
    let ghost all = allowed.deep_view();
    let mut i: usize = 0;
    while i < allowed.len()
        invariant
            all == allowed.deep_view(),
            i <= allowed@.len(),
            forall|k: int| 0 <= k < i ==> all[k] != "*"@,
        decreases allowed@.len() - i,
    {
        assert(all[i as int] == allowed@[i as int]@);
        if text_eq(allowed[i].as_str(), "*") {
            return CorsOrigins::Any;
        }
        i = i + 1;
    }
    let mut list: Vec<String> = Vec::new();
    let mut j: usize = 0;
    while j < allowed.len()
        invariant
            all == allowed.deep_view(),
            !all.contains("*"@),
            j <= allowed@.len(),
            list@.len() == j,
            forall|k: int| 0 <= k < j ==> #[trigger] list@[k]@ == all[k],
        decreases allowed@.len() - j,
    {
        list.push(allowed[j].clone());
        j = j + 1;
    }
    assert(list.deep_view() =~= all);
    CorsOrigins::Listed(list)
}

} // verus!
