//! Builds the Kratos adapters.
use std::sync::Arc;
use vstd::prelude::*;
use crate::infrastructure::adapters::kratos::client::KratosClient;
use crate::infrastructure::adapters::kratos::http::login::KratosAuthenticationAdapter;
use crate::infrastructure::adapters::kratos::http::register::KratosRegistrationAdapter;
use crate::infrastructure::adapters::kratos::http::verification::KratosVerificationAdapter;
use crate::infrastructure::di::adapter_factory::AdapterFactory;
use crate::shared::share;

verus! {

/// Builds adapters that all talk to one Kratos service.
pub struct KratosAdapterFactory {
    client: Arc<KratosClient>,
    cache_ttl_secs: u64,
}

impl KratosAdapterFactory {
    pub fn from_client(client: Arc<KratosClient>, cache_ttl_secs: u64) -> (r: KratosAdapterFactory)
        ensures
            r.public_url() == client.public_url@,
            r.client() == *client,
            r.cache_ttl_secs() == cache_ttl_secs,
    {
        KratosAdapterFactory { client, cache_ttl_secs }
    }

    pub closed spec fn client(&self) -> KratosClient {
        *self.client
    }

    /// The public URL of the Kratos service.
    pub closed spec fn public_url(&self) -> Seq<char> {
        self.client.public_url@
    }

    pub closed spec fn cache_ttl_secs(&self) -> u64 {
        self.cache_ttl_secs
    }

    /// How long a cached identity stays fresh, in seconds.
    pub fn cache_ttl(&self) -> (r: u64)
        ensures
            r == self.cache_ttl_secs(),
    {
        self.cache_ttl_secs
    }

    /// The shared client.
    pub fn client_handle(&self) -> (r: Arc<KratosClient>)
        ensures
            *r == self.client(),
    {
        share(&self.client)
    }
}

impl AdapterFactory for KratosAdapterFactory {
    open spec fn kratos_url(&self) -> Seq<char> {
        self.public_url()
    }

    fn create_registration_adapter(&self) -> (r: Arc<KratosRegistrationAdapter>)
        ensures
            r.public_url() == self.kratos_url(),
    {
        Arc::new(KratosRegistrationAdapter::new(share(&self.client)))
    }

    fn create_authentication_adapter(&self) -> (r: Arc<KratosAuthenticationAdapter>)
        ensures
            r.public_url() == self.kratos_url(),
    {
        Arc::new(KratosAuthenticationAdapter::new(share(&self.client)))
    }

    fn create_verification_adapter(&self) -> (r: Arc<KratosVerificationAdapter>)
        ensures
            r.public_url() == self.kratos_url(),
    {
        Arc::new(KratosVerificationAdapter::new(share(&self.client)))
    }
}

} // verus!
