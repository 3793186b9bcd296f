//! The use cases, wired to the adapters.
use std::sync::Arc;
use vstd::prelude::*;
use crate::application::commands::auth::login::LoginCommandHandler;
use crate::application::commands::auth::logout::LogoutCommandHandler;
use crate::application::commands::identity::register::RegisterCommandHandler;
use crate::infrastructure::adapters::kratos::client::{KratosClient, KratosClientConfig};
use crate::infrastructure::adapters::kratos::http::verification::KratosVerificationAdapter;
use crate::infrastructure::di::adapter_factory::AdapterFactory;
use crate::infrastructure::di::factory::KratosAdapterFactory;
use crate::shared::share;

verus! {

/// Where the identity cache is and how it is used.
pub struct RedisCacheConfig {
    pub url: String,
    pub max_retries: u32,
    pub retry_delay_ms: u64,
    pub cache_ttl_secs: u64,
}

/// What the container is built from.
pub struct ContainerConfig {
    pub kratos: KratosClientConfig,
    pub redis: RedisCacheConfig,
}

/// The command handlers.
pub struct Commands {
    pub login: LoginCommandHandler,
    pub logout: LogoutCommandHandler,
    pub register: RegisterCommandHandler,
    pub verification: Arc<KratosVerificationAdapter>,
}

/// The use cases of the service.
pub struct UseCases {
    pub commands: Commands,
}

impl UseCases {
    /// Every use case, with an adapter from `factory`.
    pub fn new<F: AdapterFactory>(factory: &F) -> (r: UseCases)
        ensures
            r.commands.login.public_url() == factory.kratos_url(),
            r.commands.register.public_url() == factory.kratos_url(),
            r.commands.verification.public_url() == factory.kratos_url(),
    {
        UseCases {
            commands: Commands {
                login: LoginCommandHandler::new(factory.create_authentication_adapter()),
                logout: LogoutCommandHandler::new(),
                register: RegisterCommandHandler::new(factory.create_registration_adapter()),
                verification: factory.create_verification_adapter(),
            },
        }
    }
}

/// The use cases and the Kratos client they share.
pub struct AppContainer {
    pub use_cases: Arc<UseCases>,
    kratos: Arc<KratosClient>,
}

impl AppContainer {
    /// The container for a Kratos client that is ready, with identities cached
    /// for `cache_ttl_secs` seconds.
    pub fn assemble(kratos: Arc<KratosClient>, cache_ttl_secs: u64) -> (r: AppContainer)
        ensures
            r.kratos() == *kratos,
            r.cases().commands.login.public_url() == kratos.public_url@,
            r.cases().commands.register.public_url() == kratos.public_url@,
            r.cases().commands.verification.public_url() == kratos.public_url@,
    {
        let factory = KratosAdapterFactory::from_client(share(&kratos), cache_ttl_secs);
        AppContainer { use_cases: Arc::new(UseCases::new(&factory)), kratos }
    }

    pub closed spec fn kratos(&self) -> KratosClient {
        *self.kratos
    }

    /// The use cases the container holds.
    pub closed spec fn cases(&self) -> UseCases {
        *self.use_cases
    }

    pub fn use_cases(&self) -> (r: Arc<UseCases>)
        ensures
            *r == self.cases(),
    {
        share(&self.use_cases)
    }

    pub fn kratos_client(&self) -> (r: Arc<KratosClient>)
        ensures
            *r == self.kratos(),
    {
        share(&self.kratos)
    }
}

/// Why the container could not be built.
pub enum ContainerError {
    InvalidConfig(String),
    Initialization(String),
    FactoryCreation(String),
}

impl ContainerError {
    /// How the error reads.
    pub fn message(&self) -> (r: String)
        ensures
            r@ == match self {
                ContainerError::InvalidConfig(m) => "Invalid configuration: "@ + m@,
                ContainerError::Initialization(m) => "Initialization failed: "@ + m@,
                ContainerError::FactoryCreation(m) => "Factory creation failed: "@ + m@,
            },
    {
        let (prefix, m) = match self {
            ContainerError::InvalidConfig(m) => ("Invalid configuration: ", m),
            ContainerError::Initialization(m) => ("Initialization failed: ", m),
            ContainerError::FactoryCreation(m) => ("Factory creation failed: ", m),
        };
        let mut s = String::from_str(prefix);
        s.append(m.as_str());
        s
    }
}

} // verus!
