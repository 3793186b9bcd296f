//! The wiring of the use cases to the adapters.
pub mod adapter_factory;
pub mod container;
pub mod factory;
