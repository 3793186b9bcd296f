//! Adapters to the outside world: Kratos, HTTP, and the wiring of the use cases.
pub mod adapters;
pub mod di;
