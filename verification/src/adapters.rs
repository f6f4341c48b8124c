//! Sinks: the downstream consumers of observed chain events.

pub mod adapter;
pub mod postgres;

pub use adapter::Adapter;
pub use postgres::PostgresAdapter;
