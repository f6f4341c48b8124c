//! The listener engine and the values that flow through it.

pub mod engine;
pub mod ethereum;
pub mod finality;
pub mod killswitch;
pub mod laws;
pub mod listener;
pub mod observation;
pub mod pacing;

pub use ethereum::EthereumListener;
pub use listener::{NoAdapter, SomeAdapter};
