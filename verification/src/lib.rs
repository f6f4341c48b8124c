//! A chain-tip listener core: configuration, block acquisition decisions,
//! shutdown handling and reorganisation-safe finality bookkeeping.

pub mod adapters;
pub mod decimal;
pub mod listeners;
pub mod settings;
