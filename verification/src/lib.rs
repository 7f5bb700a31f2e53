//! Sarcastic-case text transformation: a strategy decides, position by
//! position, which characters of a lower-cased text are raised to upper case.

pub mod blacklist;
pub mod casing;
pub mod chance;
pub mod laws;
pub mod mocker;
pub mod strategy;

pub use blacklist::Blacklist;
pub use chance::Probability;
pub use mocker::{Mocker, StrategyMocker};
pub use strategy::{ConfigurationError, MockingStrategy};
