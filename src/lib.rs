//! Health monitoring for a fleet of validator nodes: balance drift,
//! delinquency and block-production statistics, with the alert policies
//! that decide what an operator is told.
pub mod alert;
pub mod balance;
pub mod credits;
pub mod delinquency;
pub mod epoch;
pub mod node;
pub mod schedule;
mod settings;
pub mod stats;
pub mod text;

pub use settings::{NodeCheckSettings, Settings, Telegram, Timeouts, Validator};
