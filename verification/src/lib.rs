//! Decision engine and command protocol of a price-threshold trading client.
//!
//! The engine consumes market events one at a time and answers each with at
//! most one command. Prices and quantities are exact fixed-point decimals.

pub mod decimal;
pub mod market;
pub mod engine;
pub mod laws;
pub mod orders;
pub mod subscriptions;
pub mod wire;
