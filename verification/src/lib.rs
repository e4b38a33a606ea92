//! Watches a hierarchically named data feed for temperature sources that
//! appear over time, binds each new source to a subscription and a pair of
//! derived alert outputs, and evaluates a sticky over-temperature threshold
//! rule on incoming readings.
//!
//! The broker itself (network transport, durable subscriptions, namespace
//! resolution) is an external collaborator; this crate holds the decision
//! core: which sources to register, which events change alert state, and
//! which publish operations to issue for each step.

pub mod actions;
pub mod binder;
mod clock;
pub mod discovery;
pub mod dispatch;
pub mod laws;
pub mod paths;
pub mod registry;
pub mod threshold;
pub mod value;
