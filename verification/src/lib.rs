//! Bounded-concurrency queue-to-webhook dispatcher core.
//!
//! The crate verifies the decision logic of a consumer that drains a durable
//! work queue, turns each message into a signed HTTP callback, and
//! acknowledges or requeues the message according to the delivery outcome:
//! payload signing, the reconciliation policy, the concurrency-limited
//! consumer loop, and the supervisor's restart policy.

pub mod config;
pub mod connection;
pub mod consumer;
pub mod dispatcher;
pub mod models;
pub mod signature;
pub mod supervisor;
