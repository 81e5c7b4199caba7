//! An event-stream processing engine for ordered transaction logs: a handler
//! registry keyed by emitter address and event name, and the dispatch and
//! retry decisions of the transaction and event processors.
pub mod models;
pub mod registry;
pub mod error;
pub mod processor;
pub mod gateway;
