//! An in-process, unbounded, multi-producer/single-consumer channel: a
//! thread-safe FIFO hand-off queue with blocking receive, reference-counted
//! sender/receiver lifecycle and a consumer-side batching cache; beside it,
//! a small key-value store: domain types, a storage abstraction with an
//! in-memory implementation, and a request handler.

pub mod channel;
pub mod kv;
pub mod model;
mod sync;
