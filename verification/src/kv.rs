//! A small key-value store: the request/response domain types, the storage
//! abstraction with its in-memory implementation, and the request handler
//! that dispatches on a request.  A server front end can feed requests to
//! `request_handler::handle` from whatever transport it owns.

pub mod domain;
pub mod error;
pub mod memory;
pub mod request_handler;
pub mod storage;
