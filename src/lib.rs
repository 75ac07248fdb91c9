//! A small web-service toolkit: the body served at the root route, the
//! service's error type and how each error becomes an HTTP reply, the
//! decisions of a graceful-shutdown coordinator, and the operations of a
//! benchmark that compares a copy-on-write string with an owned one.
pub mod cow_bench;
pub mod error;
pub mod handler;
pub mod shutdown;
pub mod stats;
