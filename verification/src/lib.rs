//! The core of a caching reverse-fetch proxy.
//!
//! A request names a target URL. The proxy fetches it from its origin and
//! keeps every successful answer in an object store, under a key derived from
//! the URL. When the origin fails, a stored copy is served; when there is
//! none, the request is forwarded to a fallback URL.
//!
//! This crate holds the decisions only. It performs no I/O: the caller sends
//! the requests and talks to the store, and reports what came back.

pub mod address;
pub mod body;
pub mod failure;
pub mod handler;
pub mod key;
pub mod run;
pub mod session;
pub mod store;
