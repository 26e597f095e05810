//! A minimal fluent builder for issuing HTTP requests and extracting typed
//! results from responses.
//!
//! The crate is split in five small modules: [`errors`] holds the failure
//! kinds every operation reports; [`headers`] validates header names and
//! values the way the `http` crate does; [`client`] wraps the shared `hyper`
//! transport handle; [`request`] accumulates a request descriptor and
//! finalizes it with the identifying `User-Agent` header; [`response`] models
//! a response whose body is drained at most once into one contiguous buffer.
//!
//! Dispatching a finalized request and draining a live `hyper` body are
//! asynchronous and live outside this crate; everything that decides or
//! computes — validation, header accumulation, finalization, chunk
//! concatenation, outcome classification — is here, with contracts.

pub mod client;
pub mod errors;
pub mod headers;
pub mod request;
pub mod response;
