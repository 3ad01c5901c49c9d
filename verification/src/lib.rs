//! A resilient HTTP request engine: a builder freezes a mutable
//! configuration into an immutable client with a pinned TLS profile, a
//! retry classifier turns request outcomes into stop-or-retry decisions
//! with linear backoff, a time-ordered cookie store records the cookies
//! a server asked to set, and a marshalling layer defines the payload a
//! caller gets back.

pub mod builder;
pub mod method;
pub mod request;
pub mod response;
pub mod retry;
pub mod time_jar;
pub mod trust;
