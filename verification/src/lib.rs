//! Client-side logic for a federated industrial service mesh: the naming
//! grammar of the telemetry namespace, service discovery, bearer-token caching
//! and the request pipeline that ties them together.
//!
//! Nothing here performs I/O. Each operation that needs the network is split
//! into a decision (what to send next) and an interpretation (what a reply
//! means); a driver outside this crate carries the bytes.

pub mod error;
pub mod service;
pub mod sparkplug;
pub mod text;
pub mod uuids;

