//! A configurable HTTP reverse-proxy gateway: ordered route matching over
//! four path-pattern dialects, a case-insensitive method gate, hop-by-hop
//! header hygiene with the `Host` rewrite, upstream URL construction, and
//! the error taxonomy surfaced to clients. The transport around the
//! library performs the listening, reading and sending; every decision in
//! between is made here, under contract.

pub mod config;
pub mod error;
pub mod logging;
pub mod matcher;
pub mod pattern;
pub mod proxy;
pub mod routes;
pub mod rx;
pub mod strutil;
