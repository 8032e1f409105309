//! A harness for calibrating the execution cost of the host functions that a
//! sandboxed contract machine exposes.
//!
//! The crate assembles minimal WebAssembly modules whose entry points repeat
//! one host call a chosen number of times, and drives the life of a contract
//! (funding, deployment, instantiation, storage, rent, eviction) as a
//! sequence of requests that the embedding runtime performs.

pub mod catalog;
pub mod code;
pub mod config;
pub mod eviction;
pub mod hashing;
pub mod host;
pub mod instructions;
pub mod lifecycle;
pub mod model;
pub mod module;
pub mod nesting;
pub mod storage;
pub mod tombstone;
pub mod wasm;
