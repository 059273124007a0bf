//! Record-creation pipeline for a small gallery of named records.
//!
//! The library covers the parts of record creation where the design risk
//! lives: deriving a URL-safe slug from free text, allocating a unique slug
//! against a store with a bounded collision-retry loop, computing the signed
//! upload credential for the external asset host, and sequencing
//! materialize / upload / cleanup / insert so that temporary artifacts are
//! always released and no partial record is ever persisted.
//!
//! All I/O (the HTTP transport, the record store, the filesystem) is driven
//! from outside: the pipeline here is a state machine that tells the caller
//! which effect to perform next and consumes the outcome of each effect.

pub mod config;
pub mod forms;
pub mod hex;
pub mod hexcolor;
pub mod models;
pub mod pipeline;
pub mod signer;
pub mod slug;
pub mod slugalloc;
pub mod sortkey;
pub mod text;
