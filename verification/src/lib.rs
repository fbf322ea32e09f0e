//! Transformation of internal pharmacy-benefit claim records into
//! standardized explanation-of-benefit resources, packaged as a paginated
//! bundle.
//!
//! The transformation engine is purely functional: it consumes a
//! materialized list of claim records and produces a structured bundle
//! value, failing fast on any domain-rule violation. All I/O (request
//! parsing, storage access, wire serialization) lives outside this crate.

pub mod types;
pub mod codebook;
pub mod structures;
pub mod claims;
pub mod code_systems;
pub mod resolvers;
pub mod mapper;
pub mod bundle;
pub mod request;
pub mod laws;
