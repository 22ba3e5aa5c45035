//! Code generation for paired custom slice / owned wrapper types.
//!
//! Given a structured declaration of two single-field wrapper types — a
//! borrowed "slice" role and an "owned" role — plus an optional validator
//! function, this library synthesizes the constructors, accessors, and
//! standard trait implementations that make the pair interoperate, as a
//! single text fragment of Rust source. Host-syntax parsing and token-stream
//! emission are left to a thin unverified layer around the library.

pub mod attrs;
pub mod builder;
pub mod defs;
pub mod emit;
pub mod expr;
pub mod laws;
pub mod props;
pub mod template;
pub mod traits;
pub mod traits_owned;
pub mod traits_slice;
pub mod types;
