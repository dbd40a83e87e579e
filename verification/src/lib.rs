//! A pluggable streaming file-transfer engine.
//!
//! The engine moves a byte payload from one storage endpoint to another as an
//! ordered sequence of fallible chunks. A registry maps each
//! (source kind, destination kind) pair to the implementation that performs
//! the copy; requests for unregistered pairs fail fast with a typed error,
//! before any data movement is attempted.

pub mod errors;
pub mod models;
pub mod streaming;
pub mod capabilities;
pub mod registry;
pub mod ops;
pub mod pump;
