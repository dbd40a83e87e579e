//! The error taxonomy of the transfer engine.
//!
//! Every failure resolves to an [`AppError`]: a stable category plus a
//! human-readable, secret-free message. Categories distinguish permanent
//! configuration failures (an unsupported combination) from transient
//! runtime failures (a dropped stream), so a caller can decide whether a
//! retry makes sense.

use vstd::prelude::*;

verus! {

/// The category of a transfer failure.
#[derive(Clone, Copy, Debug, PartialEq, Eq, Structural)]
pub enum ErrorKind {
    /// No implementation is registered for the requested
    /// (source kind, destination kind) pair.
    UnsupportedCombination,
    /// The source endpoint could not be reached, the object is missing, or
    /// the download was rejected before any chunk was produced.
    SourceUnavailable,
    /// The source connection dropped mid-stream after some chunks were
    /// already delivered.
    StreamReadFailure,
    /// The destination endpoint could not be reached.
    DestinationUnavailable,
    /// A write to the destination failed mid-stream.
    StreamWriteFailure,
    /// Credentials were rejected by an endpoint.
    AuthenticationFailure,
    /// The capability is acknowledged but not yet built; distinct from a
    /// genuine runtime failure.
    NotImplemented,
    /// The caller's request context was cancelled mid-transfer; a cancelled
    /// transfer never resolves to success.
    Cancelled,
}

/// A typed transfer failure: a category plus a descriptive message.
#[derive(Debug)]
pub struct AppError {
    pub kind: ErrorKind,
    pub details: String,
}

impl AppError {
    /// Builds an error of the given category carrying the given message.
    pub fn new(msg: &str, kind: ErrorKind) -> (e: AppError)
        ensures
            e.kind == kind,
            e.details@ == msg@,
    {
        AppError { kind, details: msg.to_owned() }
    }

    /// The failure category.
    pub fn kind(&self) -> (k: ErrorKind)
        ensures
            k == self.kind,
    {
        self.kind
    }
}

} // verus!
