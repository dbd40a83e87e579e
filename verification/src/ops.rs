//! Per-endpoint capabilities outside the data path.
//!
//! A status check is a lightweight, independent probe — "is this endpoint
//! currently reachable/usable" — that neither consumes nor requires a byte
//! stream. No endpoint kind has a real probe built yet, so every check here
//! answers with a clear `NotImplemented` failure rather than fabricating a
//! positive availability result. The same holds for the blob-store download
//! capability, which is acknowledged but not yet built.

use vstd::prelude::*;
use crate::errors::{AppError, ErrorKind};
use crate::models::{AwsS3, AzureBlob, Sftp};
use crate::streaming::ByteStream;

verus! {

/// The answer of a status probe: whether the endpoint is available.
#[derive(Debug, PartialEq, Eq, Clone, Copy, Structural)]
pub struct Status {
    pub available: bool,
}

impl AzureBlob {
    /// The blob-store download capability is not built yet: the call
    /// acknowledges the request with `NotImplemented` instead of guessing
    /// at blob-store semantics.
    pub fn download(&self) -> (r: Result<ByteStream, AppError>)
        ensures
            r matches Err(e) && e.kind == ErrorKind::NotImplemented
                && e.details@ == "Download from a blob-store endpoint is not implemented"@,
    {
        Err(AppError::new(
            "Download from a blob-store endpoint is not implemented",
            ErrorKind::NotImplemented,
        ))
    }

    /// No status probe is built for blob-store endpoints: answers
    /// `NotImplemented`, never a fabricated availability.
    pub fn status(&self) -> (r: Result<Status, AppError>)
        ensures
            r matches Err(e) && e.kind == ErrorKind::NotImplemented
                && e.details@ == "Status check for a blob-store endpoint is not implemented"@,
    {
        Err(AppError::new(
            "Status check for a blob-store endpoint is not implemented",
            ErrorKind::NotImplemented,
        ))
    }
}

impl AwsS3 {
    /// No status probe is built for object-store endpoints: answers
    /// `NotImplemented`, never a fabricated availability.
    pub fn status(&self) -> (r: Result<Status, AppError>)
        ensures
            r matches Err(e) && e.kind == ErrorKind::NotImplemented
                && e.details@ == "Status check for an object-store endpoint is not implemented"@,
    {
        Err(AppError::new(
            "Status check for an object-store endpoint is not implemented",
            ErrorKind::NotImplemented,
        ))
    }
}

impl Sftp {
    /// No status probe is built for SFTP endpoints: answers
    /// `NotImplemented`, never a fabricated availability.
    pub fn status(&self) -> (r: Result<Status, AppError>)
        ensures
            r matches Err(e) && e.kind == ErrorKind::NotImplemented
                && e.details@ == "Status check for an SFTP endpoint is not implemented"@,
    {
        Err(AppError::new(
            "Status check for an SFTP endpoint is not implemented",
            ErrorKind::NotImplemented,
        ))
    }
}

} // verus!
