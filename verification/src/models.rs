//! Endpoint descriptors, request/response shapes and the registry key.
//!
//! An endpoint descriptor is a tagged value carrying the fields needed to
//! address and authenticate against one backend family. The tag alone — the
//! [`EndpointKind`] — drives dispatch; descriptor contents are never
//! inspected for routing.

use vstd::prelude::*;

verus! {

/// A blob-store endpoint: container, blob and connection string.
#[derive(Debug, PartialEq, Clone)]
pub struct AzureBlob {
    pub container: String,
    pub blob: String,
    pub connection_string: String,
}

/// An SFTP endpoint: host, port, username, private key material and the
/// remote path of the file.
#[derive(Debug, PartialEq, Clone)]
pub struct Sftp {
    pub host: String,
    pub port: u16,
    pub username: String,
    pub ssh_key: String,
    pub remote_path: String,
}

/// An HTTP API endpoint: URL, request body, optional bearer token and
/// optional header list.
#[derive(Debug, PartialEq, Clone)]
pub struct HttpApi {
    pub url: String,
    pub body: String,
    pub token: Option<String>,
    pub headers: Option<Vec<(String, String)>>,
}

/// An object-store endpoint: bucket, key and region.
#[derive(Debug, PartialEq, Clone)]
pub struct AwsS3 {
    pub bucket: String,
    pub key: String,
    pub region: String,
}

/// The closed set of backend families. Used purely as a dispatch tag; never
/// inferred from descriptor contents, always taken from the variant.
#[derive(Debug, Clone, Copy, PartialEq, Eq, Structural)]
pub enum EndpointKind {
    AwsS3,
    AzureBlob,
    Sftp,
    HttpApi,
}

impl EndpointKind {
    /// The wire tag of this kind, as it appears in serialized requests and
    /// in operator-facing messages.
    pub open spec fn name_spec(self) -> Seq<char> {
        match self {
            EndpointKind::AwsS3 => "aws_s3"@,
            EndpointKind::AzureBlob => "azure_blob"@,
            EndpointKind::Sftp => "sftp"@,
            EndpointKind::HttpApi => "http_api"@,
        }
    }

    /// Returns the wire tag of this kind.
    pub fn name(self) -> (r: &'static str)
        ensures
            r@ == self.name_spec(),
    {
        match self {
            EndpointKind::AwsS3 => "aws_s3",
            EndpointKind::AzureBlob => "azure_blob",
            EndpointKind::Sftp => "sftp",
            EndpointKind::HttpApi => "http_api",
        }
    }
}

/// A source endpoint descriptor: one variant per backend family.
#[derive(Debug, PartialEq, Clone)]
pub enum Source {
    AwsS3(AwsS3),
    AzureBlob(AzureBlob),
    Sftp(Sftp),
    HttpApi(HttpApi),
}

impl Source {
    /// The dispatch tag of this descriptor's variant.
    pub open spec fn kind_spec(&self) -> EndpointKind {
        match self {
            Source::AwsS3(_) => EndpointKind::AwsS3,
            Source::AzureBlob(_) => EndpointKind::AzureBlob,
            Source::Sftp(_) => EndpointKind::Sftp,
            Source::HttpApi(_) => EndpointKind::HttpApi,
        }
    }

    /// Returns the dispatch tag of this descriptor's variant.
    pub fn kind(&self) -> (k: EndpointKind)
        ensures
            k == self.kind_spec(),
    {
        match self {
            Source::AwsS3(_) => EndpointKind::AwsS3,
            Source::AzureBlob(_) => EndpointKind::AzureBlob,
            Source::Sftp(_) => EndpointKind::Sftp,
            Source::HttpApi(_) => EndpointKind::HttpApi,
        }
    }
}

/// A destination endpoint descriptor: one variant per backend family.
#[derive(Debug, PartialEq, Clone)]
pub enum Destination {
    AwsS3(AwsS3),
    AzureBlob(AzureBlob),
    Sftp(Sftp),
    HttpApi(HttpApi),
}

impl Destination {
    /// The dispatch tag of this descriptor's variant.
    pub open spec fn kind_spec(&self) -> EndpointKind {
        match self {
            Destination::AwsS3(_) => EndpointKind::AwsS3,
            Destination::AzureBlob(_) => EndpointKind::AzureBlob,
            Destination::Sftp(_) => EndpointKind::Sftp,
            Destination::HttpApi(_) => EndpointKind::HttpApi,
        }
    }

    /// Returns the dispatch tag of this descriptor's variant.
    pub fn kind(&self) -> (k: EndpointKind)
        ensures
            k == self.kind_spec(),
    {
        match self {
            Destination::AwsS3(_) => EndpointKind::AwsS3,
            Destination::AzureBlob(_) => EndpointKind::AzureBlob,
            Destination::Sftp(_) => EndpointKind::Sftp,
            Destination::HttpApi(_) => EndpointKind::HttpApi,
        }
    }
}

/// A transfer request: move the payload at `source` to `destination`.
/// One request yields exactly one transfer attempt.
#[derive(Debug, PartialEq, Clone)]
pub struct TransferRequest {
    pub source: Source,
    pub destination: Destination,
}

impl TransferRequest {
    /// The registry key this request routes by: the pair of its variant
    /// tags, derived without inspecting descriptor contents.
    pub open spec fn key_spec(&self) -> TransferKey {
        TransferKey {
            source_type: self.source.kind_spec(),
            destination_type: self.destination.kind_spec(),
        }
    }
}

/// A status query: ask whether the named source currently holds the named
/// file and is reachable. A status query never moves data.
#[derive(Debug, PartialEq, Clone)]
pub struct TransferStatus {
    pub source: String,
    pub filename: String,
}

/// The outcome of a transfer or status call: a status label plus an
/// operator-facing, secret-free message.
#[derive(Debug, PartialEq, Clone)]
pub struct TransferResponse {
    pub status: String,
    pub message: String,
}

/// The registry key: an ordered (source kind, destination kind) pair.
/// Two keys are equal iff both components match.
#[derive(Debug, Clone, Copy, PartialEq, Eq, Structural)]
pub struct TransferKey {
    pub source_type: EndpointKind,
    pub destination_type: EndpointKind,
}

impl TransferKey {
    /// Builds the key for the given pair of kinds.
    pub fn new(source: EndpointKind, destination: EndpointKind) -> (k: TransferKey)
        ensures
            k.source_type == source,
            k.destination_type == destination,
    {
        TransferKey { source_type: source, destination_type: destination }
    }
}

} // verus!
