//! Transfer implementations: the code pairing one source kind with one
//! destination kind and performing the copy.
//!
//! Each implementation is specific to exactly one (source kind,
//! destination kind) pair. `supports` is a structural check on the variant
//! tags alone — it never touches the network — and `execute_transfer`
//! re-validates the pair before moving any data, failing rather than
//! panicking when invoked with mismatched descriptors.

use vstd::prelude::*;
use vstd::string::StringExecFns;
use crate::errors::{AppError, ErrorKind};
use crate::models::{AwsS3, Destination, EndpointKind, Sftp, Source, TransferKey, TransferResponse};
use crate::streaming::{all_data, payload, run_transfer, ByteStream, ChunkSink, StreamItem};

verus! {

/// The pairing that copies an object-store source to an SFTP destination.
#[derive(Debug, Clone, Copy, PartialEq, Eq, Structural)]
pub struct AwsS3ToSftp;

/// The operator-facing message of a successful object-store → SFTP copy:
/// it names the bucket, the key, the host and the remote path, and nothing
/// secret.
pub open spec fn s3_to_sftp_success_message(s3: AwsS3, sftp: Sftp) -> Seq<char> {
    "File from bucket "@ + s3.bucket@ + " with key "@ + s3.key@ + " transferred to SFTP at "@
        + sftp.host@ + sftp.remote_path@
}

impl AwsS3ToSftp {
    /// Builds the pairing.
    pub fn new() -> (s: Self)
        ensures
            s == (AwsS3ToSftp {}),
    {
        Self {}
    }

    /// Holds exactly when the request's variant tags are the pair this
    /// implementation was built for.
    pub open spec fn supports_spec(source: &Source, destination: &Destination) -> bool {
        source is AwsS3 && destination is Sftp
    }

    /// Structural check: true iff `source` is an object store and
    /// `destination` is an SFTP endpoint. Performs no I/O.
    pub fn supports(&self, source: &Source, destination: &Destination) -> (r: bool)
        ensures
            r == Self::supports_spec(source, destination),
    {
        match (source, destination) {
            (Source::AwsS3(_), Destination::Sftp(_)) => true,
            _ => false,
        }
    }

    /// Runs the copy: validates the pair, then drives the source's byte
    /// stream into the destination sink, chunk by chunk, in order.
    ///
    /// On a mismatched pair it fails without touching the sink. Otherwise
    /// the sink is closed on success and failure alike; on success the sink
    /// has received exactly the stream's payload and the response names the
    /// bucket, key, host and remote path; a mid-stream read failure
    /// surfaces as `StreamReadFailure` with the chunks delivered before it
    /// already written.
    pub fn execute_transfer(
        &self,
        source: &Source,
        destination: &Destination,
        stream: ByteStream,
        sink: &mut ChunkSink,
    ) -> (r: Result<TransferResponse, AppError>)
        requires
            !old(sink).closed,
        ensures
            transfer_post(
                TransferImpl::AwsS3ToSftp(*self),
                *source,
                *destination,
                stream.items@,
                *old(sink),
                *final(sink),
                r,
            ),
    {
        match (source, destination) {
            (Source::AwsS3(s3), Destination::Sftp(sftp)) => {
                match run_transfer(stream, sink) {
                    Ok(()) => {
                        let mut message = "File from bucket ".to_owned();
                        message.append(s3.bucket.as_str());
                        message.append(" with key ");
                        message.append(s3.key.as_str());
                        message.append(" transferred to SFTP at ");
                        message.append(sftp.host.as_str());
                        message.append(sftp.remote_path.as_str());
                        proof {
                            assert(message@ =~= s3_to_sftp_success_message(*s3, *sftp));
                        }
                        Ok(TransferResponse { status: "success".to_owned(), message })
                    },
                    Err(e) => Err(e),
                }
            },
            _ => Err(AppError::new(
                "Error executing transfer between aws_s3 -> sftp",
                ErrorKind::UnsupportedCombination,
            )),
        }
    }
}

/// The closed set of registered transfer implementations. The registry maps
/// each key to one value of this type; every variant is immutable and may
/// be shared read-only across concurrent requests.
#[derive(Debug, Clone, Copy, PartialEq, Eq, Structural)]
pub enum TransferImpl {
    AwsS3ToSftp(AwsS3ToSftp),
}

impl TransferImpl {
    /// The one (source kind, destination kind) pair this implementation is
    /// meant to be registered under.
    pub open spec fn key_spec(&self) -> TransferKey {
        match self {
            TransferImpl::AwsS3ToSftp(_) => TransferKey {
                source_type: EndpointKind::AwsS3,
                destination_type: EndpointKind::Sftp,
            },
        }
    }

    /// Holds exactly when the request's variant tags match this
    /// implementation's pair.
    pub open spec fn supports_spec(&self, source: &Source, destination: &Destination) -> bool {
        source.kind_spec() == self.key_spec().source_type
            && destination.kind_spec() == self.key_spec().destination_type
    }

    /// The message this implementation fails with when invoked on a pair it
    /// was not built for.
    pub open spec fn mismatch_message_spec(&self) -> Seq<char> {
        match self {
            TransferImpl::AwsS3ToSftp(_) => "Error executing transfer between aws_s3 -> sftp"@,
        }
    }

    /// The success message this implementation reports, naming the concrete
    /// source and destination addresses.
    pub open spec fn success_message_spec(&self, source: Source, destination: Destination) -> Seq<char> {
        match self {
            TransferImpl::AwsS3ToSftp(_) => s3_to_sftp_success_message(
                source->AwsS3_0,
                destination->Sftp_0,
            ),
        }
    }

    /// Structural check on the variant tags alone; performs no I/O.
    pub fn supports(&self, source: &Source, destination: &Destination) -> (r: bool)
        ensures
            r == self.supports_spec(source, destination),
    {
        match self {
            TransferImpl::AwsS3ToSftp(t) => t.supports(source, destination),
        }
    }

    /// Dispatches the copy to the concrete pairing.
    pub fn execute_transfer(
        &self,
        source: &Source,
        destination: &Destination,
        stream: ByteStream,
        sink: &mut ChunkSink,
    ) -> (r: Result<TransferResponse, AppError>)
        requires
            !old(sink).closed,
        ensures
            transfer_post(*self, *source, *destination, stream.items@, *old(sink), *final(sink), r),
    {
        match self {
            TransferImpl::AwsS3ToSftp(t) => t.execute_transfer(source, destination, stream, sink),
        }
    }
}

/// What executing a transfer implementation guarantees.
///
/// On a mismatched pair the call fails with `UnsupportedCombination` and the
/// sink is untouched: no data movement is attempted. On a matching pair the
/// sink is closed on every path; the call succeeds exactly when the stream
/// delivers all chunks, and then the sink has received exactly the stream's
/// payload, in order, and the response names the concrete addresses. A
/// mid-stream read failure surfaces as `StreamReadFailure`.
pub open spec fn transfer_post(
    t: TransferImpl,
    source: Source,
    destination: Destination,
    items: Seq<StreamItem>,
    sink_pre: ChunkSink,
    sink_post: ChunkSink,
    r: Result<TransferResponse, AppError>,
) -> bool {
    &&& (!t.supports_spec(&source, &destination) ==> {
        &&& r matches Err(e)
        &&& e.kind == ErrorKind::UnsupportedCombination
        &&& e.details@ == t.mismatch_message_spec()
        &&& sink_post == sink_pre
    })
    &&& (t.supports_spec(&source, &destination) ==> {
        &&& sink_post.closed
        &&& sink_post.written@ == sink_pre.written@ + payload(items)
        &&& (r is Ok <==> all_data(items))
        &&& (r matches Ok(resp) ==> resp.status@ == "success"@
            && resp.message@ == t.success_message_spec(source, destination))
        &&& (r matches Err(e) ==> e.kind == ErrorKind::StreamReadFailure)
    })
}

/// Law: each shipped implementation supports exactly the requests whose
/// (source kind, destination kind) pair is the key it is meant to be
/// registered under. Together with the registry's lookup contract this says
/// that a request routed by its key always reaches an implementation whose
/// `supports` check passes.
pub proof fn lemma_impl_supports_its_key(t: TransferImpl, source: Source, destination: Destination)
    ensures
        t.supports_spec(&source, &destination) <==> ((TransferKey {
            source_type: source.kind_spec(),
            destination_type: destination.kind_spec(),
        }) == t.key_spec()),
{
}

} // verus!
