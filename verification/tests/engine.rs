use file_transfer_service::capabilities::{AwsS3ToSftp, TransferImpl};
use file_transfer_service::errors::{AppError, ErrorKind};
use file_transfer_service::models::{
    AwsS3, AzureBlob, Destination, EndpointKind, Sftp, Source, TransferKey, TransferRequest,
    TransferResponse, TransferStatus,
};
use file_transfer_service::ops::Status;
use file_transfer_service::registry::FileTransferService;
use file_transfer_service::streaming::{run_transfer, ByteStream, ChunkSink, StreamItem};

fn s3_source() -> Source {
    Source::AwsS3(AwsS3 {
        bucket: "b".to_string(),
        key: "k".to_string(),
        region: "r".to_string(),
    })
}

fn sftp_destination() -> Destination {
    Destination::Sftp(Sftp {
        host: "h".to_string(),
        port: 22,
        username: "u".to_string(),
        ssh_key: "...".to_string(),
        remote_path: "/out/k".to_string(),
    })
}

fn blob_destination() -> Destination {
    Destination::AzureBlob(AzureBlob {
        container: "c".to_string(),
        blob: "bl".to_string(),
        connection_string: "cs".to_string(),
    })
}

fn service_with_s3_to_sftp() -> FileTransferService {
    let mut service = FileTransferService::new();
    service.add_transfer_impl(
        TransferKey::new(EndpointKind::AwsS3, EndpointKind::Sftp),
        TransferImpl::AwsS3ToSftp(AwsS3ToSftp::new()),
    );
    service
}

#[test]
fn lookup_returns_last_registered_impl() {
    let mut service = FileTransferService::new();
    let key = TransferKey::new(EndpointKind::AwsS3, EndpointKind::Sftp);
    assert!(service.get_transfer_impl(&key).is_none());

    let t = TransferImpl::AwsS3ToSftp(AwsS3ToSftp::new());
    service.add_transfer_impl(key, t);
    assert_eq!(service.get_transfer_impl(&key), Some(&t));

    // Re-registering the same key overwrites: one entry, last writer wins.
    service.add_transfer_impl(key, t);
    assert_eq!(service.list_transfer_impls().len(), 1);
    assert_eq!(service.get_transfer_impl(&key), Some(&t));
}

#[test]
fn registered_impl_supports_its_own_pair() {
    let service = service_with_s3_to_sftp();
    let key = TransferKey::new(EndpointKind::AwsS3, EndpointKind::Sftp);
    let t = service.get_transfer_impl(&key).unwrap();
    assert!(t.supports(&s3_source(), &sftp_destination()));
    assert!(!t.supports(&s3_source(), &blob_destination()));
}

#[test]
fn keys_are_equal_iff_both_components_match() {
    let a = TransferKey::new(EndpointKind::AwsS3, EndpointKind::Sftp);
    let b = TransferKey::new(EndpointKind::AwsS3, EndpointKind::Sftp);
    let c = TransferKey::new(EndpointKind::Sftp, EndpointKind::AwsS3);
    assert_eq!(a, b);
    assert_ne!(a, c);
}

#[test]
fn kind_names_are_the_wire_tags() {
    assert_eq!(EndpointKind::AwsS3.name(), "aws_s3");
    assert_eq!(EndpointKind::AzureBlob.name(), "azure_blob");
    assert_eq!(EndpointKind::Sftp.name(), "sftp");
    assert_eq!(EndpointKind::HttpApi.name(), "http_api");
}

#[test]
fn unsupported_combination_fails_before_any_write() {
    let service = service_with_s3_to_sftp();
    let req = TransferRequest {
        source: s3_source(),
        destination: blob_destination(),
    };
    let stream = ByteStream::from_chunks(vec![vec![1u8, 2, 3]]);
    let mut sink = ChunkSink::new();
    let err = service.transfer(&req, stream, &mut sink).unwrap_err();
    assert_eq!(err.kind(), ErrorKind::UnsupportedCombination);
    assert_eq!(
        err.details,
        "Unsupported transfer combination aws_s3 -> azure_blob"
    );
    // The failure comes before any data movement: the sink is untouched.
    assert!(sink.written.is_empty());
    assert!(!sink.closed);
}

#[test]
fn round_trip_reproduces_exact_bytes() {
    let service = service_with_s3_to_sftp();
    let req = TransferRequest {
        source: s3_source(),
        destination: sftp_destination(),
    };
    let stream = ByteStream::from_chunks(vec![b"he".to_vec(), b"ll".to_vec(), b"o".to_vec()]);
    let mut sink = ChunkSink::new();
    let resp: TransferResponse = service.transfer(&req, stream, &mut sink).unwrap();
    assert_eq!(resp.status, "success");
    assert_eq!(sink.written, b"hello".to_vec());
    assert!(sink.closed);
}

#[test]
fn success_message_names_bucket_key_host_and_path() {
    let service = service_with_s3_to_sftp();
    let req = TransferRequest {
        source: s3_source(),
        destination: sftp_destination(),
    };
    let stream = ByteStream::from_chunks(vec![vec![0u8; 4]]);
    let mut sink = ChunkSink::new();
    let resp = service.transfer(&req, stream, &mut sink).unwrap();
    assert_eq!(
        resp.message,
        "File from bucket b with key k transferred to SFTP at h/out/k"
    );
    assert!(resp.message.contains('b'));
    assert!(resp.message.contains('k'));
    assert!(resp.message.contains('h'));
    assert!(resp.message.contains("/out/k"));
}

#[test]
fn rerun_with_fresh_destination_overwrites_rather_than_appends() {
    // The engine does not guarantee idempotence; this documents the actual
    // semantics. A destination sink models create-or-overwrite: a second run
    // of the same request against a fresh handle for the same path leaves
    // exactly one copy of the payload, not two appended copies.
    let service = service_with_s3_to_sftp();
    let req = TransferRequest {
        source: s3_source(),
        destination: sftp_destination(),
    };

    let first = ByteStream::from_chunks(vec![b"data".to_vec()]);
    let mut sink_first = ChunkSink::new();
    service.transfer(&req, first, &mut sink_first).unwrap();

    let second = ByteStream::from_chunks(vec![b"data".to_vec()]);
    let mut sink_second = ChunkSink::new();
    service.transfer(&req, second, &mut sink_second).unwrap();

    assert_eq!(sink_first.written, b"data".to_vec());
    assert_eq!(sink_second.written, b"data".to_vec());
    assert_ne!(
        sink_second.written.len(),
        2 * b"data".len(),
        "a rerun must not append to the destination"
    );
}

#[test]
fn read_failure_after_three_of_ten_chunks() {
    let service = service_with_s3_to_sftp();
    let req = TransferRequest {
        source: s3_source(),
        destination: sftp_destination(),
    };
    let mut items = vec![
        StreamItem::Data(vec![1u8]),
        StreamItem::Data(vec![2u8]),
        StreamItem::Data(vec![3u8]),
        StreamItem::ReadError("connection reset".to_string()),
    ];
    for i in 0..6u8 {
        items.push(StreamItem::Data(vec![10 + i]));
    }
    assert_eq!(items.len(), 10);
    let stream = ByteStream { items };
    let mut sink = ChunkSink::new();
    let err = service.transfer(&req, stream, &mut sink).unwrap_err();
    assert_eq!(err.kind(), ErrorKind::StreamReadFailure);
    assert_eq!(err.details, "Error streaming object: connection reset");
    // The destination was asked to close and never told "success"; only the
    // chunks delivered before the failure were written.
    assert!(sink.closed);
    assert_eq!(sink.written, vec![1u8, 2, 3]);
}

#[test]
fn mismatched_pair_fails_without_panicking() {
    let pairing = AwsS3ToSftp::new();
    assert!(!pairing.supports(&s3_source(), &blob_destination()));
    let stream = ByteStream::from_chunks(vec![vec![9u8]]);
    let mut sink = ChunkSink::new();
    let err = pairing
        .execute_transfer(&s3_source(), &blob_destination(), stream, &mut sink)
        .unwrap_err();
    assert_eq!(err.kind(), ErrorKind::UnsupportedCombination);
    assert!(sink.written.is_empty());
    assert!(!sink.closed);
}

#[test]
fn status_query_reports_not_implemented() {
    let service = service_with_s3_to_sftp();
    let query = TransferStatus {
        source: "sftp".to_string(),
        filename: "report.csv".to_string(),
    };
    let err = service.status(&query).unwrap_err();
    assert_eq!(err.kind(), ErrorKind::NotImplemented);
    assert_eq!(err.details, "Status check not implemented for source sftp");
}

#[test]
fn endpoint_status_probes_report_not_implemented() {
    let s3 = AwsS3 {
        bucket: "b".to_string(),
        key: "k".to_string(),
        region: "r".to_string(),
    };
    let blob = AzureBlob {
        container: "c".to_string(),
        blob: "bl".to_string(),
        connection_string: "cs".to_string(),
    };
    let sftp = Sftp {
        host: "h".to_string(),
        port: 22,
        username: "u".to_string(),
        ssh_key: "...".to_string(),
        remote_path: "/p".to_string(),
    };
    let probes: Vec<Result<Status, AppError>> = vec![s3.status(), blob.status(), sftp.status()];
    for r in probes {
        assert_eq!(r.unwrap_err().kind(), ErrorKind::NotImplemented);
    }
    assert_eq!(
        blob.download().unwrap_err().kind(),
        ErrorKind::NotImplemented
    );
}

#[test]
fn stream_is_consumed_strictly_forward() {
    let mut stream = ByteStream::from_chunks(vec![vec![1u8], vec![2u8]]);
    assert_eq!(stream.next_item(), Some(StreamItem::Data(vec![1u8])));
    assert_eq!(stream.next_item(), Some(StreamItem::Data(vec![2u8])));
    assert_eq!(stream.next_item(), None);
    assert_eq!(stream.next_item(), None);
}

#[test]
fn run_transfer_closes_sink_on_success_and_failure() {
    let ok_stream = ByteStream::from_chunks(vec![vec![7u8]]);
    let mut ok_sink = ChunkSink::new();
    assert!(run_transfer(ok_stream, &mut ok_sink).is_ok());
    assert!(ok_sink.closed);

    let bad_stream = ByteStream {
        items: vec![StreamItem::ReadError("boom".to_string())],
    };
    let mut bad_sink = ChunkSink::new();
    let err = run_transfer(bad_stream, &mut bad_sink).unwrap_err();
    assert_eq!(err.kind(), ErrorKind::StreamReadFailure);
    assert!(bad_sink.closed);
    assert!(bad_sink.written.is_empty());
}

#[test]
fn list_transfer_impls_enumerates_registered_keys() {
    let mut service = FileTransferService::new();
    assert!(service.list_transfer_impls().is_empty());
    service.add_transfer_impl(
        TransferKey::new(EndpointKind::AwsS3, EndpointKind::Sftp),
        TransferImpl::AwsS3ToSftp(AwsS3ToSftp::new()),
    );
    service.add_transfer_impl(
        TransferKey::new(EndpointKind::AwsS3, EndpointKind::HttpApi),
        TransferImpl::AwsS3ToSftp(AwsS3ToSftp::new()),
    );
    let keys = service.list_transfer_impls();
    assert_eq!(keys.len(), 2);
    assert!(keys.contains(&TransferKey::new(EndpointKind::AwsS3, EndpointKind::Sftp)));
    assert!(keys.contains(&TransferKey::new(EndpointKind::AwsS3, EndpointKind::HttpApi)));
}

#[test]
fn app_error_carries_kind_and_message() {
    let e = AppError::new("secret-free message", ErrorKind::AuthenticationFailure);
    assert_eq!(e.kind(), ErrorKind::AuthenticationFailure);
    assert_eq!(e.details, "secret-free message");

    // Every category stays distinguishable, so a caller can tell transient
    // failures from permanent configuration failures.
    let kinds = vec![
        ErrorKind::UnsupportedCombination,
        ErrorKind::SourceUnavailable,
        ErrorKind::StreamReadFailure,
        ErrorKind::DestinationUnavailable,
        ErrorKind::StreamWriteFailure,
        ErrorKind::AuthenticationFailure,
        ErrorKind::NotImplemented,
        ErrorKind::Cancelled,
    ];
    for (i, a) in kinds.iter().enumerate() {
        assert_eq!(AppError::new("m", *a).kind(), *a);
        for (j, b) in kinds.iter().enumerate() {
            assert_eq!(i == j, a == b);
        }
    }
}
