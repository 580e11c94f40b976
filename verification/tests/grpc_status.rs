use axum_tracing_opentelemetry::otel_http::grpc::{
    status_from_http_header, status_from_http_status, status_is_error, GrpcCode,
};
use http::HeaderMap;

fn status_header(value: &str) -> HeaderMap {
    let mut headers = HeaderMap::new();
    headers.insert("grpc-status", value.parse().unwrap());
    headers
}

#[test]
fn server_errors_are_the_six_server_side_codes() {
    for status in 0u16..=20 {
        let expected = matches!(status, 2 | 4 | 12 | 13 | 14 | 15);
        assert_eq!(status_is_error(status, true), expected, "status {status}");
    }
    assert!(!status_is_error(u16::MAX, true));
}

#[test]
fn client_errors_are_all_but_success() {
    assert!(!status_is_error(0, false));
    for status in 1u16..=20 {
        assert!(status_is_error(status, false), "status {status}");
    }
    assert!(status_is_error(u16::MAX, false));
}

#[test]
fn test_status_from_http_header_zero() {
    assert_eq!(status_from_http_header(&status_header("0")), Some(0));
}

#[test]
fn test_status_from_http_header_sixteen() {
    assert_eq!(status_from_http_header(&status_header("16")), Some(16));
}

#[test]
fn test_status_from_http_header_negative() {
    assert_eq!(status_from_http_header(&status_header("-1")), None);
}

#[test]
fn status_from_http_header_reads_a_number_of_sixteen_bits() {
    assert_eq!(status_from_http_header(&HeaderMap::new()), None);
    assert_eq!(status_from_http_header(&status_header("+7")), Some(7));
    assert_eq!(status_from_http_header(&status_header("007")), Some(7));
    assert_eq!(status_from_http_header(&status_header("65535")), Some(65535));
    assert_eq!(status_from_http_header(&status_header("65536")), None);
    assert_eq!(status_from_http_header(&status_header("99999999999999999999999")), None);
    assert_eq!(status_from_http_header(&status_header("+")), None);
    assert_eq!(status_from_http_header(&status_header(" 2")), None);
    assert_eq!(status_from_http_header(&status_header("2x")), None);
    assert_eq!(status_from_http_header(&status_header("1.0")), None);
}

#[test]
fn status_from_http_status_follows_the_mapping() {
    assert_eq!(status_from_http_status(400), Some(13));
    assert_eq!(status_from_http_status(401), Some(16));
    assert_eq!(status_from_http_status(403), Some(7));
    assert_eq!(status_from_http_status(404), Some(12));
    assert_eq!(status_from_http_status(429), Some(14));
    assert_eq!(status_from_http_status(502), Some(14));
    assert_eq!(status_from_http_status(503), Some(14));
    assert_eq!(status_from_http_status(504), Some(14));
    assert_eq!(status_from_http_status(200), None);
    assert_eq!(status_from_http_status(201), Some(2));
    assert_eq!(status_from_http_status(500), Some(2));
    assert_eq!(status_from_http_status(302), Some(2));
}

#[test]
fn grpc_codes_have_their_numbers() {
    let codes = [
        GrpcCode::Success,
        GrpcCode::Cancelled,
        GrpcCode::Unknown,
        GrpcCode::InvalidArgument,
        GrpcCode::DeadlineExceeded,
        GrpcCode::NotFound,
        GrpcCode::AlreadyExists,
        GrpcCode::PermissionDenied,
        GrpcCode::ResourceExhausted,
        GrpcCode::FailedPrecondition,
        GrpcCode::Aborted,
        GrpcCode::OutOfRange,
        GrpcCode::Unimplemented,
        GrpcCode::Internal,
        GrpcCode::Unavailable,
        GrpcCode::DataLoss,
        GrpcCode::Unauthenticated,
    ];
    for (number, code) in codes.iter().enumerate() {
        assert_eq!(code.code() as usize, number);
    }
}
