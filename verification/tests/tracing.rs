//! Hex encoding, the `traceparent` header, the sink kind, and the body
//! size decision.

use service_util::server::{get_client_ip, is_content_within_size_range};
use service_util::trace::{hex_lower, traceparent, JaegerSinkKind};

#[test]
fn hex_is_lower_case_two_digits_per_byte() {
    assert_eq!(hex_lower(&[]).as_slice(), b"");
    assert_eq!(hex_lower(&[0x00, 0xff, 0x5a]).as_slice(), b"00ff5a");
    assert_eq!(hex_lower(&[0x0b]).as_slice(), b"0b");
}

#[test]
fn traceparent_formats_valid_context() {
    let trace_id = [
        0x4b, 0xf9, 0x2f, 0x35, 0x77, 0xb3, 0x4d, 0xa6, 0xa3, 0xce, 0x92, 0x9d, 0x0e, 0x0e,
        0x47, 0x36,
    ];
    let span_id = [0x00, 0xf0, 0x67, 0xaa, 0x0b, 0xa9, 0x02, 0xb7];
    let header = traceparent(&trace_id, &span_id, 0x01).unwrap();
    assert_eq!(
        header.as_slice(),
        b"00-4bf92f3577b34da6a3ce929d0e0e4736-00f067aa0ba902b7-01".as_slice(),
    );
}

#[test]
fn traceparent_rejects_invalid_context() {
    let zero_trace = [0u8; 16];
    let span_id = [0x00, 0xf0, 0x67, 0xaa, 0x0b, 0xa9, 0x02, 0xb7];
    assert!(traceparent(&zero_trace, &span_id, 0x01).is_none());

    let trace_id = [
        0x4b, 0xf9, 0x2f, 0x35, 0x77, 0xb3, 0x4d, 0xa6, 0xa3, 0xce, 0x92, 0x9d, 0x0e, 0x0e,
        0x47, 0x36,
    ];
    let zero_span = [0u8; 8];
    assert!(traceparent(&trace_id, &zero_span, 0x01).is_none());
}

#[test]
fn sink_kind_parses_its_two_spellings() {
    assert_eq!(JaegerSinkKind::parse(b"agent"), Some(JaegerSinkKind::Agent));
    assert_eq!(JaegerSinkKind::parse(b"collector"), Some(JaegerSinkKind::Collector));
    assert_eq!(JaegerSinkKind::parse(b"jaeger"), None);
    assert_eq!(JaegerSinkKind::parse(b""), None);
    assert_eq!(JaegerSinkKind::parse(b"Agent"), None);
}

#[test]
fn client_ip_follows_header_precedence() {
    assert_eq!(get_client_ip(Some("a"), Some("b"), Some("c")), Some("a"));
    assert_eq!(get_client_ip(None, Some("b"), Some("c")), Some("b"));
    assert_eq!(get_client_ip(None, None, Some("c")), Some("c"));
    assert_eq!(get_client_ip::<&str>(None, None, None), None);
}

#[test]
fn size_range_decision() {
    assert!(is_content_within_size_range(Some(50), None));
    assert!(is_content_within_size_range(None, None));
    assert!(is_content_within_size_range(Some(99), Some(100)));
    assert!(!is_content_within_size_range(Some(100), Some(100)));
    assert!(!is_content_within_size_range(Some(101), Some(100)));
    assert!(!is_content_within_size_range(None, Some(100)));
}
