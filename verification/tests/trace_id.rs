use modkit_core::trace_id::{
    current_trace_id, header_value_text, parse_traceparent_trace_id, select_request_trace_id, trace_id_from_request,
};

#[test]
fn parses_valid_traceparent() {
    let tp = "00-4bf92f3577b34da6a3ce929d0e0e4736-00f067aa0ba902b7-01";
    assert_eq!(
        parse_traceparent_trace_id(tp),
        Some("4bf92f3577b34da6a3ce929d0e0e4736".to_owned())
    );
}

#[test]
fn rejects_non_v00_traceparent() {
    let tp = "ff-4bf92f3577b34da6a3ce929d0e0e4736-00f067aa0ba902b7-01";
    assert_eq!(parse_traceparent_trace_id(tp), None);
}

#[test]
fn rejects_short_traceparent() {
    assert_eq!(parse_traceparent_trace_id("00-abc-def"), None);
}

#[test]
fn rejects_empty_trace_id() {
    assert_eq!(parse_traceparent_trace_id("00--00f067aa0ba902b7-01"), None);
}

#[test]
fn rejects_short_trace_id() {
    assert_eq!(
        parse_traceparent_trace_id("00-abc123-00f067aa0ba902b7-01"),
        None
    );
}

#[test]
fn rejects_uppercase_trace_id() {
    assert_eq!(
        parse_traceparent_trace_id("00-4BF92F3577B34DA6A3CE929D0E0E4736-00f067aa0ba902b7-01"),
        None
    );
}

#[test]
fn rejects_all_zero_trace_id() {
    assert_eq!(
        parse_traceparent_trace_id("00-00000000000000000000000000000000-00f067aa0ba902b7-01"),
        None
    );
}

fn header<'a>(headers: &'a http::HeaderMap, name: &str) -> Option<&'a [u8]> {
    headers.get(name).map(http::HeaderValue::as_bytes)
}

#[test]
fn trace_id_from_headers_prefers_traceparent_over_x_request_id() {
    let mut headers = http::HeaderMap::new();
    headers.insert("traceparent", "00-4bf92f3577b34da6a3ce929d0e0e4736-00f067aa0ba902b7-01".parse().unwrap());
    headers.insert("x-request-id", "req-123".parse().unwrap());

    // Without an active span, falls back to traceparent.
    let id = trace_id_from_request(
        current_trace_id(),
        header(&headers, "traceparent"),
        header(&headers, "x-request-id"),
        header(&headers, "x-trace-id"),
    );
    assert_eq!(id, Some("4bf92f3577b34da6a3ce929d0e0e4736".to_owned()));
}

#[test]
fn trace_id_from_headers_uses_x_request_id_when_no_traceparent() {
    let mut headers = http::HeaderMap::new();
    headers.insert("x-request-id", "req-abc".parse().unwrap());
    let id = trace_id_from_request(
        current_trace_id(),
        header(&headers, "traceparent"),
        header(&headers, "x-request-id"),
        header(&headers, "x-trace-id"),
    );
    assert_eq!(id, Some("req-abc".to_owned()));
}

#[test]
fn header_values_read_as_text_when_visible_ascii_or_tab() {
    assert_eq!(header_value_text(b"req-1"), Some("req-1".to_owned()));
    assert_eq!(header_value_text(b"a\tb c~"), Some("a\tb c~".to_owned()));
    assert_eq!(header_value_text(b""), Some(String::new()));
    assert_eq!(header_value_text(b"a\x7fb"), None);
    assert_eq!(header_value_text(b"caf\xc3\xa9"), None);
    assert_eq!(header_value_text(b"a\nb"), None);
}

#[test]
fn unreadable_header_bytes_are_present_but_not_text() {
    // x-request-id present but not text: no fallback to x-trace-id.
    let id = trace_id_from_request(None, None, Some(b"caf\xc3\xa9"), Some(b"t-1"));
    assert_eq!(id, None);
    // an unreadable traceparent falls through to x-request-id
    let id = trace_id_from_request(None, Some(b"\xff"), Some(b"req-9"), None);
    assert_eq!(id, Some("req-9".to_owned()));
    let id = trace_id_from_request(Some("span".to_owned()), Some(b"\xff"), Some(b"req-9"), None);
    assert_eq!(id, Some("span".to_owned()));
}

#[test]
fn accepts_more_than_four_parts() {
    assert_eq!(
        parse_traceparent_trace_id("00-4bf92f3577b34da6a3ce929d0e0e4736-00f067aa0ba902b7-01-extra"),
        Some("4bf92f3577b34da6a3ce929d0e0e4736".to_owned())
    );
}

#[test]
fn rejects_non_hex_trace_id() {
    assert_eq!(
        parse_traceparent_trace_id("00-4bf92f3577b34da6a3ce929d0e0e473g-00f067aa0ba902b7-01"),
        None
    );
}

#[test]
fn no_span_without_exporter() {
    assert_eq!(current_trace_id(), None);
}

#[test]
fn span_id_wins_over_headers() {
    let id = select_request_trace_id(
        Some("abc".to_owned()),
        Some(Some("00-4bf92f3577b34da6a3ce929d0e0e4736-00f067aa0ba902b7-01".to_owned())),
        None,
        None,
    );
    assert_eq!(id, Some("abc".to_owned()));
}

#[test]
fn invalid_traceparent_falls_back_to_request_id() {
    let id = select_request_trace_id(
        None,
        Some(Some("garbage".to_owned())),
        Some(Some("req-1".to_owned())),
        Some(Some("t-1".to_owned())),
    );
    assert_eq!(id, Some("req-1".to_owned()));
}

#[test]
fn x_trace_id_used_when_x_request_id_absent() {
    let id = select_request_trace_id(None, None, None, Some(Some("t-1".to_owned())));
    assert_eq!(id, Some("t-1".to_owned()));
}

#[test]
fn unreadable_x_request_id_gives_none() {
    let id = select_request_trace_id(None, None, Some(None), Some(Some("t-1".to_owned())));
    assert_eq!(id, None);
}
