use mermaid_rs_remote_renderer::decode::{Base64Error, DecodeError, decode_request};
use base64::Engine;
use mermaid_rs_remote_renderer::render::{RenderError, settle_render};
use mermaid_rs_remote_renderer::decode::DecodedRequest;
use mermaid_rs_remote_renderer::text::decimal_string;
use mermaid_rs_remote_renderer::reply::{
    RenderJob, RouteStep, base64_error_text, capacity_reply, client_ip_label, decode_error_reply, effective_theme,
    render_reply, request_id_label, svg_response, svg_route_after_slot, svg_route_start,
    text_error, unauthorized_reply,
};

#[test]
fn malformed_base64_returns_400() {
    let err = decode_request("!!!not-base64!!!").unwrap_err();
    let reply = decode_error_reply(&err);
    assert_eq!(reply.status, 400);
    assert!(reply.body.contains("decode"), "body: {}", reply.body);
    assert_eq!(
        reply.body,
        "decode error: invalid base64url: Invalid symbol 33, offset 0."
    );
}

#[test]
fn empty_pako_payload_returns_400() {
    let err = decode_request("pako:").unwrap_err();
    assert_eq!(decode_error_reply(&err).status, 400);
}

#[test]
fn decode_error_messages() {
    assert_eq!(DecodeError::Empty.message(), "encoded payload is empty");
    assert_eq!(DecodeError::Utf8.message(), "payload is not valid UTF-8");
    assert_eq!(DecodeError::Json("eof".to_string()).message(), "invalid JSON payload: eof");
    assert_eq!(DecodeError::Inflate("x".to_string()).message(), "zlib inflate failed: x");
    assert_eq!(
        DecodeError::Base64(Base64Error::InvalidLength(5)).message(),
        "invalid base64url: Invalid input length: 5"
    );
    assert_eq!(
        DecodeError::Base64(Base64Error::InvalidPadding).message(),
        "invalid base64url: Invalid padding"
    );
}

#[test]
fn svg_response_carries_long_lived_cache_header() {
    let reply = svg_response("<svg></svg>".to_string());
    assert_eq!(reply.status, 200);
    assert!(reply.content_type.starts_with("image/svg+xml"));
    let cache = reply.cache_control.unwrap_or("");
    assert!(cache.contains("immutable"), "cache-control={cache}");
    assert!(cache.contains("max-age="), "cache-control={cache}");
}

#[test]
fn render_outcomes_map_to_statuses() {
    assert_eq!(render_reply(Ok("<svg/>".to_string())).status, 200);
    let timeout = render_reply(Err(RenderError::Timeout));
    assert_eq!(timeout.status, 504);
    assert_eq!(timeout.body, "render exceeded the configured timeout");
    let upstream = render_reply(Err(RenderError::Upstream("bad input".to_string())));
    assert_eq!((upstream.status, upstream.body.as_str()), (400, "render error: bad input"));
    let join = render_reply(Err(RenderError::Join("boom".to_string())));
    assert_eq!((join.status, join.body.as_str()), (500, "internal renderer error"));
    assert_eq!(join.content_type, "text/plain; charset=utf-8");
}

#[test]
fn capacity_and_text_errors() {
    let r = capacity_reply();
    assert_eq!((r.status, r.body.as_str()), (503, "server is at capacity, please retry"));
    let t = text_error(418, "teapot".to_string());
    assert_eq!((t.status, t.body.as_str(), t.cache_control), (418, "teapot", None));
}

#[test]
fn query_param_overrides_embedded_theme() {
    assert_eq!(
        effective_theme(Some("modern".to_string()), Some("default".to_string())),
        Some("modern".to_string())
    );
    assert_eq!(effective_theme(None, Some("default".to_string())), Some("default".to_string()));
    assert_eq!(effective_theme(None, None), None);
}

#[test]
fn span_labels() {
    assert_eq!(request_id_label(Some(b"abc-123")), "abc-123");
    assert_eq!(request_id_label(Some(&[0xffu8])), "-");
    assert_eq!(request_id_label(None), "-");
    assert_eq!(client_ip_label(Some("10.0.0.1".to_string()), Some(b"1.2.3.4")), "10.0.0.1");
    assert_eq!(client_ip_label(None, Some(b" 1.2.3.4 , 5.6.7.8")), "1.2.3.4");
    assert_eq!(client_ip_label(None, Some(b"\t9.9.9.9")), "9.9.9.9");
    assert_eq!(client_ip_label(None, Some(b",x")), "");
    assert_eq!(client_ip_label(None, Some(&[0x01u8])), "-");
    assert_eq!(client_ip_label(None, None), "-");
}

#[test]
fn pako_with_garbage_zlib_returns_400() {
    let bogus = base64::engine::general_purpose::URL_SAFE_NO_PAD.encode(b"not zlib at all");
    let err = decode_request(&format!("pako:{bogus}")).unwrap_err();
    assert!(matches!(err, DecodeError::Inflate(_)));
    assert_eq!(decode_error_reply(&err).status, 400);
}

#[test]
fn render_timeout_returns_504() {
    assert_eq!(render_reply(settle_render(None)).status, 504);
}

#[test]
fn replies_carry_the_right_cache_policy() {
    let ok = render_reply(Ok("<svg/>".to_string()));
    assert_eq!(ok.cache_control, Some("public, max-age=31536000, immutable"));
    assert_eq!(ok.content_type, "image/svg+xml; charset=utf-8");
    for r in [
        render_reply(Err(RenderError::Timeout)),
        capacity_reply(),
        unauthorized_reply(),
        decode_error_reply(&DecodeError::Empty),
    ] {
        assert_eq!(r.cache_control, None);
        assert_eq!(r.content_type, "text/plain; charset=utf-8");
    }
    assert_eq!(unauthorized_reply().status, 401);
}

#[test]
fn route_answers_decode_errors_before_taking_a_slot() {
    match svg_route_start(Err(DecodeError::Empty), Some("modern".to_string()), true) {
        RouteStep::Answer(r) => {
            assert_eq!(r.status, 400);
            assert_eq!(r.body, "decode error: encoded payload is empty");
        }
        other => panic!("unexpected step {other:?}"),
    }
}

#[test]
fn route_takes_a_slot_only_when_capped() {
    let decoded = || DecodedRequest { source: "graph TD".to_string(), theme: Some("default".to_string()) };
    match svg_route_start(Ok(decoded()), Some("modern".to_string()), true) {
        RouteStep::TakeSlot(job) => {
            assert_eq!(job.source, "graph TD");
            assert_eq!(job.theme.as_deref(), Some("modern"));
        }
        other => panic!("unexpected step {other:?}"),
    }
    match svg_route_start(Ok(decoded()), None, false) {
        RouteStep::Render(job) => assert_eq!(job.theme.as_deref(), Some("default")),
        other => panic!("unexpected step {other:?}"),
    }
    let job = RenderJob { source: "graph TD".to_string(), theme: None };
    match svg_route_after_slot(job, false) {
        RouteStep::Answer(r) => assert_eq!(r.status, 503),
        other => panic!("unexpected step {other:?}"),
    }
    let job = RenderJob { source: "graph TD".to_string(), theme: None };
    assert!(matches!(svg_route_after_slot(job, true), RouteStep::Render(_)));
}

#[test]
fn base64_error_text_matches_the_base64_crate() {
    let cases = [
        (Base64Error::InvalidByte(12, 200), base64::DecodeError::InvalidByte(12, 200)),
        (Base64Error::InvalidByte(0, 0), base64::DecodeError::InvalidByte(0, 0)),
        (Base64Error::InvalidLength(1), base64::DecodeError::InvalidLength(1)),
        (Base64Error::InvalidLength(usize::MAX), base64::DecodeError::InvalidLength(usize::MAX)),
        (Base64Error::InvalidLastSymbol(7, 81), base64::DecodeError::InvalidLastSymbol(7, 81)),
        (Base64Error::InvalidPadding, base64::DecodeError::InvalidPadding),
    ];
    for (ours, theirs) in cases {
        assert_eq!(base64_error_text(ours), theirs.to_string());
    }
    assert_eq!(base64_error_text(Base64Error::InvalidLength(1024)), "Invalid input length: 1024");
}

#[test]
fn decimal_numerals() {
    assert_eq!(decimal_string(0), "0");
    assert_eq!(decimal_string(9), "9");
    assert_eq!(decimal_string(10), "10");
    assert_eq!(decimal_string(u64::MAX), "18446744073709551615");
}
