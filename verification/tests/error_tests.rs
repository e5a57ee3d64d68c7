//! Behavioral tests for the error container, its predicates, the chain
//! walk, the reason mapper and the conversion layer.
use hyper_error::Cause;
use hyper_error::CauseTag;
use hyper_error::Error;
use hyper_error::Header;
use hyper_error::Kind;
use hyper_error::Parse;
use hyper_error::TimedOut;

use std::mem;

fn assert_predicates(
    e: &Error,
    parse: bool,
    too_large: bool,
    status: bool,
    user: bool,
    canceled: bool,
    closed: bool,
    incomplete: bool,
    aborted: bool,
    timeout: bool,
) {
    assert_eq!(e.is_parse(), parse);
    assert_eq!(e.is_parse_too_large(), too_large);
    assert_eq!(e.is_parse_status(), status);
    assert_eq!(e.is_user(), user);
    assert_eq!(e.is_canceled(), canceled);
    assert_eq!(e.is_closed(), closed);
    assert_eq!(e.is_incomplete_message(), incomplete);
    assert_eq!(e.is_body_write_aborted(), aborted);
    assert_eq!(e.is_timeout(), timeout);
}

fn io_failure() -> std::io::Error {
    std::io::Error::from(std::io::ErrorKind::BrokenPipe)
}

#[test]
fn error_size_of() {
    assert_eq!(mem::size_of::<Error>(), mem::size_of::<usize>());
}

#[test]
fn h2_reason_unknown() {
    let closed = Error::new_closed();
    assert_eq!(closed.h2_reason(), h2::Reason::INTERNAL_ERROR);
}

#[test]
fn h2_reason_one_level() {
    let body_err = Error::new_user_body(Cause::H2(h2::Error::from(h2::Reason::ENHANCE_YOUR_CALM)));
    assert_eq!(body_err.h2_reason(), h2::Reason::ENHANCE_YOUR_CALM);
}

#[test]
fn h2_reason_nested() {
    let recvd = Error::new_h2(h2::Error::from(h2::Reason::HTTP_1_1_REQUIRED));
    // Suppose a user were proxying the received error
    let svc_err = Error::new_user_service(Cause::Wrapped(recvd));
    assert_eq!(svc_err.h2_reason(), h2::Reason::HTTP_1_1_REQUIRED);
}

#[test]
fn canceled_predicates() {
    let e = Error::new_canceled();
    assert_predicates(&e, false, false, false, false, true, false, false, false, false);
}

#[test]
fn incomplete_predicates() {
    let e = Error::new_incomplete();
    assert_predicates(&e, false, false, false, false, false, false, true, false, false);
}

#[test]
fn too_large_predicates() {
    let e = Error::new_too_large();
    assert_predicates(&e, true, true, false, false, false, false, false, false, false);
}

#[test]
fn version_h2_predicates() {
    let e = Error::new_version_h2();
    assert_predicates(&e, true, false, false, false, false, false, false, false, false);
}

#[test]
fn unexpected_message_predicates() {
    let e = Error::new_unexpected_message();
    assert_predicates(&e, false, false, false, false, false, false, false, false, false);
}

#[test]
fn io_predicates() {
    let e = Error::new_io(io_failure());
    assert_predicates(&e, false, false, false, false, false, false, false, false, false);
    assert_eq!(*e.kind(), Kind::Io);
}

#[test]
fn closed_predicates() {
    let e = Error::new_closed();
    assert_predicates(&e, false, false, false, false, false, true, false, false, false);
}

#[test]
fn body_predicates() {
    let e = Error::new_body(Cause::Other(String::from("stream fell over")));
    assert_predicates(&e, false, false, false, false, false, false, false, false, false);
    assert_eq!(*e.kind(), Kind::Body);
}

#[test]
fn body_write_predicates() {
    let e = Error::new_body_write(Cause::Other(String::from("sink fell over")));
    assert_predicates(&e, false, false, false, false, false, false, false, false, false);
    assert_eq!(*e.kind(), Kind::BodyWrite);
}

#[test]
fn body_write_aborted_predicates() {
    let e = Error::new_body_write_aborted();
    assert_predicates(&e, false, false, false, true, false, false, false, true, false);
}

#[test]
fn user_header_predicates() {
    let e = Error::new_user_header();
    assert_predicates(&e, false, false, false, true, false, false, false, false, false);
}

#[test]
fn header_timeout_predicates() {
    // A header-timeout kind alone carries no timeout marker in its chain.
    let e = Error::new_header_timeout();
    assert_predicates(&e, false, false, false, false, false, false, false, false, false);
    assert_eq!(*e.kind(), Kind::HeaderTimeout);
}

#[test]
fn unsupported_status_code_predicates() {
    let e = Error::new_user_unsupported_status_code();
    assert_predicates(&e, false, false, false, true, false, false, false, false, false);
}

#[test]
fn no_upgrade_predicates() {
    let e = Error::new_user_no_upgrade();
    assert_predicates(&e, false, false, false, true, false, false, false, false, false);
}

#[test]
fn manual_upgrade_predicates() {
    let e = Error::new_user_manual_upgrade();
    assert_predicates(&e, false, false, false, true, false, false, false, false, false);
}

#[test]
fn user_service_predicates() {
    let e = Error::new_user_service(Cause::Other(String::from("service failed")));
    assert_predicates(&e, false, false, false, true, false, false, false, false, false);
}

#[test]
fn user_body_predicates() {
    let e = Error::new_user_body(Cause::Other(String::from("body failed")));
    assert_predicates(&e, false, false, false, true, false, false, false, false, false);
}

#[test]
fn shutdown_predicates() {
    let e = Error::new_shutdown(io_failure());
    assert_predicates(&e, false, false, false, false, false, false, false, false, false);
    assert_eq!(*e.kind(), Kind::Shutdown);
}

#[test]
fn aborted_by_callback_predicates() {
    let e = Error::new_user_aborted_by_callback();
    assert_predicates(&e, false, false, false, true, false, false, false, false, false);
}

#[test]
fn dispatch_gone_predicates() {
    let e = Error::new_user_dispatch_gone();
    assert_predicates(&e, false, false, false, true, false, false, false, false, false);
}

#[test]
fn parse_status_predicates() {
    let e = Error::new_parse(Parse::Status);
    assert_predicates(&e, true, false, true, false, false, false, false, false, false);
}

#[test]
fn parse_uri_too_long_predicates() {
    let e = Error::new_parse(Parse::UriTooLong);
    assert_predicates(&e, true, true, false, false, false, false, false, false, false);
}

#[test]
fn new_h2_keeps_protocol_failure_as_cause() {
    let e = Error::new_h2(h2::Error::from(h2::Reason::CANCEL));
    assert_eq!(*e.kind(), Kind::Http2);
    assert!(e.source().is_some());
    assert_eq!(e.h2_reason(), h2::Reason::CANCEL);
    assert_predicates(&e, false, false, false, false, false, false, false, false, false);
}

#[test]
fn find_source_on_causeless_error_is_none_for_every_tag() {
    let e = Error::new_closed();
    assert!(e.find_source(CauseTag::TimedOut).is_none());
    assert!(e.find_source(CauseTag::Io).is_none());
    assert!(e.find_source(CauseTag::H2).is_none());
    assert!(e.find_source(CauseTag::Wrapped).is_none());
    assert!(e.find_source(CauseTag::Other).is_none());
    assert!(e.source().is_none());
}

#[test]
fn find_source_crosses_nested_errors() {
    let inner = Error::new_h2(h2::Error::from(h2::Reason::REFUSED_STREAM));
    let outer = Error::new_user_service(Cause::Wrapped(inner));
    assert!(outer.find_source(CauseTag::H2).is_some());
    assert!(outer.find_source(CauseTag::Wrapped).is_some());
    assert!(outer.find_source(CauseTag::Io).is_none());
    assert!(outer.find_source(CauseTag::TimedOut).is_none());
    assert!(outer.source().is_some());
}

#[test]
fn timeout_marker_direct() {
    let e = Error::new_user_body(Cause::TimedOut(TimedOut));
    assert!(e.is_timeout());
    assert!(e.is_user());
}

#[test]
fn timeout_marker_through_nested_error() {
    let inner = Error::new_body(Cause::TimedOut(TimedOut));
    let middle = Error::new_user_service(Cause::Wrapped(inner));
    let outer = Error::new_user_body(Cause::Wrapped(middle));
    assert!(outer.is_timeout());
}

#[test]
fn plain_canceled_is_not_timeout() {
    let e = Error::new_canceled();
    assert!(!e.is_timeout());
}

#[test]
fn other_cause_is_not_timeout() {
    let e = Error::new_body(Cause::Other(String::from("slow, but no deadline")));
    assert!(!e.is_timeout());
}

#[test]
fn io_cause_is_not_timeout() {
    let e = Error::new_io(io_failure());
    assert!(!e.is_timeout());
}

#[test]
fn wire_header_failures_collapse_to_one_entry() {
    let name = Parse::from_wire(httparse::Error::HeaderName);
    let value = Parse::from_wire(httparse::Error::HeaderValue);
    let newline = Parse::from_wire(httparse::Error::NewLine);
    let token = Parse::from_wire(httparse::Error::Token);
    assert_eq!(name, Parse::Header(Header::Token));
    assert_eq!(value, Parse::Header(Header::Token));
    assert_eq!(newline, Parse::Header(Header::Token));
    assert_eq!(token, Parse::Header(Header::Token));
}

#[test]
fn wire_too_many_headers_is_too_large() {
    let p = Parse::from_wire(httparse::Error::TooManyHeaders);
    assert_eq!(p, Parse::TooLarge);
    let e = Error::new_parse(p);
    assert!(e.is_parse_too_large());
}

#[test]
fn wire_status_and_version_entries() {
    assert_eq!(Parse::from_wire(httparse::Error::Status), Parse::Status);
    assert_eq!(Parse::from_wire(httparse::Error::Version), Parse::Version);
    let e = Error::new_parse(Parse::from_wire(httparse::Error::Status));
    assert!(e.is_parse_status());
}

#[test]
fn header_library_failures_map_to_their_entries() {
    let bad_method = http::Method::from_bytes(b"B\0D").unwrap_err();
    assert_eq!(Parse::from_invalid_method(&bad_method), Parse::Method);

    let bad_status = http::StatusCode::from_u16(1000).unwrap_err();
    assert_eq!(Parse::from_invalid_status_code(&bad_status), Parse::Status);

    let bad_uri = "".parse::<http::Uri>().unwrap_err();
    assert_eq!(Parse::from_invalid_uri(&bad_uri), Parse::Uri);

    let mut parts = http::uri::Parts::default();
    parts.scheme = Some("http".parse().unwrap());
    let bad_parts = http::Uri::from_parts(parts).unwrap_err();
    assert_eq!(Parse::from_invalid_uri_parts(&bad_parts), Parse::Uri);
}

#[test]
fn named_parse_entries() {
    assert_eq!(
        Parse::content_length_invalid(),
        Parse::Header(Header::ContentLengthInvalid)
    );
    assert_eq!(
        Parse::transfer_encoding_invalid(),
        Parse::Header(Header::TransferEncodingInvalid)
    );
    assert_eq!(
        Parse::transfer_encoding_unexpected(),
        Parse::Header(Header::TransferEncodingUnexpected)
    );
}

#[test]
fn description_is_nonempty_for_every_factory() {
    let errors = vec![
        Error::new_canceled(),
        Error::new_incomplete(),
        Error::new_too_large(),
        Error::new_version_h2(),
        Error::new_unexpected_message(),
        Error::new_io(io_failure()),
        Error::new_closed(),
        Error::new_body(Cause::Other(String::from("x"))),
        Error::new_body_write(Cause::Other(String::from("x"))),
        Error::new_body_write_aborted(),
        Error::new_user_header(),
        Error::new_header_timeout(),
        Error::new_user_unsupported_status_code(),
        Error::new_user_no_upgrade(),
        Error::new_user_manual_upgrade(),
        Error::new_user_service(Cause::Other(String::from("x"))),
        Error::new_user_body(Cause::Other(String::from("x"))),
        Error::new_shutdown(io_failure()),
        Error::new_user_aborted_by_callback(),
        Error::new_user_dispatch_gone(),
        Error::new_h2(h2::Error::from(h2::Reason::CANCEL)),
        Error::new_parse(Parse::Method),
        Error::new_parse(Parse::Version),
        Error::new_parse(Parse::Uri),
        Error::new_parse(Parse::UriTooLong),
        Error::new_parse(Parse::Internal),
        Error::new_parse(Parse::Header(Header::Token)),
        Error::new_parse(Parse::content_length_invalid()),
        Error::new_parse(Parse::transfer_encoding_invalid()),
        Error::new_parse(Parse::transfer_encoding_unexpected()),
    ];
    for e in &errors {
        assert!(!e.description().is_empty());
    }
}

#[test]
fn description_excludes_cause_chain_content() {
    let marker = "very-recognizable-cause-text";
    let e = Error::new_user_service(Cause::Other(String::from(marker)));
    assert!(!e.description().contains(marker));
    let outer = Error::new_user_body(Cause::Wrapped(e));
    assert!(!outer.description().contains(marker));
}

#[test]
fn into_cause_hands_out_the_immediate_cause() {
    assert!(Error::new_canceled().into_cause().is_none());
    let e = Error::new_user_body(Cause::TimedOut(TimedOut));
    match e.into_cause() {
        Some(Cause::TimedOut(_)) => {}
        other => panic!("unexpected cause: {:?}", other),
    }
}

#[test]
fn debug_text_has_kind() {
    let e = Error::new_canceled();
    let text = format!("{:?}", e);
    assert!(text.contains("Canceled"));
}

#[test]
fn debug_text_has_cause_exactly_when_present() {
    let with_cause = Error::new_user_body(Cause::TimedOut(TimedOut));
    let text = format!("{:?}", with_cause);
    assert!(text.contains("Body"));
    assert!(text.contains("TimedOut"));

    let without_cause = Error::new_canceled();
    let text = format!("{:?}", without_cause);
    assert!(!text.contains("TimedOut"));
}
