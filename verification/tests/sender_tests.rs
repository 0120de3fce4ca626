//! The body-encoding entry points and the poll-driven send task.

use std::collections::BTreeMap;

use client_sender::error::{
    FreezeRequestError, HttpError, InvalidUrl, PrepForSendingError, SendRequestError,
};
use client_sender::head::{RequestHead, RequestHeadType};
use client_sender::header::{content_type, HeaderMap, HeaderName, HeaderValue};
use client_sender::response::{ClientResponse, ContentEncoding, Payload, ResponseHead};
use client_sender::sender::{
    Body, ClientConfig, PollOutcome, PollStep, PreparedRequest, SendClientRequest, TransportPoll,
};

fn empty_owned() -> RequestHeadType {
    RequestHeadType::Owned(RequestHead::new(String::from("GET"), String::from("/")))
}

fn no_default() -> ClientConfig {
    ClientConfig { timeout: None }
}

fn response(status: u16, encoding: Option<&[u8]>, data: &[u8]) -> ClientResponse<Payload> {
    let mut headers = HeaderMap::new();
    if let Some(token) = encoding {
        headers.insert(
            HeaderName::try_from_bytes(b"content-encoding").unwrap(),
            HeaderValue::try_from_bytes(token).unwrap(),
        );
    }
    ClientResponse {
        head: ResponseHead { status, headers },
        payload: Payload { data: data.to_vec() },
    }
}

fn prepared(head: RequestHeadType) -> PreparedRequest {
    PreparedRequest { head, body: Body::Empty, addr: None }
}

#[test]
fn per_call_timeout_wins_over_default() {
    let config = ClientConfig { timeout: Some(7_000) };
    let task = empty_owned().send_body(None, false, Some(3_000), &config, Body::Empty);
    match task {
        SendClientRequest::Fut(_, timeout, _) => assert_eq!(timeout, Some(3_000)),
        _ => panic!("a prepared send is active"),
    }
}

#[test]
fn default_timeout_fills_unset() {
    let config = ClientConfig { timeout: Some(7_000) };
    let task = empty_owned().send_body(None, false, None, &config, Body::Empty);
    match task {
        SendClientRequest::Fut(_, timeout, _) => assert_eq!(timeout, Some(7_000)),
        _ => panic!("a prepared send is active"),
    }
}

#[test]
fn elapsed_deadline_times_out_on_first_poll() {
    let mut task = SendClientRequest::new(prepared(empty_owned()), true, Some(1));
    // The transport result may even be ready; the deadline is checked first
    // and wins the tie without the transport being consulted.
    match task.poll_deadline(true) {
        PollStep::Ready(Err(SendRequestError::Timeout)) => {}
        _ => panic!("an elapsed deadline yields the timeout error"),
    }
    assert!(task.resolved());
}

#[test]
fn unelapsed_deadline_proceeds_to_transport() {
    let mut task = SendClientRequest::new(prepared(empty_owned()), false, Some(1_000));
    match task.poll_deadline(false) {
        PollStep::PollTransport => {}
        _ => panic!("an unelapsed deadline proceeds to the transport"),
    }
    assert!(task.active());
    match task.poll_transport(TransportPoll::Pending) {
        PollOutcome::Pending => {}
        _ => panic!("a pending transport suspends the task"),
    }
    // The timer stays armed for the next cycle.
    assert!(task.active());
    match task.poll_deadline(true) {
        PollStep::Ready(Err(SendRequestError::Timeout)) => {}
        _ => panic!("the armed timer still preempts later cycles"),
    }
}

#[test]
fn no_deadline_response_passes_through() {
    let mut task = SendClientRequest::new(prepared(empty_owned()), false, None);
    match task.poll_deadline(false) {
        PollStep::PollTransport => {}
        _ => panic!("no deadline, so the transport is polled"),
    }
    let res = response(204, None, b"payload");
    match task.poll_transport(TransportPoll::Done(Ok(res))) {
        PollOutcome::Ready(Ok(wrapped)) => {
            assert_eq!(wrapped.head.status, 204);
            assert_eq!(wrapped.payload.encoding, ContentEncoding::Identity);
            assert_eq!(wrapped.payload.inner.data, b"payload".to_vec());
        }
        _ => panic!("a completed send resolves the task"),
    }
    assert!(task.resolved());
}

#[test]
fn transport_error_propagates_verbatim() {
    let mut task = SendClientRequest::new(prepared(empty_owned()), true, None);
    assert!(matches!(task.poll_deadline(false), PollStep::PollTransport));
    let err = SendRequestError::Transport(String::from("connection reset"));
    match task.poll_transport(TransportPoll::Done(Err(err))) {
        PollOutcome::Ready(Err(SendRequestError::Transport(msg))) => {
            assert_eq!(msg, "connection reset");
        }
        _ => panic!("a transport error propagates verbatim"),
    }
    assert!(task.resolved());
}

#[test]
fn decompress_off_always_wraps_identity() {
    // The response declares gzip, yet the flag is off: identity wrapping.
    let mut task = SendClientRequest::new(prepared(empty_owned()), false, None);
    assert!(matches!(task.poll_deadline(false), PollStep::PollTransport));
    let res = response(200, Some(b"gzip"), b"compressed");
    match task.poll_transport(TransportPoll::Done(Ok(res))) {
        PollOutcome::Ready(Ok(wrapped)) => {
            assert_eq!(wrapped.payload.encoding, ContentEncoding::Identity);
            assert_eq!(wrapped.payload.inner.data, b"compressed".to_vec());
        }
        _ => panic!("a completed send resolves the task"),
    }
}

#[test]
fn decompress_on_selects_declared_encoding() {
    for (token, expected) in [
        (&b"gzip"[..], ContentEncoding::Gzip),
        (&b"deflate"[..], ContentEncoding::Deflate),
        (&b"br"[..], ContentEncoding::Br),
        (&b"zstd"[..], ContentEncoding::Identity),
    ] {
        let mut task = SendClientRequest::new(prepared(empty_owned()), true, None);
        assert!(matches!(task.poll_deadline(false), PollStep::PollTransport));
        let res = response(200, Some(token), b"body");
        match task.poll_transport(TransportPoll::Done(Ok(res))) {
            PollOutcome::Ready(Ok(wrapped)) => {
                assert_eq!(wrapped.payload.encoding, expected);
            }
            _ => panic!("a completed send resolves the task"),
        }
    }
}

#[test]
fn decompress_on_without_declaration_is_identity() {
    let mut task = SendClientRequest::new(prepared(empty_owned()), true, None);
    assert!(matches!(task.poll_deadline(false), PollStep::PollTransport));
    match task.poll_transport(TransportPoll::Done(Ok(response(200, None, b"x")))) {
        PollOutcome::Ready(Ok(wrapped)) => {
            assert_eq!(wrapped.payload.encoding, ContentEncoding::Identity);
        }
        _ => panic!("a completed send resolves the task"),
    }
}

#[test]
fn terminal_error_yields_on_first_poll() {
    let e = SendRequestError::Http(HttpError::InvalidHeaderValue);
    let mut task = SendClientRequest::from_send_error(e);
    assert!(!task.resolved());
    match task.poll_deadline(false) {
        PollStep::Ready(Err(SendRequestError::Http(HttpError::InvalidHeaderValue))) => {}
        _ => panic!("the stored error is yielded on first poll"),
    }
    assert!(task.resolved());
}

#[test]
fn send_json_scenario_end_to_end() {
    // Owned head with no headers, a JSON body of {"a":1}, no timeout,
    // decompression on, and a transport that returns 200 at once.
    let mut value = BTreeMap::new();
    value.insert(String::from("a"), 1u64);
    let mut task = empty_owned().send_json(None, true, None, &no_default(), &value);
    match &task {
        SendClientRequest::Fut(prep, timeout, decompress) => {
            assert_eq!(*timeout, None);
            assert!(*decompress);
            match &prep.body {
                Body::Bytes(bytes) => assert_eq!(bytes, &br#"{"a":1}"#.to_vec()),
                _ => panic!("the JSON body is a byte buffer"),
            }
            match &prep.head {
                RequestHeadType::Owned(h) => {
                    assert_eq!(
                        h.headers.get(&content_type()).unwrap().as_bytes(),
                        b"application/json"
                    );
                }
                _ => panic!("mode must not change"),
            }
        }
        _ => panic!("a successful encoding prepares an active task"),
    }
    assert!(matches!(task.poll_deadline(false), PollStep::PollTransport));
    match task.poll_transport(TransportPoll::Done(Ok(response(200, None, b"ok")))) {
        PollOutcome::Ready(Ok(wrapped)) => {
            assert_eq!(wrapped.head.status, 200);
            assert_eq!(wrapped.payload.encoding, ContentEncoding::Identity);
        }
        _ => panic!("a completed send resolves the task"),
    }
}

#[test]
fn send_json_keeps_explicit_content_type() {
    let mut head = empty_owned();
    head.set_header_if_none(content_type(), b"text/plain").unwrap();
    let task = head.send_json(None, false, None, &no_default(), &17u32);
    match task {
        SendClientRequest::Fut(prep, _, _) => match &prep.head {
            RequestHeadType::Owned(h) => {
                assert_eq!(h.headers.len(), 1);
                assert_eq!(
                    h.headers.get(&content_type()).unwrap().as_bytes(),
                    b"text/plain"
                );
            }
            _ => panic!("mode must not change"),
        },
        _ => panic!("a successful encoding prepares an active task"),
    }
}

#[test]
fn send_json_serialize_failure_short_circuits() {
    // A map with non-string keys is not representable as JSON.
    let mut bad = BTreeMap::new();
    bad.insert((1u8, 2u8), 3u8);
    let mut task = empty_owned().send_json(None, false, None, &no_default(), &bad);
    match &task {
        SendClientRequest::Error(Some(SendRequestError::Error(_))) => {}
        _ => panic!("a failed encoding yields a terminal-error task"),
    }
    match task.poll_deadline(false) {
        PollStep::Ready(Err(SendRequestError::Error(_))) => {}
        _ => panic!("the preparation error is yielded on first poll"),
    }
    assert!(task.resolved());
}

#[test]
fn send_form_success_body_and_header() {
    let pairs = vec![(String::from("a"), String::from("1")), (String::from("b"), String::from("2"))];
    let task = empty_owned().send_form(None, false, None, &no_default(), &pairs);
    match task {
        SendClientRequest::Fut(prep, _, _) => {
            match &prep.body {
                Body::Bytes(bytes) => assert_eq!(bytes, &b"a=1&b=2".to_vec()),
                _ => panic!("the form body is a byte buffer"),
            }
            match &prep.head {
                RequestHeadType::Owned(h) => assert_eq!(
                    h.headers.get(&content_type()).unwrap().as_bytes(),
                    b"application/x-www-form-urlencoded"
                ),
                _ => panic!("mode must not change"),
            }
        }
        _ => panic!("a successful encoding prepares an active task"),
    }
}

#[test]
fn send_form_serialize_failure_short_circuits() {
    // A nested map is not representable as a flat form.
    let mut inner = BTreeMap::new();
    inner.insert(String::from("x"), String::from("y"));
    let mut nested = BTreeMap::new();
    nested.insert(String::from("outer"), inner);
    let task = empty_owned().send_form(None, false, None, &no_default(), &nested);
    match task {
        SendClientRequest::Error(Some(SendRequestError::Error(_))) => {}
        _ => panic!("a failed encoding yields a terminal-error task"),
    }
}

#[test]
fn send_stream_sets_no_content_type() {
    let task = empty_owned().send_stream(None, false, None, &no_default());
    match task {
        SendClientRequest::Fut(prep, _, _) => {
            assert!(matches!(prep.body, Body::Stream));
            match &prep.head {
                RequestHeadType::Owned(h) => assert_eq!(h.headers.len(), 0),
                _ => panic!("mode must not change"),
            }
        }
        _ => panic!("a stream send prepares an active task"),
    }
}

#[test]
fn send_uses_empty_body() {
    let task = empty_owned().send(Some(String::from("127.0.0.1:8080")), false, None, &no_default());
    match task {
        SendClientRequest::Fut(prep, _, _) => {
            assert!(matches!(prep.body, Body::Empty));
            assert_eq!(prep.addr, Some(String::from("127.0.0.1:8080")));
        }
        _ => panic!("an empty send prepares an active task"),
    }
}

#[test]
fn prep_error_conversions_are_exhaustive() {
    let url = PrepForSendingError::Url(InvalidUrl::MissingScheme);
    let http = PrepForSendingError::Http(HttpError::InvalidHeaderName);
    assert_eq!(
        url.into_freeze_error(),
        FreezeRequestError::Url(InvalidUrl::MissingScheme)
    );
    assert_eq!(
        http.into_freeze_error(),
        FreezeRequestError::Http(HttpError::InvalidHeaderName)
    );
    assert_eq!(
        url.into_send_error(),
        SendRequestError::Url(InvalidUrl::MissingScheme)
    );
    assert_eq!(
        http.into_send_error(),
        SendRequestError::Http(HttpError::InvalidHeaderName)
    );
    match SendClientRequest::from_prep_error(http) {
        SendClientRequest::Error(Some(SendRequestError::Http(HttpError::InvalidHeaderName))) => {}
        _ => panic!("a preparation failure makes a terminal-error task"),
    }
    match SendClientRequest::from_http_error(HttpError::InvalidHeaderValue) {
        SendClientRequest::Error(Some(SendRequestError::Http(HttpError::InvalidHeaderValue))) => {}
        _ => panic!("an HTTP failure makes a terminal-error task"),
    }
}
