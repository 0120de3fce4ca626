//! The send-request task: the body-encoding entry points that converge on one
//! prepared request, and the poll-driven state machine that races an optional
//! deadline against the transport's send operation, wrapping the response
//! body in one uniform transform on success.
//!
//! The transport itself is a collaborator: it receives the prepared request
//! and is polled by the caller's scheduler, which reports what it observed
//! through [`SendClientRequest::poll_deadline`] and
//! [`SendClientRequest::poll_transport`]. Within one poll cycle the deadline
//! is checked strictly before the transport, so an elapsed deadline wins ties.

use vstd::prelude::*;

use crate::encode::{form_encode, json_encode};
use crate::error::{HttpError, PrepForSendingError, SendRequestError};
use crate::head::{base_preserved, head_apply_set_if_none, head_visible, RequestHeadType};
use crate::header::{content_type, spec_content_encoding_name, spec_content_type_name, wf_value};
use crate::response::{spec_selected_encoding, ClientResponse, ContentEncoding, Decoder, Payload};

verus! {

/// Client-wide configuration this layer reads: the default timeout, in
/// milliseconds, used when a call gives none.
#[derive(Debug, Clone, Copy, PartialEq, Eq, Structural)]
pub struct ClientConfig {
    pub timeout: Option<u64>,
}

/// A transport body: empty, a buffer of bytes, or a caller-supplied stream of
/// byte chunks. The stream itself stays with the caller, who hands it to the
/// transport together with the prepared request.
#[derive(Debug)]
pub enum Body {
    Empty,
    Bytes(Vec<u8>),
    Stream,
}

/// Everything the transport needs to create the send operation: the request
/// head, the body, and an optional target address override, passed through
/// untouched.
#[derive(Debug)]
pub struct PreparedRequest {
    pub head: RequestHeadType,
    pub body: Body,
    pub addr: Option<String>,
}

/// The per-call timeout, falling back to the client-wide default when unset.
pub open spec fn spec_resolved_timeout(timeout: Option<u64>, config: ClientConfig) -> Option<
    u64,
> {
    match timeout {
        Some(t) => Some(t),
        None => config.timeout,
    }
}

/// A single-use task that resolves to a server response or an error.
///
/// `Fut` holds the prepared request for the in-flight send operation, the
/// resolved deadline in milliseconds (the timer is armed exactly when it is
/// `Some`), and the decompression flag. `Error(Some(e))` is the terminal-error
/// state: `e` is yielded on the first poll. `Error(None)` marks a task that has
/// already yielded its final result; polling it again is a contract
/// violation.
#[derive(Debug)]
pub enum SendClientRequest {
    Fut(PreparedRequest, Option<u64>, bool),
    Error(Option<SendRequestError>),
}

/// What one deadline check decides: the final result is ready now (an elapsed
/// deadline or a stored error), or the transport must be polled.
#[derive(Debug)]
pub enum PollStep {
    Ready(Result<ClientResponse<Decoder>, SendRequestError>),
    PollTransport,
}

/// What polling the transport's send operation observed.
#[derive(Debug)]
pub enum TransportPoll {
    Pending,
    Done(Result<ClientResponse<Payload>, SendRequestError>),
}

/// The task's answer after the transport was polled: suspend and keep the
/// timer armed, or the final result.
#[derive(Debug)]
pub enum PollOutcome {
    Pending,
    Ready(Result<ClientResponse<Decoder>, SendRequestError>),
}

/// The response as yielded to the caller: the head passes through unchanged;
/// the payload is wrapped in the decoder selected from the response's own
/// headers when decompression is on, and in the identity transform when it is
/// off, so the body type is uniform in both cases.
pub open spec fn spec_wrap_response(res: ClientResponse<Payload>, response_decompress: bool) -> ClientResponse<Decoder> {
    ClientResponse {
        head: res.head,
        payload: Decoder {
            encoding: if response_decompress {
                spec_selected_encoding(res.head.headers@)
            } else {
                ContentEncoding::Identity
            },
            inner: res.payload,
        },
    }
}

/// One deadline check on state `s`: a stored error or an elapsed armed timer
/// resolves the task now and disables it; otherwise the state is kept and the
/// transport is to be polled. Undefined on a task already resolved.
pub open spec fn spec_poll_deadline(s: SendClientRequest, deadline_elapsed: bool) -> (
    SendClientRequest,
    PollStep,
) {
    match s {
        SendClientRequest::Fut(_, timeout, _) => {
            if timeout is Some && deadline_elapsed {
                (
                    SendClientRequest::Error(None),
                    PollStep::Ready(Err(SendRequestError::Timeout)),
                )
            } else {
                (s, PollStep::PollTransport)
            }
        },
        SendClientRequest::Error(e) => match e {
            Some(err) => (SendClientRequest::Error(None), PollStep::Ready(Err(err))),
            None => arbitrary(),
        },
    }
}

/// The transport's observation applied to active state `s`: pending suspends
/// with the state (and timer) kept; a completed send resolves the task and
/// disables it, the response body wrapped per the decompression flag, a
/// transport error passed through verbatim. Undefined off the active state.
pub open spec fn spec_poll_transport(s: SendClientRequest, t: TransportPoll) -> (
    SendClientRequest,
    PollOutcome,
) {
    match s {
        SendClientRequest::Fut(_, _, response_decompress) => match t {
            TransportPoll::Pending => (s, PollOutcome::Pending),
            TransportPoll::Done(Ok(res)) => (
                SendClientRequest::Error(None),
                PollOutcome::Ready(Ok(spec_wrap_response(res, response_decompress))),
            ),
            TransportPoll::Done(Err(e)) => (
                SendClientRequest::Error(None),
                PollOutcome::Ready(Err(e)),
            ),
        },
        SendClientRequest::Error(_) => arbitrary(),
    }
}

impl SendClientRequest {
    /// The task has already yielded its final result; any further poll is a
    /// contract violation and must fail loudly in the caller.
    pub open spec fn is_resolved(self) -> bool {
        match self {
            SendClientRequest::Error(e) => e is None,
            _ => false,
        }
    }

    /// The task still holds an in-flight send operation.
    pub open spec fn is_active(self) -> bool {
        self is Fut
    }

    /// A new task around a prepared send operation; the deadline timer is
    /// armed exactly when a timeout is given.
    pub fn new(send: PreparedRequest, response_decompress: bool, timeout: Option<u64>) -> (r:
        SendClientRequest)
        ensures
            r == SendClientRequest::Fut(send, timeout, response_decompress),
    {
        SendClientRequest::Fut(send, timeout, response_decompress)
    }

    /// A task born in the terminal-error state: `e` is yielded on first poll,
    /// before any transport work.
    pub fn from_send_error(e: SendRequestError) -> (r: SendClientRequest)
        ensures
            r == SendClientRequest::Error(Some(e)),
    {
        SendClientRequest::Error(Some(e))
    }

    /// A terminal-error task from an HTTP-layer preparation failure.
    pub fn from_http_error(e: HttpError) -> (r: SendClientRequest)
        ensures
            r == SendClientRequest::Error(Some(SendRequestError::Http(e))),
    {
        SendClientRequest::Error(Some(SendRequestError::Http(e)))
    }

    /// A terminal-error task from a preparation failure.
    pub fn from_prep_error(e: PrepForSendingError) -> (r: SendClientRequest)
        ensures
            r == SendClientRequest::Error(Some(match e {
                PrepForSendingError::Url(u) => SendRequestError::Url(u),
                PrepForSendingError::Http(h) => SendRequestError::Http(h),
            })),
    {
        SendClientRequest::Error(Some(e.into_send_error()))
    }

    /// Whether the task has already yielded its final result. Callers must
    /// check this and fail loudly instead of polling again.
    pub fn resolved(&self) -> (r: bool)
        ensures
            r == self.is_resolved(),
    {
        match self {
            SendClientRequest::Error(e) => e.is_none(),
            _ => false,
        }
    }

    /// Whether the task still holds an in-flight send operation. Callers must
    /// check this before reporting a transport observation.
    pub fn active(&self) -> (r: bool)
        ensures
            r == self.is_active(),
    {
        match self {
            SendClientRequest::Fut(..) => true,
            _ => false,
        }
    }

    /// Step 1 of one poll cycle: the deadline timer, when armed, is checked
    /// strictly before the transport, so an already-elapsed deadline yields
    /// the timeout error without the transport ever being consulted — even if
    /// the send operation were also ready. A stored terminal error is yielded
    /// the same way. Otherwise the caller proceeds to poll the transport.
    pub fn poll_deadline(&mut self, deadline_elapsed: bool) -> (r: PollStep)
        requires
            !old(self).is_resolved(),
        ensures
            (*final(self), r) == spec_poll_deadline(*old(self), deadline_elapsed),
    {
        let timed_out: bool = match self {
            SendClientRequest::Fut(_, timeout, _) => timeout.is_some() && deadline_elapsed,
            SendClientRequest::Error(_) => false,
        };
        if timed_out {
            *self = SendClientRequest::Error(None);
            return PollStep::Ready(Err(SendRequestError::Timeout));
        }
        match self {
            SendClientRequest::Fut(..) => PollStep::PollTransport,
            SendClientRequest::Error(e) => match e.take() {
                Some(err) => PollStep::Ready(Err(err)),
                None => unreached(),
            },
        }
    }

    /// Steps 2 to 5 of one poll cycle, reached only while the task is active
    /// and the deadline had not elapsed: a pending transport suspends the task
    /// with the timer still armed; a completed send resolves it, the response
    /// passed through unchanged except that its body is wrapped — in the
    /// decoder selected from its content-encoding header if decompression is
    /// on, in the identity transform if it is off — and a transport error is
    /// propagated verbatim.
    pub fn poll_transport(&mut self, t: TransportPoll) -> (r: PollOutcome)
        requires
            old(self).is_active(),
            t matches TransportPoll::Done(Ok(res)) ==> res.head.wf(),
        ensures
            (*final(self), r) == spec_poll_transport(*old(self), t),
    {
        let response_decompress: bool = match self {
            SendClientRequest::Fut(_, _, d) => *d,
            SendClientRequest::Error(_) => unreached(),
        };
        match t {
            TransportPoll::Pending => PollOutcome::Pending,
            TransportPoll::Done(res) => {
                *self = SendClientRequest::Error(None);
                match res {
                    Ok(response) => PollOutcome::Ready(
                        Ok(wrap_response(response, response_decompress)),
                    ),
                    Err(e) => PollOutcome::Ready(Err(e)),
                }
            },
        }
    }
}

/// Wraps a completed response's body in the uniform transform: the decoder
/// selected from the response's own headers when decompression is on, the
/// identity transform when it is off. Everything else passes through.
pub fn wrap_response(res: ClientResponse<Payload>, response_decompress: bool) -> (r:
    ClientResponse<Decoder>)
    requires
        res.head.wf(),
    ensures
        r == spec_wrap_response(res, response_decompress),
{
    let ClientResponse { head, payload } = res;
    let wrapped = if response_decompress {
        Decoder::from_headers(payload, &head.headers)
    } else {
        Decoder::identity(payload)
    };
    ClientResponse { head, payload: wrapped }
}

/// The `application/json` default content-type, in ASCII.
pub open spec fn spec_mime_json() -> Seq<u8> {
    seq![97u8, 112, 112, 108, 105, 99, 97, 116, 105, 111, 110, 47, 106, 115, 111, 110]
}

/// The `application/x-www-form-urlencoded` default content-type, in ASCII.
pub open spec fn spec_mime_form() -> Seq<u8> {
    seq![
        97u8, 112, 112, 108, 105, 99, 97, 116, 105, 111, 110, 47, 120, 45, 119, 119, 119, 45, 102,
        111, 114, 109, 45, 117, 114, 108, 101, 110, 99, 111, 100, 101, 100,
    ]
}

/// The `application/json` default content-type value.
pub fn mime_json() -> (v: Vec<u8>)
    ensures
        v@ == spec_mime_json(),
        wf_value(v@),
{
    let v: Vec<u8> = vec![
        97u8, 112, 112, 108, 105, 99, 97, 116, 105, 111, 110, 47, 106, 115, 111, 110,
    ];
    proof {
        assert(v@ =~= spec_mime_json());
    }
    v
}

/// The `application/x-www-form-urlencoded` default content-type value.
pub fn mime_form() -> (v: Vec<u8>)
    ensures
        v@ == spec_mime_form(),
        wf_value(v@),
{
    let v: Vec<u8> = vec![
        97u8, 112, 112, 108, 105, 99, 97, 116, 105, 111, 110, 47, 120, 45, 119, 119, 119, 45, 102,
        111, 114, 109, 45, 117, 114, 108, 101, 110, 99, 111, 100, 101, 100,
    ];
    proof {
        assert(v@ =~= spec_mime_form());
    }
    v
}

/// What dispatching an encoded body guarantees, for every outcome `encoded`
/// of the encoder. A failed encoding short-circuits to a terminal-error task
/// carrying the encoder's message, before any transport work. On success the
/// default content-type `ct` is set only if none is visible, and the task is
/// active around the prepared request, with the resolved timeout and the
/// decompression flag as given.
pub open spec fn send_serialized_post(
    head: RequestHeadType,
    encoded: Result<Vec<u8>, String>,
    ct: Seq<u8>,
    addr: Option<String>,
    response_decompress: bool,
    timeout: Option<u64>,
    config: ClientConfig,
    r: SendClientRequest,
) -> bool {
    match encoded {
        Err(msg) => r == SendClientRequest::Error(Some(SendRequestError::Error(msg))),
        Ok(bytes) => {
            if !head_visible(head@, spec_content_type_name()) && !wf_value(ct) {
                r == SendClientRequest::Error(
                    Some(SendRequestError::Http(HttpError::InvalidHeaderValue)),
                )
            } else {
                r matches SendClientRequest::Fut(prep, t, d)
                    && prep.head@ == head_apply_set_if_none(head@, spec_content_type_name(), ct)
                    && (head_visible(head@, spec_content_type_name()) ==> prep.head == head)
                    && base_preserved(head, prep.head)
                    && prep.head.wf()
                    && prep.body == Body::Bytes(bytes)
                    && prep.addr == addr
                    && t == spec_resolved_timeout(timeout, config)
                    && d == response_decompress
            }
        },
    }
}

impl RequestHeadType {
    /// The lowest-level entry: asks nothing of the body and prepares the send
    /// as-is, with the per-call timeout falling back to the client default.
    pub fn send_body(
        self,
        addr: Option<String>,
        response_decompress: bool,
        timeout: Option<u64>,
        config: &ClientConfig,
        body: Body,
    ) -> (r: SendClientRequest)
        ensures
            r == SendClientRequest::Fut(
                PreparedRequest { head: self, body, addr },
                spec_resolved_timeout(timeout, *config),
                response_decompress,
            ),
    {
        let resolved = match timeout {
            Some(t) => Some(t),
            None => config.timeout,
        };
        SendClientRequest::new(
            PreparedRequest { head: self, body, addr },
            response_decompress,
            resolved,
        )
    }

    /// Dispatches an already-encoded body: short-circuits a failed encoding
    /// to a terminal-error task, otherwise fills in the default content-type
    /// without overriding an explicit one and prepares the send.
    pub fn send_serialized(
        self,
        encoded: Result<Vec<u8>, String>,
        content_type_value: &[u8],
        addr: Option<String>,
        response_decompress: bool,
        timeout: Option<u64>,
        config: &ClientConfig,
    ) -> (r: SendClientRequest)
        requires
            self.wf(),
        ensures
            send_serialized_post(
                self,
                encoded,
                content_type_value@,
                addr,
                response_decompress,
                timeout,
                *config,
                r,
            ),
    {
        match encoded {
            Err(msg) => SendClientRequest::from_send_error(SendRequestError::Error(msg)),
            Ok(bytes) => {
                let mut this = self;
                match this.set_header_if_none(content_type(), content_type_value) {
                    Ok(()) => this.send_body(
                        addr,
                        response_decompress,
                        timeout,
                        config,
                        Body::Bytes(bytes),
                    ),
                    Err(e) => SendClientRequest::from_http_error(e),
                }
            },
        }
    }

    /// Serializes `value` as JSON and sends it, defaulting the content-type
    /// to `application/json` without overriding an explicit one. A value the
    /// encoder rejects yields a task already in its terminal error state: the
    /// caller can tell synchronously that no transport work was begun.
    pub fn send_json<T: serde::Serialize>(
        self,
        addr: Option<String>,
        response_decompress: bool,
        timeout: Option<u64>,
        config: &ClientConfig,
        value: &T,
    ) -> (r: SendClientRequest)
        requires
            self.wf(),
        ensures
            exists|encoded: Result<Vec<u8>, String>|
                send_serialized_post(
                    self,
                    encoded,
                    spec_mime_json(),
                    addr,
                    response_decompress,
                    timeout,
                    *config,
                    r,
                ),
    {
        let encoded = json_encode(value);
        let ghost enc = encoded;
        let ghost given_addr = addr;
        let mime = mime_json();
        let r = self.send_serialized(
            encoded,
            mime.as_slice(),
            addr,
            response_decompress,
            timeout,
            config,
        );
        proof {
            assert(send_serialized_post(
                self,
                enc,
                spec_mime_json(),
                given_addr,
                response_decompress,
                timeout,
                *config,
                r,
            ));
        }
        r
    }

    /// Serializes `value` as a URL-encoded form and sends it, defaulting the
    /// content-type to `application/x-www-form-urlencoded` without overriding
    /// an explicit one. A value the encoder rejects yields a task already in
    /// its terminal error state.
    pub fn send_form<T: serde::Serialize>(
        self,
        addr: Option<String>,
        response_decompress: bool,
        timeout: Option<u64>,
        config: &ClientConfig,
        value: &T,
    ) -> (r: SendClientRequest)
        requires
            self.wf(),
        ensures
            exists|encoded: Result<Vec<u8>, String>|
                send_serialized_post(
                    self,
                    encoded,
                    spec_mime_form(),
                    addr,
                    response_decompress,
                    timeout,
                    *config,
                    r,
                ),
    {
        let encoded = form_encode(value);
        let ghost enc = encoded;
        let ghost given_addr = addr;
        let mime = mime_form();
        let r = self.send_serialized(
            encoded,
            mime.as_slice(),
            addr,
            response_decompress,
            timeout,
            config,
        );
        proof {
            assert(send_serialized_post(
                self,
                enc,
                spec_mime_form(),
                given_addr,
                response_decompress,
                timeout,
                *config,
                r,
            ));
        }
        r
    }

    /// Sends a caller-supplied stream of byte chunks as the body; no default
    /// content-type is applied — that is the caller's responsibility. The
    /// stream itself stays with the caller, who hands it to the transport
    /// together with the prepared request.
    pub fn send_stream(
        self,
        addr: Option<String>,
        response_decompress: bool,
        timeout: Option<u64>,
        config: &ClientConfig,
    ) -> (r: SendClientRequest)
        ensures
            r == SendClientRequest::Fut(
                PreparedRequest { head: self, body: Body::Stream, addr },
                spec_resolved_timeout(timeout, *config),
                response_decompress,
            ),
    {
        self.send_body(addr, response_decompress, timeout, config, Body::Stream)
    }

    /// Sends with an empty body.
    pub fn send(
        self,
        addr: Option<String>,
        response_decompress: bool,
        timeout: Option<u64>,
        config: &ClientConfig,
    ) -> (r: SendClientRequest)
        ensures
            r == SendClientRequest::Fut(
                PreparedRequest { head: self, body: Body::Empty, addr },
                spec_resolved_timeout(timeout, *config),
                response_decompress,
            ),
    {
        self.send_body(addr, response_decompress, timeout, config, Body::Empty)
    }
}

/// A task whose armed deadline has already elapsed resolves to the timeout
/// error on its very first poll, whatever the transport's send operation
/// would have produced: the deadline check precedes the transport check, so
/// the transport is never consulted.
pub proof fn lemma_elapsed_deadline_times_out(
    prep: PreparedRequest,
    timeout: u64,
    response_decompress: bool,
)
    ensures
        spec_poll_deadline(
            SendClientRequest::Fut(prep, Some(timeout), response_decompress),
            true,
        ) == (
            SendClientRequest::Error(None),
            PollStep::Ready(Err::<ClientResponse<Decoder>, SendRequestError>(
                SendRequestError::Timeout,
            )),
        ),
{
}

/// A task with no deadline proceeds to the transport on every poll cycle, and
/// a completed send resolves it to exactly the response the transport
/// delivered — same head, same payload bytes — changed only by the body
/// wrapping.
pub proof fn lemma_no_deadline_response_passes_through(
    prep: PreparedRequest,
    response_decompress: bool,
    deadline_elapsed: bool,
    res: ClientResponse<Payload>,
)
    ensures
        ({
            let s = SendClientRequest::Fut(prep, None, response_decompress);
            let wrapped = spec_wrap_response(res, response_decompress);
            &&& spec_poll_deadline(s, deadline_elapsed) == (s, PollStep::PollTransport)
            &&& spec_poll_transport(s, TransportPoll::Done(Ok(res))) == (
                SendClientRequest::Error(None),
                PollOutcome::Ready(Ok::<ClientResponse<Decoder>, SendRequestError>(wrapped)),
            )
            &&& wrapped.head == res.head
            &&& wrapped.payload.inner == res.payload
        }),
{
}

/// With decompression off, the response body is always wrapped in the
/// identity transform, even when the response declares a non-identity
/// content encoding.
pub proof fn lemma_decompress_off_is_identity(res: ClientResponse<Payload>)
    ensures
        spec_wrap_response(res, false).payload.encoding == ContentEncoding::Identity,
        spec_wrap_response(res, false).payload.inner == res.payload,
        spec_wrap_response(res, false).head == res.head,
{
}

/// With decompression on, the response body is wrapped in the decoder the
/// response's own content-encoding header declares; a missing or unrecognized
/// declaration yields the identity transform.
pub proof fn lemma_decompress_on_selects_declared(res: ClientResponse<Payload>)
    ensures
        spec_wrap_response(res, true).payload.encoding == spec_selected_encoding(
            res.head.headers@,
        ),
        !res.head.headers@.contains_key(spec_content_encoding_name())
            ==> spec_wrap_response(res, true).payload.encoding == ContentEncoding::Identity,
        spec_wrap_response(res, true).payload.inner == res.payload,
        spec_wrap_response(res, true).head == res.head,
{
}

/// A body encoding the serializer rejected short-circuits: the task is
/// already in its terminal error state, carrying the encoder's message, and
/// holds no prepared request — no transport send was constructed.
pub proof fn lemma_failed_encoding_short_circuits(
    head: RequestHeadType,
    msg: String,
    ct: Seq<u8>,
    addr: Option<String>,
    response_decompress: bool,
    timeout: Option<u64>,
    config: ClientConfig,
    r: SendClientRequest,
)
    requires
        send_serialized_post(
            head,
            Err(msg),
            ct,
            addr,
            response_decompress,
            timeout,
            config,
            r,
        ),
    ensures
        r == SendClientRequest::Error(Some(SendRequestError::Error(msg))),
        !r.is_active(),
{
}

/// Dispatching a successfully encoded body never overrides an explicit
/// content-type: a head on which one is visible is passed to the transport
/// exactly as it was. On a head without one, the prepared head carries the
/// default `ct` under the content-type name.
pub proof fn lemma_content_type_default_fills_gaps_only(
    head: RequestHeadType,
    bytes: Vec<u8>,
    ct: Seq<u8>,
    addr: Option<String>,
    response_decompress: bool,
    timeout: Option<u64>,
    config: ClientConfig,
    r: SendClientRequest,
)
    requires
        send_serialized_post(
            head,
            Ok(bytes),
            ct,
            addr,
            response_decompress,
            timeout,
            config,
            r,
        ),
        wf_value(ct),
    ensures
        head_visible(head@, spec_content_type_name()) ==> (r matches SendClientRequest::Fut(
            prep,
            _t,
            _d,
        ) && prep.head == head),
        !head_visible(head@, spec_content_type_name()) ==> (r matches SendClientRequest::Fut(
            prep,
            _t,
            _d,
        ) && head_visible(prep.head@, spec_content_type_name()) && crate::head::head_lookup(
            prep.head@,
            spec_content_type_name(),
        ) == ct),
{
}

} // verus!
