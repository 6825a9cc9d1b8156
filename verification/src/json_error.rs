//! The error stage: it turns every failed response into one JSON envelope.
//!
//! For a server error the envelope shows a fresh correlation identifier and
//! nothing of the error itself; for a client error it shows the error as the
//! handler gave it. Every other response passes untouched.

use vstd::prelude::*;
use vstd::utf8::encode_utf8;
use crate::context::{is_set, lookup, ErrorDetail, Request, Response};
use crate::ids::{is_canonical, CorrelationId, RequestId};
use crate::json::{json_string, write_json_str};
use crate::status::StatusCode;
use crate::text::{decimal, push_decimal, push_text};
use crate::trace::TraceId;

verus! {

/// The body of an error response.
///
/// As JSON it reads, for example:
/// ```text
/// {"status":422,"title":"Unprocessable Entity","message":"missing field \"address\"","request_id":"00000000-0000-0000-0000-000000000000","correlation_id":null}
/// ```
#[derive(Debug)]
pub struct JsonError {
    /// The HTTP status code.
    pub status: u16,
    /// The canonical reason phrase of the status code.
    pub title: String,
    /// For a client error, the error as the handler gave it, or
    /// `(no additional context)` where it gave none. For a server error,
    /// `Internal Server Error (correlation_id=...)` and nothing else.
    pub message: String,
    /// The identifier of the request.
    pub request_id: RequestId,
    /// The identifier of the failure, for server errors only.
    pub correlation_id: Option<String>,
    /// The identifier of the trace, where the request carried one.
    pub honeycomb_trace_id: Option<String>,
}

/// What a `JsonError` holds.
pub struct EnvelopeView {
    pub status: u16,
    pub title: Seq<char>,
    pub message: Seq<char>,
    pub request_id: Seq<char>,
    pub correlation_id: Option<Seq<char>>,
    pub honeycomb_trace_id: Option<Seq<char>>,
}

impl View for JsonError {
    type V = EnvelopeView;

    open spec fn view(&self) -> EnvelopeView {
        EnvelopeView {
            status: self.status,
            title: self.title@,
            message: self.message@,
            request_id: self.request_id@,
            correlation_id: match self.correlation_id {
                Some(c) => Some(c@),
                None => None,
            },
            honeycomb_trace_id: match self.honeycomb_trace_id {
                Some(t) => Some(t@),
                None => None,
            },
        }
    }
}

/// A JSON string, or `null`.
pub open spec fn json_optional(text: Option<Seq<char>>) -> Seq<char> {
    match text {
        Some(t) => json_string(t),
        None => "null"@,
    }
}

/// The member for the trace identifier, which is written only where there
/// is one.
pub open spec fn json_trace_member(trace_id: Option<Seq<char>>) -> Seq<char> {
    match trace_id {
        Some(t) => ",\"honeycomb_trace_id\":"@ + json_string(t),
        None => Seq::empty(),
    }
}

/// The envelope as compact JSON, members in the order of the fields.
pub open spec fn envelope_json(e: EnvelopeView) -> Seq<char> {
    "{\"status\":"@ + decimal(e.status as nat) + ",\"title\":"@ + json_string(e.title)
        + ",\"message\":"@ + json_string(e.message) + ",\"request_id\":"@ + json_string(
        e.request_id,
    ) + ",\"correlation_id\":"@ + json_optional(e.correlation_id) + json_trace_member(
        e.honeycomb_trace_id,
    ) + "}"@
}

impl JsonError {
    /// The envelope as compact JSON.
    pub fn to_json(&self) -> (r: String)
        ensures
            r@ == envelope_json(self@),
    {
        let mut out = String::new();
        push_text(&mut out, "{\"status\":");
        push_decimal(&mut out, self.status as u64);
        push_text(&mut out, ",\"title\":");
        write_json_str(&mut out, self.title.as_str());
        push_text(&mut out, ",\"message\":");
        write_json_str(&mut out, self.message.as_str());
        push_text(&mut out, ",\"request_id\":");
        write_json_str(&mut out, self.request_id.as_str());
        push_text(&mut out, ",\"correlation_id\":");
        match &self.correlation_id {
            Some(c) => {
                write_json_str(&mut out, c.as_str());
            },
            None => {
                push_text(&mut out, "null");
            },
        }
        match &self.honeycomb_trace_id {
            Some(t) => {
                push_text(&mut out, ",\"honeycomb_trace_id\":");
                write_json_str(&mut out, t.as_str());
            },
            None => {},
        }
        push_text(&mut out, "}");
        assert(out@ =~= envelope_json(self@));
        out
    }
}

/// What the error stage keeps of a request while the request is handled.
#[derive(Debug)]
pub struct ErrorContext {
    pub request_id: RequestId,
    pub trace_id: Option<TraceId>,
}

/// The text of a trace identifier, where there is one.
pub open spec fn trace_view(trace_id: Option<TraceId>) -> Option<Seq<char>> {
    match trace_id {
        Some(t) => Some(t@),
        None => None,
    }
}

/// The message of a server error: the correlation identifier and no more.
pub open spec fn server_message(correlation: Seq<char>) -> Seq<char> {
    "Internal Server Error (correlation_id="@ + correlation + ")"@
}

/// The message of a client error: the handler's error, or a placeholder.
pub open spec fn client_message(error: Option<ErrorDetail>) -> Seq<char> {
    match error {
        Some(e) => e.message@,
        None => "(no additional context)"@,
    }
}

/// The envelope of a server error.
pub open spec fn server_envelope(status: StatusCode, ctx: ErrorContext, correlation: Seq<char>)
    -> EnvelopeView {
    EnvelopeView {
        status: status.code(),
        title: status.reason(),
        message: server_message(correlation),
        request_id: ctx.request_id@,
        correlation_id: Some(correlation),
        honeycomb_trace_id: trace_view(ctx.trace_id),
    }
}

/// The envelope of a client error.
pub open spec fn client_envelope(status: StatusCode, ctx: ErrorContext, error: Option<ErrorDetail>)
    -> EnvelopeView {
    EnvelopeView {
        status: status.code(),
        title: status.reason(),
        message: client_message(error),
        request_id: ctx.request_id@,
        correlation_id: None,
        honeycomb_trace_id: trace_view(ctx.trace_id),
    }
}

/// The number of bytes of a text in UTF-8.
pub open spec fn byte_len(text: Seq<char>) -> usize {
    encode_utf8(text).len() as usize
}

/// `after` is `before` rewritten as a server error with the correlation
/// identifier `correlation`: the body is the envelope, the header
/// `X-Correlation-Id` and the response's own correlation identifier are set
/// to `correlation`, and the status and the attached error stay.
pub open spec fn is_server_failure(
    before: Response,
    after: Response,
    ctx: ErrorContext,
    correlation: Seq<char>,
) -> bool {
    &&& after.status == before.status
    &&& after.error == before.error
    &&& after.body@ == envelope_json(server_envelope(before.status, ctx, correlation))
    &&& after.body_size == Some(byte_len(after.body@))
    &&& is_set(before.headers.entries@, after.headers.entries@, "X-Correlation-Id"@, correlation)
    &&& after.correlation_id is Some
    &&& after.correlation_id->0@ == correlation
}

/// `after` is `before` rewritten as a client error: the body is the envelope,
/// and the status, the headers, the attached error and the absence or
/// presence of a correlation identifier stay.
pub open spec fn is_client_failure(before: Response, after: Response, ctx: ErrorContext) -> bool {
    &&& after.status == before.status
    &&& after.error == before.error
    &&& after.body@ == envelope_json(client_envelope(before.status, ctx, before.error))
    &&& after.body_size == Some(byte_len(after.body@))
    &&& after.headers == before.headers
    &&& after.correlation_id == before.correlation_id
}

/// Whatever a server-error response looked like, the envelope shows only the
/// status, the request and the correlation identifier: two responses of the
/// same status that differ in the error attached, in the body or in the
/// headers get the same body.
pub proof fn law_server_error_is_opaque(
    first: Response,
    second: Response,
    first_after: Response,
    second_after: Response,
    ctx: ErrorContext,
    correlation: Seq<char>,
)
    requires
        first.status == second.status,
        is_server_failure(first, first_after, ctx, correlation),
        is_server_failure(second, second_after, ctx, correlation),
    ensures
        first_after.body@ == second_after.body@,
        server_envelope(first.status, ctx, correlation).message == server_message(correlation),
{
}

/// After a server error is rewritten, the header `X-Correlation-Id` holds the
/// identifier that the body names, and that identifier is attached to the
/// response.
pub proof fn law_server_error_correlates(
    before: Response,
    after: Response,
    ctx: ErrorContext,
    correlation: Seq<char>,
)
    requires
        is_server_failure(before, after, ctx, correlation),
    ensures
        lookup(after.headers.entries@, "X-Correlation-Id"@) == Some(correlation),
        server_envelope(before.status, ctx, correlation).correlation_id == Some(correlation),
        after.correlation_id->0@ == correlation,
{
}

/// After a client error is rewritten, the envelope's message is the handler's
/// error exactly, it names no correlation identifier, and the header
/// `X-Correlation-Id` is as the handler left it.
pub proof fn law_client_error_is_transparent(
    before: Response,
    after: Response,
    ctx: ErrorContext,
)
    requires
        is_client_failure(before, after, ctx),
        before.error is Some,
    ensures
        client_envelope(before.status, ctx, before.error).message == before.error->0.message@,
        client_envelope(before.status, ctx, before.error).correlation_id is None,
        lookup(after.headers.entries@, "X-Correlation-Id"@) == lookup(
            before.headers.entries@,
            "X-Correlation-Id"@,
        ),
{
}

/// What the error stage did to a response.
#[derive(Debug, Clone, Copy, PartialEq, Eq, Structural)]
pub enum Rewrite {
    /// Nothing: the response is no error.
    Untouched,
    /// The body was replaced by the envelope of a client error.
    ClientError,
    /// The body was replaced by the envelope of a server error, and a
    /// correlation identifier was attached.
    ServerError,
}

/// What the error stage does to a response of a given status.
pub open spec fn rewrite_for(status: StatusCode) -> Rewrite {
    if status.server_error() {
        Rewrite::ServerError
    } else if status.client_error() {
        Rewrite::ClientError
    } else {
        Rewrite::Untouched
    }
}

/// Turns errors into JSON responses.
#[derive(Debug, Clone, Copy)]
pub struct JsonErrorMiddleware {
    _priv: (),
}

impl Default for JsonErrorMiddleware {
    fn default() -> (r: Self)
        ensures
            r == JsonErrorMiddleware::new(),
    {
        JsonErrorMiddleware::new()
    }
}

impl JsonErrorMiddleware {
    /// An error stage.
    #[must_use]
    #[verifier::when_used_as_spec(spec_new)]
    pub fn new() -> (r: Self)
        ensures
            r == Self::spec_new(),
    {
        JsonErrorMiddleware { _priv: () }
    }

    /// The one value of this type.
    pub closed spec fn spec_new() -> Self {
        JsonErrorMiddleware { _priv: () }
    }

    /// Takes a request in. Where this stage has already taken the request,
    /// nothing happens and nothing is returned. Otherwise the request is
    /// marked as taken, and its identifiers come back for `on_response`.
    ///
    /// The request must already carry its identifier: the identifier stage
    /// comes before this one.
    pub fn on_request(&self, req: &mut Request) -> (r: Option<ErrorContext>)
        requires
            !old(req).ext.error_stage_seen ==> old(req).ext.request_id is Some,
        ensures
            old(req).ext.error_stage_seen ==> r is None && *final(req) == *old(req),
            !old(req).ext.error_stage_seen ==> {
                &&& r is Some
                &&& Some(r->0.request_id) == old(req).ext.request_id
                &&& r->0.trace_id == old(req).ext.trace_id
                &&& final(req).head == old(req).head
                &&& final(req).ext.error_stage_seen
                &&& final(req).ext.request_id == old(req).ext.request_id
                &&& final(req).ext.trace_id == old(req).ext.trace_id
                &&& final(req).ext.log_stage_seen == old(req).ext.log_stage_seen
            },
    {
        if req.ext.error_stage_seen {
            return None;
        }
        req.ext.error_stage_seen = true;
        let request_id = req.ext.request_id.as_ref().unwrap().clone();
        let trace_id = match &req.ext.trace_id {
            Some(t) => Some(t.clone()),
            None => None,
        };
        Some(ErrorContext { request_id, trace_id })
    }

    /// Rewrites the response to a request that `on_request` took in, and
    /// says what was done.
    ///
    /// A server error gets a fresh correlation identifier and the envelope
    /// that names it. A client error gets the envelope with the handler's
    /// error. Any other response is left exactly as it is.
    pub fn on_response(&self, ctx: &ErrorContext, res: &mut Response) -> (done: Rewrite)
        ensures
            done == rewrite_for(old(res).status),
            old(res).status.server_error() ==> {
                &&& final(res).correlation_id is Some
                &&& final(res).correlation_id->0@.len() == 36
                &&& is_canonical(final(res).correlation_id->0@)
                &&& is_server_failure(*old(res), *final(res), *ctx, final(res).correlation_id->0@)
            },
            old(res).status.client_error() ==> is_client_failure(*old(res), *final(res), *ctx),
            !old(res).status.server_error() && !old(res).status.client_error() ==> *final(res)
                == *old(res),
    {
        if res.status.is_server_error() {
            self.fail_server(ctx, res, CorrelationId::new());
            Rewrite::ServerError
        } else if res.status.is_client_error() {
            self.fail_client(ctx, res);
            Rewrite::ClientError
        } else {
            Rewrite::Untouched
        }
    }

    /// Rewrites `res` as a server error with the given correlation identifier.
    pub fn fail_server(&self, ctx: &ErrorContext, res: &mut Response, correlation_id: CorrelationId)
        ensures
            is_server_failure(*old(res), *final(res), *ctx, correlation_id@),
            final(res).correlation_id == Some(correlation_id),
    {
        let mut message = "Internal Server Error (correlation_id=".to_owned();
        push_text(&mut message, correlation_id.as_str());
        push_text(&mut message, ")");
        let body = JsonError {
            status: res.status.as_u16(),
            title: res.status.canonical_reason(),
            message,
            request_id: ctx.request_id.clone(),
            correlation_id: Some(correlation_id.to_string()),
            honeycomb_trace_id: match &ctx.trace_id {
                Some(t) => Some(t.to_string()),
                None => None,
            },
        };
        assert(body@ == server_envelope(res.status, *ctx, correlation_id@));
        let text = body.to_json();
        res.body_size = Some(text.as_str().len());
        res.body = text;
        res.headers.insert("X-Correlation-Id", correlation_id.as_str());
        res.correlation_id = Some(correlation_id);
    }

    /// Rewrites `res` as a client error.
    pub fn fail_client(&self, ctx: &ErrorContext, res: &mut Response)
        ensures
            is_client_failure(*old(res), *final(res), *ctx),
    {
        let message = match &res.error {
            Some(e) => e.message.clone(),
            None => "(no additional context)".to_owned(),
        };
        let body = JsonError {
            status: res.status.as_u16(),
            title: res.status.canonical_reason(),
            message,
            request_id: ctx.request_id.clone(),
            correlation_id: None,
            honeycomb_trace_id: match &ctx.trace_id {
                Some(t) => Some(t.to_string()),
                None => None,
            },
        };
        assert(body@ == client_envelope(res.status, *ctx, res.error));
        let text = body.to_json();
        res.body_size = Some(text.as_str().len());
        res.body = text;
    }
}

} // verus!
