//! The logging stage: one record when a request comes in and one when its
//! response goes out, the second at a level and with fields that depend on
//! how the request ended.

use vstd::prelude::*;
use crate::context::{lookup, Request, Response};
use crate::ids::RequestId;
use crate::record::{
    field_views, one, optional_size_view, optional_text_view, push_field, Field, FieldView, Level,
    LogRecord, RecordView, Value, ValueView,
};
use crate::trace::TraceId;

verus! {

/// What the logging stage keeps of a request while the request is handled.
#[derive(Debug)]
pub struct RequestSummary {
    pub method: String,
    pub path: String,
    pub ip: String,
    pub referer: String,
    pub user_agent: String,
    pub body_size: Option<usize>,
    pub request_id: RequestId,
    pub trace_id: Option<TraceId>,
}

/// What a `RequestSummary` holds.
pub struct SummaryView {
    pub method: Seq<char>,
    pub path: Seq<char>,
    pub ip: Seq<char>,
    pub referer: Seq<char>,
    pub user_agent: Seq<char>,
    pub body_size: Option<usize>,
    pub request_id: Seq<char>,
    pub trace_id: Option<Seq<char>>,
}

impl View for RequestSummary {
    type V = SummaryView;

    open spec fn view(&self) -> SummaryView {
        SummaryView {
            method: self.method@,
            path: self.path@,
            ip: self.ip@,
            referer: self.referer@,
            user_agent: self.user_agent@,
            body_size: self.body_size,
            request_id: self.request_id@,
            trace_id: match self.trace_id {
                Some(t) => Some(t@),
                None => None,
            },
        }
    }
}

/// `value`, or `placeholder` where there is none.
pub open spec fn or_placeholder(value: Option<Seq<char>>, placeholder: Seq<char>) -> Seq<char> {
    match value {
        Some(v) => v,
        None => placeholder,
    }
}

/// The summary of a request that has its identifier.
pub open spec fn summary_of(req: Request) -> SummaryView {
    SummaryView {
        method: req.head.method@,
        path: req.head.path@,
        ip: match req.head.peer_addr {
            Some(a) => a@,
            None => "(no Peer Address)"@,
        },
        referer: or_placeholder(lookup(req.head.headers.entries@, "referer"@), "(no Referer)"@),
        user_agent: or_placeholder(
            lookup(req.head.headers.entries@, "user-agent"@),
            "(no User-Agent)"@,
        ),
        body_size: req.head.body_size,
        request_id: req.ext.request_id->0@,
        trace_id: match req.ext.trace_id {
            Some(t) => Some(t@),
            None => None,
        },
    }
}

/// The fields that every record of a request starts with, less the status.
pub open spec fn origin_fields(s: SummaryView) -> Seq<FieldView> {
    one("method"@, ValueView::Text(s.method)) + one("path"@, ValueView::Text(s.path)) + one(
        "ip"@,
        ValueView::Text(s.ip),
    ) + one("referer"@, ValueView::Text(s.referer)) + one(
        "user_agent"@,
        ValueView::Text(s.user_agent),
    )
}

/// The record of a request that comes in.
pub open spec fn incoming_record(s: SummaryView) -> RecordView {
    RecordView {
        level: Level::Trace,
        message: "Incoming Request"@,
        fields: origin_fields(s) + one("body_size"@, optional_size_view(s.body_size)) + one(
            "request_id"@,
            ValueView::Text(s.request_id),
        ),
    }
}

/// The trace identifier as a record shows it: its text, or `disabled` where
/// no trace was attached to the request.
pub open spec fn trace_text(s: SummaryView) -> Seq<char> {
    or_placeholder(s.trace_id, "disabled"@)
}

/// How a response ended, as far as the record depends on it.
#[derive(Debug, Clone, Copy, PartialEq, Eq, Structural)]
pub enum Outcome {
    /// A server error that the error stage has given a correlation identifier.
    ServerError,
    /// A server error without a correlation identifier: the error stage did
    /// not run between the handler and this stage.
    Unhandled,
    /// A client error.
    ClientError,
    /// Anything else.
    Completed,
}

/// The outcome of a response. A correlation identifier decides first, then
/// the status.
pub open spec fn outcome_of(res: Response) -> Outcome {
    if res.correlation_id is Some {
        Outcome::ServerError
    } else if res.status.server_error() {
        Outcome::Unhandled
    } else if res.status.client_error() {
        Outcome::ClientError
    } else {
        Outcome::Completed
    }
}

/// The level of the record of a response.
pub open spec fn response_level(outcome: Outcome) -> Level {
    match outcome {
        Outcome::ServerError => Level::Error,
        Outcome::Unhandled => Level::Error,
        Outcome::ClientError => Level::Warn,
        Outcome::Completed => Level::Info,
    }
}

/// The message of the record of a response.
pub open spec fn response_message(outcome: Outcome, reason: Seq<char>) -> Seq<char> {
    match outcome {
        Outcome::ServerError => "Internal Error"@,
        Outcome::Unhandled =>
            "Internal Error -- JsonErrorMiddleware must be installed after LogMiddleware"@,
        Outcome::ClientError => "Client Error: "@ + reason,
        Outcome::Completed => reason,
    }
}

/// The fields that describe the handler's error, where there is one.
pub open spec fn error_fields(res: Response) -> Seq<FieldView> {
    match res.error {
        Some(e) => one("message"@, ValueView::Text(e.message@)) + one(
            "error_type"@,
            optional_text_view(e.error_type),
        ),
        None => Seq::empty(),
    }
}

/// The fields that every record with fields ends with.
pub open spec fn closing_fields(s: SummaryView, elapsed: Seq<char>) -> Seq<FieldView> {
    one("request_id"@, ValueView::Text(s.request_id)) + one(
        "honeycomb_trace_id"@,
        ValueView::Text(trace_text(s)),
    ) + one("elapsed"@, ValueView::Text(elapsed))
}

/// The fields of the record of a response.
pub open spec fn response_fields(s: SummaryView, res: Response, elapsed: Seq<char>) -> Seq<
    FieldView,
> {
    let status = one("status"@, ValueView::Number(res.status.code() as u64));
    match outcome_of(res) {
        Outcome::ServerError => status + origin_fields(s) + error_fields(res) + one(
            "correlation_id"@,
            ValueView::Text(res.correlation_id->0@),
        ) + closing_fields(s, elapsed),
        Outcome::Unhandled => Seq::empty(),
        Outcome::ClientError => status + origin_fields(s) + error_fields(res) + closing_fields(
            s,
            elapsed,
        ),
        Outcome::Completed => status + origin_fields(s) + one(
            "body_size"@,
            optional_size_view(res.body_size),
        ) + closing_fields(s, elapsed),
    }
}

/// The record of a response.
pub open spec fn response_record(s: SummaryView, res: Response, elapsed: Seq<char>) -> RecordView {
    RecordView {
        level: response_level(outcome_of(res)),
        message: response_message(outcome_of(res), res.status.reason()),
        fields: response_fields(s, res, elapsed),
    }
}

fn push_origin(fields: &mut Vec<Field>, summary: &RequestSummary)
    ensures
        field_views(final(fields)@) == field_views(old(fields)@) + origin_fields(summary@),
{
    push_field(fields, "method", Value::text(summary.method.as_str()));
    push_field(fields, "path", Value::text(summary.path.as_str()));
    push_field(fields, "ip", Value::text(summary.ip.as_str()));
    push_field(fields, "referer", Value::text(summary.referer.as_str()));
    push_field(fields, "user_agent", Value::text(summary.user_agent.as_str()));
    assert(field_views(fields@) =~= field_views(old(fields)@) + origin_fields(summary@));
}

fn push_error(fields: &mut Vec<Field>, res: &Response)
    ensures
        field_views(final(fields)@) == field_views(old(fields)@) + error_fields(*res),
{
    match &res.error {
        Some(e) => {
            push_field(fields, "message", Value::text(e.message.as_str()));
            push_field(fields, "error_type", Value::optional_text(&e.error_type));
            assert(field_views(fields@) =~= field_views(old(fields)@) + error_fields(*res));
        },
        None => {
            assert(field_views(fields@) =~= field_views(old(fields)@) + error_fields(*res));
        },
    }
}

fn push_closing(fields: &mut Vec<Field>, summary: &RequestSummary, elapsed: &str)
    ensures
        field_views(final(fields)@) == field_views(old(fields)@) + closing_fields(
            summary@,
            elapsed@,
        ),
{
    push_field(fields, "request_id", Value::text(summary.request_id.as_str()));
    let trace = match &summary.trace_id {
        Some(t) => Value::text(t.as_str()),
        None => Value::text("disabled"),
    };
    push_field(fields, "honeycomb_trace_id", trace);
    push_field(fields, "elapsed", Value::text(elapsed));
    assert(field_views(fields@) =~= field_views(old(fields)@) + closing_fields(
        summary@,
        elapsed@,
    ));
}

/// What `LogMiddleware::on_request` hands back for a request it takes in.
#[derive(Debug)]
pub struct Incoming {
    /// What to keep until the response is there.
    pub summary: RequestSummary,
    /// The record to write now.
    pub record: LogRecord,
}

/// Logs every request and its response.
#[derive(Debug, Clone, Copy)]
pub struct LogMiddleware {
    _priv: (),
}

impl Default for LogMiddleware {
    fn default() -> (r: Self)
        ensures
            r == LogMiddleware::new(),
    {
        LogMiddleware::new()
    }
}

impl LogMiddleware {
    /// A logging stage.
    #[must_use]
    #[verifier::when_used_as_spec(spec_new)]
    pub fn new() -> (r: Self)
        ensures
            r == Self::spec_new(),
    {
        LogMiddleware { _priv: () }
    }

    /// The one value of this type.
    pub closed spec fn spec_new() -> Self {
        LogMiddleware { _priv: () }
    }

    /// How `res` ended.
    pub fn outcome(res: &Response) -> (r: Outcome)
        ensures
            r == outcome_of(*res),
    {
        if res.correlation_id.is_some() {
            Outcome::ServerError
        } else if res.status.is_server_error() {
            Outcome::Unhandled
        } else if res.status.is_client_error() {
            Outcome::ClientError
        } else {
            Outcome::Completed
        }
    }

    /// Takes a request in. Where this stage has already taken the request,
    /// nothing happens and nothing is returned. Otherwise the request is
    /// marked as taken, and the summary of the request comes back together
    /// with the record to write for it.
    ///
    /// The request must already carry its identifier: the identifier stage
    /// comes before this one.
    pub fn on_request(&self, req: &mut Request) -> (r: Option<Incoming>)
        requires
            !old(req).ext.log_stage_seen ==> old(req).ext.request_id is Some,
        ensures
            old(req).ext.log_stage_seen ==> r is None && *final(req) == *old(req),
            !old(req).ext.log_stage_seen ==> {
                &&& r is Some
                &&& r->0.summary@ == summary_of(*old(req))
                &&& r->0.record@ == incoming_record(summary_of(*old(req)))
                &&& final(req).head == old(req).head
                &&& final(req).ext.log_stage_seen
                &&& final(req).ext.request_id == old(req).ext.request_id
                &&& final(req).ext.trace_id == old(req).ext.trace_id
                &&& final(req).ext.error_stage_seen == old(req).ext.error_stage_seen
            },
    {
        if req.ext.log_stage_seen {
            return None;
        }
        req.ext.log_stage_seen = true;
        let request_id = req.ext.request_id.as_ref().unwrap().clone();
        let trace_id = match &req.ext.trace_id {
            Some(t) => Some(t.clone()),
            None => None,
        };
        let ip = match &req.head.peer_addr {
            Some(a) => a.clone(),
            None => "(no Peer Address)".to_owned(),
        };
        let referer = match req.head.headers.get("referer") {
            Some(v) => v,
            None => "(no Referer)".to_owned(),
        };
        let user_agent = match req.head.headers.get("user-agent") {
            Some(v) => v,
            None => "(no User-Agent)".to_owned(),
        };
        let summary = RequestSummary {
            method: req.head.method.clone(),
            path: req.head.path.clone(),
            ip,
            referer,
            user_agent,
            body_size: req.head.body_size,
            request_id,
            trace_id,
        };
        assert(summary@ == summary_of(*old(req)));
        let mut fields: Vec<Field> = Vec::new();
        assert(field_views(fields@) =~= Seq::<FieldView>::empty());
        push_origin(&mut fields, &summary);
        push_field(&mut fields, "body_size", Value::optional_size(summary.body_size));
        push_field(&mut fields, "request_id", Value::text(summary.request_id.as_str()));
        let record = LogRecord {
            level: Level::Trace,
            message: "Incoming Request".to_owned(),
            fields,
        };
        assert(record@.fields =~= incoming_record(summary@).fields);
        Some(Incoming { summary, record })
    }

    /// The record to write for the response to a request that `on_request`
    /// took in. `elapsed` is the time the rest of the chain took, as text.
    pub fn on_response(&self, summary: &RequestSummary, res: &Response, elapsed: &str) -> (r:
        LogRecord)
        ensures
            r@ == response_record(summary@, *res, elapsed@),
    {
        let outcome = Self::outcome(res);
        let mut fields: Vec<Field> = Vec::new();
        assert(field_views(fields@) =~= Seq::<FieldView>::empty());
        let reason = res.status.canonical_reason();
        let level: Level;
        let message: String;
        match outcome {
            Outcome::ServerError => {
                level = Level::Error;
                message = "Internal Error".to_owned();
                push_field(&mut fields, "status", Value::Number(res.status.as_u16() as u64));
                push_origin(&mut fields, summary);
                push_error(&mut fields, res);
                let correlation = match &res.correlation_id {
                    Some(c) => Value::text(c.as_str()),
                    None => Value::Missing,
                };
                push_field(&mut fields, "correlation_id", correlation);
                push_closing(&mut fields, summary, elapsed);
            },
            Outcome::Unhandled => {
                level = Level::Error;
                message =
                "Internal Error -- JsonErrorMiddleware must be installed after LogMiddleware".to_owned();
            },
            Outcome::ClientError => {
                level = Level::Warn;
                let mut text = "Client Error: ".to_owned();
                text.append(reason.as_str());
                message = text;
                push_field(&mut fields, "status", Value::Number(res.status.as_u16() as u64));
                push_origin(&mut fields, summary);
                push_error(&mut fields, res);
                push_closing(&mut fields, summary, elapsed);
            },
            Outcome::Completed => {
                level = Level::Info;
                message = reason;
                push_field(&mut fields, "status", Value::Number(res.status.as_u16() as u64));
                push_origin(&mut fields, summary);
                push_field(&mut fields, "body_size", Value::optional_size(res.body_size));
                push_closing(&mut fields, summary, elapsed);
            },
        }
        let record = LogRecord { level, message, fields };
        assert(record@.fields =~= response_fields(summary@, *res, elapsed@));
        record
    }
}

} // verus!
