//! The trace stage: it settles the trace identifier of a request from the
//! propagation header or from the request identifier, and relays the
//! propagation record on the response.

use vstd::prelude::*;
use crate::context::{is_set, lookup, Request, Response};
use crate::ids::{hex_digits, is_version_4};
use crate::propagation::{
    base64_decoded, base64_encoded, fault_view, is_base64_char, is_relayable,
    law_relayed_record_reads_back, marshal, reread, unmarshal, Propagation, PropagationError,
    PropagationFault, PropagationView,
};
use vstd::utf8::encode_utf8;
use crate::span_id::{span_id_parsed, ParseSpanIdError, SpanId};

verus! {

/// Whether a text is the 32 lower-case hexadecimal digits of a UUID of
/// version 4, without hyphens.
pub open spec fn is_simple_uuid(text: Seq<char>) -> bool {
    exists|value: u128| is_version_4(value) && text == hex_digits(value as nat, 32)
}

/// Calls `eaze_tracing_honeycomb::TraceId::new` and hands out its text.
///
/// Trusted: the text is the 32 lower-case hexadecimal digits of a UUID of
/// version 4, with no hyphens; the crate takes a random UUID from
/// `uuid::Uuid::new_v4` and writes it in that form. Which UUID is random.
#[verifier::external_body]
fn fresh_trace_text() -> (r: String)
    ensures
        is_simple_uuid(r@),
{
    eaze_tracing_honeycomb::TraceId::new().to_string()
}

/// The identifier of a distributed trace. Any text serves; none is parsed.
#[derive(Debug)]
pub struct TraceId {
    id: String,
}

impl View for TraceId {
    type V = Seq<char>;

    closed spec fn view(&self) -> Seq<char> {
        self.id@
    }
}

impl Clone for TraceId {
    fn clone(&self) -> (res: Self)
        ensures
            res == *self,
    {
        TraceId { id: self.id.clone() }
    }
}

impl TraceId {
    /// A fresh random identifier: 32 lower-case hexadecimal digits.
    pub fn new() -> (r: Self)
        ensures
            is_simple_uuid(r@),
    {
        TraceId { id: fresh_trace_text() }
    }

    /// The identifier with this text.
    pub fn from_str(text: &str) -> (r: Self)
        ensures
            r@ == text@,
    {
        TraceId { id: text.to_owned() }
    }

    /// The text of the identifier.
    pub fn as_str(&self) -> (s: &str)
        ensures
            s@ == self@,
    {
        self.id.as_str()
    }

    /// The text of the identifier, owned.
    pub fn to_string(&self) -> (s: String)
        ensures
            s@ == self@,
    {
        self.id.clone()
    }
}

/// Where the trace identifier of a request came from.
#[derive(Debug, Clone, Copy, PartialEq, Eq, Structural)]
pub enum TraceOrigin {
    /// From the propagation header.
    Header,
    /// From the identifier of the request.
    RequestId,
    /// Made anew, because the request had no identifier either.
    Generated,
}

/// What the trace stage settled for a request.
#[derive(Debug)]
pub struct TracePlan {
    /// The identifier of the trace.
    pub trace_id: TraceId,
    /// The span that the trace is to be rooted under, if the header named one.
    pub parent_span: Option<SpanId>,
    /// The record that came with the request, to be relayed on the response.
    pub propagation: Option<Propagation>,
    pub origin: TraceOrigin,
    /// Why the header was passed over, where there was one that could not
    /// be read.
    pub header_fault: Option<PropagationError>,
    /// Why the parent span was passed over, where the header named one that
    /// could not be read.
    pub parent_fault: Option<ParseSpanIdError>,
}

/// The value of the propagation header of a request.
pub open spec fn sent_trace(req: Request) -> Option<Seq<char>> {
    lookup(req.head.headers.entries@, "X-Honeycomb-Trace"@)
}

/// What the header of a request yields, where it has one that can be read.
pub open spec fn sent_record(req: Request) -> Option<PropagationView> {
    match sent_trace(req) {
        Some(header) => match unmarshal(header) {
            Ok(p) => Some(p),
            Err(_) => None,
        },
        None => None,
    }
}

/// Why the header of a request was passed over, where it has one that cannot
/// be read.
pub open spec fn sent_fault(req: Request) -> Option<PropagationFault> {
    match sent_trace(req) {
        Some(header) => match unmarshal(header) {
            Ok(_) => None,
            Err(e) => Some(e),
        },
        None => None,
    }
}

/// The number of the parent span that a record names, where the record names
/// one that can be read.
pub open spec fn parent_of(parent_id: Seq<char>) -> Option<u64> {
    if parent_id.len() == 0 {
        None
    } else {
        span_id_parsed(parent_id)
    }
}

/// Whether a record names a parent span that cannot be read.
pub open spec fn parent_is_unreadable(parent_id: Seq<char>) -> bool {
    parent_id.len() > 0 && span_id_parsed(parent_id) is None
}

/// The number of a span, where there is one.
pub open spec fn span_view(span: Option<SpanId>) -> Option<u64> {
    match span {
        Some(s) => Some(s.value()),
        None => None,
    }
}

/// `plan` is what the trace stage settles for the request `before`, which
/// carries no trace identifier yet.
pub open spec fn settles(before: Request, plan: TracePlan) -> bool {
    match sent_record(before) {
        Some(record) => {
            &&& plan.origin == TraceOrigin::Header
            &&& plan.trace_id@ == record.trace_id
            &&& plan.propagation is Some
            &&& plan.propagation->0@ == record
            &&& is_relayable(record)
            &&& span_view(plan.parent_span) == parent_of(record.parent_id)
            &&& plan.parent_fault is Some <==> parent_is_unreadable(record.parent_id)
            &&& plan.header_fault is None
        },
        None => {
            &&& plan.propagation is None
            &&& plan.parent_span is None
            &&& plan.parent_fault is None
            &&& fault_view(plan.header_fault) == sent_fault(before)
            &&& match before.ext.request_id {
                Some(id) => plan.origin == TraceOrigin::RequestId && plan.trace_id@ == id@,
                None => plan.origin == TraceOrigin::Generated && is_simple_uuid(plan.trace_id@),
            }
        },
    }
}

/// `after` is `before` once the trace stage has taken it, and `plan` is what
/// the stage hands back.
pub open spec fn traces(before: Request, after: Request, plan: Option<TracePlan>) -> bool {
    if before.ext.trace_id is Some {
        plan is None && after == before
    } else {
        &&& plan is Some
        &&& settles(before, plan->0)
        &&& after.head == before.head
        &&& after.ext.request_id == before.ext.request_id
        &&& after.ext.error_stage_seen == before.ext.error_stage_seen
        &&& after.ext.log_stage_seen == before.ext.log_stage_seen
        &&& after.ext.trace_id == Some(plan->0.trace_id)
    }
}

/// `after` is `before` once the trace stage has let it out: where a record
/// came with the request, the header `X-Honeycomb-Trace` is set to the record
/// written out again, and nothing else is touched; where none came, nothing
/// is touched.
pub open spec fn relays(before: Response, after: Response, plan: TracePlan) -> bool {
    match plan.propagation {
        Some(record) => {
            &&& is_set(
                before.headers.entries@,
                after.headers.entries@,
                "X-Honeycomb-Trace"@,
                marshal(record@),
            )
            &&& after.status == before.status
            &&& after.body == before.body
            &&& after.body_size == before.body_size
            &&& after.error == before.error
            &&& after.correlation_id == before.correlation_id
        },
        None => after == before,
    }
}

/// The header that came with a request comes back on the response as the
/// record written out again, and who reads that header gets the record back
/// field for field: the same trace, parent span and dataset, and the context
/// as `serde_json` reprints it. This is given of base64 that its text is made
/// of its alphabet and decodes to what was encoded.
pub proof fn law_relay_reads_back(
    before: Request,
    plan: TracePlan,
    res: Response,
    sent: Response,
    p: PropagationView,
)
    requires
        sent_record(before) == Some(p),
        settles(before, plan),
        relays(res, sent, plan),
        forall|i: int|
            0 <= i < base64_encoded(encode_utf8(p.trace_context)).len() ==> is_base64_char(
                #[trigger] base64_encoded(encode_utf8(p.trace_context))[i],
            ),
        base64_decoded(base64_encoded(encode_utf8(p.trace_context))) == Some(
            encode_utf8(p.trace_context),
        ),
    ensures
        plan.trace_id@ == p.trace_id,
        lookup(sent.headers.entries@, "X-Honeycomb-Trace"@) == Some(marshal(p)),
        unmarshal(marshal(p)) == reread(p),
        unmarshal(marshal(p)) matches Ok(q) ==> q.trace_id == p.trace_id && q.parent_id
            == p.parent_id && q.dataset == p.dataset,
{
    law_relayed_record_reads_back(sent_trace(before)->0, p);
}

/// Sets up tracing for every request.
#[derive(Debug, Clone, Copy)]
pub struct TraceMiddleware {
    _priv: (),
}

impl Default for TraceMiddleware {
    fn default() -> (r: Self)
        ensures
            r == TraceMiddleware::new(),
    {
        TraceMiddleware::new()
    }
}

impl TraceMiddleware {
    /// A trace stage.
    #[must_use]
    #[verifier::when_used_as_spec(spec_new)]
    pub fn new() -> (r: Self)
        ensures
            r == Self::spec_new(),
    {
        TraceMiddleware { _priv: () }
    }

    /// The one value of this type.
    pub closed spec fn spec_new() -> Self {
        TraceMiddleware { _priv: () }
    }

    /// Takes a request in and settles its trace identifier.
    ///
    /// A request that has one keeps it, and nothing is returned. Otherwise
    /// the header `X-Honeycomb-Trace` is read. A header that can be read
    /// gives the trace identifier, the parent span if it names one, and the
    /// record to relay. Without such a header the trace identifier is the
    /// text of the request's identifier, or a fresh one where the request has
    /// none.
    pub fn on_request(&self, req: &mut Request) -> (plan: Option<TracePlan>)
        ensures
            traces(*old(req), *final(req), plan),
    {
        if req.ext.trace_id.is_some() {
            return None;
        }
        let read = match req.head.headers.get("X-Honeycomb-Trace") {
            Some(header) => match Propagation::unmarshal_trace_context(header.as_str()) {
                Ok(record) => Ok(record),
                Err(e) => Err(Some(e)),
            },
            None => Err(None),
        };
        let plan = match read {
            Ok(record) => self.follow(record),
            Err(header_fault) => {
                let trace_id = match &req.ext.request_id {
                    Some(id) => TraceId::from_str(id.as_str()),
                    None => TraceId::new(),
                };
                TracePlan {
                    trace_id,
                    parent_span: None,
                    propagation: None,
                    origin: if req.ext.request_id.is_some() {
                        TraceOrigin::RequestId
                    } else {
                        TraceOrigin::Generated
                    },
                    header_fault,
                    parent_fault: None,
                }
            },
        };
        req.ext.trace_id = Some(plan.trace_id.clone());
        Some(plan)
    }

    /// The plan for a request that came with the record `record`.
    pub fn follow(&self, record: Propagation) -> (plan: TracePlan)
        ensures
            plan.origin == TraceOrigin::Header,
            plan.trace_id@ == record@.trace_id,
            plan.propagation == Some(record),
            span_view(plan.parent_span) == parent_of(record@.parent_id),
            plan.parent_fault is Some <==> parent_is_unreadable(record@.parent_id),
            plan.header_fault is None,
    {
        let trace_id = TraceId::from_str(record.trace_id.as_str());
        let mut parent_span: Option<SpanId> = None;
        let mut parent_fault: Option<ParseSpanIdError> = None;
        if !record.parent_id.as_str().is_empty() {
            match SpanId::from_str(record.parent_id.as_str()) {
                Ok(span) => {
                    parent_span = Some(span);
                },
                Err(e) => {
                    parent_fault = Some(e);
                },
            }
        }
        TracePlan {
            trace_id,
            parent_span,
            propagation: Some(record),
            origin: TraceOrigin::Header,
            header_fault: None,
            parent_fault,
        }
    }

    /// Lets the response to a request out. Where a record came with the
    /// request, it is written to the header `X-Honeycomb-Trace`; a record
    /// that was read from a header reads back from there field for field.
    pub fn on_response(&self, plan: &TracePlan, res: &mut Response)
        ensures
            relays(*old(res), *final(res), *plan),
            plan.propagation is Some && is_relayable(plan.propagation->0@) ==> lookup(
                final(res).headers.entries@,
                "X-Honeycomb-Trace"@,
            ) is Some && unmarshal(lookup(final(res).headers.entries@, "X-Honeycomb-Trace"@)->0)
                == reread(plan.propagation->0@),
    {
        match &plan.propagation {
            Some(record) => {
                let value = record.marshal_trace_context();
                res.headers.insert("X-Honeycomb-Trace", value.as_str());
            },
            None => {},
        }
    }
}

} // verus!
