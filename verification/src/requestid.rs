//! The identifier stage: it gives every request a `RequestId` and echoes the
//! identifier in the response header `X-Request-Id`.
//!
//! An identifier that the client sent is taken when it parses as a UUID, and
//! is echoed in canonical text. One that does not parse is replaced by a
//! fresh one; the request is never refused for it.

use vstd::prelude::*;
use crate::context::{is_set, lookup, Request, Response};
use crate::ids::{hyphenated_lower, is_version_4, uuid_parsed, RequestId};

verus! {

/// How a request came by its identifier.
#[derive(Debug)]
pub enum Assignment {
    /// The request already carried one: this stage had run before. Nothing
    /// was changed.
    Inherited,
    /// The header `X-Request-Id` held a valid identifier, which was taken.
    Adopted(RequestId),
    /// There was no header, and a fresh identifier was made.
    Generated(RequestId),
    /// The header held a text that is no identifier. A fresh identifier was
    /// made in its place; the text and the parser's complaint are kept for a
    /// warning.
    Replaced { id: RequestId, rejected: String, reason: String },
}

impl Assignment {
    /// The identifier that this stage set, if it set one.
    pub open spec fn assigned(self) -> Option<RequestId> {
        match self {
            Assignment::Inherited => None,
            Assignment::Adopted(id) => Some(id),
            Assignment::Generated(id) => Some(id),
            Assignment::Replaced { id, .. } => Some(id),
        }
    }

    /// The identifier that this stage set, if it set one.
    pub fn request_id(&self) -> (r: Option<&RequestId>)
        ensures
            r is Some <==> self.assigned() is Some,
            r is Some ==> *r->0 == self.assigned()->0,
    {
        match self {
            Assignment::Inherited => None,
            Assignment::Adopted(id) => Some(id),
            Assignment::Generated(id) => Some(id),
            Assignment::Replaced { id, .. } => Some(id),
        }
    }
}

/// The value of the header `X-Request-Id` of a request.
pub open spec fn sent_id(req: Request) -> Option<Seq<char>> {
    lookup(req.head.headers.entries@, "X-Request-Id"@)
}

/// `id` is a freshly made identifier: a UUID of version 4 in canonical text.
pub open spec fn is_fresh(id: RequestId) -> bool {
    id.is_canonical() && is_version_4(id.value())
}

/// `after` is `before` with the identifier `id` attached and nothing else
/// changed.
pub open spec fn gives(before: Request, after: Request, id: RequestId) -> bool {
    &&& after.head == before.head
    &&& after.ext.trace_id == before.ext.trace_id
    &&& after.ext.error_stage_seen == before.ext.error_stage_seen
    &&& after.ext.log_stage_seen == before.ext.log_stage_seen
    &&& after.ext.request_id == Some(id)
}

/// `after` is `before` once the identifier stage has taken it, and `how` is
/// what the stage reports.
pub open spec fn assigns(before: Request, after: Request, how: Assignment) -> bool {
    if before.ext.request_id is Some {
        how is Inherited && after == before
    } else {
        &&& how.assigned() is Some
        &&& gives(before, after, how.assigned()->0)
        &&& match sent_id(before) {
            Some(sent) => if uuid_parsed(sent) is Some {
                &&& how is Adopted
                &&& uuid_parsed(sent) == Some(how.assigned()->0.value())
                &&& how.assigned()->0.is_canonical()
            } else {
                &&& how matches Assignment::Replaced { id, rejected, .. }
                &&& rejected@ == sent
                &&& is_fresh(id)
            },
            None => how is Generated && is_fresh(how.assigned()->0),
        }
    }
}

/// `after` is `before` once the identifier stage has let it out: where the
/// stage set an identifier, the header `X-Request-Id` is set to it and
/// nothing else is touched; where it set none, nothing is touched.
pub open spec fn echoes(before: Response, after: Response, how: Assignment) -> bool {
    match how.assigned() {
        Some(id) => {
            &&& is_set(before.headers.entries@, after.headers.entries@, "X-Request-Id"@, id@)
            &&& after.status == before.status
            &&& after.body == before.body
            &&& after.body_size == before.body_size
            &&& after.error == before.error
            &&& after.correlation_id == before.correlation_id
        },
        None => after == before,
    }
}

/// Running the stage a second time on a request changes nothing: the request
/// keeps the identifier that the first run gave it.
pub proof fn law_assignment_is_idempotent(
    before: Request,
    once: Request,
    twice: Request,
    first: Assignment,
    second: Assignment,
)
    requires
        assigns(before, once, first),
        assigns(once, twice, second),
    ensures
        once.ext.request_id is Some,
        twice == once,
        second is Inherited,
{
}

/// A valid identifier in the request header is the identifier of the
/// request: the request gets the value that the header denotes, and the
/// response header holds the canonical text of that value. Where the header
/// was in canonical text, the identifier and the response header equal it
/// text for text.
pub proof fn law_header_round_trip(
    req: Request,
    taken: Request,
    how: Assignment,
    res: Response,
    sent_back: Response,
    sent: Seq<char>,
    value: u128,
)
    requires
        req.ext.request_id is None,
        sent_id(req) == Some(sent),
        uuid_parsed(sent) == Some(value),
        assigns(req, taken, how),
        echoes(res, sent_back, how),
    ensures
        taken.ext.request_id is Some,
        taken.ext.request_id->0.value() == value,
        taken.ext.request_id->0@ == hyphenated_lower(value),
        lookup(sent_back.headers.entries@, "X-Request-Id"@) == Some(hyphenated_lower(value)),
        sent == hyphenated_lower(value) ==> taken.ext.request_id->0@ == sent && lookup(
            sent_back.headers.entries@,
            "X-Request-Id"@,
        ) == Some(sent),
{
}

/// A header that holds no valid identifier does not fail the request: the
/// request gets a fresh, valid identifier, which differs from what was sent.
pub proof fn law_malformed_header_falls_back(
    req: Request,
    taken: Request,
    how: Assignment,
    sent: Seq<char>,
)
    requires
        req.ext.request_id is None,
        sent_id(req) == Some(sent),
        uuid_parsed(sent) is None,
        assigns(req, taken, how),
    ensures
        taken.ext.request_id is Some,
        is_fresh(taken.ext.request_id->0),
        taken.ext.request_id->0@ != sent,
{
}

/// Attaches a `RequestId` to every request.
#[derive(Debug, Clone, Copy)]
pub struct RequestIdMiddleware {
    _priv: (),
}

impl Default for RequestIdMiddleware {
    fn default() -> (r: Self)
        ensures
            r == RequestIdMiddleware::new(),
    {
        RequestIdMiddleware::new()
    }
}

impl RequestIdMiddleware {
    /// An identifier stage.
    #[must_use]
    #[verifier::when_used_as_spec(spec_new)]
    pub fn new() -> (r: Self)
        ensures
            r == Self::spec_new(),
    {
        RequestIdMiddleware { _priv: () }
    }

    /// The one value of this type.
    pub closed spec fn spec_new() -> Self {
        RequestIdMiddleware { _priv: () }
    }

    /// Takes a request in and makes sure that it carries an identifier.
    ///
    /// A request that has one keeps it. Otherwise the header `X-Request-Id`
    /// is read: a valid identifier is taken, in canonical text, and where
    /// there is none, or none that is valid, a fresh one is made.
    pub fn on_request(&self, req: &mut Request) -> (how: Assignment)
        ensures
            assigns(*old(req), *final(req), how),
    {
        if req.ext.request_id.is_some() {
            return Assignment::Inherited;
        }
        match req.head.headers.get("X-Request-Id") {
            Some(sent) => match RequestId::from_str(sent.as_str()) {
                Ok(id) => self.adopt(req, id),
                Err(e) => {
                    let id = RequestId::new();
                    self.replace(req, id, sent, e.message)
                },
            },
            None => {
                let id = RequestId::new();
                self.generate(req, id)
            },
        }
    }

    /// Attaches to the request an identifier that its header held.
    pub fn adopt(&self, req: &mut Request, sent: RequestId) -> (how: Assignment)
        ensures
            gives(*old(req), *final(req), sent),
            how == Assignment::Adopted(sent),
    {
        req.ext.request_id = Some(sent.clone());
        Assignment::Adopted(sent)
    }

    /// Attaches the identifier `fresh` to a request that sent none.
    pub fn generate(&self, req: &mut Request, fresh: RequestId) -> (how: Assignment)
        ensures
            gives(*old(req), *final(req), fresh),
            how == Assignment::Generated(fresh),
    {
        req.ext.request_id = Some(fresh.clone());
        Assignment::Generated(fresh)
    }

    /// Attaches the identifier `fresh` to a request that sent the text
    /// `rejected`, which is no identifier; `reason` says why not.
    pub fn replace(
        &self,
        req: &mut Request,
        fresh: RequestId,
        rejected: String,
        reason: String,
    ) -> (how: Assignment)
        ensures
            gives(*old(req), *final(req), fresh),
            how == (Assignment::Replaced { id: fresh, rejected, reason }),
    {
        req.ext.request_id = Some(fresh.clone());
        Assignment::Replaced { id: fresh, rejected, reason }
    }

    /// Lets the response to a request out. Where `on_request` set an
    /// identifier, it is written to the header `X-Request-Id`.
    pub fn on_response(&self, how: &Assignment, res: &mut Response)
        ensures
            echoes(*old(res), *final(res), *how),
    {
        match how.request_id() {
            Some(id) => {
                res.headers.insert("X-Request-Id", id.as_str());
            },
            None => {},
        }
    }
}

} // verus!
