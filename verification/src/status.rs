//! HTTP status codes, as far as the middleware reads them: the number, its
//! class, and its canonical reason phrase.

use vstd::prelude::*;

verus! {

/// The canonical reason phrase that `http_types::StatusCode` holds for a
/// status number, or `None` where the number is no status code it knows.
pub uninterp spec fn reason_phrase(code: u16) -> Option<Seq<char>>;

/// Calls `TryFrom<u16>` of `tide::StatusCode` and, where that succeeds,
/// `StatusCode::canonical_reason`.
///
/// Trusted: the result is what `reason_phrase` names.
#[verifier::external_body]
fn lookup_reason(code: u16) -> (r: Option<String>)
    ensures
        r is Some <==> reason_phrase(code) is Some,
        r is Some ==> reason_phrase(code) == Some(r->0@),
{
    match tide::StatusCode::try_from(code) {
        Ok(status) => Some(status.canonical_reason().to_string()),
        Err(_) => None,
    }
}

/// A status code that has a canonical reason phrase.
#[derive(Debug, Clone, Copy)]
pub struct StatusCode {
    code: u16,
}

impl StatusCode {
    /// The number of the status code.
    pub closed spec fn code(&self) -> u16 {
        self.code
    }

    /// Every `StatusCode` is one that has a reason phrase.
    #[verifier::type_invariant]
    pub closed spec fn known(&self) -> bool {
        reason_phrase(self.code) is Some
    }

    /// The reason phrase of the status code.
    pub open spec fn reason(&self) -> Seq<char> {
        reason_phrase(self.code())->0
    }

    /// Whether the number lies in 400..=499.
    pub open spec fn client_error(&self) -> bool {
        400 <= self.code() < 500
    }

    /// Whether the number lies in 500..=599.
    pub open spec fn server_error(&self) -> bool {
        500 <= self.code() < 600
    }

    /// The status code with this number, if there is one.
    pub fn new(code: u16) -> (r: Option<Self>)
        ensures
            r is Some <==> reason_phrase(code) is Some,
            r is Some ==> r->0.code() == code && r->0.known(),
    {
        match lookup_reason(code) {
            Some(_) => Some(StatusCode { code }),
            None => None,
        }
    }

    /// The number of the status code.
    pub fn as_u16(&self) -> (code: u16)
        ensures
            code == self.code(),
            reason_phrase(code) is Some,
    {
        proof {
            use_type_invariant(self);
        }
        self.code
    }

    /// Whether this is a 4xx status.
    pub fn is_client_error(&self) -> (r: bool)
        ensures
            r == self.client_error(),
    {
        400 <= self.code && self.code < 500
    }

    /// Whether this is a 5xx status.
    pub fn is_server_error(&self) -> (r: bool)
        ensures
            r == self.server_error(),
    {
        500 <= self.code && self.code < 600
    }

    /// The canonical reason phrase, such as `Not Found` for 404.
    pub fn canonical_reason(&self) -> (r: String)
        ensures
            r@ == self.reason(),
    {
        proof {
            use_type_invariant(self);
        }
        match lookup_reason(self.code) {
            Some(reason) => reason,
            None => String::new(),
        }
    }
}

} // verus!
