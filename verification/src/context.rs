//! The request and the response as the middleware sees them: plain values,
//! threaded explicitly through the stages.
//!
//! A `Request` carries what arrived (`RequestHead`) and what the stages have
//! attached to it so far (`Extensions`). A `Response` carries the status, the
//! headers, the body, the error the handler attached (if any) and the
//! correlation identifier (if one was assigned).

use vstd::prelude::*;
use crate::ids::{CorrelationId, RequestId};
use crate::status::StatusCode;
use crate::text::{chars_of, string_of};
use crate::trace::TraceId;

verus! {

/// ASCII lower case of one character; others are left as they are.
pub open spec fn fold_case(c: char) -> char {
    if 'A' <= c && c <= 'Z' {
        ((c as u8) + 32) as u8 as char
    } else {
        c
    }
}

/// Header names are compared without regard to ASCII case.
pub open spec fn same_name(a: Seq<char>, b: Seq<char>) -> bool {
    a.len() == b.len() && forall|i: int| 0 <= i < a.len() ==> fold_case(#[trigger] a[i])
        == fold_case(b[i])
}

fn fold(c: char) -> (r: char)
    ensures
        r == fold_case(c),
{
    if 'A' <= c && c <= 'Z' {
        ((c as u8) + 32) as char
    } else {
        c
    }
}

fn names_match(a: &Vec<char>, b: &Vec<char>) -> (r: bool)
    ensures
        r == same_name(a@, b@),
{
    if a.len() != b.len() {
        return false;
    }
    let mut i: usize = 0;
    while i < a.len()
        invariant
            a@.len() == b@.len(),
            0 <= i <= a@.len(),
            forall|k: int| 0 <= k < i ==> fold_case(#[trigger] a@[k]) == fold_case(b@[k]),
        decreases a@.len() - i,
    {
        if fold(a[i]) != fold(b[i]) {
            return false;
        }
        i += 1;
    }
    true
}

/// One header line.
#[derive(Debug)]
pub struct Header {
    pub name: String,
    pub value: String,
}

impl Clone for Header {
    fn clone(&self) -> (res: Self)
        ensures
            res == *self,
    {
        Header { name: self.name.clone(), value: self.value.clone() }
    }
}

/// The value of the last header called `name`, if there is one.
pub open spec fn lookup(entries: Seq<Header>, name: Seq<char>) -> Option<Seq<char>>
    decreases entries.len(),
{
    if entries.len() == 0 {
        None
    } else if same_name(entries.last().name@, name) {
        Some(entries.last().value@)
    } else {
        lookup(entries.drop_last(), name)
    }
}

/// The headers that are not called `name`, in their order.
pub open spec fn without(entries: Seq<Header>, name: Seq<char>) -> Seq<Header>
    decreases entries.len(),
{
    if entries.len() == 0 {
        entries
    } else if same_name(entries.last().name@, name) {
        without(entries.drop_last(), name)
    } else {
        without(entries.drop_last(), name).push(entries.last())
    }
}

/// `after` is `before` with every header called `name` taken out and one
/// header `name: value` put at the end.
pub open spec fn is_set(before: Seq<Header>, after: Seq<Header>, name: Seq<char>, value: Seq<char>)
    -> bool {
    &&& after.len() > 0
    &&& after.drop_last() == without(before, name)
    &&& after.last().name@ == name
    &&& after.last().value@ == value
}

/// Taking out the headers called `name` leaves none called that, whatever the
/// case of the letters asked for.
pub proof fn lemma_without_has_none(entries: Seq<Header>, name: Seq<char>, asked: Seq<char>)
    requires
        same_name(name, asked),
    ensures
        lookup(without(entries, name), asked) is None,
    decreases entries.len(),
{
    if entries.len() > 0 {
        lemma_without_has_none(entries.drop_last(), name, asked);
        let last = entries.last();
        if !same_name(last.name@, name) {
            let kept = without(entries.drop_last(), name).push(last);
            assert(kept.drop_last() == without(entries.drop_last(), name));
            if same_name(last.name@, asked) {
                assert forall|i: int| 0 <= i < name.len() implies fold_case(
                    #[trigger] last.name@[i],
                ) == fold_case(name[i]) by {
                    assert(fold_case(name[i]) == fold_case(asked[i]));
                }
            }
        }
    }
}

/// Taking out the headers called `name` does not touch what is found under
/// another name.
pub proof fn lemma_without_keeps_others(entries: Seq<Header>, name: Seq<char>, other: Seq<char>)
    requires
        !same_name(name, other),
    ensures
        lookup(without(entries, name), other) == lookup(entries, other),
    decreases entries.len(),
{
    if entries.len() > 0 {
        lemma_without_keeps_others(entries.drop_last(), name, other);
        let last = entries.last();
        if same_name(last.name@, name) {
            if same_name(last.name@, other) {
                assert forall|i: int| 0 <= i < name.len() implies fold_case(#[trigger] name[i])
                    == fold_case(other[i]) by {
                    assert(fold_case(last.name@[i]) == fold_case(name[i]));
                    assert(fold_case(last.name@[i]) == fold_case(other[i]));
                }
            }
        } else {
            let kept = without(entries.drop_last(), name).push(last);
            assert(kept.drop_last() == without(entries.drop_last(), name));
        }
    }
}

/// After a header is set, it is found under its name, in any case of the
/// letters, with the value given; and no older header of that name is left.
pub proof fn law_set_then_found(
    before: Seq<Header>,
    after: Seq<Header>,
    name: Seq<char>,
    value: Seq<char>,
    asked: Seq<char>,
)
    requires
        is_set(before, after, name, value),
        same_name(name, asked),
    ensures
        lookup(after, asked) == Some(value),
        lookup(after.drop_last(), asked) is None,
{
    lemma_without_has_none(before, name, asked);
}

/// After a header is set, headers of other names are found as before.
pub proof fn law_set_keeps_others(
    before: Seq<Header>,
    after: Seq<Header>,
    name: Seq<char>,
    value: Seq<char>,
    other: Seq<char>,
)
    requires
        is_set(before, after, name, value),
        !same_name(name, other),
    ensures
        lookup(after, other) == lookup(before, other),
{
    lemma_without_keeps_others(before, name, other);
}

/// An ordered list of headers in which a name is looked up without regard
/// to case, and the last header of a name is the one that counts.
#[derive(Debug)]
pub struct Headers {
    pub entries: Vec<Header>,
}

impl Headers {
    /// No headers.
    pub fn new() -> (r: Self)
        ensures
            r.entries@.len() == 0,
    {
        Headers { entries: Vec::new() }
    }

    /// The value of the last header called `name`.
    pub fn get(&self, name: &str) -> (r: Option<String>)
        ensures
            r is Some <==> lookup(self.entries@, name@) is Some,
            r is Some ==> lookup(self.entries@, name@) == Some(r->0@),
    {
        let wanted = chars_of(name);
        let mut i: usize = self.entries.len();
        assert(self.entries@.take(i as int) == self.entries@);
        while i > 0
            invariant
                0 <= i <= self.entries@.len(),
                wanted@ == name@,
                lookup(self.entries@, name@) == lookup(self.entries@.take(i as int), name@),
            decreases i,
        {
            let entry = &self.entries[i - 1];
            let have = chars_of(entry.name.as_str());
            assert(self.entries@.take(i as int).last() == self.entries@[i as int - 1]);
            assert(self.entries@.take(i as int).drop_last() == self.entries@.take(i as int - 1));
            if names_match(&have, &wanted) {
                return Some(entry.value.clone());
            }
            i -= 1;
        }
        assert(self.entries@.take(0).len() == 0);
        None
    }

    /// Sets the header `name` to `value`, replacing every header of that name.
    pub fn insert(&mut self, name: &str, value: &str)
        ensures
            is_set(old(self).entries@, final(self).entries@, name@, value@),
    {
        let wanted = chars_of(name);
        let mut kept: Vec<Header> = Vec::new();
        let mut i: usize = 0;
        while i < self.entries.len()
            invariant
                0 <= i <= self.entries@.len(),
                wanted@ == name@,
                kept@ == without(self.entries@.take(i as int), name@),
            decreases self.entries@.len() - i,
        {
            let entry = &self.entries[i];
            let have = chars_of(entry.name.as_str());
            assert(self.entries@.take(i as int + 1).last() == self.entries@[i as int]);
            assert(self.entries@.take(i as int + 1).drop_last() == self.entries@.take(i as int));
            if !names_match(&have, &wanted) {
                kept.push(entry.clone());
            }
            i += 1;
        }
        assert(self.entries@.take(i as int) == self.entries@);
        kept.push(Header { name: string_of(&wanted), value: value.to_owned() });
        assert(kept@.drop_last() == without(old(self).entries@, name@));
        self.entries = kept;
    }
}

/// What arrived with the request.
#[derive(Debug)]
pub struct RequestHead {
    pub method: String,
    pub path: String,
    /// The address of the peer, where the listener knows it.
    pub peer_addr: Option<String>,
    pub headers: Headers,
    /// The length of the body, where it is known in advance.
    pub body_size: Option<usize>,
}

/// What the stages have attached to the request so far.
#[derive(Debug)]
pub struct Extensions {
    pub request_id: Option<RequestId>,
    pub trace_id: Option<TraceId>,
    /// Set once the error stage has taken this request.
    pub error_stage_seen: bool,
    /// Set once the logging stage has taken this request.
    pub log_stage_seen: bool,
}

/// A request on its way through the stages.
#[derive(Debug)]
pub struct Request {
    pub head: RequestHead,
    pub ext: Extensions,
}

impl Request {
    /// A request as it arrives, with nothing attached yet.
    pub fn new(head: RequestHead) -> (r: Self)
        ensures
            r.head == head,
            r.ext.request_id is None,
            r.ext.trace_id is None,
            !r.ext.error_stage_seen,
            !r.ext.log_stage_seen,
    {
        Request {
            head,
            ext: Extensions {
                request_id: None,
                trace_id: None,
                error_stage_seen: false,
                log_stage_seen: false,
            },
        }
    }
}

/// The error that a handler attached to its response.
#[derive(Debug)]
pub struct ErrorDetail {
    /// The error in its debug form.
    pub message: String,
    /// The name of the error's type, where it is known.
    pub error_type: Option<String>,
}

/// A response on its way back through the stages.
#[derive(Debug)]
pub struct Response {
    pub status: StatusCode,
    pub headers: Headers,
    pub body: String,
    /// The length of the body in bytes, where it is known.
    pub body_size: Option<usize>,
    pub error: Option<ErrorDetail>,
    pub correlation_id: Option<CorrelationId>,
}

impl Response {
    /// A response with the given status, an empty body and nothing else.
    pub fn new(status: StatusCode) -> (r: Self)
        ensures
            r.status == status,
            r.headers.entries@.len() == 0,
            r.body@.len() == 0,
            r.body_size == Some(0usize),
            r.error is None,
            r.correlation_id is None,
    {
        Response {
            status,
            headers: Headers::new(),
            body: String::new(),
            body_size: Some(0),
            error: None,
            correlation_id: None,
        }
    }
}

} // verus!
