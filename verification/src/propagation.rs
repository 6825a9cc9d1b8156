//! The trace propagation header.
//!
//! Its value has the form `VERSION;PAYLOAD`. For version `1` the payload is a
//! list of clauses `key=value`, separated by commas and without spaces. The
//! keys that are read are:
//!
//! - `trace_id`: the identifier of the trace, a text without commas
//! - `parent_id`: the identifier of the parent span, a text without commas
//! - `dataset`: the name of the dataset for spans downstream, without commas
//! - `context`: a JSON value in base64
//!
//! For example: `1;trace_id=weofijwoeifj,parent_id=owefjoweifj,context=e30=`
//!
//! Base64 and JSON are read and written by the `base64` and `serde_json`
//! crates. The private functions that call them are trusted, not proved.

use vstd::prelude::*;
use vstd::utf8::encode_utf8;
use crate::text::{
    chars_of, find_from, index_from, lemma_index_from, lemma_index_from_is, push_text, range_is,
    slice_of, string_of_range,
};

verus! {

/// The header that carries the trace context.
pub const PROPAGATION_HTTP_HEADER: &'static str = "X-Honeycomb-Trace";

/// The version of the header format that is written, and the only one read.
pub const PROPAGATION_VERSION: usize = 1;

/// What `base64::decode` makes of a text: the bytes it stands for, or `None`
/// where the text is not base64 in the standard alphabet.
pub uninterp spec fn base64_decoded(text: Seq<char>) -> Option<Seq<u8>>;

/// What `base64::encode` makes of a sequence of bytes.
pub uninterp spec fn base64_encoded(bytes: Seq<u8>) -> Seq<char>;

/// What `serde_json` makes of a sequence of bytes when it reads them as a
/// JSON value and writes that value out again in its compact form, or `None`
/// where the bytes are not JSON.
pub uninterp spec fn json_compact(bytes: Seq<u8>) -> Option<Seq<char>>;

/// The characters of the standard base64 alphabet, and the padding sign.
pub open spec fn is_base64_char(c: char) -> bool {
    ('A' <= c && c <= 'Z') || ('a' <= c && c <= 'z') || ('0' <= c && c <= '9') || c == '+' || c
        == '/' || c == '='
}

/// Calls `base64::decode` on a text.
///
/// Trusted: success and the bytes are what `base64_decoded` names. The crate
/// panics only where the length of the input plus seven overflows `usize`,
/// which no slice in memory reaches.
#[verifier::external_body]
fn base64_decode(text: &str) -> (r: Option<Vec<u8>>)
    ensures
        r is Some <==> base64_decoded(text@) is Some,
        r is Some ==> base64_decoded(text@) == Some(r->0@),
{
    match base64::decode(text) {
        Ok(bytes) => Some(bytes),
        Err(_) => None,
    }
}

/// Calls `base64::encode` on a sequence of bytes.
///
/// Trusted: the text is what `base64_encoded` names; it is made of the
/// standard alphabet and the padding sign only; and `base64::decode` reads it
/// back as the same bytes. The crate panics only where four thirds of the
/// length of the input overflows `usize`, which no slice in memory reaches.
#[verifier::external_body]
fn base64_encode(bytes: &[u8]) -> (r: String)
    ensures
        r@ == base64_encoded(bytes@),
        forall|i: int| 0 <= i < r@.len() ==> is_base64_char(#[trigger] r@[i]),
        base64_decoded(r@) == Some(bytes@),
{
    base64::encode(bytes)
}

/// Calls `serde_json::from_slice` for a `serde_json::Value` and, where that
/// succeeds, `to_string` on the value.
///
/// Trusted: success and the text are what `json_compact` names.
#[verifier::external_body]
fn json_reprint(bytes: &[u8]) -> (r: Option<String>)
    ensures
        r is Some <==> json_compact(bytes@) is Some,
        r is Some ==> json_compact(bytes@) == Some(r->0@),
{
    match serde_json::from_slice::<serde_json::Value>(bytes) {
        Ok(value) => Some(value.to_string()),
        Err(_) => None,
    }
}

/// Why a header value was not accepted.
#[derive(Debug, PartialEq, Eq)]
pub enum PropagationError {
    /// The version, which is what stands before the first `;`, is not `1`.
    /// The version that was found is kept.
    UnrecognizedVersion { version: String },
    /// The version is `1`, but no `;` and payload follow it, or a clause
    /// names one of the keys without `=` and a value.
    Malformed,
    /// There is a parent span but no trace.
    ParentWithoutTrace,
    /// The context is not base64.
    ContextNotBase64,
    /// The context is base64, but not of JSON.
    ContextNotJson,
}

/// What a `PropagationError` holds.
pub enum PropagationFault {
    UnrecognizedVersion { version: Seq<char> },
    Malformed,
    ParentWithoutTrace,
    ContextNotBase64,
    ContextNotJson,
}

impl View for PropagationError {
    type V = PropagationFault;

    open spec fn view(&self) -> PropagationFault {
        match *self {
            PropagationError::UnrecognizedVersion { version } => {
                PropagationFault::UnrecognizedVersion { version: version@ }
            },
            PropagationError::Malformed => PropagationFault::Malformed,
            PropagationError::ParentWithoutTrace => PropagationFault::ParentWithoutTrace,
            PropagationError::ContextNotBase64 => PropagationFault::ContextNotBase64,
            PropagationError::ContextNotJson => PropagationFault::ContextNotJson,
        }
    }
}

/// What a fault is, in words. An unrecognized version is named.
pub open spec fn fault_text(fault: PropagationFault) -> Seq<char> {
    match fault {
        PropagationFault::UnrecognizedVersion { version } => {
            "unrecognized version for trace header "@ + version
        },
        PropagationFault::Malformed => "malformed payload for trace header"@,
        PropagationFault::ParentWithoutTrace => "parent_id without trace_id"@,
        PropagationFault::ContextNotBase64 => "unable to decode base64 trace context"@,
        PropagationFault::ContextNotJson => "unable to unmarshal trace context"@,
    }
}

/// What an optional error holds.
pub open spec fn fault_view(error: Option<PropagationError>) -> Option<PropagationFault> {
    match error {
        Some(e) => Some(e@),
        None => None,
    }
}

impl PropagationError {
    /// What the fault is, in words.
    pub fn message(&self) -> (r: String)
        ensures
            r@ == fault_text(self@),
    {
        match self {
            PropagationError::UnrecognizedVersion { version } => {
                let mut out = "unrecognized version for trace header ".to_owned();
                push_text(&mut out, version.as_str());
                out
            },
            PropagationError::Malformed => "malformed payload for trace header".to_owned(),
            PropagationError::ParentWithoutTrace => "parent_id without trace_id".to_owned(),
            PropagationError::ContextNotBase64 => {
                "unable to decode base64 trace context".to_owned()
            },
            PropagationError::ContextNotJson => "unable to unmarshal trace context".to_owned(),
        }
    }
}

/// The trace context that a request brings along.
#[derive(Debug, PartialEq, Eq)]
pub struct Propagation {
    pub trace_id: String,
    pub parent_id: String,
    pub dataset: String,
    /// The context as compact JSON text.
    pub trace_context: String,
}

/// What a `Propagation` holds.
pub struct PropagationView {
    pub trace_id: Seq<char>,
    pub parent_id: Seq<char>,
    pub dataset: Seq<char>,
    pub trace_context: Seq<char>,
}

impl View for Propagation {
    type V = PropagationView;

    open spec fn view(&self) -> PropagationView {
        PropagationView {
            trace_id: self.trace_id@,
            parent_id: self.parent_id@,
            dataset: self.dataset@,
            trace_context: self.trace_context@,
        }
    }
}

/// The record before any clause is read: four empty texts.
pub open spec fn blank() -> PropagationView {
    PropagationView {
        trace_id: Seq::empty(),
        parent_id: Seq::empty(),
        dataset: Seq::empty(),
        trace_context: Seq::empty(),
    }
}

/// The record after one clause is read into it. The key is what stands
/// before the first `=`, the value what stands after it. A clause whose key
/// is not one of the four is passed over. `None` where one of the four keys
/// stands without `=`.
pub open spec fn read_clause(clause: Seq<char>, so_far: PropagationView) -> Option<
    PropagationView,
> {
    let eq = index_from(clause, '=', 0);
    let key = clause.subrange(0, eq);
    let value = clause.subrange(eq + 1, clause.len() as int);
    if key == "trace_id"@ {
        if eq < clause.len() {
            Some(PropagationView { trace_id: value, ..so_far })
        } else {
            None
        }
    } else if key == "parent_id"@ {
        if eq < clause.len() {
            Some(PropagationView { parent_id: value, ..so_far })
        } else {
            None
        }
    } else if key == "dataset"@ {
        if eq < clause.len() {
            Some(PropagationView { dataset: value, ..so_far })
        } else {
            None
        }
    } else if key == "context"@ {
        if eq < clause.len() {
            Some(PropagationView { trace_context: value, ..so_far })
        } else {
            None
        }
    } else {
        Some(so_far)
    }
}

/// The record after the clauses of `payload[from..]` are read into it from
/// left to right, so that of two clauses with one key the later one counts.
/// In the result, `trace_context` is still the base64 text.
pub open spec fn read_clauses(payload: Seq<char>, from: int, so_far: PropagationView) -> Option<
    PropagationView,
>
    decreases payload.len() - from,
{
    let end = index_from(payload, ',', from);
    if 0 <= from <= end <= payload.len() {
        match read_clause(payload.subrange(from, end), so_far) {
            Some(next) => if end < payload.len() {
                read_clauses(payload, end + 1, next)
            } else {
                Some(next)
            },
            None => None,
        }
    } else {
        None
    }
}

/// What the clauses of a payload mean once all are read: the record with
/// its context decoded from base64 and reprinted as compact JSON, or the
/// fault that was found.
pub open spec fn finish(read: PropagationView) -> Result<PropagationView, PropagationFault> {
    if read.trace_id.len() == 0 && read.parent_id.len() > 0 {
        Err(PropagationFault::ParentWithoutTrace)
    } else {
        match base64_decoded(read.trace_context) {
            None => Err(PropagationFault::ContextNotBase64),
            Some(bytes) => match json_compact(bytes) {
                None => Err(PropagationFault::ContextNotJson),
                Some(json) => Ok(PropagationView { trace_context: json, ..read }),
            },
        }
    }
}

/// What a payload of version 1 means.
pub open spec fn unmarshal_v1(payload: Seq<char>) -> Result<PropagationView, PropagationFault> {
    match read_clauses(payload, 0, blank()) {
        None => Err(PropagationFault::Malformed),
        Some(read) => finish(read),
    }
}

/// What a header value means. The version is what stands before the first
/// `;`, the payload what stands after it.
pub open spec fn unmarshal(header: Seq<char>) -> Result<PropagationView, PropagationFault> {
    let semi = index_from(header, ';', 0);
    if header.subrange(0, semi) != "1"@ {
        Err(PropagationFault::UnrecognizedVersion { version: header.subrange(0, semi) })
    } else if semi >= header.len() {
        Err(PropagationFault::Malformed)
    } else {
        unmarshal_v1(header.subrange(semi + 1, header.len() as int))
    }
}

/// The clause for the dataset, which is written only where there is one.
pub open spec fn dataset_clause(dataset: Seq<char>) -> Seq<char> {
    if dataset.len() > 0 {
        "dataset="@ + dataset + ","@
    } else {
        Seq::empty()
    }
}

/// The header value of version 1 with the given names and the given context
/// in base64.
pub open spec fn header_text(
    trace_id: Seq<char>,
    parent_id: Seq<char>,
    dataset: Seq<char>,
    context: Seq<char>,
) -> Seq<char> {
    "1;trace_id="@ + trace_id + ",parent_id="@ + parent_id + ","@ + dataset_clause(dataset)
        + "context="@ + context
}

/// The header value for a record.
pub open spec fn marshal(p: PropagationView) -> Seq<char> {
    header_text(
        p.trace_id,
        p.parent_id,
        p.dataset,
        base64_encoded(encode_utf8(p.trace_context)),
    )
}

/// Whether a text is free of commas.
pub open spec fn comma_free(text: Seq<char>) -> bool {
    forall|i: int| 0 <= i < text.len() ==> #[trigger] text[i] != ','
}

/// A record that can be written and read back: its three names hold no
/// comma, and it has no parent span without a trace.
pub open spec fn is_relayable(p: PropagationView) -> bool {
    &&& comma_free(p.trace_id)
    &&& comma_free(p.parent_id)
    &&& comma_free(p.dataset)
    &&& !(p.trace_id.len() == 0 && p.parent_id.len() > 0)
}

/// All four texts of a record are free of commas.
pub open spec fn all_comma_free(p: PropagationView) -> bool {
    &&& comma_free(p.trace_id)
    &&& comma_free(p.parent_id)
    &&& comma_free(p.dataset)
    &&& comma_free(p.trace_context)
}

/// Reading a clause without commas into a record without commas gives a
/// record without commas.
proof fn lemma_clause_keeps_comma_free(clause: Seq<char>, so_far: PropagationView)
    requires
        comma_free(clause),
        all_comma_free(so_far),
    ensures
        read_clause(clause, so_far) is Some ==> all_comma_free(read_clause(clause, so_far)->0),
{
    let eq = index_from(clause, '=', 0);
    lemma_index_from(clause, '=', 0);
    if eq < clause.len() {
        let value = clause.subrange(eq + 1, clause.len() as int);
        assert forall|i: int| 0 <= i < value.len() implies #[trigger] value[i] != ',' by {
            assert(value[i] == clause[eq + 1 + i]);
        }
    }
}

/// No clause holds a comma, so neither does anything that is read.
proof fn lemma_read_keeps_comma_free(payload: Seq<char>, from: int, so_far: PropagationView)
    requires
        0 <= from <= payload.len(),
        all_comma_free(so_far),
    ensures
        read_clauses(payload, from, so_far) is Some ==> all_comma_free(
            read_clauses(payload, from, so_far)->0,
        ),
    decreases payload.len() - from,
{
    let end = index_from(payload, ',', from);
    lemma_index_from(payload, ',', from);
    let clause = payload.subrange(from, end);
    assert forall|i: int| 0 <= i < clause.len() implies #[trigger] clause[i] != ',' by {
        assert(clause[i] == payload[from + i]);
    }
    lemma_clause_keeps_comma_free(clause, so_far);
    if read_clause(clause, so_far) is Some && end < payload.len() {
        lemma_read_keeps_comma_free(payload, end + 1, read_clause(clause, so_far)->0);
    }
}

/// Every record that is read from a header can be written and read back: its
/// names hold no comma, and it has no parent span without a trace.
pub proof fn law_read_record_is_relayable(header: Seq<char>)
    ensures
        unmarshal(header) is Ok ==> is_relayable(unmarshal(header)->Ok_0),
{
    if unmarshal(header) is Ok {
        let semi = index_from(header, ';', 0);
        lemma_index_from(header, ';', 0);
        let payload = header.subrange(semi + 1, header.len() as int);
        assert(all_comma_free(blank()));
        lemma_read_keeps_comma_free(payload, 0, blank());
    }
}

/// Reading the clauses of a text that starts, at `from`, with a clause and a
/// comma comes to reading that clause and then the clauses after the comma.
proof fn lemma_read_first(
    payload: Seq<char>,
    from: int,
    clause: Seq<char>,
    rest: Seq<char>,
    so_far: PropagationView,
)
    requires
        0 <= from <= payload.len(),
        payload.subrange(from, payload.len() as int) == clause + seq![','] + rest,
        comma_free(clause),
    ensures
        payload.subrange(from + clause.len() + 1, payload.len() as int) == rest,
        read_clauses(payload, from, so_far) == match read_clause(clause, so_far) {
            Some(next) => read_clauses(payload, from + clause.len() + 1, next),
            None => None,
        },
{
    let tail = payload.subrange(from, payload.len() as int);
    let end = from + clause.len();
    assert(tail.len() == clause.len() + 1 + rest.len());
    assert forall|k: int| from <= k < end implies payload[k] != ',' by {
        assert(payload[k] == tail[k - from]);
        assert(tail[k - from] == clause[k - from]);
    }
    assert(payload[end] == tail[end - from]);
    assert(tail[clause.len() as int] == ',');
    lemma_index_from_is(payload, ',', from, end);
    assert(payload.subrange(from, end) =~= clause) by {
        assert forall|k: int| 0 <= k < clause.len() implies payload.subrange(from, end)[k]
            == clause[k] by {
            assert(payload[from + k] == tail[k]);
        }
    }
    assert(payload.subrange(end + 1, payload.len() as int) =~= rest) by {
        assert forall|k: int| 0 <= k < rest.len() implies payload.subrange(
            end + 1,
            payload.len() as int,
        )[k] == rest[k] by {
            assert(payload[end + 1 + k] == tail[clause.len() + 1 + k]);
        }
    }
}

/// Reading the clauses of a text that ends, from `from` on, with one clause
/// comes to reading that clause.
proof fn lemma_read_last(
    payload: Seq<char>,
    from: int,
    clause: Seq<char>,
    so_far: PropagationView,
)
    requires
        0 <= from <= payload.len(),
        payload.subrange(from, payload.len() as int) == clause,
        comma_free(clause),
    ensures
        read_clauses(payload, from, so_far) == read_clause(clause, so_far),
{
    let tail = payload.subrange(from, payload.len() as int);
    assert forall|k: int| from <= k < payload.len() implies payload[k] != ',' by {
        assert(payload[k] == tail[k - from]);
    }
    lemma_index_from_is(payload, ',', from, payload.len() as int);
}

/// In a clause made of a key without `=`, then `=`, then a value, the key is
/// what stands before the first `=` and the value what stands after it.
proof fn lemma_clause_parts(key: Seq<char>, value: Seq<char>)
    requires
        forall|i: int| 0 <= i < key.len() ==> #[trigger] key[i] != '=',
    ensures
        index_from(key + seq!['='] + value, '=', 0) == key.len(),
        (key + seq!['='] + value).subrange(0, key.len() as int) == key,
        (key + seq!['='] + value).subrange(
            key.len() as int + 1,
            (key + seq!['='] + value).len() as int,
        ) == value,
{
    let clause = key + seq!['='] + value;
    assert forall|k: int| 0 <= k < key.len() implies clause[k] != '=' by {
        assert(clause[k] == key[k]);
    }
    assert(clause[key.len() as int] == '=');
    lemma_index_from_is(clause, '=', 0, key.len() as int);
    assert(clause.subrange(0, key.len() as int) =~= key);
    assert(clause.subrange(key.len() as int + 1, clause.len() as int) =~= value);
}

/// What each of the four clauses does to a record.
proof fn lemma_known_clauses(value: Seq<char>, so_far: PropagationView)
    ensures
        read_clause("trace_id"@ + seq!['='] + value, so_far) == Some(
            PropagationView { trace_id: value, ..so_far },
        ),
        read_clause("parent_id"@ + seq!['='] + value, so_far) == Some(
            PropagationView { parent_id: value, ..so_far },
        ),
        read_clause("dataset"@ + seq!['='] + value, so_far) == Some(
            PropagationView { dataset: value, ..so_far },
        ),
        read_clause("context"@ + seq!['='] + value, so_far) == Some(
            PropagationView { trace_context: value, ..so_far },
        ),
        comma_free("trace_id"@ + seq!['=']),
        comma_free("parent_id"@ + seq!['=']),
        comma_free("dataset"@ + seq!['=']),
        comma_free("context"@ + seq!['=']),
{
    reveal_strlit("trace_id");
    reveal_strlit("parent_id");
    reveal_strlit("dataset");
    reveal_strlit("context");
    lemma_clause_parts("trace_id"@, value);
    lemma_clause_parts("parent_id"@, value);
    lemma_clause_parts("dataset"@, value);
    lemma_clause_parts("context"@, value);
    assert("parent_id"@.len() != "trace_id"@.len());
    assert("dataset"@.len() != "trace_id"@.len());
    assert("dataset"@.len() != "parent_id"@.len());
    assert("context"@.len() != "trace_id"@.len());
    assert("context"@.len() != "parent_id"@.len());
    assert("context"@[0] != "dataset"@[0]);
}

/// A header value, clause by clause.
proof fn lemma_header_shape(
    trace_id: Seq<char>,
    parent_id: Seq<char>,
    dataset: Seq<char>,
    context: Seq<char>,
)
    ensures
        header_text(trace_id, parent_id, dataset, context) == seq!['1', ';'] + (("trace_id"@
            + seq!['='] + trace_id) + seq![','] + (("parent_id"@ + seq!['='] + parent_id)
            + seq![','] + (if dataset.len() > 0 {
            ("dataset"@ + seq!['='] + dataset) + seq![','] + ("context"@ + seq!['='] + context)
        } else {
            "context"@ + seq!['='] + context
        }))),
{
    reveal_strlit("1;trace_id=");
    reveal_strlit(",parent_id=");
    reveal_strlit(",");
    reveal_strlit("dataset=");
    reveal_strlit("context=");
    reveal_strlit("trace_id");
    reveal_strlit("parent_id");
    reveal_strlit("dataset");
    reveal_strlit("context");
    assert("1;trace_id="@ =~= seq!['1', ';'] + "trace_id"@ + seq!['=']);
    assert(",parent_id="@ =~= seq![','] + "parent_id"@ + seq!['=']);
    assert(","@ =~= seq![',']);
    assert("dataset="@ =~= "dataset"@ + seq!['=']);
    assert("context="@ =~= "context"@ + seq!['=']);
    let last_clause = "context"@ + seq!['='] + context;
    let last = if dataset.len() > 0 {
        ("dataset"@ + seq!['='] + dataset) + seq![','] + last_clause
    } else {
        last_clause
    };
    assert(dataset_clause(dataset) + "context="@ + context =~= last);
    assert(header_text(trace_id, parent_id, dataset, context) =~= seq!['1', ';'] + ((
        "trace_id"@ + seq!['='] + trace_id) + seq![','] + (("parent_id"@ + seq!['='] + parent_id)
        + seq![','] + last)));
}

/// A clause is free of commas when its key with `=` and its value are.
proof fn lemma_clause_comma_free(key: Seq<char>, value: Seq<char>)
    requires
        comma_free(key + seq!['=']),
        comma_free(value),
    ensures
        comma_free(key + seq!['='] + value),
{
    let head = key + seq!['='];
    let clause = key + seq!['='] + value;
    assert forall|i: int| 0 <= i < clause.len() implies clause[i] != ',' by {
        if i < head.len() {
            assert(clause[i] == head[i]);
        } else {
            assert(clause[i] == value[i - head.len()]);
        }
    }
}

/// A header value that is written with a trace, a parent span, a dataset and
/// a context, none of which holds a comma, is read as exactly these four;
/// what becomes of them is then a matter of the context alone.
pub proof fn law_header_is_read(
    trace_id: Seq<char>,
    parent_id: Seq<char>,
    dataset: Seq<char>,
    context: Seq<char>,
)
    requires
        comma_free(trace_id),
        comma_free(parent_id),
        comma_free(dataset),
        comma_free(context),
    ensures
        unmarshal(header_text(trace_id, parent_id, dataset, context)) == finish(
            PropagationView { trace_id, parent_id, dataset, trace_context: context },
        ),
{
    let first = "trace_id"@ + seq!['='] + trace_id;
    let second = "parent_id"@ + seq!['='] + parent_id;
    let third = "dataset"@ + seq!['='] + dataset;
    let fourth = "context"@ + seq!['='] + context;
    let after_second = if dataset.len() > 0 {
        third + seq![','] + fourth
    } else {
        fourth
    };
    let after_first = second + seq![','] + after_second;
    let payload = first + seq![','] + after_first;
    let header = seq!['1', ';'] + payload;
    lemma_header_shape(trace_id, parent_id, dataset, context);
    assert(header_text(trace_id, parent_id, dataset, context) == header);

    // The version and the payload.
    reveal_strlit("1");
    lemma_index_from_is(header, ';', 0, 1);
    assert(header.subrange(0, 1) =~= "1"@);
    assert(header.subrange(2, header.len() as int) =~= payload);

    // The four clauses hold no comma.
    lemma_known_clauses(trace_id, blank());
    lemma_clause_comma_free("trace_id"@, trace_id);
    lemma_clause_comma_free("parent_id"@, parent_id);
    lemma_clause_comma_free("dataset"@, dataset);
    lemma_clause_comma_free("context"@, context);

    // The clauses are read one after the other.
    let one = PropagationView { trace_id, ..blank() };
    let two = PropagationView { parent_id, ..one };
    let three = PropagationView { dataset, ..two };
    let read = PropagationView { trace_context: context, ..three };
    assert(payload.subrange(0, payload.len() as int) == payload);
    lemma_read_first(payload, 0, first, after_first, blank());
    let at_second: int = first.len() as int + 1;
    lemma_known_clauses(parent_id, one);
    lemma_read_first(payload, at_second, second, after_second, one);
    let at_third: int = at_second + second.len() as int + 1;
    assert(read_clauses(payload, 0, blank()) == read_clauses(payload, at_third, two));
    if dataset.len() > 0 {
        lemma_known_clauses(dataset, two);
        lemma_read_first(payload, at_third, third, fourth, two);
        lemma_known_clauses(context, three);
        lemma_read_last(payload, at_third + third.len() as int + 1, fourth, three);
    } else {
        assert(three == two) by {
            assert(dataset =~= Seq::<char>::empty());
        }
        lemma_known_clauses(context, two);
        lemma_read_last(payload, at_third, fourth, two);
    }
    assert(read_clauses(payload, 0, blank()) == Some(read));
    assert(read == PropagationView { trace_id, parent_id, dataset, trace_context: context });
}

/// What reading gives for a record that was written out: the names text for
/// text, and the context as `serde_json` reprints it; or the fault that the
/// context is no JSON.
pub open spec fn reread(p: PropagationView) -> Result<PropagationView, PropagationFault> {
    match json_compact(encode_utf8(p.trace_context)) {
        Some(json) => Ok(PropagationView { trace_context: json, ..p }),
        None => Err(PropagationFault::ContextNotJson),
    }
}

/// A record that was read from a header and is written out again is read
/// back field for field: the same trace, parent span and dataset, and the
/// context as `serde_json` reprints it. This is given of base64 that its text
/// is made of its alphabet and decodes to what was encoded.
pub proof fn law_relayed_record_reads_back(header: Seq<char>, p: PropagationView)
    requires
        unmarshal(header) == Ok::<PropagationView, PropagationFault>(p),
        forall|i: int|
            0 <= i < base64_encoded(encode_utf8(p.trace_context)).len() ==> is_base64_char(
                #[trigger] base64_encoded(encode_utf8(p.trace_context))[i],
            ),
        base64_decoded(base64_encoded(encode_utf8(p.trace_context))) == Some(
            encode_utf8(p.trace_context),
        ),
    ensures
        unmarshal(marshal(p)) == reread(p),
        unmarshal(marshal(p)) matches Ok(q) ==> q.trace_id == p.trace_id && q.parent_id
            == p.parent_id && q.dataset == p.dataset,
        json_compact(encode_utf8(p.trace_context)) == Some(p.trace_context) ==> unmarshal(
            marshal(p),
        ) == Ok::<PropagationView, PropagationFault>(p),
{
    law_read_record_is_relayable(header);
    law_propagation_round_trip(p);
}

/// A record that is written out is read back field for field. This holds for
/// every record whose names hold no comma and which has no parent span
/// without a trace, given of base64 that its text is made of its alphabet and
/// decodes to what was encoded.
pub proof fn law_propagation_round_trip(p: PropagationView)
    requires
        is_relayable(p),
        forall|i: int|
            0 <= i < base64_encoded(encode_utf8(p.trace_context)).len() ==> is_base64_char(
                #[trigger] base64_encoded(encode_utf8(p.trace_context))[i],
            ),
        base64_decoded(base64_encoded(encode_utf8(p.trace_context))) == Some(
            encode_utf8(p.trace_context),
        ),
    ensures
        unmarshal(marshal(p)) == reread(p),
        json_compact(encode_utf8(p.trace_context)) == Some(p.trace_context) ==> unmarshal(
            marshal(p),
        ) == Ok::<PropagationView, PropagationFault>(p),
{
    let encoded = base64_encoded(encode_utf8(p.trace_context));
    assert(comma_free(encoded)) by {
        assert forall|i: int| 0 <= i < encoded.len() implies encoded[i] != ',' by {
            assert(is_base64_char(encoded[i]));
        }
    }
    law_header_is_read(p.trace_id, p.parent_id, p.dataset, encoded);
}

fn read_one(clause: &Vec<char>, so_far: &mut Propagation) -> (ok: bool)
    ensures
        ok <==> read_clause(clause@, old(so_far)@) is Some,
        ok ==> read_clause(clause@, old(so_far)@) == Some(final(so_far)@),
{
    let eq = find_from(clause, '=', 0);
    let known_trace = range_is(clause, 0, eq, &chars_of("trace_id"));
    let known_parent = range_is(clause, 0, eq, &chars_of("parent_id"));
    let known_dataset = range_is(clause, 0, eq, &chars_of("dataset"));
    let known_context = range_is(clause, 0, eq, &chars_of("context"));
    if !(known_trace || known_parent || known_dataset || known_context) {
        return true;
    }
    if eq >= clause.len() {
        return false;
    }
    let value = string_of_range(clause, eq + 1, clause.len());
    if known_trace {
        so_far.trace_id = value;
    } else if known_parent {
        so_far.parent_id = value;
    } else if known_dataset {
        so_far.dataset = value;
    } else {
        so_far.trace_context = value;
    }
    true
}

fn unmarshal_trace_context_v1(payload: &Vec<char>) -> (r: Result<Propagation, PropagationError>)
    ensures
        match unmarshal_v1(payload@) {
            Ok(p) => r is Ok && r->Ok_0@ == p,
            Err(e) => r is Err && r->Err_0@ == e,
        },
{
    let mut read = Propagation {
        trace_id: String::new(),
        parent_id: String::new(),
        dataset: String::new(),
        trace_context: String::new(),
    };
    assert(read@ == blank());
    let mut from: usize = 0;
    loop
        invariant_except_break
            0 <= from <= payload@.len(),
            read_clauses(payload@, 0, blank()) == read_clauses(payload@, from as int, read@),
        ensures
            read_clauses(payload@, 0, blank()) == Some(read@),
        decreases payload@.len() - from,
    {
        let end = find_from(payload, ',', from);
        let clause = slice_of(payload, from, end);
        if !read_one(&clause, &mut read) {
            return Err(PropagationError::Malformed);
        }
        if end >= payload.len() {
            break;
        }
        from = end + 1;
    }
    if read.trace_id.as_str().is_empty() && !read.parent_id.as_str().is_empty() {
        return Err(PropagationError::ParentWithoutTrace);
    }
    let bytes = match base64_decode(read.trace_context.as_str()) {
        Some(bytes) => bytes,
        None => {
            return Err(PropagationError::ContextNotBase64);
        },
    };
    let json = match json_reprint(bytes.as_slice()) {
        Some(json) => json,
        None => {
            return Err(PropagationError::ContextNotJson);
        },
    };
    read.trace_context = json;
    Ok(read)
}

impl Propagation {
    /// Reads a header value. Only version `1` is read; any other version is
    /// handed back in the error. A record that is read can be relayed.
    pub fn unmarshal_trace_context(header: &str) -> (r: Result<Self, PropagationError>)
        ensures
            match unmarshal(header@) {
                Ok(p) => r is Ok && r->Ok_0@ == p,
                Err(e) => r is Err && r->Err_0@ == e,
            },
            r is Ok ==> is_relayable(r->Ok_0@),
    {
        proof {
            law_read_record_is_relayable(header@);
        }
        let chars = chars_of(header);
        let semi = find_from(&chars, ';', 0);
        if !range_is(&chars, 0, semi, &chars_of("1")) {
            return Err(
                PropagationError::UnrecognizedVersion { version: string_of_range(&chars, 0, semi) },
            );
        }
        if semi >= chars.len() {
            return Err(PropagationError::Malformed);
        }
        let payload = slice_of(&chars, semi + 1, chars.len());
        unmarshal_trace_context_v1(&payload)
    }

    /// Writes the record as a header value of version `1`. The clause for the
    /// dataset is left out where the dataset is empty.
    pub fn marshal_trace_context(&self) -> (r: String)
        ensures
            r@ == marshal(self@),
            is_relayable(self@) ==> unmarshal(r@) == reread(self@),
    {
        let mut out = "1;trace_id=".to_owned();
        push_text(&mut out, self.trace_id.as_str());
        push_text(&mut out, ",parent_id=");
        push_text(&mut out, self.parent_id.as_str());
        push_text(&mut out, ",");
        if !self.dataset.as_str().is_empty() {
            push_text(&mut out, "dataset=");
            push_text(&mut out, self.dataset.as_str());
            push_text(&mut out, ",");
        }
        push_text(&mut out, "context=");
        let context = base64_encode(self.trace_context.as_str().as_bytes());
        push_text(&mut out, context.as_str());
        assert(out@ =~= marshal(self@));
        proof {
            if is_relayable(self@) {
                law_propagation_round_trip(self@);
            }
        }
        out
    }
}

} // verus!
