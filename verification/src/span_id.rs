//! Span identifiers: numbers other than zero, written in hexadecimal.
//!
//! A span identifier is read by the parser of the `eaze_tracing_honeycomb`
//! crate, which reads a `u64` in radix 16 as the standard library does (an
//! optional `+`, then hexadecimal digits in either case) and refuses zero.
//! The private function that calls it is trusted, not proved. The number is
//! then read from the canonical text that the crate hands back.

use vstd::prelude::*;
use crate::ids::hex_char;
use crate::text::chars_of;

verus! {

/// The value of one hexadecimal digit, in either case.
pub open spec fn hex_value(c: char) -> Option<nat> {
    if '0' <= c && c <= '9' {
        Some((c as nat - '0' as nat) as nat)
    } else if 'a' <= c && c <= 'f' {
        Some((c as nat - 'a' as nat + 10) as nat)
    } else if 'A' <= c && c <= 'F' {
        Some((c as nat - 'A' as nat + 10) as nat)
    } else {
        None
    }
}

/// The number that a text of hexadecimal digits denotes; `None` where a
/// character is no such digit. The empty text denotes zero.
pub open spec fn hex_number(digits: Seq<char>) -> Option<nat>
    decreases digits.len(),
{
    if digits.len() == 0 {
        Some(0)
    } else {
        match (hex_number(digits.drop_last()), hex_value(digits.last())) {
            (Some(high), Some(low)) => Some(16 * high + low),
            _ => None,
        }
    }
}

/// A text without the `+` that it may start with.
pub open spec fn unsigned_part(text: Seq<char>) -> Seq<char> {
    if text.len() > 0 && text[0] == '+' {
        text.subrange(1, text.len() as int)
    } else {
        text
    }
}

/// What a text means as a span identifier: an optional `+`, then one or more
/// hexadecimal digits of a number between 1 and 2^64 - 1; `None` for every
/// other text.
pub open spec fn span_id_parsed(text: Seq<char>) -> Option<u64> {
    let digits = unsigned_part(text);
    if digits.len() == 0 {
        None
    } else {
        match hex_number(digits) {
            Some(n) => if 0 < n <= u64::MAX {
                Some(n as u64)
            } else {
                None
            },
            None => None,
        }
    }
}

/// The hexadecimal numeral of `n` in lower case, without leading zeros.
pub open spec fn lower_hex(n: nat) -> Seq<char>
    decreases n,
{
    if n < 16 {
        seq![hex_char(n as int)]
    } else {
        lower_hex(n / 16).push(hex_char((n % 16) as int))
    }
}

/// A number is never smaller than what a prefix of its digits denotes.
pub proof fn lemma_hex_number_grows(digits: Seq<char>, i: int)
    requires
        0 <= i <= digits.len(),
        hex_number(digits) is Some,
    ensures
        hex_number(digits.take(i)) is Some,
        hex_number(digits.take(i))->0 <= hex_number(digits)->0,
    decreases digits.len() - i,
{
    if i == digits.len() {
        assert(digits.take(i) == digits);
    } else {
        lemma_hex_number_grows(digits.drop_last(), i);
        assert(digits.drop_last().take(i) == digits.take(i));
    }
}

/// The numeral of a number has no sign and denotes that number.
pub proof fn lemma_lower_hex_reads_back(n: nat)
    ensures
        lower_hex(n).len() > 0,
        lower_hex(n)[0] != '+',
        hex_number(lower_hex(n)) == Some(n),
    decreases n,
{
    if n < 16 {
        let s = lower_hex(n);
        assert(s.drop_last().len() == 0);
        assert(s.last() == hex_char(n as int));
        assert(hex_value(hex_char(n as int)) == Some(n));
        assert(hex_number(s.drop_last()) == Some(0nat));
        assert(hex_number(s) == Some(n));
    } else {
        lemma_lower_hex_reads_back(n / 16);
        let s = lower_hex(n);
        assert(s.drop_last() == lower_hex(n / 16));
        assert(s.last() == hex_char((n % 16) as int));
        assert(hex_value(hex_char((n % 16) as int)) == Some(n % 16));
        assert(s[0] == lower_hex(n / 16)[0]);
        assert(hex_number(s) == Some(n));
    }
}

/// Writing a span identifier and reading the text gives the identifier back.
pub proof fn law_span_id_round_trip(id: u64)
    requires
        id != 0,
    ensures
        span_id_parsed(lower_hex(id as nat)) == Some(id),
{
    lemma_lower_hex_reads_back(id as nat);
}

/// Calls `FromStr` of `eaze_tracing_honeycomb::SpanId` and hands out the
/// text that the crate's `Display` writes for the identifier, or the text of
/// the crate's error.
///
/// Trusted: the crate accepts exactly the texts for which `span_id_parsed`
/// gives a number (it calls `u64::from_str_radix` with radix 16 and refuses
/// zero), and writes the identifier as that number in lower-case hexadecimal
/// without leading zeros (`{:x}`). Nothing is claimed of the error text.
#[verifier::external_body]
fn span_parse(text: &str) -> (r: Result<String, String>)
    ensures
        r is Ok <==> span_id_parsed(text@) is Some,
        r is Ok ==> r->Ok_0@ == lower_hex(span_id_parsed(text@)->0 as nat),
{
    match text.parse::<eaze_tracing_honeycomb::SpanId>() {
        Ok(id) => Ok(id.to_string()),
        Err(e) => Err(e.to_string()),
    }
}

fn hex_value_of(c: char) -> (r: Option<u64>)
    ensures
        r is Some <==> hex_value(c) is Some,
        r is Some ==> r->0 == hex_value(c)->0 && r->0 < 16,
{
    if '0' <= c && c <= '9' {
        Some((c as u64) - ('0' as u64))
    } else if 'a' <= c && c <= 'f' {
        Some((c as u64) - ('a' as u64) + 10)
    } else if 'A' <= c && c <= 'F' {
        Some((c as u64) - ('A' as u64) + 10)
    } else {
        None
    }
}

/// The number that a text denotes as a span identifier.
fn read_number(text: &str) -> (r: Option<u64>)
    ensures
        r == span_id_parsed(text@),
{
    let chars = chars_of(text);
    let start: usize = if chars.len() > 0 && chars[0] == '+' {
        1
    } else {
        0
    };
    if start >= chars.len() {
        return None;
    }
    let ghost digits = chars@.subrange(start as int, chars@.len() as int);
    assert(digits == unsigned_part(text@));
    let mut value: u64 = 0;
    let mut i: usize = start;
    assert(digits.take(0).len() == 0);
    while i < chars.len()
        invariant
            start <= i <= chars@.len(),
            start < chars@.len(),
            digits == chars@.subrange(start as int, chars@.len() as int),
            digits == unsigned_part(text@),
            hex_number(digits.take(i - start)) == Some(value as nat),
        decreases chars@.len() - i,
    {
        let ghost seen = digits.take(i - start + 1);
        assert(seen.drop_last() == digits.take(i - start));
        assert(seen.last() == chars@[i as int]);
        match hex_value_of(chars[i]) {
            Some(d) => {
                if value > (u64::MAX - d) / 16 {
                    proof {
                        if hex_number(digits) is Some {
                            lemma_hex_number_grows(digits, i - start + 1);
                        }
                    }
                    return None;
                }
                value = value * 16 + d;
            },
            None => {
                proof {
                    if hex_number(digits) is Some {
                        lemma_hex_number_grows(digits, i - start + 1);
                    }
                }
                return None;
            },
        }
        i += 1;
    }
    assert(digits.take(i - start) == digits);
    assert(digits.len() > 0);
    if value == 0 {
        None
    } else {
        Some(value)
    }
}

/// Why a text is no span identifier.
#[derive(Debug, PartialEq, Eq)]
pub struct ParseSpanIdError {
    /// The parser's description of the fault.
    pub message: String,
}

/// The identifier of a span: a number other than zero, together with its
/// text in lower-case hexadecimal without leading zeros.
#[derive(Debug, PartialEq, Eq)]
pub struct SpanId {
    id: u64,
    text: String,
}

impl View for SpanId {
    type V = Seq<char>;

    closed spec fn view(&self) -> Seq<char> {
        self.text@
    }
}

impl Clone for SpanId {
    fn clone(&self) -> (res: Self)
        ensures
            res == *self,
    {
        proof {
            use_type_invariant(self);
        }
        SpanId { id: self.id, text: self.text.clone() }
    }
}

impl SpanId {
    /// The number of the span.
    pub closed spec fn value(&self) -> u64 {
        self.id
    }

    /// No span has the number zero, and the text of a span is its number in
    /// hexadecimal.
    #[verifier::type_invariant]
    closed spec fn well_formed(&self) -> bool {
        self.id != 0 && self.text@ == lower_hex(self.id as nat)
    }

    /// Reads a span identifier from a hexadecimal number: an optional `+`,
    /// then digits in either case. The identifier has the number that the
    /// text denotes and the canonical text of that number.
    pub fn from_str(text: &str) -> (r: Result<Self, ParseSpanIdError>)
        ensures
            r is Ok <==> span_id_parsed(text@) is Some,
            r is Ok ==> span_id_parsed(text@) == Some(r->Ok_0.value()) && r->Ok_0@ == lower_hex(
                r->Ok_0.value() as nat,
            ),
    {
        match span_parse(text) {
            Ok(canonical) => {
                proof {
                    law_span_id_round_trip(span_id_parsed(text@)->0);
                }
                // The canonical text always denotes a number.
                match read_number(canonical.as_str()) {
                    Some(id) => Ok(SpanId { id, text: canonical }),
                    None => Err(ParseSpanIdError { message: canonical }),
                }
            },
            Err(message) => Err(ParseSpanIdError { message }),
        }
    }

    /// The number of the span, which is not zero.
    pub fn as_u64(&self) -> (id: u64)
        ensures
            id == self.value(),
            id != 0,
    {
        proof {
            use_type_invariant(self);
        }
        self.id
    }

    /// The identifier in lower-case hexadecimal, without leading zeros.
    pub fn to_string(&self) -> (s: String)
        ensures
            s@ == self@,
            s@ == lower_hex(self.value() as nat),
    {
        proof {
            use_type_invariant(self);
        }
        self.text.clone()
    }
}

impl core::str::FromStr for SpanId {
    type Err = ParseSpanIdError;

    /// Reads a span identifier as `SpanId::from_str` does.
    fn from_str(text: &str) -> (r: Result<Self, ParseSpanIdError>)
        ensures
            r is Ok <==> span_id_parsed(text@) is Some,
            r is Ok ==> span_id_parsed(text@) == Some(r->Ok_0.value()) && r->Ok_0@ == lower_hex(
                r->Ok_0.value() as nat,
            ),
    {
        SpanId::from_str(text)
    }
}

} // verus!
