//! The two identifiers that travel with a request: `RequestId`, assigned to
//! every request, and `CorrelationId`, assigned to a response only when the
//! server failed.
//!
//! Both are UUID-shaped. Parsing and formatting of UUIDs is done by the `uuid`
//! crate; the three private functions at the top of this file are the only
//! places that call it, and their contracts are trusted, not proved.

use vstd::prelude::*;

verus! {

/// What `uuid::Uuid::parse_str` makes of a text: the 128-bit value of the
/// UUID it reads, or `None` where it rejects the text.
pub uninterp spec fn uuid_parsed(text: Seq<char>) -> Option<u128>;

/// One lower-case hexadecimal digit.
pub open spec fn hex_char(d: int) -> char {
    if d == 0 {
        '0'
    } else if d == 1 {
        '1'
    } else if d == 2 {
        '2'
    } else if d == 3 {
        '3'
    } else if d == 4 {
        '4'
    } else if d == 5 {
        '5'
    } else if d == 6 {
        '6'
    } else if d == 7 {
        '7'
    } else if d == 8 {
        '8'
    } else if d == 9 {
        '9'
    } else if d == 10 {
        'a'
    } else if d == 11 {
        'b'
    } else if d == 12 {
        'c'
    } else if d == 13 {
        'd'
    } else if d == 14 {
        'e'
    } else {
        'f'
    }
}

/// The `count` lowest hexadecimal digits of `value`, most significant first.
pub open spec fn hex_digits(value: nat, count: nat) -> Seq<char>
    decreases count,
{
    if count == 0 {
        Seq::empty()
    } else {
        hex_digits(value / 16, (count - 1) as nat).push(hex_char((value % 16) as int))
    }
}

/// The canonical text of a UUID: its 32 lower-case hexadecimal digits in
/// groups of 8, 4, 4, 4 and 12, separated by hyphens.
pub open spec fn hyphenated_lower(value: u128) -> Seq<char> {
    let h = hex_digits(value as nat, 32);
    h.subrange(0, 8) + seq!['-'] + h.subrange(8, 12) + seq!['-'] + h.subrange(12, 16) + seq!['-']
        + h.subrange(16, 20) + seq!['-'] + h.subrange(20, 32)
}

/// Whether a 128-bit value is a UUID of version 4 in the RFC 4122 variant:
/// the thirteenth hexadecimal digit is 4, and the two highest bits of the
/// seventeenth are 1 and 0.
pub open spec fn is_version_4(value: u128) -> bool {
    &&& (value as int / 0x1000_0000_0000_0000_0000) % 16 == 4
    &&& (value as int / 0x4000_0000_0000_0000) % 4 == 2
}

/// `hex_digits` yields exactly `count` characters.
pub proof fn lemma_hex_digits_len(value: nat, count: nat)
    ensures
        hex_digits(value, count).len() == count,
    decreases count,
{
    if count > 0 {
        lemma_hex_digits_len(value / 16, (count - 1) as nat);
    }
}

/// Sixteen to the power of `k`.
spec fn pow16(k: nat) -> nat
    decreases k,
{
    if k == 0 {
        1
    } else {
        16 * pow16((k - 1) as nat)
    }
}

/// In `hex_digits(value, count)`, the digit `k` places from the right is the
/// digit of `value` for sixteen to the power of `k`.
proof fn lemma_hex_digit_at(value: nat, count: nat, k: nat)
    requires
        k < count,
    ensures
        pow16(k) > 0,
        hex_digits(value, count).len() == count,
        hex_digits(value, count)[count - 1 - k] == hex_char(((value / pow16(k)) % 16) as int),
    decreases count,
{
    lemma_hex_digits_len(value, count);
    lemma_hex_digits_len(value / 16, (count - 1) as nat);
    let digits = hex_digits(value, count);
    let higher = hex_digits(value / 16, (count - 1) as nat);
    assert(digits == higher.push(hex_char((value % 16) as int)));
    if k == 0 {
        assert(digits[count - 1] == hex_char((value % 16) as int));
        assert(pow16(0) == 1);
        assert(value / 1 == value);
    } else {
        lemma_hex_digit_at(value / 16, (count - 1) as nat, (k - 1) as nat);
        assert(digits[count - 1 - k] == higher[count - 1 - k]);
        let below = pow16((k - 1) as nat);
        vstd::arithmetic::div_mod::lemma_div_denominator(value as int, 16, below as int);
        assert(pow16(k) == 16 * below);
        assert((value / 16) / below == value / pow16(k));
    }
}

/// The canonical text of a UUID of version 4 shows the version: its
/// fifteenth character is `4`.
pub proof fn law_version_is_shown(value: u128)
    requires
        is_version_4(value),
    ensures
        hyphenated_lower(value).len() == 36,
        hyphenated_lower(value)[14] == '4',
{
    lemma_hyphenated_len(value);
    lemma_hex_digit_at(value as nat, 32, 19);
    assert(pow16(19) == 0x1000_0000_0000_0000_0000) by {
        reveal_with_fuel(pow16, 20);
    }
    let h = hex_digits(value as nat, 32);
    assert(hyphenated_lower(value)[14] == h[12]);
}

/// The canonical text of a UUID is 36 characters long.
pub proof fn lemma_hyphenated_len(value: u128)
    ensures
        hyphenated_lower(value).len() == 36,
{
    lemma_hex_digits_len(value as nat, 32);
}

/// Calls `uuid::Uuid::parse_str` and hands out the value of the UUID with
/// `Uuid::as_u128`, or the text of the crate's error.
///
/// Trusted: success and the value are what `uuid_parsed` names. Nothing is
/// claimed of the error text.
#[verifier::external_body]
fn uuid_parse(text: &str) -> (r: Result<u128, String>)
    ensures
        r is Ok <==> uuid_parsed(text@) is Some,
        r is Ok ==> uuid_parsed(text@) == Some(r->Ok_0),
{
    match uuid::Uuid::parse_str(text) {
        Ok(id) => Ok(id.as_u128()),
        Err(e) => Err(e.to_string()),
    }
}

/// Calls `uuid::Uuid::from_u128`, then `to_hyphenated` and `encode_lower` on
/// the result.
///
/// Trusted: the text is the canonical form of `value`, and `parse_str` reads
/// it back as `value` (the crate documents that it parses every format that it
/// writes).
#[verifier::external_body]
fn uuid_hyphenated(value: u128) -> (r: String)
    ensures
        r@ == hyphenated_lower(value),
        uuid_parsed(r@) == Some(value),
{
    let mut buffer = uuid::Uuid::encode_buffer();
    uuid::Uuid::from_u128(value).to_hyphenated().encode_lower(&mut buffer).to_string()
}

/// Calls `uuid::Uuid::new_v4` and hands out its value with `Uuid::as_u128`.
///
/// Trusted: the value carries version 4 in its version digit and the RFC 4122
/// variant in the two bits that hold it; the other 122 bits are random and
/// nothing is said of them. The crate panics if the operating system cannot
/// supply random bytes.
#[verifier::external_body]
fn uuid_random() -> (r: u128)
    ensures
        is_version_4(r),
{
    uuid::Uuid::new_v4().as_u128()
}

/// Why a text was not accepted as a request identifier.
#[derive(Debug)]
pub struct InvalidRequestId {
    /// The parser's description of the fault.
    pub message: String,
}

/// The identifier of one request.
///
/// It holds a 128-bit value together with the canonical text of that value:
/// lower case, hyphenated, 36 characters. The text is what is echoed to the
/// client, in whatever form the identifier was read.
#[derive(Debug)]
pub struct RequestId {
    id: u128,
    string_id: String,
}

impl View for RequestId {
    type V = Seq<char>;

    closed spec fn view(&self) -> Seq<char> {
        self.string_id@
    }
}

impl Clone for RequestId {
    fn clone(&self) -> (res: Self)
        ensures
            res == *self,
    {
        proof {
            use_type_invariant(self);
        }
        RequestId { id: self.id, string_id: self.string_id.clone() }
    }
}

impl RequestId {
    /// The 128-bit value of the identifier.
    pub closed spec fn value(&self) -> u128 {
        self.id
    }

    /// The text of every `RequestId` is the canonical text of the value it
    /// holds, and parses as a UUID with that value.
    #[verifier::type_invariant]
    closed spec fn well_formed(&self) -> bool {
        &&& self.string_id@ == hyphenated_lower(self.id)
        &&& uuid_parsed(self.string_id@) == Some(self.id)
    }

    /// The text of the identifier is the canonical text of its value, 36
    /// characters long, and the UUID parser reads it back as that value.
    pub open spec fn is_canonical(&self) -> bool {
        &&& self@ == hyphenated_lower(self.value())
        &&& self@.len() == 36
        &&& uuid_parsed(self@) == Some(self.value())
    }

    /// A fresh random identifier of version 4, in canonical text.
    pub fn new() -> (r: Self)
        ensures
            is_version_4(r.value()),
            r.is_canonical(),
    {
        Self::from_u128(uuid_random())
    }

    /// The identifier with the given value, in canonical text.
    pub fn from_u128(value: u128) -> (r: Self)
        ensures
            r.value() == value,
            r.is_canonical(),
    {
        proof {
            lemma_hyphenated_len(value);
        }
        RequestId { id: value, string_id: uuid_hyphenated(value) }
    }

    /// Reads an identifier from a text in any of the forms the UUID parser
    /// accepts: hyphenated or not, in either case, with or without the
    /// prefix `urn:uuid:`. Whatever the form, the identifier has the value
    /// that the text denotes and the canonical text of that value.
    pub fn from_str(string: &str) -> (r: Result<Self, InvalidRequestId>)
        ensures
            r is Ok <==> uuid_parsed(string@) is Some,
            r is Ok ==> uuid_parsed(string@) == Some(r->Ok_0.value()) && r->Ok_0.is_canonical(),
    {
        match uuid_parse(string) {
            Ok(id) => Ok(Self::from_u128(id)),
            Err(message) => Err(InvalidRequestId { message }),
        }
    }

    /// The text of the identifier, which is the canonical text of its value.
    pub fn as_str(&self) -> (s: &str)
        ensures
            s@ == self@,
            self.is_canonical(),
    {
        proof {
            use_type_invariant(self);
            lemma_hyphenated_len(self.id);
        }
        self.string_id.as_str()
    }

    /// The 128-bit value of the identifier, which is what its text parses to.
    pub fn as_u128(&self) -> (v: u128)
        ensures
            v == self.value(),
            self.is_canonical(),
    {
        proof {
            use_type_invariant(self);
            lemma_hyphenated_len(self.id);
        }
        self.id
    }

    /// The text of the identifier, owned: the same text as `as_str` gives.
    pub fn to_string(&self) -> (s: String)
        ensures
            s@ == self@,
            self.is_canonical(),
    {
        proof {
            use_type_invariant(self);
            lemma_hyphenated_len(self.id);
        }
        self.string_id.clone()
    }
}

/// Whether a text is the canonical text of a UUID of version 4.
pub open spec fn is_canonical(text: Seq<char>) -> bool {
    exists|value: u128| is_version_4(value) && text == hyphenated_lower(value)
}

impl core::str::FromStr for RequestId {
    type Err = InvalidRequestId;

    /// Reads an identifier as `RequestId::from_str` does: the text is
    /// accepted where the UUID parser accepts it, and the identifier has the
    /// canonical text of the value read.
    fn from_str(string: &str) -> (r: Result<Self, InvalidRequestId>)
        ensures
            r is Ok <==> uuid_parsed(string@) is Some,
            r is Ok ==> uuid_parsed(string@) == Some(r->Ok_0.value()) && r->Ok_0.is_canonical(),
    {
        RequestId::from_str(string)
    }
}

/// The identifier that ties a server-error response to its log record.
#[derive(Debug)]
pub struct CorrelationId {
    id: String,
}

impl View for CorrelationId {
    type V = Seq<char>;

    closed spec fn view(&self) -> Seq<char> {
        self.id@
    }
}

impl Clone for CorrelationId {
    fn clone(&self) -> (res: Self)
        ensures
            res == *self,
    {
        CorrelationId { id: self.id.clone() }
    }
}

/// An error that cannot occur: no value of this type can be made.
#[derive(Debug)]
pub struct Never {
    _priv: (),
}

impl Never {
    /// Holds of no value, so no executable code can hold a `Never`.
    #[verifier::type_invariant]
    pub closed spec fn impossible(&self) -> bool {
        false
    }
}

impl CorrelationId {
    /// A fresh random identifier of version 4, in canonical text.
    pub fn new() -> (r: Self)
        ensures
            is_canonical(r@),
            r@.len() == 36,
    {
        let value = uuid_random();
        let r = Self::from_u128(value);
        assert(is_version_4(value) && r@ == hyphenated_lower(value));
        r
    }

    /// The identifier with the given value, in canonical text.
    pub fn from_u128(value: u128) -> (r: Self)
        ensures
            r@ == hyphenated_lower(value),
            r@.len() == 36,
    {
        proof {
            lemma_hyphenated_len(value);
        }
        CorrelationId { id: uuid_hyphenated(value) }
    }

    /// Takes any text as an identifier; this never fails.
    pub fn from_str(string: &str) -> (r: Result<Self, Never>)
        ensures
            r is Ok,
            r->Ok_0@ == string@,
    {
        Ok(CorrelationId { id: string.to_owned() })
    }

    /// The text of the identifier.
    pub fn as_str(&self) -> (s: &str)
        ensures
            s@ == self@,
    {
        self.id.as_str()
    }

    /// The text of the identifier, owned.
    pub fn to_string(&self) -> (s: String)
        ensures
            s@ == self@,
    {
        self.id.clone()
    }
}

impl core::str::FromStr for CorrelationId {
    type Err = Never;

    /// Takes any text as an identifier, as `CorrelationId::from_str` does.
    fn from_str(string: &str) -> (r: Result<Self, Never>)
        ensures
            r is Ok,
            r->Ok_0@ == string@,
    {
        CorrelationId::from_str(string)
    }
}

} // verus!
