//! Store-assigned order identifiers: twelve bytes, written as 24 hex digits.

use vstd::prelude::*;

verus! {

/// A hex digit of either case.
pub open spec fn is_hex_digit(c: char) -> bool {
    ('0' <= c && c <= '9') || ('a' <= c && c <= 'f') || ('A' <= c && c <= 'F')
}

/// A lowercase hex digit.
pub open spec fn is_lower_hex_digit(c: char) -> bool {
    ('0' <= c && c <= '9') || ('a' <= c && c <= 'f')
}

/// The value of a hex digit.
pub open spec fn hex_value(c: char) -> int {
    if '0' <= c && c <= '9' {
        c as int - '0' as int
    } else if 'a' <= c && c <= 'f' {
        c as int - 'a' as int + 10
    } else {
        c as int - 'A' as int + 10
    }
}

/// Text that names an identifier: exactly 24 hex digits.
pub open spec fn is_id_text(s: Seq<char>) -> bool {
    s.len() == 24 && forall|i: int| 0 <= i < s.len() ==> is_hex_digit(#[trigger] s[i])
}

/// The bytes that hex text stands for, two digits per byte, high digit first.
pub open spec fn decode_hex(s: Seq<char>) -> Seq<u8> {
    Seq::new(
        (s.len() / 2) as nat,
        |i: int| (hex_value(s[2 * i]) * 16 + hex_value(s[2 * i + 1])) as u8,
    )
}

/// `s` is the lowercase hex text of `b`, two digits per byte, high digit first.
pub open spec fn is_hex_of(s: Seq<char>, b: Seq<u8>) -> bool {
    &&& s.len() == 2 * b.len()
    &&& forall|i: int| 0 <= i < s.len() ==> is_lower_hex_digit(#[trigger] s[i])
    &&& forall|i: int|
        0 <= i < b.len() ==> hex_value(s[2 * i]) * 16 + hex_value(s[2 * i + 1]) == #[trigger] b[i]
}

/// Relies on bson's `ObjectId::parse_str` (reached through mongodb): it accepts
/// exactly 24 hex digits of either case and decodes them two digits per byte.
#[verifier::external_body]
fn parse_object_id(s: &str) -> (r: Option<[u8; 12]>)
    ensures
        r.is_some() <==> is_id_text(s@),
        r matches Some(b) ==> b@ == decode_hex(s@),
{
    mongodb::bson::oid::ObjectId::parse_str(s).ok().map(|o| o.bytes())
}

/// Relies on bson's `ObjectId::to_hex`: the id's bytes as lowercase hex,
/// two digits per byte.
#[verifier::external_body]
fn object_id_hex(b: [u8; 12]) -> (r: String)
    ensures
        is_hex_of(r@, b@),
{
    mongodb::bson::oid::ObjectId::from_bytes(b).to_hex()
}

/// The identity the document store gives an order.
#[derive(Clone, Copy, Debug, PartialEq, Eq)]
pub struct OrderId {
    pub bytes: [u8; 12],
}

impl View for OrderId {
    type V = Seq<u8>;

    open spec fn view(&self) -> Seq<u8> {
        self.bytes@
    }
}

impl OrderId {
    /// Reads an identifier from its text form; `None` unless the text is
    /// exactly 24 hex digits.
    pub fn parse(s: &str) -> (r: Option<OrderId>)
        ensures
            r.is_some() <==> is_id_text(s@),
            r matches Some(id) ==> id@ == decode_hex(s@),
    {
        match parse_object_id(s) {
            Some(b) => Some(OrderId { bytes: b }),
            None => None,
        }
    }

    /// The identifier as 24 lowercase hex digits.
    pub fn to_hex(&self) -> (r: String)
        ensures
            is_hex_of(r@, self@),
    {
        object_id_hex(self.bytes)
    }
}

/// Writing an identifier as hex and reading it back gives the same identifier.
pub proof fn lemma_hex_round_trip(s: Seq<char>, b: Seq<u8>)
    requires
        b.len() == 12,
        is_hex_of(s, b),
    ensures
        is_id_text(s),
        decode_hex(s) == b,
{
    assert forall|i: int| 0 <= i < s.len() implies is_hex_digit(#[trigger] s[i]) by {
        assert(is_lower_hex_digit(s[i]));
    }
    assert forall|i: int| 0 <= i < b.len() implies #[trigger] decode_hex(s)[i] == b[i] by {
        assert(hex_value(s[2 * i]) * 16 + hex_value(s[2 * i + 1]) == b[i]);
    }
    assert(decode_hex(s) =~= b);
}

} // verus!
