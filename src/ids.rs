//! Store-generated record identifiers and their 24-digit hexadecimal form.

use vstd::prelude::*;

verus! {

/// A 12-byte identifier generated by the document store.
#[derive(Clone, Copy, Debug, PartialEq, Eq)]
pub struct RecordId {
    pub bytes: [u8; 12],
}

/// Is `c` an ASCII hexadecimal digit, in either case.
pub open spec fn is_hex_digit(c: char) -> bool {
    ('0' <= c && c <= '9') || ('a' <= c && c <= 'f') || ('A' <= c && c <= 'F')
}

/// The value of a hexadecimal digit.
pub open spec fn digit_value(c: char) -> int {
    if '0' <= c && c <= '9' {
        c as int - '0' as int
    } else if 'a' <= c && c <= 'f' {
        c as int - 'a' as int + 10
    } else {
        c as int - 'A' as int + 10
    }
}

/// The lower-case hexadecimal digit for `n < 16`.
pub open spec fn hex_digit(n: int) -> char {
    if n < 10 {
        (n + '0' as int) as char
    } else {
        (n - 10 + 'a' as int) as char
    }
}

/// Is `s` the text form of an identifier: 24 hexadecimal digits.
pub open spec fn is_id_text(s: Seq<char>) -> bool {
    s.len() == 24 && forall|i: int| 0 <= i < s.len() ==> #[trigger] is_hex_digit(s[i])
}

/// The bytes that a string of hexadecimal digits spells, two digits a byte.
pub open spec fn hex_decode(s: Seq<char>) -> Seq<u8> {
    Seq::new(
        (s.len() / 2) as nat,
        |i: int| (digit_value(s[2 * i]) * 16 + digit_value(s[2 * i + 1])) as u8,
    )
}

/// The lower-case hexadecimal text of `b`, two digits a byte, high digit first.
pub open spec fn hex_encode(b: Seq<u8>) -> Seq<char> {
    Seq::new(
        2 * b.len(),
        |i: int|
            if i % 2 == 0 {
                hex_digit(b[i / 2] as int / 16)
            } else {
                hex_digit(b[i / 2] as int % 16)
            },
    )
}

/// Relies on bson's `ObjectId::parse_str`, which decodes with `hex::decode`
/// (digits of either case) and accepts exactly 12 decoded bytes.
#[verifier::external_body]
fn bson_parse_object_id(s: &str) -> (r: Option<[u8; 12]>)
    ensures
        r is Some <==> is_id_text(s@),
        r matches Some(b) ==> b@ == hex_decode(s@),
{
    bson::oid::ObjectId::parse_str(s).ok().map(|o| o.bytes())
}

/// Relies on bson's `ObjectId::to_hex`, which is `hex::encode` of the bytes:
/// lower-case digits, two a byte.
#[verifier::external_body]
fn bson_object_id_hex(b: [u8; 12]) -> (r: String)
    ensures
        r@ == hex_encode(b@),
{
    bson::oid::ObjectId::from_bytes(b).to_hex()
}

impl RecordId {
    /// The canonical text form: 24 lower-case hexadecimal digits.
    pub fn to_hex(&self) -> (r: String)
        ensures
            r@ == hex_encode(self.bytes@),
    {
        bson_object_id_hex(self.bytes)
    }
}

/// The identifier that `s` spells, if it is the text of one.
pub open spec fn id_of_text(s: Seq<char>) -> Option<Seq<u8>> {
    if is_id_text(s) {
        Some(hex_decode(s))
    } else {
        None
    }
}

/// Parses the text form of an identifier; `None` when it is malformed.
pub fn parse_record_id(s: &str) -> (r: Option<RecordId>)
    ensures
        r is Some <==> is_id_text(s@),
        r matches Some(id) ==> Some(id.bytes@) == id_of_text(s@),
{
    match bson_parse_object_id(s) {
        Some(b) => Some(RecordId { bytes: b }),
        None => None,
    }
}

proof fn lemma_digit_round_trip(n: int)
    requires
        0 <= n < 16,
    ensures
        is_hex_digit(hex_digit(n)),
        digit_value(hex_digit(n)) == n,
{
}

/// The text of an identifier is well formed and decodes to the same bytes.
pub proof fn lemma_id_text_round_trip(b: Seq<u8>)
    requires
        b.len() == 12,
    ensures
        is_id_text(hex_encode(b)),
        hex_decode(hex_encode(b)) == b,
        id_of_text(hex_encode(b)) == Some(b),
{
    let s = hex_encode(b);
    assert forall|i: int| 0 <= i < s.len() implies #[trigger] is_hex_digit(s[i]) by {
        let v = b[i / 2] as int;
        lemma_digit_round_trip(v / 16);
        lemma_digit_round_trip(v % 16);
    }
    assert forall|i: int| 0 <= i < b.len() implies #[trigger] hex_decode(s)[i] == b[i] by {
        let v = b[i] as int;
        assert((2 * i) / 2 == i);
        assert((2 * i + 1) / 2 == i);
        assert((2 * i) % 2 == 0);
        assert((2 * i + 1) % 2 == 1);
        lemma_digit_round_trip(v / 16);
        lemma_digit_round_trip(v % 16);
        assert(v / 16 * 16 + v % 16 == v);
    }
    assert(hex_decode(s) =~= b);
}

} // verus!
