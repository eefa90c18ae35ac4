//! Post identifiers: the twelve bytes of a database object id and their
//! twenty-four digit hexadecimal text form.

use vstd::prelude::*;

verus! {

/// An ASCII hexadecimal digit, in either case.
pub open spec fn is_hex_digit(c: char) -> bool {
    let u: u32 = c as u32;
    ||| 0x30 <= u <= 0x39
    ||| 0x61 <= u <= 0x66
    ||| 0x41 <= u <= 0x46
}

/// The value of a hexadecimal digit.
pub open spec fn hex_value(c: char) -> int {
    let u: u32 = c as u32;
    if 0x30 <= u <= 0x39 {
        u - 0x30
    } else if 0x61 <= u <= 0x66 {
        u - 0x61 + 10
    } else {
        u - 0x41 + 10
    }
}

/// The lower case ASCII form of a character (others are kept).
pub open spec fn ascii_lower(c: char) -> char {
    let u: u32 = c as u32;
    if 0x41 <= u <= 0x5a {
        (u + 0x20) as char
    } else {
        c
    }
}

/// Text that names an object id: exactly twenty-four hexadecimal digits.
pub open spec fn is_object_id_text(s: Seq<char>) -> bool {
    &&& s.len() == 24
    &&& forall|i: int| 0 <= i < 24 ==> is_hex_digit(#[trigger] s[i])
}

/// The twelve bytes named by object id text, two digits per byte, the high
/// nibble first.
pub open spec fn object_id_bytes(s: Seq<char>) -> Seq<u8> {
    Seq::new(12, |i: int| (hex_value(s[2 * i]) * 16 + hex_value(s[2 * i + 1])) as u8)
}

/// The lower case hexadecimal digit of `d` (below sixteen).
pub open spec fn lower_hex_char(d: int) -> char {
    seq!['0', '1', '2', '3', '4', '5', '6', '7', '8', '9', 'a', 'b', 'c', 'd', 'e', 'f'][d]
}

/// The lower case hexadecimal text of `b`, two digits per byte.
pub open spec fn hex_text(b: Seq<u8>) -> Seq<char> {
    Seq::new(
        2 * b.len(),
        |i: int|
            if i % 2 == 0 {
                lower_hex_char(b[i / 2] as int / 16)
            } else {
                lower_hex_char(b[i / 2] as int % 16)
            },
    )
}

/// `ObjectId::parse_str` of the `bson` crate, returning the id's bytes.
/// Claimed, as its source (`hex::decode` then a length check) shows: it
/// succeeds exactly on twenty-four hexadecimal digits of either case, and
/// each byte is made of two digits, the high nibble first.
#[verifier::external_body]
fn parse_object_id_bytes(s: &str) -> (r: Option<[u8; 12]>)
    ensures
        r is Some <==> is_object_id_text(s@),
        r matches Some(b) ==> b@ == object_id_bytes(s@),
{
    match bson::oid::ObjectId::parse_str(s) {
        Ok(id) => Some(id.bytes()),
        Err(_) => None,
    }
}

/// `ObjectId::to_hex` of the `bson` crate, on the id made of `bytes`.
/// Claimed, as its source (`hex::encode`) shows: the lower case hexadecimal
/// text of the bytes, two digits per byte.
#[verifier::external_body]
fn object_id_hex(bytes: [u8; 12]) -> (r: String)
    ensures
        r@ == hex_text(bytes@),
{
    bson::oid::ObjectId::from_bytes(bytes).to_hex()
}

/// The identifier of a stored post.
#[derive(Debug, Clone, Copy, PartialEq, Eq)]
pub struct PostId {
    pub bytes: [u8; 12],
}

impl PostId {
    /// Reads a post id from its hexadecimal text; `None` when the text is not
    /// twenty-four hexadecimal digits.
    pub fn parse(s: &str) -> (r: Option<PostId>)
        ensures
            r is Some <==> is_object_id_text(s@),
            r matches Some(id) ==> id.bytes@ == object_id_bytes(s@),
    {
        match parse_object_id_bytes(s) {
            Some(b) => Some(PostId { bytes: b }),
            None => None,
        }
    }

    /// The post id named by `s`, which must be twenty-four hexadecimal
    /// digits (test it with `is_post_id` first).
    pub fn from_text(s: &str) -> (r: PostId)
        requires
            is_object_id_text(s@),
        ensures
            r.bytes@ == object_id_bytes(s@),
    {
        PostId::parse(s).unwrap()
    }

    /// The lower case hexadecimal text of the id.
    pub fn to_hex(&self) -> (r: String)
        ensures
            r@ == hex_text(self.bytes@),
    {
        object_id_hex(self.bytes)
    }
}

/// Whether `s` names a post: exactly twenty-four hexadecimal digits.
pub fn is_post_id(s: &str) -> (r: bool)
    ensures
        r == is_object_id_text(s@),
{
    PostId::parse(s).is_some()
}

proof fn lemma_hex_digit_round_trip(d: int)
    requires
        0 <= d < 16,
    ensures
        is_hex_digit(lower_hex_char(d)),
        hex_value(lower_hex_char(d)) == d,
{
}

/// Reading back the hexadecimal text of any twelve bytes gives those bytes.
pub proof fn lemma_hex_text_parses_back(b: Seq<u8>)
    requires
        b.len() == 12,
    ensures
        is_object_id_text(hex_text(b)),
        object_id_bytes(hex_text(b)) == b,
{
    let t = hex_text(b);
    assert forall|i: int| 0 <= i < 24 implies is_hex_digit(#[trigger] t[i]) by {
        if i % 2 == 0 {
            lemma_hex_digit_round_trip(b[i / 2] as int / 16);
        } else {
            lemma_hex_digit_round_trip(b[i / 2] as int % 16);
        }
    }
    assert forall|i: int| 0 <= i < 12 implies #[trigger] object_id_bytes(t)[i] == b[i] by {
        assert((2 * i) / 2 == i);
        assert((2 * i + 1) / 2 == i);
        assert((2 * i) % 2 == 0);
        assert((2 * i + 1) % 2 == 1);
        lemma_hex_digit_round_trip(b[i] as int / 16);
        lemma_hex_digit_round_trip(b[i] as int % 16);
    }
    assert(object_id_bytes(t) =~= b);
}

proof fn lemma_hex_digit_lower(c: char)
    requires
        is_hex_digit(c),
    ensures
        0 <= hex_value(c) < 16,
        lower_hex_char(hex_value(c)) == ascii_lower(c),
{
}

/// Rendering the id read from any valid id text gives that text in lower
/// case.
pub proof fn lemma_parsed_id_renders_lower(s: Seq<char>)
    requires
        is_object_id_text(s),
    ensures
        hex_text(object_id_bytes(s)) == s.map_values(|c: char| ascii_lower(c)),
{
    let b = object_id_bytes(s);
    let t = hex_text(b);
    assert forall|i: int| 0 <= i < 24 implies #[trigger] t[i] == ascii_lower(s[i]) by {
        let j: int = i / 2;
        assert(0 <= j < 12);
        lemma_hex_digit_lower(s[2 * j]);
        lemma_hex_digit_lower(s[2 * j + 1]);
        let hi: int = hex_value(s[2 * j]);
        let lo: int = hex_value(s[2 * j + 1]);
        assert(b[j] == hi * 16 + lo);
        assert((hi * 16 + lo) / 16 == hi);
        assert((hi * 16 + lo) % 16 == lo);
    }
    assert(t =~= s.map_values(|c: char| ascii_lower(c)));
}

} // verus!
