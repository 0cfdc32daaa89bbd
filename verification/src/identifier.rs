//! The identifier codec: the store's twelve-byte identifiers and their
//! public form, a string of twenty-four hexadecimal digits. A text of
//! exactly twelve bytes is taken as an identifier too, byte for byte.

use vstd::prelude::*;
use vstd::string::StrSliceExecFns;
use vstd::utf8::{encode_utf8, is_ascii_chars, is_ascii_chars_encode_utf8};

verus! {

/// The value of a hexadecimal digit, in either case; `None` for any other
/// character.
pub open spec fn hex_digit_value(c: char) -> Option<int> {
    if c == '0' {
        Some(0)
    } else if c == '1' {
        Some(1)
    } else if c == '2' {
        Some(2)
    } else if c == '3' {
        Some(3)
    } else if c == '4' {
        Some(4)
    } else if c == '5' {
        Some(5)
    } else if c == '6' {
        Some(6)
    } else if c == '7' {
        Some(7)
    } else if c == '8' {
        Some(8)
    } else if c == '9' {
        Some(9)
    } else if c == 'a' || c == 'A' {
        Some(10)
    } else if c == 'b' || c == 'B' {
        Some(11)
    } else if c == 'c' || c == 'C' {
        Some(12)
    } else if c == 'd' || c == 'D' {
        Some(13)
    } else if c == 'e' || c == 'E' {
        Some(14)
    } else if c == 'f' || c == 'F' {
        Some(15)
    } else {
        None
    }
}

/// The lower-case hexadecimal digit for a value below sixteen.
pub open spec fn hex_digit(n: int) -> char {
    if n == 0 {
        '0'
    } else if n == 1 {
        '1'
    } else if n == 2 {
        '2'
    } else if n == 3 {
        '3'
    } else if n == 4 {
        '4'
    } else if n == 5 {
        '5'
    } else if n == 6 {
        '6'
    } else if n == 7 {
        '7'
    } else if n == 8 {
        '8'
    } else if n == 9 {
        '9'
    } else if n == 10 {
        'a'
    } else if n == 11 {
        'b'
    } else if n == 12 {
        'c'
    } else if n == 13 {
        'd'
    } else if n == 14 {
        'e'
    } else {
        'f'
    }
}

/// A well-formed public identifier: exactly twenty-four characters, each a
/// hexadecimal digit.
pub open spec fn is_object_id_hex(s: Seq<char>) -> bool {
    &&& s.len() == 24
    &&& forall|i: int| 0 <= i < 24 ==> (#[trigger] hex_digit_value(s[i])).is_some()
}

/// The byte that two hexadecimal digits spell, high digit first.
pub open spec fn hex_pair_value(high: char, low: char) -> u8 {
    (hex_digit_value(high).unwrap_or(0) * 16 + hex_digit_value(low).unwrap_or(0)) as u8
}

/// The twelve bytes that a well-formed public identifier spells.
pub open spec fn hex_decoded(s: Seq<char>) -> Seq<u8> {
    Seq::new(12, |i: int| hex_pair_value(s[2 * i], s[2 * i + 1]))
}

/// The character at position `i` of the public form of `bytes`.
pub open spec fn hex_encoded_char(bytes: Seq<u8>, i: int) -> char {
    if i % 2 == 0 {
        hex_digit(bytes[i / 2] as int / 16)
    } else {
        hex_digit(bytes[i / 2] as int % 16)
    }
}

/// The public form of twelve bytes: two lower-case digits per byte, high
/// digit first.
pub open spec fn hex_encoded(bytes: Seq<u8>) -> Seq<char> {
    Seq::new(24, |i: int| hex_encoded_char(bytes, i))
}

/// The bytes of a text, in UTF-8.
pub open spec fn text_bytes(s: Seq<char>) -> Seq<u8> {
    encode_utf8(s)
}

/// A raw identifier: a text of exactly twelve bytes.
pub open spec fn is_raw_object_id(s: Seq<char>) -> bool {
    text_bytes(s).len() == 12
}

/// A text that names an identifier, in either form.
pub open spec fn is_object_id_text(s: Seq<char>) -> bool {
    is_object_id_hex(s) || is_raw_object_id(s)
}

/// The identifier that a text names: the bytes that twenty-four hexadecimal
/// digits spell, or else the twelve bytes of the text itself.
pub open spec fn decoded(s: Seq<char>) -> Seq<u8> {
    if is_object_id_hex(s) {
        hex_decoded(s)
    } else {
        text_bytes(s)
    }
}

/// A store identifier: twelve bytes, assigned by the store.
#[derive(Clone, Copy, Debug, PartialEq, Eq, Hash)]
pub struct ObjectId {
    pub bytes: [u8; 12],
}

impl View for ObjectId {
    type V = Seq<u8>;

    open spec fn view(&self) -> Seq<u8> {
        self.bytes@
    }
}

/// Calls `ObjectId::parse_str` of the BSON library and hands out the bytes of
/// the identifier it built. That function hex-decodes the text and accepts it
/// exactly when twelve bytes come out, so: the result is `Some` exactly for
/// twenty-four hexadecimal digits (either case), and then holds the bytes
/// they spell.
#[verifier::external_body]
fn parse_object_id(text: &str) -> (r: Option<[u8; 12]>)
    ensures
        r.is_some() == is_object_id_hex(text@),
        r matches Some(bytes) ==> bytes@ == hex_decoded(text@),
{
    match mongodb::bson::oid::ObjectId::parse_str(text) {
        Ok(id) => Some(id.bytes()),
        Err(_) => None,
    }
}

/// Calls `ObjectId::to_hex` of the BSON library on the identifier with the
/// given bytes. That function hex-encodes the bytes in lower case, two
/// digits per byte.
#[verifier::external_body]
fn object_id_to_hex(bytes: &[u8; 12]) -> (r: String)
    ensures
        r@ == hex_encoded(bytes@),
{
    mongodb::bson::oid::ObjectId::from_bytes(*bytes).to_hex()
}

impl ObjectId {
    /// The identifier with the given bytes.
    pub fn from_bytes(bytes: [u8; 12]) -> (r: ObjectId)
        ensures
            r@ == bytes@,
            r.bytes == bytes,
    {
        ObjectId { bytes }
    }

    /// Decodes an identifier that a caller gave. Succeeds exactly on
    /// twenty-four hexadecimal digits, with the bytes they spell, and on a
    /// text of twelve bytes, with those bytes.
    pub fn decode(external: &str) -> (r: Option<ObjectId>)
        ensures
            r.is_some() == is_object_id_text(external@),
            r matches Some(id) ==> id@ == decoded(external@),
    {
        match parse_object_id(external) {
            Some(bytes) => Some(ObjectId { bytes }),
            None => {
                let raw = external.as_bytes_vec();
                if raw.len() == 12 {
                    let bytes: [u8; 12] = [
                        raw[0],
                        raw[1],
                        raw[2],
                        raw[3],
                        raw[4],
                        raw[5],
                        raw[6],
                        raw[7],
                        raw[8],
                        raw[9],
                        raw[10],
                        raw[11],
                    ];
                    proof {
                        assert(bytes@ =~= raw@);
                    }
                    Some(ObjectId { bytes })
                } else {
                    None
                }
            },
        }
    }

    /// The public form of this identifier.
    pub fn encode(&self) -> (r: String)
        ensures
            r@ == hex_encoded(self@),
    {
        object_id_to_hex(&self.bytes)
    }
}

/// A digit's value is the value it was chosen for.
pub proof fn lemma_hex_digit_value(n: int)
    requires
        0 <= n < 16,
    ensures
        hex_digit_value(hex_digit(n)) == Some(n),
{
}

/// Encoding then decoding gives the identifier back: the public form of any
/// twelve bytes is well formed, and it spells those bytes.
pub proof fn lemma_decode_encode(bytes: Seq<u8>)
    requires
        bytes.len() == 12,
    ensures
        is_object_id_hex(hex_encoded(bytes)),
        hex_decoded(hex_encoded(bytes)) == bytes,
{
    let s = hex_encoded(bytes);
    assert forall|i: int| 0 <= i < 24 implies (#[trigger] hex_digit_value(s[i])).is_some() by {
        let b = bytes[i / 2] as int;
        lemma_hex_digit_value(b / 16);
        lemma_hex_digit_value(b % 16);
    }
    assert forall|i: int| 0 <= i < 12 implies hex_decoded(s)[i] == bytes[i] by {
        let b = bytes[i] as int;
        lemma_hex_digit_value(b / 16);
        lemma_hex_digit_value(b % 16);
        assert(s[2 * i] == hex_digit(b / 16));
        assert(s[2 * i + 1] == hex_digit(b % 16));
    }
    assert(hex_decoded(s) =~= bytes);
}

/// The two forms do not overlap: twenty-four hexadecimal digits are
/// twenty-four bytes, never twelve.
pub proof fn lemma_forms_do_not_overlap(s: Seq<char>)
    requires
        is_object_id_hex(s),
    ensures
        text_bytes(s).len() == 24,
        !is_raw_object_id(s),
{
    assert forall|i: int| 0 <= i < s.len() implies '\0' <= #[trigger] s[i] <= '\u{7f}' by {
        assert(hex_digit_value(s[i]).is_some());
    }
    assert(is_ascii_chars(s));
    is_ascii_chars_encode_utf8(s);
}

/// Encoding then decoding gives the identifier back, by the decoder that
/// takes both forms.
pub proof fn lemma_decoded_encoded(bytes: Seq<u8>)
    requires
        bytes.len() == 12,
    ensures
        is_object_id_text(hex_encoded(bytes)),
        decoded(hex_encoded(bytes)) == bytes,
{
    lemma_decode_encode(bytes);
}

} // verus!
