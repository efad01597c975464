//! Percent-encoding of text for a URL. The encoders are `urlencoding` and
//! `serde_urlencoded`; what they write is stated here and taken on trust.

use crate::text::digit;
use serde_urlencoded::ser::Error as EncodeError;
use vstd::prelude::*;
use vstd::utf8::encode_utf8;

verus! {

/// `serde_urlencoded::ser::Error`, carried through as it came.
#[verifier::external_type_specification]
#[verifier::external_body]
pub struct ExEncodeError(EncodeError);

/// The upper-case hexadecimal digit of `d`.
pub open spec fn hex_digit(d: nat) -> char
    recommends
        d < 16,
{
    if d < 10 {
        digit(d)
    } else if d == 10 {
        'A'
    } else if d == 11 {
        'B'
    } else if d == 12 {
        'C'
    } else if d == 13 {
        'D'
    } else if d == 14 {
        'E'
    } else {
        'F'
    }
}

/// A byte written as a percent sign and its two hexadecimal digits.
pub open spec fn escaped(b: u8) -> Seq<char> {
    seq!['%', hex_digit((b / 16) as nat), hex_digit((b % 16) as nat)]
}

/// Whether a byte is an ASCII letter or digit.
pub open spec fn alphanumeric(b: u8) -> bool {
    (0x30 <= b <= 0x39) || (0x41 <= b <= 0x5a) || (0x61 <= b <= 0x7a)
}

/// One byte of a URL component: letters, digits, `-`, `.`, `_` and `~` stand as they
/// are, every other byte is escaped.
pub open spec fn component_byte(b: u8) -> Seq<char> {
    if alphanumeric(b) || b == 0x2d || b == 0x2e || b == 0x5f || b == 0x7e {
        seq![b as char]
    } else {
        escaped(b)
    }
}

/// Bytes as a URL component: each byte in its turn.
pub open spec fn component_encoded(bytes: Seq<u8>) -> Seq<char>
    decreases bytes.len(),
{
    if bytes.len() == 0 {
        Seq::empty()
    } else {
        component_encoded(bytes.drop_last()) + component_byte(bytes.last())
    }
}

/// One byte of a form field: letters, digits, `*`, `-`, `.` and `_` stand as they are,
/// a space becomes `+`, every other byte is escaped.
pub open spec fn form_byte(b: u8) -> Seq<char> {
    if alphanumeric(b) || b == 0x2a || b == 0x2d || b == 0x2e || b == 0x5f {
        seq![b as char]
    } else if b == 0x20 {
        seq!['+']
    } else {
        escaped(b)
    }
}

/// Bytes as part of a form: each byte in its turn.
pub open spec fn form_encoded(bytes: Seq<u8>) -> Seq<char>
    decreases bytes.len(),
{
    if bytes.len() == 0 {
        Seq::empty()
    } else {
        form_encoded(bytes.drop_last()) + form_byte(bytes.last())
    }
}

/// A key and its value as one field of a form: `key=value`, both encoded.
pub open spec fn form_pair(pair: (Seq<char>, Seq<char>)) -> Seq<char> {
    form_encoded(encode_utf8(pair.0)) + seq!['='] + form_encoded(encode_utf8(pair.1))
}

/// Pairs as a form: the fields in their order, with `&` between them.
pub open spec fn form_pairs(pairs: Seq<(Seq<char>, Seq<char>)>) -> Seq<char>
    decreases pairs.len(),
{
    if pairs.len() == 0 {
        Seq::empty()
    } else if pairs.len() == 1 {
        form_pair(pairs[0])
    } else {
        form_pairs(pairs.drop_last()) + seq!['&'] + form_pair(pairs.last())
    }
}

/// The texts of a list of pairs of strings.
pub open spec fn pair_texts(pairs: Seq<(String, String)>) -> Seq<(Seq<char>, Seq<char>)> {
    Seq::new(pairs.len(), |i: int| (pairs[i].0@, pairs[i].1@))
}

/// Calls `urlencoding::encode`, which escapes every byte of the text but letters,
/// digits and `-`, `.`, `_`, `~`.
#[verifier::external_body]
pub(crate) fn encode_component(text: &str) -> (s: String)
    ensures
        s@ == component_encoded(encode_utf8(text@)),
{
    urlencoding::encode(text).into_owned()
}

/// Calls `serde_urlencoded::to_string` on a list of pairs of strings. On such a list it
/// does not fail: it fails on values that are no text and on items that are no pairs.
/// It writes the pairs as `application/x-www-form-urlencoded` text.
#[verifier::external_body]
pub(crate) fn encode_pairs(pairs: &Vec<(String, String)>) -> (r: Result<String, EncodeError>)
    ensures
        r is Ok,
        r matches Ok(s) ==> s@ == form_pairs(pair_texts(pairs@)),
{
    serde_urlencoded::to_string(pairs)
}

} // verus!
