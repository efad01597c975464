//! The header map of a request and the values in it. Both are kept by the `http`
//! crate, which `reqwest` hands on under `reqwest::header`; what is said of them
//! here is taken on trust from that crate.

use reqwest::header::{HeaderMap, HeaderValue, InvalidHeaderValue};
use vstd::prelude::*;
use vstd::utf8::{encode_scalar, encode_utf8};

verus! {

/// `http::header::HeaderMap`: opaque; `header_entries` names what it holds.
#[verifier::external_type_specification]
#[verifier::external_body]
#[verifier::reject_recursive_types(T)]
pub struct ExHeaderMap<T>(HeaderMap<T>);

/// `http::header::HeaderValue`: opaque; `header_value_bytes` names what it holds.
#[verifier::external_type_specification]
#[verifier::external_body]
pub struct ExHeaderValue(HeaderValue);

/// `http::header::InvalidHeaderValue`: opaque.
#[verifier::external_type_specification]
#[verifier::external_body]
pub struct ExInvalidHeaderValue(InvalidHeaderValue);

/// The bytes that a header value holds.
pub uninterp spec fn header_value_bytes(v: HeaderValue) -> Seq<u8>;

/// The headers that a map holds: for each name in it, the bytes of the value stored under
/// that name (the first one, where a name has several).
pub uninterp spec fn header_entries(m: HeaderMap) -> Map<Seq<char>, Seq<u8>>;

/// A map without headers.
pub open spec fn no_headers() -> Map<Seq<char>, Seq<u8>> {
    Map::empty()
}

/// Whether a byte may stand in a header value: a tab, or anything from the space on but DEL.
pub open spec fn header_byte_ok(b: u8) -> bool {
    b == 9 || (b >= 32 && b != 127)
}

/// Whether a text may stand as a header value: every byte of its UTF-8 form may.
pub open spec fn header_text_ok(text: Seq<char>) -> bool {
    forall|i: int| 0 <= i < encode_utf8(text).len() ==> header_byte_ok(#[trigger] encode_utf8(text)[i])
}

/// Whether a character may stand in a header value: a tab, or anything from the space on
/// but DEL. Characters beyond ASCII may.
pub open spec fn header_char_ok(c: char) -> bool {
    c == '\t' || (' ' <= c && c != '\u{7f}')
}

proof fn lemma_header_char_bytes(c: char)
    ensures
        header_char_ok(c) <==> (forall|i: int|
            0 <= i < encode_scalar(c as u32).len() ==> header_byte_ok(
                #[trigger] encode_scalar(c as u32)[i],
            )),
{
    let s = c as u32;
    let bytes = encode_scalar(s);
    if s <= 0x7f {
        assert((s & 0x7F) as u8 == s) by (bit_vector)
            requires
                s <= 0x7f,
        ;
        assert(bytes[0] == s as u8);
        assert(header_byte_ok(bytes[0]) <==> header_char_ok(c));
    } else {
        assert((0xC0u8 | ((s >> 6) & 0x1F) as u8) >= 0x80u8) by (bit_vector);
        assert((0xE0u8 | ((s >> 12) & 0x0F) as u8) >= 0x80u8) by (bit_vector);
        assert((0xF0u8 | ((s >> 18) & 0x7) as u8) >= 0x80u8) by (bit_vector);
        assert((0x80u8 | (s & 0x3F) as u8) >= 0x80u8) by (bit_vector);
        assert((0x80u8 | ((s >> 6) & 0x3F) as u8) >= 0x80u8) by (bit_vector);
        assert((0x80u8 | ((s >> 12) & 0x3F) as u8) >= 0x80u8) by (bit_vector);
        assert forall|i: int| 0 <= i < bytes.len() implies header_byte_ok(#[trigger] bytes[i]) by {
            assert(bytes[i] >= 0x80);
        }
        assert(header_char_ok(c));
    }
}

/// A text may stand as a header value exactly when each of its characters may: what
/// decides is said of characters, though the `http` crate looks at bytes.
pub proof fn lemma_header_text_chars(text: Seq<char>)
    ensures
        header_text_ok(text) <==> (forall|i: int|
            0 <= i < text.len() ==> header_char_ok(#[trigger] text[i])),
    decreases text.len(),
{
    if text.len() > 0 {
        let first = encode_scalar(text[0] as u32);
        let rest = text.drop_first();
        let tail = encode_utf8(rest);
        let bytes = encode_utf8(text);
        assert(bytes == first + tail);
        lemma_header_char_bytes(text[0]);
        lemma_header_text_chars(rest);
        if header_text_ok(text) {
            assert forall|i: int| 0 <= i < first.len() implies header_byte_ok(
                #[trigger] first[i],
            ) by {
                assert(bytes[i] == first[i]);
            }
            assert forall|i: int| 0 <= i < tail.len() implies header_byte_ok(#[trigger] tail[i]) by {
                assert(bytes[first.len() + i] == tail[i]);
            }
            assert forall|i: int| 0 <= i < text.len() implies header_char_ok(
                #[trigger] text[i],
            ) by {
                if i > 0 {
                    assert(rest[i - 1] == text[i]);
                }
            }
        }
        if forall|i: int| 0 <= i < text.len() ==> header_char_ok(#[trigger] text[i]) {
            assert(header_char_ok(text[0]));
            assert forall|i: int| 0 <= i < rest.len() implies header_char_ok(
                #[trigger] rest[i],
            ) by {
                assert(rest[i] == text[i + 1]);
            }
            assert forall|i: int| 0 <= i < bytes.len() implies header_byte_ok(
                #[trigger] bytes[i],
            ) by {
                if i < first.len() {
                    assert(bytes[i] == first[i]);
                } else {
                    assert(bytes[i] == tail[i - first.len()]);
                }
            }
        }
    }
}

/// The header names that `insert_header` takes: one to 64 lower-case letters, digits and
/// hyphens. The `http` crate stores such a name as it is written.
pub open spec fn header_name_ok(name: Seq<char>) -> bool {
    &&& 1 <= name.len() <= 64
    &&& forall|i: int|
        0 <= i < name.len() ==> {
            let c = #[trigger] name[i];
            ('a' <= c <= 'z') || ('0' <= c <= '9') || c == '-'
        }
}

/// The most names that a map may hold when `insert_header` is called: far below the
/// 24576 entries at which the `http` crate refuses to grow.
pub open spec fn header_room() -> nat {
    1024
}

/// Calls `HeaderValue::from_str`. It succeeds exactly when every byte of the text is a tab
/// or is 32 or more and not 127; the value then holds the bytes of the text.
#[verifier::external_body]
pub(crate) fn header_value(text: &str) -> (r: Result<HeaderValue, InvalidHeaderValue>)
    ensures
        r is Ok <==> header_text_ok(text@),
        r matches Ok(v) ==> header_value_bytes(v) == encode_utf8(text@),
{
    HeaderValue::from_str(text)
}

/// Calls `HeaderMap::new`: the new map holds nothing.
#[verifier::external_body]
pub(crate) fn new_headers() -> (m: HeaderMap)
    ensures
        header_entries(m) == no_headers(),
{
    HeaderMap::new()
}

/// Calls `HeaderMap::insert`, which panics on a name that is no header name and on a
/// map that is full: both are kept out. Afterwards the value is the only one under its
/// name, and the other names are as before.
#[verifier::external_body]
pub(crate) fn insert_header(map: &mut HeaderMap, name: &'static str, value: HeaderValue)
    requires
        header_name_ok(name@),
        header_entries(*old(map)).dom().finite(),
        header_entries(*old(map)).dom().len() < header_room(),
    ensures
        header_entries(*final(map)) == header_entries(*old(map)).insert(
            name@,
            header_value_bytes(value),
        ),
{
    map.insert(name, value);
}

} // verus!
