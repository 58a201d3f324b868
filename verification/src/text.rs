//! From bytes to text: header values and payloads.
//!
//! A response arrives as bytes and leaves the bridge as text. Neither
//! conversion can fail.
//!
//! A header value is text if every byte of it is printable ASCII, a space
//! or a tab: the rule by which HTTP header values count as strings. A value
//! that is not text becomes the empty string.
//!
//! A payload is decoded as UTF-8, with every undecodable stretch replaced
//! by U+FFFD. A payload that is not UTF-8 loses those bytes for good: the
//! bridge is for text, not for binary data.

use crate::message::text_of;
use vstd::prelude::*;
use vstd::utf8::{
    decode_utf8, encode_utf8, encode_utf8_decode_utf8, encode_utf8_valid_utf8, is_ascii_chars,
    is_ascii_chars_encode_utf8, valid_utf8,
};

verus! {

/// A byte that a header value can show as text: printable ASCII, space or tab.
pub open spec fn is_visible(byte: u8) -> bool {
    (32 <= byte && byte < 127) || byte == 9
}

/// Every byte of `bytes` can be shown as text.
pub open spec fn all_visible(bytes: Seq<u8>) -> bool {
    forall|i: int| 0 <= i < bytes.len() ==> is_visible(#[trigger] bytes[i])
}

/// The characters that ASCII bytes stand for, one for one.
pub open spec fn ascii_text(bytes: Seq<u8>) -> Seq<char> {
    bytes.map_values(|byte: u8| byte as char)
}

/// A header value as the caller sees it: its text if all of it is visible,
/// else nothing.
pub open spec fn value_text(bytes: Seq<u8>) -> Seq<char> {
    if all_visible(bytes) {
        ascii_text(bytes)
    } else {
        Seq::empty()
    }
}

/// Visible bytes are UTF-8, and the text they encode is the bytes read as
/// ASCII.
pub proof fn lemma_visible_bytes_are_text(bytes: Seq<u8>)
    requires
        all_visible(bytes),
    ensures
        valid_utf8(bytes),
        decode_utf8(bytes) == ascii_text(bytes),
{
    let text = ascii_text(bytes);
    assert(is_ascii_chars(text)) by {
        assert forall|i: int| 0 <= i < text.len() implies '\0' <= #[trigger] text[i] <= '\u{7f}' by {
            assert(is_visible(bytes[i]));
        }
    }
    is_ascii_chars_encode_utf8(text);
    assert(encode_utf8(text) =~= bytes) by {
        assert forall|i: int| 0 <= i < bytes.len() implies encode_utf8(text)[i] == bytes[i] by {
            assert(is_visible(bytes[i]));
            assert(text[i] as u8 == bytes[i]);
        }
    }
    encode_utf8_valid_utf8(text);
    encode_utf8_decode_utf8(text);
}

/// Tells whether a header value is text.
pub fn is_text(value: &[u8]) -> (r: bool)
    ensures
        r == all_visible(value@),
{
    let mut i: usize = 0;
    while i < value.len()
        invariant
            i <= value@.len(),
            forall|k: int| 0 <= k < i ==> is_visible(#[trigger] value@[k]),
        decreases value@.len() - i,
    {
        let byte = value[i];
        if !((32 <= byte && byte < 127) || byte == 9) {
            return false;
        }
        i += 1;
    }
    true
}

/// The text of a header value. A value that is not text gives the empty
/// string: one odd header does not spoil the response.
pub fn header_value_text(value: &[u8]) -> (r: String)
    ensures
        r@ == value_text(value@),
        all_visible(value@) ==> r@ == ascii_text(value@),
        !all_visible(value@) ==> r@.len() == 0,
{
    if is_text(value) {
        proof {
            lemma_visible_bytes_are_text(value@);
        }
        decode_lossy(value)
    } else {
        String::new()
    }
}

/// What `String::from_utf8_lossy` makes of bytes that are not UTF-8.
pub uninterp spec fn utf8_lossy(bytes: Seq<u8>) -> Seq<char>;

/// The text of a payload: the text it encodes if it is UTF-8, else what
/// lossy decoding makes of it.
pub open spec fn lossy_text(bytes: Seq<u8>) -> Seq<char> {
    if valid_utf8(bytes) {
        decode_utf8(bytes)
    } else {
        utf8_lossy(bytes)
    }
}

/// Decodes `bytes` with `String::from_utf8_lossy`.
///
/// Bytes that are UTF-8 come out as the text they encode. Of other bytes
/// this says only that the text depends on nothing but the bytes.
#[verifier::external_body]
fn decode_lossy(bytes: &[u8]) -> (r: String)
    ensures
        valid_utf8(bytes@) ==> r@ == decode_utf8(bytes@),
        !valid_utf8(bytes@) ==> r@ == utf8_lossy(bytes@),
{
    String::from_utf8_lossy(bytes).into_owned()
}

/// A payload as the caller sees it: nothing if no byte arrived, else its text.
pub open spec fn body_text(bytes: Seq<u8>) -> Option<Seq<char>> {
    if bytes.len() == 0 {
        None
    } else {
        Some(lossy_text(bytes))
    }
}

/// Turns the bytes of a payload into text.
///
/// What tells "no payload" from "payload" is the number of bytes, nothing
/// else: zero bytes give `None`, and one byte or more give `Some`, whatever
/// the bytes are.
pub fn decode_body(bytes: &[u8]) -> (r: Option<String>)
    ensures
        text_of(r) == body_text(bytes@),
        r is None <==> bytes@.len() == 0,
        bytes@.len() > 0 && valid_utf8(bytes@) ==> text_of(r) == Some(decode_utf8(bytes@)),
{
    if bytes.len() == 0 {
        None
    } else {
        Some(decode_lossy(bytes))
    }
}

} // verus!
