//! What holds of every exchange, proved from the definitions in
//! [`crate::forward`].

use crate::forward::{
    completed, forwarded, header_texts, prepared, received, HeadView, OutboundView, RawHeadView,
};
use crate::message::{ErrorView, RequestView, ResponseView};
use crate::method::recognized;
use crate::text::{all_visible, ascii_text, body_text, is_visible, lossy_text, value_text};
use vstd::prelude::*;
use vstd::utf8::{
    encode_utf8, encode_utf8_decode_utf8, encode_utf8_valid_utf8, is_ascii_chars,
    is_ascii_chars_encode_utf8, valid_utf8,
};

verus! {

/// A request whose method is recognized never ends in `InvalidMethod`,
/// whatever the client reports: it is laid out for sending, and if it fails
/// later, it fails as a transport error.
pub proof fn lemma_recognized_method_is_never_invalid(
    request: RequestView,
    sent: Result<RawHeadView, Seq<char>>,
    drained: Result<Seq<u8>, Seq<char>>,
)
    requires
        recognized(request.method) is Some,
    ensures
        prepared(request) is Ok,
        forwarded(request, sent, drained) != Err::<ResponseView, ErrorView>(ErrorView::InvalidMethod),
        forwarded(request, sent, drained) matches Err(error) ==> error is TransportError,
{
}

/// A request whose method is not recognized ends in `InvalidMethod` before
/// anything is laid out for sending. The client's reports play no part:
/// there are none.
pub proof fn lemma_unrecognized_method_sends_nothing(
    request: RequestView,
    sent: Result<RawHeadView, Seq<char>>,
    drained: Result<Seq<u8>, Seq<char>>,
)
    requires
        recognized(request.method) is None,
    ensures
        prepared(request) == Err::<OutboundView, ErrorView>(ErrorView::InvalidMethod),
        forwarded(request, sent, drained) == Err::<ResponseView, ErrorView>(ErrorView::InvalidMethod),
{
}

/// Every header line of the request goes out, at its own place. Two lines
/// of one name go out as two lines.
pub proof fn lemma_repeated_headers_stay_apart(request: RequestView, i: int, j: int)
    requires
        recognized(request.method) is Some,
        0 <= i < j < request.headers.len(),
        request.headers[i].0 == request.headers[j].0,
    ensures
        prepared(request) matches Ok(out) && {
            &&& out.headers.len() == request.headers.len()
            &&& out.headers[i] == request.headers[i]
            &&& out.headers[j] == request.headers[j]
        },
{
}

/// An answer is a response whatever its status says: only the transport
/// can fail an exchange once the request is out.
pub proof fn lemma_any_status_is_a_response(request: RequestView, raw: RawHeadView, bytes: Seq<u8>)
    requires
        recognized(request.method) is Some,
    ensures
        forwarded(request, Ok(raw), Ok(bytes)) matches Ok(response) && {
            &&& response.status == raw.status
            &&& response.headers == header_texts(raw.headers)
            &&& response.body == body_text(bytes)
        },
{
}

/// Header lines come back one for one: as many as arrived, in the order of
/// arrival, under the names they arrived with.
pub proof fn lemma_header_lines_come_back_in_order(raw: RawHeadView, i: int)
    requires
        0 <= i < raw.headers.len(),
    ensures
        received(Ok(raw)) matches Ok(head) && {
            &&& head.headers.len() == raw.headers.len()
            &&& head.headers[i].0 == raw.headers[i].0
            &&& head.headers[i].1 == value_text(raw.headers[i].1)
        },
{
}

/// The response has no payload exactly when no byte arrived. The number of
/// bytes decides, not what the bytes are.
pub proof fn lemma_no_bytes_no_body(head: HeadView, bytes: Seq<u8>)
    ensures
        completed(head, Ok(bytes)) matches Ok(response) && (response.body is None <==> bytes.len()
            == 0),
        body_text(Seq::<u8>::empty()) is None,
{
}

/// A failure while reading the body leaves nothing of the response.
pub proof fn lemma_no_half_response(head: HeadView, complaint: Seq<char>)
    ensures
        completed(head, Err(complaint)) == Err::<ResponseView, ErrorView>(
            ErrorView::TransportError(complaint),
        ),
{
}

/// The bytes that carry a payload: its UTF-8 encoding, or none at all.
pub open spec fn payload_bytes(body: Option<Seq<char>>) -> Seq<u8> {
    match body {
        Some(text) => encode_utf8(text),
        None => Seq::empty(),
    }
}

/// A character that a header value can carry as text.
pub open spec fn is_visible_char(c: char) -> bool {
    (' ' <= c && c <= '~') || c == '\t'
}

/// Text that a header value can carry unchanged: printable ASCII, spaces
/// and tabs.
pub open spec fn is_visible_text(text: Seq<char>) -> bool {
    forall|i: int| 0 <= i < text.len() ==> is_visible_char(#[trigger] text[i])
}

/// Visible text that travels as a header value comes back as the same text.
pub proof fn lemma_visible_value_survives(text: Seq<char>)
    requires
        is_visible_text(text),
    ensures
        all_visible(encode_utf8(text)),
        value_text(encode_utf8(text)) == text,
{
    assert(is_ascii_chars(text)) by {
        assert forall|i: int| 0 <= i < text.len() implies '\0' <= #[trigger] text[i] <= '\u{7f}' by {
            assert(is_visible_char(text[i]));
        }
    }
    is_ascii_chars_encode_utf8(text);
    let bytes = encode_utf8(text);
    assert forall|i: int| 0 <= i < bytes.len() implies is_visible(#[trigger] bytes[i]) && (
    bytes[i] as char) == text[i] by {
        assert(is_visible_char(text[i]));
        assert(bytes[i] == text[i] as u8);
    }
    assert(ascii_text(bytes) =~= text);
}

/// Text that travels as a payload comes back as the same text, unless it is
/// empty: then nothing comes back.
pub proof fn lemma_text_payload_survives(text: Seq<char>)
    ensures
        valid_utf8(encode_utf8(text)),
        lossy_text(encode_utf8(text)) == text,
        text.len() > 0 ==> body_text(encode_utf8(text)) == Some(text),
        text.len() == 0 ==> body_text(encode_utf8(text)) is None,
{
    encode_utf8_valid_utf8(text);
    encode_utf8_decode_utf8(text);
}

/// Round trip. Where the target sends the request's own payload back, the
/// response carries that payload; and each header line of the request that
/// it sends back comes back as it went out, beside whatever else the target
/// sent.
///
/// Two things do not come back as they went: an empty payload, which
/// arrives as no bytes and so as no payload; and a header value that is not
/// visible text, which arrives as the empty string.
pub proof fn lemma_echo_round_trip(request: RequestView, raw: RawHeadView)
    requires
        recognized(request.method) is Some,
        request.body != Some(Seq::<char>::empty()),
    ensures
        forwarded(request, Ok(raw), Ok(payload_bytes(request.body))) matches Ok(response) && {
            &&& response.status == raw.status
            &&& response.body == request.body
            &&& response.headers.len() == raw.headers.len()
            &&& forall|i: int, j: int|
                #![trigger request.headers[i], raw.headers[j]]
                0 <= i < request.headers.len() && 0 <= j < raw.headers.len() && is_visible_text(
                    request.headers[i].1,
                ) && raw.headers[j] == (request.headers[i].0, encode_utf8(request.headers[i].1))
                    ==> response.headers[j] == request.headers[i]
        },
{
    match request.body {
        Some(text) => {
            lemma_text_payload_survives(text);
        },
        None => {},
    }
    let response = forwarded(request, Ok(raw), Ok(payload_bytes(request.body)))->Ok_0;
    assert forall|i: int, j: int|
        #![trigger request.headers[i], raw.headers[j]]
        0 <= i < request.headers.len() && 0 <= j < raw.headers.len() && is_visible_text(
            request.headers[i].1,
        ) && raw.headers[j] == (
            request.headers[i].0,
            encode_utf8(request.headers[i].1),
        ) implies response.headers[j] == request.headers[i] by {
        lemma_visible_value_survives(request.headers[i].1);
    }
}

} // verus!
