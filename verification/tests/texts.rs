use http_bridge::text::{decode_body, header_value_text, is_text};
use reqwest::header::HeaderValue;

#[test]
fn a_visible_header_value_is_its_text() {
    assert_eq!(header_value_text(b"text/html; charset=utf-8"), "text/html; charset=utf-8");
    assert_eq!(header_value_text(b"a\tb c~!"), "a\tb c~!");
}

#[test]
fn an_empty_header_value_is_the_empty_string() {
    assert_eq!(header_value_text(b""), "");
}

#[test]
fn a_header_value_with_a_high_byte_is_the_empty_string() {
    assert_eq!(header_value_text(b"caf\xc3\xa9"), "");
    assert_eq!(header_value_text(b"\xff"), "");
    assert_eq!(header_value_text(b"abc\x80"), "");
}

#[test]
fn a_header_value_with_a_control_byte_is_the_empty_string() {
    assert_eq!(header_value_text(b"a\x00b"), "");
    assert_eq!(header_value_text(b"a\x1fb"), "");
    assert_eq!(header_value_text(b"a\x7fb"), "");
    assert_eq!(header_value_text(b"a\nb"), "");
    assert_eq!(header_value_text(b"a\rb"), "");
}

#[test]
fn the_edges_of_the_visible_range() {
    assert_eq!(header_value_text(&[32u8]), " ");
    assert_eq!(header_value_text(&[126u8]), "~");
    assert_eq!(header_value_text(&[9u8]), "\t");
    assert_eq!(header_value_text(&[31u8]), "");
    assert_eq!(header_value_text(&[127u8]), "");
    assert_eq!(header_value_text(&[8u8]), "");
    assert_eq!(header_value_text(&[10u8]), "");
    assert_eq!(header_value_text(&[128u8]), "");
}

#[test]
fn every_single_byte_is_text_exactly_when_it_is_visible() {
    for byte in 0u8..=255 {
        let visible = (32..127).contains(&byte) || byte == 9;
        let expected = if visible { (byte as char).to_string() } else { String::new() };
        assert_eq!(header_value_text(&[byte]), expected);
    }
}

#[test]
fn no_bytes_are_no_body() {
    assert_eq!(decode_body(b""), None);
    assert_eq!(decode_body(&[]), None);
}

#[test]
fn utf8_bytes_are_their_text() {
    assert_eq!(decode_body(b"hello"), Some("hello".to_string()));
    assert_eq!(decode_body("na\u{ef}ve \u{2603} \u{1f600}".as_bytes()), Some("na\u{ef}ve \u{2603} \u{1f600}".to_string()));
    assert_eq!(decode_body(b"{\"ok\":true}"), Some("{\"ok\":true}".to_string()));
}

#[test]
fn one_byte_is_a_body_whatever_it_is() {
    assert_eq!(decode_body(&[0u8]), Some("\0".to_string()));
    assert_eq!(decode_body(b" "), Some(" ".to_string()));
    assert_eq!(decode_body(b"\n"), Some("\n".to_string()));
    assert_eq!(decode_body(&[0xffu8]), Some("\u{fffd}".to_string()));
}

#[test]
fn undecodable_bytes_are_replaced() {
    assert_eq!(decode_body(b"a\xffb"), Some("a\u{fffd}b".to_string()));
    assert_eq!(decode_body(b"Hello \xF0\x90\x80World"), Some("Hello \u{fffd}World".to_string()));
    assert_eq!(decode_body(b"\xc3"), Some("\u{fffd}".to_string()));
    assert_eq!(decode_body(b"\xed\xa0\x80"), Some("\u{fffd}\u{fffd}\u{fffd}".to_string()));
}

#[test]
fn decoding_twice_gives_the_same_text() {
    let bytes = b"x\x80\xfey\xc0\xafz";
    assert_eq!(decode_body(bytes), decode_body(bytes));
    assert_eq!(decode_body(bytes), Some(String::from_utf8_lossy(bytes).into_owned()));
}

#[test]
fn is_text_looks_at_every_byte() {
    assert!(is_text(b""));
    assert!(is_text(b"plain words\twith a tab"));
    assert!(!is_text(b"\x01plain"));
    assert!(!is_text(b"pla\x80in"));
    assert!(!is_text(b"plain\x7f"));
}

#[test]
fn header_text_agrees_with_the_http_library_on_every_byte_it_admits() {
    for byte in 0u8..=255 {
        for bytes in [vec![byte], vec![b'a', byte], vec![byte, b'z'], vec![b'a', byte, b'z']] {
            if let Ok(value) = HeaderValue::from_bytes(&bytes) {
                let expected = value.to_str().unwrap_or_default().to_string();
                assert_eq!(header_value_text(&bytes), expected);
                assert_eq!(is_text(&bytes), value.to_str().is_ok());
            } else {
                assert_eq!(header_value_text(&bytes), "");
            }
        }
    }
}
