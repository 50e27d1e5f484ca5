use peer_chat::codec::{ack_token, decode, encode, handshake, DecodedFrame, Frame, FRAME_LEN};

fn padded(text: &str) -> String {
    let mut s = text.to_string();
    while s.len() < FRAME_LEN {
        s.push('\u{0}');
    }
    s
}

#[test]
fn encode_pads_with_zeros() {
    let f = encode("test one");
    let mut expected = b"test one".to_vec();
    expected.extend_from_slice(&[0u8; 16]);
    assert_eq!(f.as_bytes(), &expected[..]);
}

#[test]
fn encode_exactly_a_frame_has_no_padding() {
    let text = "abcdefghijklmnopqrstuvwx";
    assert_eq!(text.len(), 24);
    let f = encode(text);
    assert_eq!(f.as_bytes(), text.as_bytes());
    assert_eq!(decode(&f), DecodedFrame::Payload(text.to_string()));
}

#[test]
fn encode_truncates_long_text() {
    let f = encode("abcdefghijklmnopqrstuvwxyz0123");
    assert_eq!(f.as_bytes(), b"abcdefghijklmnopqrstuvwx");
    assert_eq!(f.as_bytes().len(), 24);
}

#[test]
fn decode_text_round_trip() {
    assert_eq!(
        decode(&encode("test one")),
        DecodedFrame::Payload("test one\u{0}\u{0}\u{0}\u{0}\u{0}\u{0}\u{0}\u{0}\u{0}\u{0}\u{0}\u{0}\u{0}\u{0}\u{0}\u{0}".to_string())
    );
    assert_eq!(decode(&encode("héllo")), DecodedFrame::Payload(padded("héllo")));
}

#[test]
fn sentinel_round_trip_on_values() {
    assert_eq!(decode(&Frame::sentinel()), DecodedFrame::Sentinel);
    assert!(Frame::sentinel().is_sentinel());
    assert_eq!(Frame::sentinel().as_bytes(), &[0u8; 24][..]);
    assert_eq!(decode(&Frame::pad(&[])), DecodedFrame::Sentinel);
    assert_eq!(decode(&Frame::pad(&[0, 0, 0])), DecodedFrame::Sentinel);
}

#[test]
fn empty_text_is_the_sentinel() {
    assert_eq!(decode(&encode("")), DecodedFrame::Sentinel);
}

#[test]
fn decode_invalid_utf8_uses_replacement() {
    let f = Frame::pad(&[0x66, 0xff, 0x67]);
    let mut expected = "f\u{fffd}g".to_string();
    for _ in 0..21 {
        expected.push('\u{0}');
    }
    assert_eq!(decode(&f), DecodedFrame::Payload(expected));
}

#[test]
fn truncation_inside_a_character_is_lossy() {
    // 23 ASCII bytes and a two-byte character: the cut leaves half of it.
    let text = "abcdefghijklmnopqrstuvwé";
    let f = encode(text);
    assert_eq!(f.as_bytes()[23], 0xc3);
    assert_eq!(
        decode(&f),
        DecodedFrame::Payload("abcdefghijklmnopqrstuvw\u{fffd}".to_string())
    );
}

#[test]
fn pad_short_read() {
    let f = Frame::pad(b"ab");
    let mut expected = vec![b'a', b'b'];
    expected.extend_from_slice(&[0u8; 22]);
    assert_eq!(f.as_bytes(), &expected[..]);
    assert!(!f.is_sentinel());
}

#[test]
fn handshake_frame_bytes() {
    let f = handshake();
    assert_eq!(&f.as_bytes()[..11], b"Lets chat!!");
    assert_eq!(&f.as_bytes()[11..], &[0u8; 13][..]);
    assert_eq!(decode(&f), DecodedFrame::Payload(padded("Lets chat!!")));
}

#[test]
fn ack_token_is_three_bytes() {
    assert_eq!(ack_token(), b"ACK".to_vec());
}
