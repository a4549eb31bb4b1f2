use ipc::message::{decode_message, deliver, encode_message};

#[test]
fn deliver_places_bytes_at_the_start() {
    let mut buf = [9u8; 5];
    assert_eq!(deliver(&mut buf, &[1, 2, 3]), 3);
    assert_eq!(buf, [1, 2, 3, 9, 9]);
}

#[test]
fn deliver_drops_what_does_not_fit() {
    let mut buf = [9u8; 2];
    assert_eq!(deliver(&mut buf, &[1, 2, 3]), 2);
    assert_eq!(buf, [1, 2]);
}

#[test]
fn deliver_of_nothing_changes_nothing() {
    let mut buf = [9u8; 2];
    assert_eq!(deliver(&mut buf, &[]), 0);
    assert_eq!(buf, [9, 9]);
    let mut none: [u8; 0] = [];
    assert_eq!(deliver(&mut none, &[1]), 0);
}

#[test]
fn decode_of_valid_utf8_is_the_text() {
    assert_eq!(decode_message(b"Hello, world!"), "Hello, world!");
    assert_eq!(decode_message("\u{1f980}\u{e9}".as_bytes()), "\u{1f980}\u{e9}");
    assert_eq!(decode_message(b""), "");
}

#[test]
fn decode_replaces_what_is_not_utf8() {
    assert_eq!(decode_message(&[0x80]), "\u{fffd}");
    assert_eq!(decode_message(&[b'o', b'k', 0xc0, 0xaf]), "ok\u{fffd}\u{fffd}");
    assert_eq!(decode_message(&[0xed, 0xa0, 0x80]), "\u{fffd}\u{fffd}\u{fffd}");
}

#[test]
fn decode_cuts_at_the_read_buffer() {
    let mut bytes = vec![b'a'; 1023];
    bytes.extend_from_slice("\u{e9}".as_bytes());
    let text = decode_message(&bytes);
    assert_eq!(text.chars().count(), 1024);
    assert_eq!(text.chars().last(), Some('\u{fffd}'));
    let exact = vec![b'b'; 1024];
    assert_eq!(decode_message(&exact).len(), 1024);
}

#[test]
fn encode_is_utf8() {
    assert_eq!(encode_message("World!"), b"World!");
    assert_eq!(encode_message("\u{20ac}"), [0xe2, 0x82, 0xac]);
    assert_eq!(encode_message(""), Vec::<u8>::new());
}

#[test]
fn encoded_text_decodes_to_itself() {
    for text in ["", "a", "gr\u{fc}n", "\u{1f980} crab"] {
        assert_eq!(decode_message(&encode_message(text)), text);
    }
}
