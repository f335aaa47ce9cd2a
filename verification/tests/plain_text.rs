use rcli::plain_text::{ascii_string, message_bytes};

#[test]
fn a_message_is_the_text_without_the_white_space_at_its_ends() {
    assert_eq!(message_bytes("hello world"), b"hello world");
    assert_eq!(message_bytes("  hello world \r\n"), b"hello world");
    assert_eq!(message_bytes("\thello\tworld\t"), b"hello\tworld");
    assert_eq!(message_bytes("\u{2003}caf\u{e9}\u{85}"), "caf\u{e9}".as_bytes());
    assert_eq!(message_bytes(" \n\t "), b"");
    assert_eq!(message_bytes(""), b"");
    // U+200B, the zero width space, is no white space
    assert_eq!(message_bytes("\u{200b}x"), "\u{200b}x".as_bytes());
}

#[test]
fn ascii_bytes_are_characters_one_for_one() {
    assert_eq!(ascii_string(b"Az09!~".to_vec()), "Az09!~");
    assert_eq!(ascii_string(Vec::new()), "");
}
