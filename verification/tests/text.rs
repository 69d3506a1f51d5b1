use tunnel::text::{append_bytes, pad, same_bytes, same_text};

#[test]
fn pad_fills_up_with_zero_bytes() {
    assert_eq!(pad(b"ab", 5), vec![b'a', b'b', 0, 0, 0]);
    assert_eq!(pad(b"", 3), vec![0, 0, 0]);
    assert_eq!(pad(b"", 0), Vec::<u8>::new());
}

#[test]
fn pad_leaves_what_is_long_enough() {
    assert_eq!(pad(b"abc", 3), b"abc".to_vec());
    assert_eq!(pad(b"abcdef", 3), b"abcdef".to_vec());
}

#[test]
fn append_bytes_appends() {
    let mut v = b"ab".to_vec();
    append_bytes(&mut v, b"cd");
    append_bytes(&mut v, b"");
    assert_eq!(v, b"abcd".to_vec());
}

#[test]
fn same_bytes_compares_byte_for_byte() {
    assert!(same_bytes(b"", b""));
    assert!(same_bytes(b"abc", b"abc"));
    assert!(!same_bytes(b"abc", b"abd"));
    assert!(!same_bytes(b"abc", b"ab"));
    assert!(!same_bytes(b"ab", b"abc"));
    assert!(!same_bytes(b"xbc", b"abc"));
}

#[test]
fn same_text_compares_characters() {
    assert!(same_text("exit", "exit"));
    assert!(!same_text("exit", "exit "));
    assert!(!same_text("Exit", "exit"));
    assert!(same_text("zoë", "zoë"));
    assert!(!same_text("zoë", "zoe"));
    assert!(same_text("", ""));
}
