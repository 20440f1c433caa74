use raspi_os::fat_name::fat_name_from_chars;

fn expect_is(bytes: [u8; 11], name: &str) {
    assert_eq!(fat_name_from_chars(&bytes), name);
}

#[test]
fn test_foo_bar() {
    expect_is(
        [b'F', b'O', b'O', b' ', b' ', b' ', b' ', b' ', b'B', b'A', b'R'],
        "FOO.BAR",
    );
}

#[test]
fn test_foo() {
    expect_is(
        [b'F', b'O', b'O', b' ', b' ', b' ', b' ', b' ', b' ', b' ', b' '],
        "FOO.",
    );
}

#[test]
fn test_pickle() {
    expect_is(
        [b'P', b'I', b'C', b'K', b'L', b'E', b' ', b' ', b'A', b' ', b' '],
        "PICKLE.A",
    );
}

#[test]
fn test_pretty_big() {
    expect_is(
        [b'P', b'R', b'E', b'T', b'T', b'Y', b'B', b'G', b'B', b'I', b'G'],
        "PRETTYBG.BIG",
    );
}

#[test]
fn test_dot_big() {
    expect_is(
        [b' ', b' ', b' ', b' ', b' ', b' ', b' ', b' ', b'B', b'I', b'G'],
        ".BIG",
    );
}

#[test]
fn fat_name_drops_punctuation_and_keeps_digits() {
    expect_is(
        [b'A', b'-', b'1', b'_', b'2', b'~', b' ', b' ', b'T', b'.', b'3'],
        "A12.T3",
    );
}

#[test]
fn fat_name_keeps_latin1_letters() {
    // 0xE9 is 'é', 0xD7 is the multiplication sign, 0xB2 is superscript two.
    let name = fat_name_from_chars(&[0xE9, 0xD7, 0xB2, b' ', b' ', b' ', b' ', b' ', 0xF7, 0xBD, b' ']);
    let expected: String = ['\u{e9}', '\u{b2}', '.', '\u{bd}'].iter().collect();
    assert_eq!(name, expected);
}

#[test]
fn fat_name_byte_classes_match_unicode() {
    // Every byte in the base name is kept exactly when it is an ASCII
    // letter or digit or one of the Latin-1 letters and numbers.
    for b in 0u8..=255 {
        let mut bytes = [b' '; 11];
        bytes[0] = b;
        let name = fat_name_from_chars(&bytes);
        let kept = b.is_ascii_alphanumeric()
            || [0xAA, 0xB2, 0xB3, 0xB5, 0xB9, 0xBA, 0xBC, 0xBD, 0xBE].contains(&b)
            || (b >= 0xC0 && b != 0xD7 && b != 0xF7);
        let expected = if kept { format!("{}.", b as char) } else { String::from(".") };
        assert_eq!(name, expected, "byte {:#x}", b);
    }
}
