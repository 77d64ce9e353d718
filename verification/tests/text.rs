use controller_battery::text::{
    copy_range, digit_of, find_byte, has_pattern, has_prefix, is_space_byte, push_decimal,
    read_unsigned, split_bytes, split_lines, str_starts_with, trim_bytes,
};

fn rows(pieces: &[&str]) -> Vec<Vec<u8>> {
    pieces.iter().map(|p| p.as_bytes().to_vec()).collect()
}

#[test]
fn test_find_byte() {
    assert_eq!(find_byte(b"a=b=c", 0, b'='), 1);
    assert_eq!(find_byte(b"a=b=c", 1, b'='), 1);
    assert_eq!(find_byte(b"a=b=c", 2, b'='), 3);
    assert_eq!(find_byte(b"a=b=c", 4, b'='), 5);
    assert_eq!(find_byte(b"a=b=c", 5, b'='), 5);
    assert_eq!(find_byte(b"", 0, b'='), 0);
}

#[test]
fn test_copy_range() {
    assert_eq!(copy_range(b"abcdef", 0, 6), b"abcdef".to_vec());
    assert_eq!(copy_range(b"abcdef", 2, 4), b"cd".to_vec());
    assert_eq!(copy_range(b"abcdef", 3, 3), b"".to_vec());
    assert_eq!(copy_range(b"abcdef", 6, 6), b"".to_vec());
}

#[test]
fn test_split_bytes() {
    assert_eq!(split_bytes(b"", b' '), rows(&[""]));
    assert_eq!(split_bytes(b"abc", b' '), rows(&["abc"]));
    assert_eq!(split_bytes(b"a b c", b' '), rows(&["a", "b", "c"]));
    assert_eq!(split_bytes(b" a  b ", b' '), rows(&["", "a", "", "b", ""]));
    assert_eq!(split_bytes(b" ", b' '), rows(&["", ""]));
    assert_eq!(split_bytes(b"  ", b' '), rows(&["", "", ""]));
    assert_eq!(split_bytes(b"k=v", b'='), rows(&["k", "v"]));
}

#[test]
fn test_split_bytes_agrees_with_std() {
    let texts = ["", " ", "a", "a b", " a", "a ", "a  b", "  ", "ab cd  ef ", "\tx: 0x42 (66)"];
    for text in texts {
        let expected: Vec<Vec<u8>> = text.split(' ').map(|p| p.as_bytes().to_vec()).collect();
        assert_eq!(split_bytes(text.as_bytes(), b' '), expected, "{:?}", text);
    }
}

#[test]
fn test_split_lines() {
    assert_eq!(split_lines(b""), rows(&[]));
    assert_eq!(split_lines(b"a"), rows(&["a"]));
    assert_eq!(split_lines(b"a\n"), rows(&["a"]));
    assert_eq!(split_lines(b"a\nb"), rows(&["a", "b"]));
    assert_eq!(split_lines(b"a\r\nb\r\n"), rows(&["a", "b"]));
    assert_eq!(split_lines(b"\n"), rows(&[""]));
    assert_eq!(split_lines(b"\n\n"), rows(&["", ""]));
    assert_eq!(split_lines(b"a\n\nb"), rows(&["a", "", "b"]));
    assert_eq!(split_lines(b"a\rb\n"), rows(&["a\rb"]));
    assert_eq!(split_lines(b"a\r\r\n"), rows(&["a\r"]));
    // A last line without a line feed keeps its carriage return.
    assert_eq!(split_lines(b"a\nb\r"), rows(&["a", "b\r"]));
    assert_eq!(split_lines(b"\r\n"), rows(&[""]));
    assert_eq!(split_lines(b"\r"), rows(&["\r"]));
}

#[test]
fn test_split_lines_agrees_with_std() {
    let texts = [
        "", "\n", "\r\n", "a", "a\n", "a\r\n", "a\nb", "a\n\nb\n", "foo\r\nbar\n\nbaz\r",
        "\n\n\n", "x\r\r\ny", "HID_ID=1\nHID_UNIQ=aa\n",
    ];
    for text in texts {
        let expected: Vec<Vec<u8>> = text.lines().map(|p| p.as_bytes().to_vec()).collect();
        assert_eq!(split_lines(text.as_bytes()), expected, "{:?}", text);
    }
}

#[test]
fn test_has_prefix() {
    assert!(has_prefix(b"HID_UNIQ=aa", b"HID_UNIQ"));
    assert!(has_prefix(b"HID_UNIQ", b"HID_UNIQ"));
    assert!(has_prefix(b"abc", b""));
    assert!(has_prefix(b"", b""));
    assert!(!has_prefix(b"HID_UNI", b"HID_UNIQ"));
    assert!(!has_prefix(b"xHID_UNIQ", b"HID_UNIQ"));
    assert!(!has_prefix(b"", b"a"));
    assert!(!has_prefix(b"HID_UNIq", b"HID_UNIQ"));
}

#[test]
fn test_has_pattern() {
    assert!(has_pattern(b"\tBattery Percentage: 0x42", b"Battery Percentage"));
    assert!(has_pattern(b"abc", b"abc"));
    assert!(has_pattern(b"abc", b"c"));
    assert!(has_pattern(b"abc", b"a"));
    assert!(has_pattern(b"abc", b""));
    assert!(has_pattern(b"", b""));
    assert!(has_pattern(b"aab", b"ab"));
    assert!(has_pattern(b"ababac", b"abac"));
    assert!(!has_pattern(b"abc", b"abcd"));
    assert!(!has_pattern(b"abc", b"ac"));
    assert!(!has_pattern(b"", b"a"));
    assert!(!has_pattern(b"Battery  Percentage", b"Battery Percentage"));
}

#[test]
fn test_trim_bytes() {
    assert_eq!(trim_bytes(b"  85\n"), b"85".to_vec());
    assert_eq!(trim_bytes(b"85"), b"85".to_vec());
    assert_eq!(trim_bytes(b""), b"".to_vec());
    assert_eq!(trim_bytes(b" \t\r\n\x0b\x0c"), b"".to_vec());
    assert_eq!(trim_bytes(b" a b "), b"a b".to_vec());
    assert_eq!(trim_bytes(b"\x08a\x0e"), b"\x08a\x0e".to_vec());
    for b in 0..=255u8 {
        assert_eq!(is_space_byte(b), b.is_ascii_whitespace() || b == 0x0b);
    }
}

#[test]
fn test_digit_of() {
    for b in 0..=255u8 {
        for radix in 2..=36u32 {
            assert_eq!(digit_of(b, radix), (b as char).to_digit(radix).filter(|_| b < 128));
        }
    }
}

#[test]
fn test_read_unsigned() {
    assert_eq!(read_unsigned(b"0", 10, 255), Some(0));
    assert_eq!(read_unsigned(b"255", 10, 255), Some(255));
    assert_eq!(read_unsigned(b"256", 10, 255), None);
    assert_eq!(read_unsigned(b"+7", 10, 255), Some(7));
    assert_eq!(read_unsigned(b"++7", 10, 255), None);
    assert_eq!(read_unsigned(b"-7", 10, 255), None);
    assert_eq!(read_unsigned(b"", 10, 255), None);
    assert_eq!(read_unsigned(b"+", 10, 255), None);
    assert_eq!(read_unsigned(b"1a", 10, 255), None);
    assert_eq!(read_unsigned(b"1a", 16, 255), Some(26));
    assert_eq!(read_unsigned(b"Ff", 16, 255), Some(255));
    assert_eq!(read_unsigned(b"zz", 36, 2000), Some(35 * 36 + 35));
    assert_eq!(read_unsigned(b"101", 2, 255), Some(5));
    assert_eq!(read_unsigned(b"102", 2, 255), None);
    assert_eq!(read_unsigned(b"4294967295", 10, u32::MAX), Some(u32::MAX));
    assert_eq!(read_unsigned(b"4294967296", 10, u32::MAX), None);
    assert_eq!(read_unsigned(b"99999999999999999999999999", 10, u32::MAX), None);
    assert_eq!(read_unsigned(b"00000000000000000000000001", 10, 1), Some(1));
    assert_eq!(read_unsigned(b"0", 10, 0), Some(0));
    assert_eq!(read_unsigned(b"1", 10, 0), None);
}

#[test]
fn test_read_unsigned_agrees_with_std() {
    let texts = [
        "", "+", "-", "0", "+0", "-0", "7", "007", "255", "256", "65535", "65536", "ffff", "FFFF",
        "10000", "+ffff", "ff ff", " ff", "0x10", "1_0", "g", "+-1", "12345678901234567890",
    ];
    for text in texts {
        assert_eq!(
            read_unsigned(text.as_bytes(), 16, 0xffff),
            u16::from_str_radix(text, 16).ok().map(|v| v as u32),
            "{:?}",
            text
        );
        assert_eq!(
            read_unsigned(text.as_bytes(), 10, 255),
            text.parse::<u8>().ok().map(|v| v as u32),
            "{:?}",
            text
        );
    }
}

#[test]
fn test_str_starts_with() {
    assert!(str_starts_with("Stadia-CG9S-4e9f", "Stadia"));
    assert!(str_starts_with("Stadia", "Stadia"));
    assert!(str_starts_with("abc", ""));
    assert!(str_starts_with("", ""));
    assert!(!str_starts_with("Stadi", "Stadia"));
    assert!(!str_starts_with("", "a"));
    assert!(!str_starts_with("xStadia", "Stadia"));
    assert!(str_starts_with("\u{e9}t\u{e9}", "\u{e9}t"));
    assert!(!str_starts_with("\u{e9}t\u{e9}", "\u{e8}"));
}

#[test]
fn test_push_decimal() {
    let cases = [
        (0u64, "0"),
        (9, "9"),
        (10, "10"),
        (99, "99"),
        (100, "100"),
        (101, "101"),
        (65535, "65535"),
        (u64::MAX, "18446744073709551615"),
    ];
    for (n, expected) in cases {
        let mut out = String::from("n=");
        push_decimal(&mut out, n);
        assert_eq!(out, format!("n={}", expected));
    }
    for n in 0..2000u64 {
        let mut out = String::new();
        push_decimal(&mut out, n);
        assert_eq!(out, n.to_string());
    }
}
