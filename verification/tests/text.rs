use pci_info::text::{
    find_char, is_word, quoted_error, read_number, read_unsigned, split_trimmed, trim_range,
};
use pci_info::PciInfoError;

fn chars(s: &str) -> Vec<char> {
    s.chars().collect()
}

#[test]
fn numbers_in_a_radix() {
    assert_eq!(read_number("0", 10, 255), Some(0));
    assert_eq!(read_number("255", 10, 255), Some(255));
    assert_eq!(read_number("256", 10, 255), None);
    assert_eq!(read_number("+7", 10, 255), Some(7));
    assert_eq!(read_number("-7", 10, 255), None);
    assert_eq!(read_number("", 10, 255), None);
    assert_eq!(read_number("+", 10, 255), None);
    assert_eq!(read_number("1a", 10, 255), None);
    assert_eq!(read_number("1a", 16, 255), Some(26));
    assert_eq!(read_number("zz", 36, u32::MAX), Some(35 * 36 + 35));
    assert_eq!(read_number("ZZ", 36, u32::MAX), Some(35 * 36 + 35));
    assert_eq!(read_number("1010", 2, 15), Some(10));
    assert_eq!(read_number("102", 2, 15), None);
    assert_eq!(read_number("4294967295", 10, u32::MAX), Some(u32::MAX));
    assert_eq!(read_number("4294967296", 10, u32::MAX), None);
    assert_eq!(read_number("99999999999999999999999999", 10, u32::MAX), None);
    assert_eq!(read_number("00000000000000000000000001", 10, 1), Some(1));
    assert_eq!(read_number("5", 10, 4), None);
    assert_eq!(read_number("٣", 10, 255), None);
}

#[test]
fn numbers_agree_with_the_standard_library() {
    let texts = [
        "", "0", "7", "+7", "-7", "++7", "7+", "ff", "FF", "fF", "g", " 1", "1 ", "1_0", "0x1",
        "255", "256", "65535", "65536", "4294967295", "4294967296", "00255", "é", "+", "-",
        "+0", "+zz", "12345678901234567890",
    ];
    for t in texts {
        for radix in [2u32, 8, 10, 16, 36] {
            assert_eq!(
                read_number(t, radix, 255),
                u8::from_str_radix(t, radix).ok().map(u32::from),
                "'{t}' in radix {radix} as u8"
            );
            assert_eq!(
                read_number(t, radix, 65535),
                u16::from_str_radix(t, radix).ok().map(u32::from),
                "'{t}' in radix {radix} as u16"
            );
            assert_eq!(
                read_number(t, radix, u32::MAX),
                u32::from_str_radix(t, radix).ok(),
                "'{t}' in radix {radix} as u32"
            );
        }
    }
}

#[test]
fn numbers_in_a_range_of_characters() {
    let c = chars("ab12cd");
    assert_eq!(read_unsigned(&c, 2, 4, 10, 255), Some(12));
    assert_eq!(read_unsigned(&c, 0, 6, 16, u32::MAX), Some(0xAB12CD));
    assert_eq!(read_unsigned(&c, 0, 6, 10, u32::MAX), None);
    assert_eq!(read_unsigned(&c, 3, 3, 10, 255), None);
    assert_eq!(read_unsigned(&c, 6, 6, 10, 255), None);
}

#[test]
fn first_occurrence_of_a_character() {
    let c = chars("a.b.c");
    assert_eq!(find_char(&c, 0, 5, '.'), 1);
    assert_eq!(find_char(&c, 2, 5, '.'), 3);
    assert_eq!(find_char(&c, 4, 5, '.'), 5);
    assert_eq!(find_char(&c, 0, 1, '.'), 1);
    assert_eq!(find_char(&c, 1, 1, '.'), 1);
    assert_eq!(find_char(&c, 0, 5, 'a'), 0);
    assert_eq!(find_char(&c, 0, 5, 'z'), 5);
    assert_eq!(find_char(&Vec::new(), 0, 0, 'z'), 0);
}

#[test]
fn words_in_a_range_of_characters() {
    let c = chars("VEN_8086");
    assert!(is_word(&c, 0, 3, &['V', 'E', 'N']));
    assert!(!is_word(&c, 0, 3, &['V', 'E']));
    assert!(!is_word(&c, 0, 2, &['V', 'E', 'N']));
    assert!(!is_word(&c, 0, 3, &['D', 'E', 'V']));
    assert!(!is_word(&c, 1, 4, &['V', 'E', 'N']));
    assert!(is_word(&c, 4, 8, &['8', '0', '8', '6']));
    assert!(is_word(&c, 2, 2, &[]));
}

#[test]
fn white_space_at_both_ends() {
    let c = chars("  \t a b \u{a0}\n");
    assert_eq!(trim_range(&c, 0, c.len()), (4, 7));
    assert_eq!(trim_range(&c, 4, 7), (4, 7));
    assert_eq!(trim_range(&c, 5, 6), (6, 6));
    assert_eq!(trim_range(&c, 0, 3), (3, 3));
    assert_eq!(trim_range(&c, 2, 2), (2, 2));
    for text in ["", " ", "x", " x", "x ", "\u{2000}x\u{200a}", "\u{200b}x", "\u{85}\u{1680}y"] {
        let c = chars(text);
        let (a, b) = trim_range(&c, 0, c.len());
        let got: String = c[a..b].iter().collect();
        assert_eq!(got, text.trim(), "trimming '{text}'");
    }
}

#[test]
fn pieces_without_white_space() {
    assert_eq!(split_trimmed("a, b ,c", ','), vec!["a", "b", "c"]);
    assert_eq!(split_trimmed(",", ','), vec!["", ""]);
    assert_eq!(split_trimmed("", ','), vec![""]);
    assert_eq!(split_trimmed(" a ", ','), vec!["a"]);
    for text in ["x:y", ":x:", "::", " : ", "é : ü", "no colon"] {
        let expected: Vec<&str> = text.split(':').map(|s| s.trim()).collect();
        assert_eq!(split_trimmed(text, ':'), expected, "splitting '{text}'");
    }
}

#[test]
fn error_that_quotes_a_text() {
    match quoted_error("bad number: '", "zz") {
        PciInfoError::ParseError(s) => assert_eq!(s.as_str(), "bad number: 'zz'"),
        other => panic!("unexpected error: {other:?}"),
    }
    match quoted_error("", "") {
        PciInfoError::ParseError(s) => assert_eq!(s.as_str(), "'"),
        other => panic!("unexpected error: {other:?}"),
    }
}
