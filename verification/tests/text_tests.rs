use memospot::decimal::{digit_char, digit_of, format_decimal, read_unsigned};
use memospot::text::{
    after_last, chars_of, find_match, has_char, has_prefix, is_whitespace, joined, push_all,
    same_chars, slice_of, string_of, trimmed, with_replaced, without_leading, without_trailing,
};

fn v(s: &str) -> Vec<char> {
    s.chars().collect()
}

fn s(chars: &Vec<char>) -> String {
    chars.iter().collect()
}

#[test]
fn chars_round_trip() {
    let chars = chars_of("héllo");
    assert_eq!(chars.len(), 5);
    assert_eq!(string_of(&chars), "héllo");
    assert_eq!(string_of(&chars_of("")), "");
    assert_eq!(joined("ab", "cd"), "abcd");
}

#[test]
fn white_space_is_what_the_standard_library_says() {
    let mut c = 0u32;
    while c <= 0x10FFFF {
        if let Some(ch) = char::from_u32(c) {
            assert_eq!(is_whitespace(ch), ch.is_whitespace(), "U+{:04X}", c);
        }
        c += 1;
    }
}

#[test]
fn trimming_agrees_with_the_standard_library() {
    let samples = [
        "",
        " ",
        "a",
        "  a b  ",
        "\t\n x \r\n",
        "\u{a0}x\u{3000}",
        "\u{2003}  ",
        "x\u{200b}",
        "\u{feff}x",
        " ~/data ",
    ];
    for sample in samples {
        assert_eq!(s(&trimmed(&v(sample))), sample.trim(), "{:?}", sample);
    }
}

#[test]
fn stripping_agrees_with_the_standard_library() {
    let samples = ["", "/", "//", "a//", "http://x///", "a/b", "///a/"];
    for sample in samples {
        assert_eq!(
            s(&without_trailing(&v(sample), '/')),
            sample.trim_end_matches('/'),
            "{:?}",
            sample
        );
        assert_eq!(
            s(&without_leading(&v(sample), &v("/"))),
            sample.trim_start_matches('/'),
            "{:?}",
            sample
        );
    }
    let prefixed = ["", "ab", "abab", "ababa", "aab", "xab", "abx"];
    for sample in prefixed {
        assert_eq!(
            s(&without_leading(&v(sample), &v("ab"))),
            sample.trim_start_matches("ab"),
            "{:?}",
            sample
        );
    }
    assert_eq!(s(&without_leading(&v("abc"), &v(""))), "abc");
}

#[test]
fn replacing_and_searching() {
    assert_eq!(s(&with_replaced(&v("a-b-c"), '-', '_')), "a_b_c");
    assert_eq!(s(&with_replaced(&v(""), '-', '_')), "");
    assert!(has_char(&v("a/b"), '/'));
    assert!(!has_char(&v("ab"), '/'));
    assert!(has_prefix(&v("http://x"), &v("http")));
    assert!(has_prefix(&v("http"), &v("")));
    assert!(!has_prefix(&v("htt"), &v("http")));
    assert!(same_chars(&v("abc"), &v("abc")));
    assert!(!same_chars(&v("abc"), &v("abd")));
    assert!(!same_chars(&v("abc"), &v("ab")));
    assert_eq!(s(&slice_of(&v("abcdef"), 2, 4)), "cd");
    let mut dst = v("ab");
    push_all(&mut dst, &v("cd"));
    assert_eq!(s(&dst), "abcd");
    assert_eq!(find_match(&v("xxabxxab"), &v("ab"), 0), 2);
    assert_eq!(find_match(&v("xxabxxab"), &v("ab"), 3), 6);
    assert_eq!(find_match(&v("xxabxxab"), &v("zz"), 0), 8);
}

#[test]
fn last_piece_agrees_with_split() {
    let samples = [
        "",
        "/assets/",
        "a/assets/b",
        "a/assets/b/assets/c",
        "/assets/assets/",
        "/assets//assets/x",
        "no marker here",
    ];
    for sample in samples {
        let expected = sample.split("/assets/").collect::<Vec<&str>>().pop().unwrap();
        assert_eq!(s(&after_last(&v(sample), &v("/assets/"))), expected, "{:?}", sample);
    }
}

#[test]
fn decimal_notation() {
    assert_eq!(s(&format_decimal(0)), "0");
    assert_eq!(s(&format_decimal(9)), "9");
    assert_eq!(s(&format_decimal(10)), "10");
    assert_eq!(s(&format_decimal(65535)), "65535");
    assert_eq!(s(&format_decimal(u64::MAX)), "18446744073709551615");
    assert_eq!(digit_char(7), '7');
    assert_eq!(digit_of('7'), Some(7));
    assert_eq!(digit_of('a'), None);
    assert_eq!(digit_of('٣'), None);
}

#[test]
fn reading_numbers_agrees_with_the_standard_library() {
    let samples = [
        "", "0", "00", "007", "1", "+1", "++1", "-1", "+", "-", " 1", "1 ", "12a", "4294967295",
        "4294967296", "99999999999999999999999999", "+4294967295", "٣", "1_000", "0x10",
    ];
    for sample in samples {
        let expected = sample.parse::<u32>().ok().map(|n| n as u64);
        assert_eq!(read_unsigned(&v(sample), u32::MAX as u64), expected, "{:?}", sample);
    }
    assert_eq!(read_unsigned(&v("255"), 255), Some(255));
    assert_eq!(read_unsigned(&v("256"), 255), None);
    assert_eq!(read_unsigned(&v("18446744073709551615"), u64::MAX), Some(u64::MAX));
    assert_eq!(read_unsigned(&v("18446744073709551616"), u64::MAX), None);
    assert_eq!(read_unsigned(&v("184467440737095516150"), u64::MAX), None);
    assert_eq!(read_unsigned(&v("18446744073709551614"), u64::MAX - 1), Some(u64::MAX - 1));
    assert_eq!(read_unsigned(&v("18446744073709551615"), u64::MAX - 1), None);
    assert_eq!(read_unsigned(&v("0"), 0), Some(0));
    assert_eq!(read_unsigned(&v("1"), 0), None);
}
