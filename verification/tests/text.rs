use kiosk_desktop::number::{
    decimal_text, parse_number, push_zero_padded, NumberError,
};
use kiosk_desktop::text::{
    chars_of, contains, ends_with, is_in_order, is_whitespace, join_from, lower_chars, position,
    split_lines, split_whitespace, starts_with, str_eq, text_of, trim_text,
};

fn lines(s: &str) -> Vec<String> {
    split_lines(&chars_of(s))
}

fn words(s: &str) -> Vec<String> {
    split_whitespace(&chars_of(s))
}

#[test]
fn white_space_is_that_of_unicode() {
    for n in 0..=0x10FFFFu32 {
        if let Some(c) = char::from_u32(n) {
            assert_eq!(is_whitespace(c), c.is_whitespace(), "{:x}", n);
        }
    }
}

#[test]
fn characters_come_and_go() {
    for s in ["", "a", "häß", "🧾 print"] {
        assert_eq!(text_of(&chars_of(s)), s);
    }
}

#[test]
fn trimming_takes_white_space_from_both_ends() {
    for s in ["", "  ", "a", " a b \n", "\u{3000}x\u{a0}", "\t\r\n"] {
        assert_eq!(trim_text(s), s.trim());
        assert_eq!(trim_text(&trim_text(s)), s.trim());
    }
}

#[test]
fn words_are_separated_by_white_space() {
    for s in ["", "   ", "GET /health HTTP/1.1", "  a\tb\u{2003}c  "] {
        assert_eq!(words(s), s.split_whitespace().collect::<Vec<_>>());
    }
}

#[test]
fn lines_end_with_line_feeds() {
    for s in [
        "", "\n", "a", "a\n", "a\r\nb", "a\r", "a\n\nb\n", "\r\n\r\n", "a\r\r\nb\r", "x\ny\r\n",
    ] {
        assert_eq!(lines(s), s.lines().collect::<Vec<_>>(), "{:?}", s);
    }
}

#[test]
fn joining_puts_the_separator_between() {
    let list: Vec<String> = ["a", "b", "c"].iter().map(|s| s.to_string()).collect();
    assert_eq!(join_from(&list, 0, ", "), "a, b, c");
    assert_eq!(join_from(&list, 2, ", "), "c");
    assert_eq!(join_from(&list, 3, ", "), "");
}

#[test]
fn search_and_order_are_those_of_str() {
    let all = ["", "a", "ab", "b", "kiosk-desktop-1.jar", "Ä", "ab\u{10000}"];
    for a in all {
        for b in all {
            let (x, y) = (chars_of(a), chars_of(b));
            assert_eq!(contains(&x, &y), a.contains(b));
            assert_eq!(starts_with(&x, &y), a.starts_with(b));
            assert_eq!(ends_with(&x, &y), a.ends_with(b));
            assert_eq!(is_in_order(&x, &y), a <= b);
            assert_eq!(str_eq(a, b), a == b);
        }
    }
}

#[test]
fn only_ascii_letters_lose_their_case() {
    assert_eq!(text_of(&lower_chars(&chars_of("AbZ-Ä09"))), "abz-Ä09");
    assert_eq!(position(&chars_of("a:b:c"), ':'), 1);
    assert_eq!(position(&chars_of("abc"), ':'), 3);
}

#[test]
fn numbers_are_written_in_decimal() {
    assert_eq!(decimal_text(0), "0");
    assert_eq!(decimal_text(5050), "5050");
    assert_eq!(decimal_text(u128::MAX), u128::MAX.to_string());
    let mut s = String::from("x");
    push_zero_padded(&mut s, 7, 2);
    push_zero_padded(&mut s, 1234, 2);
    assert_eq!(s, "x071234");
}

#[test]
fn numbers_are_read_as_the_standard_library_reads_them() {
    let read = |s: &str| parse_number(&chars_of(s), u16::MAX as u64);
    assert_eq!(read(""), Err(NumberError::Empty));
    for s in ["+", "-", "-1", "1 ", "a", "1a", "++1", "٣"] {
        assert_eq!(read(s), Err(NumberError::InvalidDigit), "{:?}", s);
        assert!(s.parse::<u16>().is_err());
    }
    for s in ["65536", "99999999999999999999999"] {
        assert_eq!(read(s), Err(NumberError::TooLarge), "{:?}", s);
    }
    for s in ["0", "+7", "00012", "65535"] {
        assert_eq!(read(s).ok(), s.parse::<u16>().ok().map(u64::from));
    }
}

#[test]
fn what_is_written_is_read_back() {
    for n in [0u64, 1, 9, 10, 99, 100, 65535] {
        assert_eq!(parse_number(&chars_of(&decimal_text(n as u128)), u64::MAX), Ok(n));
    }
}
