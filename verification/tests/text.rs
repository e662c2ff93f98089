use feishu2acp::text::chars::{
    is_ascii_alphanumeric, is_control, is_white_space, to_chars, to_lower_char, to_text,
};
use feishu2acp::text::lines::{slice_lines, slice_words};
use feishu2acp::text::number::{decimal_text, parse_number, signed_decimal_text};
use feishu2acp::text::order::text_precedes;
use feishu2acp::text::search::{slice_ends_with_str, slice_find_str};
use feishu2acp::text::trim::trim_text;

fn all_chars() -> impl Iterator<Item = char> {
    (0..=0x10ffff_u32).filter_map(char::from_u32)
}

#[test]
fn classes_of_characters_are_those_of_the_language() {
    for c in all_chars() {
        assert_eq!(is_white_space(c), c.is_whitespace(), "{c:?}");
        assert_eq!(is_control(c), c.is_control(), "{c:?}");
        assert_eq!(is_ascii_alphanumeric(c), c.is_ascii_alphanumeric(), "{c:?}");
        assert_eq!(to_lower_char(c), c.to_ascii_lowercase(), "{c:?}");
    }
}

const TEXTS: [&str; 16] = [
    "", " ", "a", " a ", "a\nb", "a\r\nb\r\n", "\n", "\r", "a\rb\r", "\n\na\n\n", "a b  c\td",
    "\u{3000}分析 仓库\u{a0}", "<at x></at> y", "aab", "ab", "\u{85}x\u{2028}y",
];

#[test]
fn texts_are_trimmed_and_split_as_the_language_does() {
    for text in TEXTS {
        let chars = to_chars(text);
        assert_eq!(to_text(&chars), text);
        assert_eq!(trim_text(text), text.trim(), "{text:?}");
        let lines: Vec<String> = slice_lines(&chars).iter().map(|line| to_text(line)).collect();
        assert_eq!(lines, text.lines().collect::<Vec<_>>(), "{text:?}");
        assert_eq!(slice_words(&chars), text.split_whitespace().collect::<Vec<_>>(), "{text:?}");
    }
}

#[test]
fn texts_are_searched_and_ordered_as_the_language_does() {
    for text in TEXTS {
        for other in TEXTS {
            let chars = to_chars(text);
            let found = text.find(other).map(|at| text[..at].chars().count());
            assert_eq!(slice_find_str(&chars, other), found, "{text:?} {other:?}");
            assert_eq!(slice_ends_with_str(&chars, other), text.ends_with(other));
            assert_eq!(text_precedes(text, other), text < other, "{text:?} {other:?}");
        }
    }
}

#[test]
fn numbers_are_read_and_written_as_the_language_does() {
    for text in ["", "+", "-", "+0", "007", "12a", "a", "18446744073709551615", "18446744073709551616", "18446744073709551616x", "-1", " 1"] {
        let ours = parse_number(text, u64::MAX).map_err(|error| error.describe().to_string());
        let theirs = text.parse::<u64>().map_err(|error| error.to_string());
        assert_eq!(ours, theirs, "{text:?}");
    }
    for n in [0, 9, 10, 1024, u64::MAX] {
        assert_eq!(decimal_text(n), n.to_string());
    }
    for n in [0, -1, 10, i64::MAX, i64::MIN] {
        assert_eq!(signed_decimal_text(n), n.to_string());
    }
    assert!(parse_number("256", 255).is_err());
}
