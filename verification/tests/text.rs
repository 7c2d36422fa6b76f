use oneos::text::{decimal, parse_u32, parse_usize, split_lines, split_words, trimmed};

fn chars_of(text: &str) -> Vec<char> {
    text.chars().collect()
}

fn strings(v: Vec<Vec<char>>) -> Vec<String> {
    v.into_iter().map(|cs| cs.into_iter().collect()).collect()
}

#[test]
fn trimming_follows_unicode_whitespace() {
    assert_eq!(trimmed("  host\n"), "host");
    assert_eq!(trimmed("\u{3000}x y\u{85}"), "x y");
    assert_eq!(trimmed(" \t "), "");
    assert_eq!(trimmed("\u{200b}x"), "\u{200b}x");
}

#[test]
fn lines_split_like_std() {
    for text in ["a\nb", "a\r\nb\n", "\n\nx", "a\rb\r", "", "\r\n", "x\n\n"] {
        let expected: Vec<String> = text.lines().map(|l| l.to_string()).collect();
        assert_eq!(strings(split_lines(&chars_of(text))), expected, "{text:?}");
    }
}

#[test]
fn words_split_like_std() {
    for text in ["  C 1 2\t3 ", "", "   ", "G", "a\u{a0}b c"] {
        let expected: Vec<String> = text.split_whitespace().map(|w| w.to_string()).collect();
        assert_eq!(strings(split_words(&chars_of(text))), expected, "{text:?}");
    }
}

#[test]
fn decimals_parse_like_std() {
    for text in ["0", "42", "+7", "+", "", "-1", "4294967295", "4294967296", " 1", "1a", "007"] {
        assert_eq!(parse_u32(text), text.parse::<u32>().ok(), "{text:?}");
        assert_eq!(parse_usize(text), text.parse::<usize>().ok(), "{text:?}");
    }
}

#[test]
fn decimals_print_like_std() {
    for n in [0u64, 9, 10, 12345, u64::MAX] {
        assert_eq!(decimal(n), n.to_string());
        assert_eq!(parse_usize(&decimal(n)), n.to_string().parse::<usize>().ok());
    }
}
