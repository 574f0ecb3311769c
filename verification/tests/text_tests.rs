use scan_engine::text::{
    chars_of, contains, decimal, find, is_whitespace, join, parse_decimal, split,
    split_whitespace, string_of, trim,
};

fn strings(parts: &Vec<Vec<char>>) -> Vec<String> {
    parts.iter().map(string_of).collect()
}

#[test]
fn words_are_runs_without_white_space() {
    let words = split_whitespace(&chars_of("  open tcp\t22  10.0.0.1 "));
    assert_eq!(strings(&words), vec!["open", "tcp", "22", "10.0.0.1"]);
}

#[test]
fn words_agree_with_std_on_unicode_spaces() {
    let text = "a\u{00a0}b\u{2003}c\u{3000}d\u{0085}e\u{200b}f";
    let ours = strings(&split_whitespace(&chars_of(text)));
    let std: Vec<String> = text.split_whitespace().map(|s| s.to_string()).collect();
    assert_eq!(ours, std);
}

#[test]
fn whitespace_agrees_with_std_on_every_char_below_0x3100() {
    let mut code: u32 = 0;
    while code < 0x3100 {
        if let Some(c) = char::from_u32(code) {
            assert_eq!(is_whitespace(c), c.is_whitespace(), "code {:x}", code);
        }
        code += 1;
    }
}

#[test]
fn blank_text_has_no_words() {
    assert_eq!(split_whitespace(&chars_of("")).len(), 0);
    assert_eq!(split_whitespace(&chars_of(" \t\n")).len(), 0);
}

#[test]
fn split_keeps_empty_pieces() {
    assert_eq!(strings(&split(&chars_of("a,,b,"), ',')), vec!["a", "", "b", ""]);
    assert_eq!(strings(&split(&chars_of(""), ',')), vec![""]);
    assert_eq!(strings(&split(&chars_of("abc"), ',')), vec!["abc"]);
}

#[test]
fn trim_removes_both_ends_only() {
    assert_eq!(string_of(&trim(&chars_of("  a b \n"))), "a b");
    assert_eq!(string_of(&trim(&chars_of("   "))), "");
    assert_eq!(string_of(&trim(&chars_of("x"))), "x");
}

#[test]
fn find_gives_first_occurrence() {
    assert_eq!(find(&chars_of("a rate: rate:"), &chars_of("rate:")), Some(2));
    assert_eq!(find(&chars_of("abc"), &chars_of("abcd")), None);
    assert_eq!(find(&chars_of("abc"), &chars_of("")), Some(0));
    assert_eq!(find(&chars_of(""), &chars_of("")), Some(0));
    assert!(contains(&chars_of("xx% done"), &chars_of("% done")));
    assert!(!contains(&chars_of("xx% don"), &chars_of("% done")));
}

#[test]
fn parse_decimal_follows_unsigned_parse() {
    for text in ["0", "22", "+22", "0022", "65535", "65536", "", "+", "-1", "1 ", " 1", "1_0", "99999999999999999999999"] {
        let ours = parse_decimal(&chars_of(text), 65535);
        let std = text.parse::<u16>().ok().map(|v| v as u64);
        assert_eq!(ours, std, "text {:?}", text);
    }
}

#[test]
fn decimal_writes_without_leading_zeros() {
    assert_eq!(string_of(&decimal(0)), "0");
    assert_eq!(string_of(&decimal(7)), "7");
    assert_eq!(string_of(&decimal(65535)), "65535");
    assert_eq!(string_of(&decimal(u128::MAX)), u128::MAX.to_string());
}

#[test]
fn join_puts_separator_between() {
    let parts = vec![chars_of("a"), chars_of("b"), chars_of("c")];
    assert_eq!(string_of(&join(&parts, &chars_of(", "))), "a, b, c");
    assert_eq!(string_of(&join(&Vec::new(), &chars_of(","))), "");
    assert_eq!(string_of(&join(&vec![chars_of("x")], &chars_of(","))), "x");
}

#[test]
fn chars_round_trip() {
    let text = "héllo wörld ✓";
    assert_eq!(string_of(&chars_of(text)), text);
}
