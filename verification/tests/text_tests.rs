use systemd_webhook_notifier::text::{
    chars_of, format_i64, is_blank, lines, parse_i64, parse_u64, split_at_first_eq, IntErrorKind,
};

fn std_kind(e: &std::num::ParseIntError) -> IntErrorKind {
    match e.kind() {
        std::num::IntErrorKind::Empty => IntErrorKind::Empty,
        std::num::IntErrorKind::InvalidDigit => IntErrorKind::InvalidDigit,
        std::num::IntErrorKind::PosOverflow => IntErrorKind::PosOverflow,
        std::num::IntErrorKind::NegOverflow => IntErrorKind::NegOverflow,
        _ => panic!("unexpected kind"),
    }
}

const NUMBER_TEXTS: [&str; 22] = [
    "",
    "0",
    "123",
    "+5",
    "-5",
    "+",
    "-",
    "++1",
    "-0",
    " 1",
    "1 ",
    "[not set]",
    "infinity",
    "18446744073709551615",
    "18446744073709551616",
    "99999999999999999999x",
    "9223372036854775807",
    "9223372036854775808",
    "-9223372036854775808",
    "-9223372036854775809",
    "-99999999999999999999x",
    "00042",
];

#[test]
fn parse_u64_agrees_with_std() {
    for t in NUMBER_TEXTS {
        let ours = parse_u64(&chars_of(t));
        let theirs = t.parse::<u64>().map_err(|e| std_kind(&e));
        assert_eq!(ours, theirs, "text {:?}", t);
    }
}

#[test]
fn parse_i64_agrees_with_std() {
    for t in NUMBER_TEXTS {
        let ours = parse_i64(&chars_of(t));
        let theirs = t.parse::<i64>().map_err(|e| std_kind(&e));
        assert_eq!(ours, theirs, "text {:?}", t);
    }
}

#[test]
fn parse_errors_by_kind() {
    assert_eq!(parse_u64(&chars_of("")), Err(IntErrorKind::Empty));
    assert_eq!(parse_u64(&chars_of("-1")), Err(IntErrorKind::InvalidDigit));
    assert_eq!(parse_u64(&chars_of("18446744073709551616")), Err(IntErrorKind::PosOverflow));
    assert_eq!(parse_i64(&chars_of("-9223372036854775809")), Err(IntErrorKind::NegOverflow));
    assert_eq!(parse_u64(&chars_of("99999999999999999999x")), Err(IntErrorKind::PosOverflow));
    assert_eq!(parse_i64(&chars_of("-9223372036854775808")), Ok(i64::MIN));
}

#[test]
fn format_i64_agrees_with_std() {
    for n in [0i64, 1, 9, 10, -1, -10, 203, i64::MIN, i64::MAX, 1234567890] {
        assert_eq!(format_i64(n), n.to_string());
    }
}

#[test]
fn decimal_round_trip() {
    for n in [0i64, 7, -7, 100, -100, i64::MIN, i64::MAX] {
        assert_eq!(parse_i64(&chars_of(&format_i64(n))), Ok(n));
    }
    for n in [0u64, 42, u64::MAX] {
        assert_eq!(parse_u64(&chars_of(&n.to_string())), Ok(n));
    }
}

#[test]
fn lines_agree_with_std() {
    for t in ["", "\n", "a", "a\n", "a\nb", "a\r\nb\r\n", "a\rb", "x\r", "\n\n", "a\n\nb", "é\nü"] {
        let ours = lines(t);
        let theirs: Vec<String> = t.lines().map(|l| l.to_string()).collect();
        assert_eq!(ours, theirs, "text {:?}", t);
    }
}

#[test]
fn final_line_ending_adds_no_line() {
    assert_eq!(lines("a\nb"), lines("a\nb\n"));
    assert_eq!(lines("a\nb"), lines("a\nb\r\n"));
    assert_eq!(lines("a\nb"), vec!["a".to_string(), "b".to_string()]);
}

#[test]
fn lines_of_joined_texts() {
    let mut joined = lines("A=1\nB=2");
    joined.extend(lines("C=3\r\nD"));
    assert_eq!(lines("A=1\nB=2\nC=3\r\nD"), joined);
}

#[test]
fn split_at_first_eq_cases() {
    let (k, v) = split_at_first_eq(&chars_of("a=b=c")).unwrap();
    assert_eq!(k, chars_of("a"));
    assert_eq!(v, chars_of("b=c"));
    let (k, v) = split_at_first_eq(&chars_of("=x")).unwrap();
    assert_eq!(k, chars_of(""));
    assert_eq!(v, chars_of("x"));
    assert!(split_at_first_eq(&chars_of("abc")).is_none());
    let (k, v) = split_at_first_eq(&chars_of("KEY=")).unwrap();
    assert_eq!(k, chars_of("KEY"));
    assert_eq!(v, chars_of(""));
}

#[test]
fn is_blank_agrees_with_trim() {
    for t in ["", " ", "  \t\n", "\u{3000}\u{85}", " a ", "nginx", "\u{200B}"] {
        assert_eq!(is_blank(t), t.trim().is_empty(), "text {:?}", t);
    }
}
