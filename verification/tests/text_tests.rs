use bzip2_benchmarks::text::{
    chars_of, decimal, join, parse_usize, push_signed_decimal, replace_all, same_text,
    starts_with, table_row,
};

#[test]
fn decimal_text() {
    assert_eq!(decimal(0), "0");
    assert_eq!(decimal(7), "7");
    assert_eq!(decimal(1234567890), "1234567890");
    assert_eq!(decimal(u64::MAX), u64::MAX.to_string());
    let mut s = String::from("x=");
    push_signed_decimal(&mut s, -42);
    assert_eq!(s, "x=-42");
    let mut m = String::new();
    push_signed_decimal(&mut m, i64::MIN);
    assert_eq!(m, i64::MIN.to_string());
}

#[test]
fn parse_like_from_str() {
    assert_eq!(parse_usize("5"), Some(5));
    assert_eq!(parse_usize("+17"), Some(17));
    assert_eq!(parse_usize("007"), Some(7));
    assert_eq!(parse_usize(""), None);
    assert_eq!(parse_usize("+"), None);
    assert_eq!(parse_usize("-3"), None);
    assert_eq!(parse_usize("12a"), None);
    assert_eq!(parse_usize(" 1"), None);
    assert_eq!(parse_usize(&usize::MAX.to_string()), Some(usize::MAX));
    assert_eq!(parse_usize("99999999999999999999999"), None);
    for s in ["0", "+0", "42", "-1", "x", "18446744073709551616", "4294967296"] {
        assert_eq!(parse_usize(s), s.parse::<usize>().ok(), "{}", s);
    }
    assert_eq!(parse_usize(&decimal(987654321)), Some(987654321));
}

#[test]
fn joining_and_rows() {
    let parts = vec!["a".to_string(), "bc".to_string(), "".to_string()];
    assert_eq!(join(&parts, "\n"), parts.join("\n"));
    assert_eq!(join(&Vec::new(), ", "), "");
    assert_eq!(table_row(&vec!["x".to_string(), "y".to_string()]), "| x | y |");
}

#[test]
fn replacing_and_comparing() {
    assert_eq!(replace_all("silesia_dickens", "silesia_", ""), "dickens");
    assert_eq!(replace_all("aaa", "aa", "b"), "aaa".replace("aa", "b"));
    assert_eq!(replace_all("a-b-c", "-", "+"), "a+b+c");
    assert_eq!(replace_all("ünï_ü", "ü", "u"), "ünï_ü".replace("ü", "u"));
    assert!(starts_with("--json", "--"));
    assert!(!starts_with("-", "--"));
    assert!(same_text("abc", "abc"));
    assert!(!same_text("abc", "abd"));
    assert_eq!(chars_of("héllo"), vec!['h', 'é', 'l', 'l', 'o']);
}
