use crustacean_states::text::{
    i64_to_string, join, parse_decimal, split_char, to_ascii_lowercase, trim, u64_to_string,
};

#[test]
fn numbers_render_and_read_back() {
    for n in [0u64, 7, 10, 255, 4294967295, u64::MAX] {
        assert_eq!(u64_to_string(n), n.to_string());
        assert_eq!(parse_decimal(&u64_to_string(n), u64::MAX), Some(n));
    }
    assert_eq!(parse_decimal("256", 255), None);
    assert_eq!(parse_decimal("+12", 255), Some(12));
    assert_eq!(parse_decimal("+", 255), None);
    assert_eq!(parse_decimal("", 255), None);
    assert_eq!(parse_decimal("1a", 255), None);
    for t in [0i64, -1, 42, i64::MIN, i64::MAX] {
        assert_eq!(i64_to_string(t), t.to_string());
    }
}

#[test]
fn split_and_join() {
    assert_eq!(split_char("a,b,,c", ','), vec!["a", "b", "", "c"]);
    assert_eq!(split_char("", ','), vec![""]);
    let parts = vec![String::from("x"), String::from("y")];
    assert_eq!(join(&parts, "+"), "x+y");
    assert_eq!(join(&Vec::new(), "+"), "");
}

#[test]
fn trim_and_lowercase() {
    assert_eq!(trim("  12 \t"), "12");
    assert_eq!(trim("\u{3000}x\u{a0}"), "x");
    assert_eq!(trim("   "), "");
    assert_eq!(trim(" a b "), " a b ".trim());
    assert_eq!(to_ascii_lowercase("AbC-Ä"), "abc-Ä");
}
