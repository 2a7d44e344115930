use sharpie::text::{join, push_decimal, str_eq, u32_to_string};

#[test]
fn decimal_of_zero() {
    assert_eq!(u32_to_string(0), "0");
}

#[test]
fn decimal_of_single_digits() {
    for n in 0..10u32 {
        assert_eq!(u32_to_string(n), format!("{}", n));
    }
}

#[test]
fn decimal_of_round_numbers() {
    assert_eq!(u32_to_string(10), "10");
    assert_eq!(u32_to_string(100), "100");
    assert_eq!(u32_to_string(1_000_000), "1000000");
}

#[test]
fn decimal_of_largest_count() {
    assert_eq!(u32_to_string(u32::MAX), "4294967295");
}

#[test]
fn decimal_agrees_with_std_formatting() {
    let mut n: u32 = 1;
    for _ in 0..200 {
        assert_eq!(u32_to_string(n), n.to_string());
        n = n.wrapping_mul(2_654_435_761).wrapping_add(12_345);
    }
}

#[test]
fn push_decimal_appends() {
    let mut s = String::from("In ");
    push_decimal(&mut s, 42);
    assert_eq!(s, "In 42");
}

#[test]
fn str_eq_same_and_different() {
    assert!(str_eq("", ""));
    assert!(str_eq("17", "17"));
    assert!(!str_eq("17", "1"));
    assert!(!str_eq("1", "17"));
    assert!(!str_eq("1", "2"));
    assert!(!str_eq("", "0"));
}

#[test]
fn str_eq_beyond_ascii() {
    assert!(str_eq("fore ≥ aft", "fore ≥ aft"));
    assert!(!str_eq("fore ≥ aft", "fore > aft"));
}

#[test]
fn join_nothing_is_empty() {
    let parts: Vec<String> = Vec::new();
    assert_eq!(join(&parts, ", "), "");
}

#[test]
fn join_one_has_no_separator() {
    let parts = vec![String::from("flush deck")];
    assert_eq!(join(&parts, ", "), "flush deck");
}

#[test]
fn join_several() {
    let parts = vec![String::from("a"), String::from("b"), String::from("c")];
    assert_eq!(join(&parts, ", "), "a, b, c");
    assert_eq!(join(&parts, "\n"), "a\nb\nc");
    assert_eq!(join(&parts, ""), "abc");
}

#[test]
fn join_keeps_empty_parts() {
    let parts = vec![String::new(), String::from("b"), String::new()];
    assert_eq!(join(&parts, "-"), "-b-");
}
