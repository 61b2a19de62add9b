use kleinhirn::text::{
    clone_optional, clone_pairs, clone_strings, decimal_string, join, signed_decimal_string,
};

#[test]
fn decimal_of_unsigned_numbers() {
    assert_eq!(decimal_string(0), "0");
    assert_eq!(decimal_string(7), "7");
    assert_eq!(decimal_string(9), "9");
    assert_eq!(decimal_string(10), "10");
    assert_eq!(decimal_string(1_001), "1001");
    assert_eq!(decimal_string(1234567890), "1234567890");
    assert_eq!(decimal_string(u64::MAX), "18446744073709551615");
    for n in 0..2_000u64 {
        assert_eq!(decimal_string(n), n.to_string());
    }
}

#[test]
fn decimal_of_signed_numbers() {
    assert_eq!(signed_decimal_string(0), "0");
    assert_eq!(signed_decimal_string(3), "3");
    assert_eq!(signed_decimal_string(-1), "-1");
    assert_eq!(signed_decimal_string(-120), "-120");
    assert_eq!(signed_decimal_string(i32::MAX), "2147483647");
    assert_eq!(signed_decimal_string(i32::MIN), "-2147483648");
}

#[test]
fn join_puts_the_separator_between() {
    let words = |list: &[&str]| -> Vec<String> { list.iter().map(|w| w.to_string()).collect() };
    assert_eq!(join(&words(&[]), " "), "");
    assert_eq!(join(&words(&["/bin/true"]), " "), "/bin/true");
    assert_eq!(join(&words(&["sleep", "10"]), " "), "sleep 10");
    assert_eq!(join(&words(&["a", "", "b"]), ", "), "a, , b");
    assert_eq!(join(&words(&["", ""]), "-"), "-");
}

#[test]
fn copies_are_equal() {
    let words = vec!["a".to_string(), "bc".to_string()];
    assert_eq!(clone_strings(&words), words);
    let entries = vec![("K".to_string(), "v".to_string()), ("L".to_string(), "".to_string())];
    assert_eq!(clone_pairs(&entries), entries);
    assert_eq!(clone_optional(&Some("x".to_string())), Some("x".to_string()));
    assert_eq!(clone_optional(&None), None);
}
