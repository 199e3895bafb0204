use compile_bot::text::{decimal, file_name_of, mention, parse_u64, push_bold_line, str_equal};

#[test]
fn decimal_writes_numbers() {
    assert_eq!(decimal(0), "0");
    assert_eq!(decimal(7), "7");
    assert_eq!(decimal(10), "10");
    assert_eq!(decimal(1234567890), "1234567890");
    assert_eq!(decimal(u64::MAX), "18446744073709551615");
}

#[test]
fn parse_reads_plain_and_signed_digits() {
    assert_eq!(parse_u64("0"), Some(0));
    assert_eq!(parse_u64("42"), Some(42));
    assert_eq!(parse_u64("+42"), Some(42));
    assert_eq!(parse_u64("007"), Some(7));
    assert_eq!(parse_u64("18446744073709551615"), Some(u64::MAX));
}

#[test]
fn parse_refuses_what_std_refuses() {
    for s in ["", "+", "-", "-5", "12a", " 1", "1 ", "++1", "1.0", "18446744073709551616", "99999999999999999999"] {
        assert_eq!(parse_u64(s), s.parse::<u64>().ok(), "input {:?}", s);
        assert_eq!(parse_u64(s), None, "input {:?}", s);
    }
}

#[test]
fn parse_agrees_with_std_on_samples() {
    for s in ["1", "+0", "123456789012", "00000000000000000000000001", "١٢"] {
        assert_eq!(parse_u64(s), s.parse::<u64>().ok(), "input {:?}", s);
    }
}

#[test]
fn parse_reads_back_decimal() {
    for n in [0u64, 1, 9, 10, 99, 100, 81384788765712384, u64::MAX - 1, u64::MAX] {
        assert_eq!(parse_u64(&decimal(n)), Some(n));
    }
}

#[test]
fn file_names_join_ids_and_extension() {
    assert_eq!(file_name_of(12, 34, "rs"), "12-34.rs");
    assert_eq!(file_name_of(0, 0, "o"), "0-0.o");
}

#[test]
fn file_names_differ_for_swapped_ids() {
    assert_ne!(file_name_of(1, 23, "c"), file_name_of(12, 3, "c"));
    assert_ne!(file_name_of(5, 6, "c"), file_name_of(6, 5, "c"));
}

#[test]
fn mention_and_bold_line() {
    assert_eq!(mention(6), "<@6>");
    let mut s = String::from("Label: ");
    push_bold_line(&mut s, "x");
    assert_eq!(s, "Label: **x**\n");
}

#[test]
fn str_equal_compares_characters() {
    assert!(str_equal("rust", "rust"));
    assert!(!str_equal("rust", "rusty"));
    assert!(!str_equal("Rust", "rust"));
    assert!(str_equal("", ""));
    assert!(str_equal("żółw", "żółw"));
}
