use row_limit::text::{decimal, with_number};

#[test]
fn decimal_of_small_numbers() {
    for n in 0..=9usize {
        assert_eq!(decimal(n), n.to_string());
    }
}

#[test]
fn decimal_of_larger_numbers() {
    assert_eq!(decimal(10), "10");
    assert_eq!(decimal(100), "100");
    assert_eq!(decimal(1024), "1024");
    assert_eq!(decimal(908070), "908070");
    assert_eq!(decimal(usize::MAX), usize::MAX.to_string());
}

#[test]
fn number_after_a_head() {
    assert_eq!(with_number("limit=", 42), "limit=42");
    assert_eq!(with_number("", 0), "0");
}
