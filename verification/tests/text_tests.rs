use grabber_sfu::text::{decimal_text, join2, join3, same_text, text};

#[test]
fn decimal_of_small_numbers() {
    assert_eq!(decimal_text(0), "0");
    assert_eq!(decimal_text(7), "7");
    assert_eq!(decimal_text(9), "9");
    assert_eq!(decimal_text(10), "10");
    assert_eq!(decimal_text(100), "100");
    assert_eq!(decimal_text(1234567890), "1234567890");
}

#[test]
fn decimal_of_the_largest_number() {
    assert_eq!(decimal_text(usize::MAX), usize::MAX.to_string());
}

#[test]
fn joining_and_comparing() {
    assert_eq!(text("abc"), "abc");
    assert_eq!(join2("ab", "cd"), "abcd");
    assert_eq!(join2("", ""), "");
    assert_eq!(join3("a", "-", "b"), "a-b");
    assert!(same_text("OFFER", "OFFER"));
    assert!(!same_text("OFFER", "OFFER_ANSWER"));
    assert!(!same_text("offer", "OFFER"));
}
