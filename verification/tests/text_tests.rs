use functor::text::make_test_name;

#[test]
fn single_digit_labels() {
    assert_eq!(make_test_name(0), "Test 0");
    assert_eq!(make_test_name(3), "Test 3");
    assert_eq!(make_test_name(9), "Test 9");
}

#[test]
fn multi_digit_labels() {
    assert_eq!(make_test_name(10), "Test 10");
    assert_eq!(make_test_name(12), "Test 12");
    assert_eq!(make_test_name(120), "Test 120");
    assert_eq!(make_test_name(98765), "Test 98765");
}
