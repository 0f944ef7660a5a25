#[test]
fn tuple_test_test() {
    assert_eq!(true, true);
}
