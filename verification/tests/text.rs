use controlay::text::push_decimal;

#[test]
fn decimal_matches_format() {
    for n in [0i32, 1, 9, 10, 42, 99, 100, 12345, -1, -10, -128, i32::MAX, i32::MIN] {
        let mut s = String::from("x=");
        push_decimal(&mut s, n);
        assert_eq!(s, format!("x={}", n));
    }
}
