use pyrocfl::number::{number_repr, number_str, push_signed_decimal};

#[test]
fn number_as_constructor_call() {
    assert_eq!(number_repr(5), "Number(5)");
    assert_eq!(number_repr(0), "Number(0)");
    assert_eq!(number_repr(-17), "Number(-17)");
    assert_eq!(number_repr(i32::MAX), "Number(2147483647)");
    assert_eq!(number_repr(i32::MIN), "Number(-2147483648)");
}

#[test]
fn number_as_plain_text() {
    assert_eq!(number_str(5), "5");
    assert_eq!(number_str(0), "0");
    assert_eq!(number_str(-1), "-1");
    assert_eq!(number_str(1000), "1000");
    assert_eq!(number_str(i32::MAX), i32::MAX.to_string());
    assert_eq!(number_str(i32::MIN), i32::MIN.to_string());
}

#[test]
fn signed_decimal_is_appended() {
    let mut out = String::from("x=");
    push_signed_decimal(&mut out, -305);
    assert_eq!(out, "x=-305");
}
