use steam_review_api::text::{decimal_text, push_decimal, signed_decimal_text, str_eq};

#[test]
fn str_eq_is_exact() {
    assert!(str_eq("", ""));
    assert!(str_eq("latam", "latam"));
    assert!(!str_eq("latam", "Latam"));
    assert!(!str_eq("latam", "lata"));
    assert!(!str_eq("lata", "latam"));
    assert!(!str_eq("latam", "latam "));
    assert!(!str_eq("", " "));
    assert!(str_eq("Ti\u{1ebf}ng Vi\u{1ec7}t", "Ti\u{1ebf}ng Vi\u{1ec7}t"));
    assert!(!str_eq("Ti\u{1ebf}ng", "Ti\u{1ec7}ng"));
    assert!(!str_eq("e\u{301}", "\u{e9}"));
}

#[test]
fn str_eq_agrees_with_the_operator() {
    let words = ["", "a", "A", "ab", "ba", "el el", "el", "??", "?", "\u{e9}", "e"];
    for a in words.iter() {
        for b in words.iter() {
            assert_eq!(str_eq(a, b), a == b);
        }
    }
}

#[test]
fn decimal_text_of_chosen_values() {
    assert_eq!(decimal_text(0), "0");
    assert_eq!(decimal_text(9), "9");
    assert_eq!(decimal_text(10), "10");
    assert_eq!(decimal_text(1234567890), "1234567890");
    assert_eq!(decimal_text(u64::MAX), "18446744073709551615");
}

#[test]
fn signed_decimal_text_of_chosen_values() {
    assert_eq!(signed_decimal_text(0), "0");
    assert_eq!(signed_decimal_text(-9), "-9");
    assert_eq!(signed_decimal_text(-10), "-10");
    assert_eq!(signed_decimal_text(305), "305");
    assert_eq!(signed_decimal_text(i64::MIN), "-9223372036854775808");
}

#[test]
fn push_decimal_appends() {
    let mut out = String::from("t=");
    push_decimal(60, &mut out);
    assert_eq!(out, "t=60");
    push_decimal(0, &mut out);
    assert_eq!(out, "t=600");
}
