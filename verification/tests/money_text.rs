use vapour::money::{clean_amount, convert_money_to_float, decimal_part_text, remove_pound_sign_from_money};

#[test]
fn remove_pound_sign_from_money_strips_signs() {
    assert_eq!(remove_pound_sign_from_money("£12.50".to_string()), "12.50");
    assert_eq!(remove_pound_sign_from_money("12.50".to_string()), "12.50");
    assert_eq!(remove_pound_sign_from_money("££".to_string()), "");
}

#[test]
fn removing_signs_twice_is_removing_once() {
    let once = remove_pound_sign_from_money("£1£.5".to_string());
    assert!(!once.contains('£'));
    assert_eq!(remove_pound_sign_from_money(once.clone()), once);
    assert_eq!(clean_amount(&once), clean_amount("£1£.5"));
}

#[test]
fn clean_amount_removes_sign_and_trims() {
    assert_eq!(clean_amount(" £ 3.20 "), "3.20");
    assert_eq!(clean_amount("£0.00"), "0.00");
    assert_eq!(clean_amount(""), "");
    assert_eq!(clean_amount("abc"), "abc");
}

#[test]
fn decimal_part_text_reads_after_the_point() {
    assert_eq!(decimal_part_text("12.345"), Some("34534".to_string()));
    assert_eq!(decimal_part_text("12.5"), Some("5".to_string()));
    assert_eq!(decimal_part_text("12.50"), Some("50".to_string()));
    assert_eq!(decimal_part_text("12"), Some("12".to_string()));
    assert_eq!(decimal_part_text("1.2.3"), Some("2".to_string()));
    assert_eq!(decimal_part_text("7."), Some("".to_string()));
}

#[test]
fn decimal_part_text_fails_on_one_wide_character() {
    assert_eq!(decimal_part_text("1.€"), None);
    assert_eq!(decimal_part_text("1.£"), Some("£".to_string()));
}

#[test]
fn convert_money_to_float_does_nothing() {
    convert_money_to_float("£1.00".to_string());
}
