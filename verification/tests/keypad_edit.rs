use vapour::keypad::{append_key, append_key_by_first_char, delete_key, submit_amount, PaymentRequest};

#[test]
fn second_point_is_refused() {
    assert_eq!(append_key("1.2", "."), "1.2");
    assert_eq!(append_key("12", "."), "12.");
    assert_eq!(append_key("1.2", "5"), "1.25");
    assert_eq!(append_key("", "7"), "7");
}

#[test]
fn first_character_rule() {
    assert_eq!(append_key_by_first_char("1.", ".5"), "1.");
    assert_eq!(append_key_by_first_char("1", ".5"), "1.5");
    assert_eq!(append_key_by_first_char("1.", "5."), "1.5.");
    assert_eq!(append_key(".1", ".5"), ".1.5");
}

#[test]
fn typing_keeps_at_most_one_point() {
    let mut amount = String::new();
    for key in ["1", ".", "2", ".", "5", "."] {
        amount = append_key(&amount, key);
    }
    assert_eq!(amount, "1.25");
    assert_eq!(amount.matches('.').count(), 1);
}

#[test]
fn delete_undoes_an_accepted_key() {
    for (amount, key) in [("1.2", "5"), ("12", "."), ("", "9")] {
        let typed = append_key(amount, key);
        assert_ne!(typed, amount);
        assert_eq!(delete_key(&typed), amount);
    }
    assert_eq!(delete_key(""), "");
}

#[test]
fn submit_needs_amount_and_student() {
    assert_eq!(submit_amount("", Some("S1".to_string())), None);
    assert_eq!(submit_amount("5", None), None);
    assert_eq!(
        submit_amount(" £5 ", Some("S1".to_string())),
        Some(PaymentRequest { user: "S1".to_string(), amount: "5".to_string() })
    );
}

#[test]
fn delete_never_adds_a_point() {
    for amount in ["1.25", "12.", ".", "", "125"] {
        let after = delete_key(amount);
        assert!(after.matches('.').count() <= 1);
        assert!(after.matches('.').count() <= amount.matches('.').count());
    }
}
