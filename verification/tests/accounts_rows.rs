use vapour::accounts::{
    balance_from_field, found_or_absent, initial_balance, user_presence, BalanceError, BalanceField,
    RowLookup, UserPresence,
};

#[test]
fn presence_from_lookup() {
    assert_eq!(user_presence(&RowLookup::Found), UserPresence::Present);
    assert_eq!(
        user_presence(&RowLookup::Failed(
            "{\"message\":\"Row not found\",\"code\":404,\"type\":\"row_not_found\"}".to_string()
        )),
        UserPresence::Absent
    );
    assert_eq!(
        user_presence(&RowLookup::Failed("{\"code\":500}".to_string())),
        UserPresence::Unknown
    );
    assert_eq!(user_presence(&RowLookup::Failed(String::new())), UserPresence::Unknown);
}

#[test]
fn lenient_presence() {
    assert!(found_or_absent(&RowLookup::Found));
    assert!(!found_or_absent(&RowLookup::Failed("{\"code\":500}".to_string())));
}

#[test]
fn balance_field_reading() {
    assert_eq!(balance_from_field(&BalanceField::Text("£4.20".to_string())), Ok("£4.20".to_string()));
    assert_eq!(balance_from_field(&BalanceField::Absent), Err(BalanceError::MissingOrInvalid));
    assert_eq!(balance_from_field(&BalanceField::NotText), Err(BalanceError::MissingOrInvalid));
    assert_eq!(BalanceError::MissingOrInvalid.message(), "Balance field missing or invalid format");
}

#[test]
fn new_accounts_start_at_zero() {
    assert_eq!(initial_balance(), "£0.00");
}
