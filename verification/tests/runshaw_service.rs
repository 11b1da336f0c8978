use vapour::runshaw::{
    account_exists_reply, account_exists_url, bearer_header, greeting_step, is_failed_name,
    login_email, name_from_reply, name_lookup_url, name_or_detail, GreetingAction, GreetingEvent,
    GreetingStage, NameReply,
};

#[test]
fn request_texts() {
    assert_eq!(account_exists_url("S1"), "https://runshaw-api.danieldb.uk/api/exists/S1");
    assert_eq!(name_lookup_url("S1"), "https://runshaw-api.danieldb.uk/api/name/get/S1");
    assert_eq!(login_email("123"), "123@student.runshaw.ac.uk");
    assert_eq!(bearer_header("tok"), "Bearer tok");
}

#[test]
fn account_reply_must_match_exactly() {
    assert!(account_exists_reply("{\"exists\":true}"));
    assert!(!account_exists_reply("{\"exists\":false}"));
    assert!(!account_exists_reply("{\"exists\": true}"));
    assert!(!account_exists_reply(""));
}

#[test]
fn names_from_replies() {
    let quoted = NameReply { name: "\"Ann Lee\"".to_string(), detail: None };
    assert_eq!(name_from_reply(&quoted), "Ann Lee");
    let null = NameReply { name: "null".to_string(), detail: None };
    assert_eq!(name_from_reply(&null), "null");
    let failed = NameReply { name: "\"Ann\"".to_string(), detail: Some("\"Not found\"".to_string()) };
    assert_eq!(name_from_reply(&failed), "FAIL!!!!!! RETRY!!!");
    assert_eq!(name_or_detail(&failed), "\"Not found\"");
    assert_eq!(name_or_detail(&quoted), "\"Ann Lee\"");
    assert!(is_failed_name("FAIL!!!!!! RETRY!!!"));
    assert!(!is_failed_name("Ann"));
}

#[test]
fn greeting_without_account() {
    let (stage, action) = greeting_step(GreetingStage::AwaitingAccount, GreetingEvent::AccountChecked(false));
    assert_eq!(stage, GreetingStage::Done);
    assert_eq!(action, GreetingAction::Finish("Hello!".to_string()));
}

#[test]
fn greeting_with_name() {
    let (stage, action) = greeting_step(GreetingStage::AwaitingAccount, GreetingEvent::AccountChecked(true));
    assert_eq!((stage, &action), (GreetingStage::AwaitingName, &GreetingAction::FetchName));
    let (stage, action) = greeting_step(stage, GreetingEvent::NameReceived("Ann".to_string()));
    assert_eq!(stage, GreetingStage::Done);
    assert_eq!(action, GreetingAction::Finish("Hello, Ann!".to_string()));
}

#[test]
fn greeting_retries_once() {
    let fail = || GreetingEvent::NameReceived("FAIL!!!!!! RETRY!!!".to_string());
    let (stage, action) = greeting_step(GreetingStage::AwaitingName, fail());
    assert_eq!((stage, action), (GreetingStage::AwaitingRetry, GreetingAction::FetchName));
    let (stage2, action2) = greeting_step(stage, GreetingEvent::NameReceived("Bo".to_string()));
    assert_eq!((stage2, action2), (GreetingStage::Done, GreetingAction::Finish("Hello, Bo!".to_string())));
    let (stage3, action3) = greeting_step(GreetingStage::AwaitingRetry, fail());
    assert_eq!((stage3, action3), (GreetingStage::Done, GreetingAction::Finish("Hello!".to_string())));
}

#[test]
fn greeting_asks_for_at_most_two_names() {
    let mut stage = GreetingStage::AwaitingAccount;
    let mut lookups = 0;
    let mut events = vec![GreetingEvent::AccountChecked(true)];
    for _ in 0..5 {
        events.push(GreetingEvent::NameReceived("FAIL!".to_string()));
    }
    for e in events {
        let (next, action) = greeting_step(stage, e);
        if action == GreetingAction::FetchName {
            lookups += 1;
        }
        stage = next;
    }
    assert_eq!(lookups, 2);
    assert_eq!(stage, GreetingStage::Done);
}

#[test]
fn greeting_ignores_events_out_of_turn() {
    let (stage, action) = greeting_step(GreetingStage::AwaitingAccount, GreetingEvent::NameReceived("Ann".to_string()));
    assert_eq!((stage, action), (GreetingStage::AwaitingAccount, GreetingAction::Wait));
    let (stage, action) = greeting_step(GreetingStage::Done, GreetingEvent::AccountChecked(true));
    assert_eq!((stage, action), (GreetingStage::Done, GreetingAction::Wait));
}
