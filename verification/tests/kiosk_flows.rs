use vapour::keypad::PaymentRequest;
use vapour::kiosk::{
    card_step, start_step, CardAction, CardEvent, CardFlow, CardStage, Screen, StartAction,
    StartEvent, StartFlow, StartStage,
};

fn run_start(events: Vec<StartEvent>) -> (StartFlow, Vec<StartAction>) {
    let mut flow = StartFlow::new();
    let mut actions = Vec::new();
    for e in events {
        let (next, action) = start_step(flow, e);
        flow = next;
        actions.push(action);
    }
    (flow, actions)
}

fn run_card(events: Vec<CardEvent>) -> (CardFlow, Vec<CardAction>) {
    let mut flow = CardFlow::new(PaymentRequest { user: "S1".to_string(), amount: "2.50".to_string() });
    let mut actions = Vec::new();
    for e in events {
        let (next, action) = card_step(flow, e);
        flow = next;
        actions.push(action);
    }
    (flow, actions)
}

#[test]
fn screen_names() {
    assert_eq!(Screen::Startup.menu_name(), "startup");
    assert_eq!(Screen::TopUp.menu_name(), "topup");
    assert_eq!(Screen::CardInput.menu_name(), "card_input");
    assert_eq!(Screen::Accept.menu_name(), "accept");
    assert_eq!(Screen::Decline.menu_name(), "decline");
    assert_eq!(Screen::Cancelled.menu_name(), "cancelled");
}

#[test]
fn start_flow_for_a_new_student() {
    let (flow, actions) = run_start(vec![
        StartEvent::Begin,
        StartEvent::ScanSucceeded("S1".to_string()),
        StartEvent::GreetingFetched(Some("Hello, Ann!".to_string())),
        StartEvent::UserChecked(Ok(false)),
        StartEvent::UserCreateAttempted,
        StartEvent::BalanceFetched(Some("£0.00".to_string())),
    ]);
    assert_eq!(
        actions,
        vec![
            StartAction::ShowStartup { pause_secs: 3 },
            StartAction::RememberUserAndGreet("S1".to_string()),
            StartAction::CheckUser("S1".to_string()),
            StartAction::CreateUser("S1".to_string()),
            StartAction::FetchBalance("S1".to_string()),
            StartAction::ShowTopUp { balance: "£0.00".to_string(), hello: "Hello, Ann!".to_string() },
        ]
    );
    assert_eq!(flow.stage, StartStage::Finished);
}

#[test]
fn start_flow_fallbacks() {
    let (_, actions) = run_start(vec![
        StartEvent::Begin,
        StartEvent::ScanSucceeded("S2".to_string()),
        StartEvent::GreetingFetched(None),
        StartEvent::UserChecked(Ok(true)),
        StartEvent::BalanceFetched(None),
    ]);
    assert_eq!(
        actions[4],
        StartAction::ShowTopUp { balance: "£0.00".to_string(), hello: "Welcome!".to_string() }
    );
    assert_eq!(actions[3], StartAction::FetchBalance("S2".to_string()));
}

#[test]
fn start_flow_stops_on_failed_scan() {
    let (flow, actions) = run_start(vec![
        StartEvent::Begin,
        StartEvent::ScanFailed("no camera".to_string()),
        StartEvent::GreetingFetched(None),
        StartEvent::BalanceFetched(Some("£9.00".to_string())),
    ]);
    assert_eq!(actions[1], StartAction::ReportScanFailure("no camera".to_string()));
    assert_eq!(actions[2], StartAction::Wait);
    assert_eq!(actions[3], StartAction::Wait);
    assert_eq!(flow.stage, StartStage::Finished);
}

#[test]
fn start_flow_stops_on_database_error() {
    let (_, actions) = run_start(vec![
        StartEvent::Begin,
        StartEvent::ScanSucceeded("S3".to_string()),
        StartEvent::GreetingFetched(None),
        StartEvent::UserChecked(Err("timeout".to_string())),
        StartEvent::UserCreateAttempted,
    ]);
    assert_eq!(actions[3], StartAction::ReportDatabaseError("timeout".to_string()));
    assert_eq!(actions[4], StartAction::Wait);
}

#[test]
fn approved_payment_credits_the_sum() {
    let (flow, actions) = run_card(vec![
        CardEvent::Begin,
        CardEvent::CardApproved,
        CardEvent::CancelPressed,
        CardEvent::BalanceFetched(Some("£ 1.00 ".to_string())),
        CardEvent::TopUpComputed("£3.50".to_string()),
        CardEvent::BalanceSaved,
        CardEvent::PauseOver,
    ]);
    assert_eq!(
        actions,
        vec![
            CardAction::ReadCard { amount: "2.50".to_string() },
            CardAction::FetchBalance("S1".to_string()),
            CardAction::Wait,
            CardAction::ComputeTopUp { balance: "1.00".to_string(), amount: "2.50".to_string() },
            CardAction::SaveBalance { user: "S1".to_string(), balance: "£3.50".to_string() },
            CardAction::ShowOutcome { screen: Screen::Accept, shown: Some("£3.50".to_string()), pause_secs: 5 },
            CardAction::RestartStart,
        ]
    );
    assert_eq!(flow.stage, CardStage::Finished);
}

#[test]
fn missing_balance_counts_as_zero() {
    let (_, actions) = run_card(vec![CardEvent::Begin, CardEvent::CardApproved, CardEvent::BalanceFetched(None)]);
    assert_eq!(actions[2], CardAction::ComputeTopUp { balance: "0.00".to_string(), amount: "2.50".to_string() });
}

#[test]
fn refused_payment_saves_nothing() {
    let (flow, actions) = run_card(vec![
        CardEvent::Begin,
        CardEvent::CardRefused,
        CardEvent::TopUpComputed("£99.00".to_string()),
        CardEvent::BalanceSaved,
        CardEvent::PauseOver,
    ]);
    assert_eq!(actions[1], CardAction::ShowOutcome { screen: Screen::Decline, shown: None, pause_secs: 3 });
    assert_eq!(actions[2], CardAction::Wait);
    assert_eq!(actions[3], CardAction::Wait);
    assert_eq!(actions[4], CardAction::RestartStart);
    assert!(!actions.iter().any(|a| matches!(a, CardAction::SaveBalance { .. })));
    assert_eq!(flow.stage, CardStage::Finished);
}

#[test]
fn cancelled_payment_returns_to_start() {
    let (_, actions) = run_card(vec![
        CardEvent::Begin,
        CardEvent::CancelPressed,
        CardEvent::CardApproved,
        CardEvent::PauseOver,
        CardEvent::PauseOver,
    ]);
    assert_eq!(actions[1], CardAction::ShowOutcome { screen: Screen::Cancelled, shown: None, pause_secs: 2 });
    assert_eq!(actions[2], CardAction::Wait);
    assert_eq!(actions[3], CardAction::RestartStart);
    assert_eq!(actions[4], CardAction::Wait);
}

#[test]
fn a_payment_saves_at_most_once() {
    let (_, actions) = run_card(vec![
        CardEvent::Begin,
        CardEvent::CardApproved,
        CardEvent::BalanceFetched(Some("£1.00".to_string())),
        CardEvent::TopUpComputed("£3.50".to_string()),
        CardEvent::TopUpComputed("£6.00".to_string()),
        CardEvent::BalanceSaved,
        CardEvent::TopUpComputed("£8.50".to_string()),
        CardEvent::PauseOver,
    ]);
    let saves = actions.iter().filter(|a| matches!(a, CardAction::SaveBalance { .. })).count();
    assert_eq!(saves, 1);
}
