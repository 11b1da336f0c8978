//! The kiosk's screen flows as step functions: each takes the flow's state
//! and what just happened, and gives the next state and what to do next.
//! The program around the library performs each action (screen changes,
//! waits, network calls) and reports back the outcome as the next event.

use vstd::prelude::*;
use crate::accounts::initial_balance_spec;
use crate::keypad::PaymentRequest;
use crate::money::{clean_amount, clean_amount_spec, pound, remove_pound_sign_from_money};
use crate::text::{drop_char, drop_char_removes_all, trim};

verus! {

/// The screens of the kiosk.
#[derive(PartialEq, Eq, Structural, Clone, Copy, Debug)]
pub enum Screen {
    Startup,
    TopUp,
    CardInput,
    Accept,
    Decline,
    Cancelled,
}

/// The name under which the user interface knows a screen.
pub open spec fn screen_name(screen: Screen) -> Seq<char> {
    match screen {
        Screen::Startup => "startup"@,
        Screen::TopUp => "topup"@,
        Screen::CardInput => "card_input"@,
        Screen::Accept => "accept"@,
        Screen::Decline => "decline"@,
        Screen::Cancelled => "cancelled"@,
    }
}

impl Screen {
    /// The name under which the user interface knows this screen.
    pub fn menu_name(&self) -> (r: String)
        ensures
            r@ == screen_name(*self),
    {
        match self {
            Screen::Startup => String::from_str("startup"),
            Screen::TopUp => String::from_str("topup"),
            Screen::CardInput => String::from_str("card_input"),
            Screen::Accept => String::from_str("accept"),
            Screen::Decline => String::from_str("decline"),
            Screen::Cancelled => String::from_str("cancelled"),
        }
    }
}

/// The greeting shown when the college service cannot be reached.
pub open spec fn welcome() -> Seq<char> {
    "Welcome!"@
}

/// An optional text as a plain character sequence.
pub open spec fn text_of(o: Option<String>) -> Option<Seq<char>> {
    match o {
        Some(t) => Some(t@),
        None => None,
    }
}

/// The text held, or `default` when there is none.
pub open spec fn or_default(o: Option<Seq<char>>, default: Seq<char>) -> Seq<char> {
    match o {
        Some(t) => t,
        None => default,
    }
}

// ---------------------------------------------------------------------
// The start screen: scan a student card, greet, make sure the account
// exists, show the balance.
// ---------------------------------------------------------------------

/// Where the start flow stands.
#[derive(PartialEq, Eq, Structural, Clone, Copy, Debug)]
pub enum StartStage {
    Idle,
    Scanning,
    Greeting,
    CheckingUser,
    CreatingUser,
    LoadingBalance,
    Finished,
}

/// The start flow: its stage, the scanned student, and the greeting to show.
#[derive(Debug, PartialEq, Eq)]
pub struct StartFlow {
    pub stage: StartStage,
    pub user: String,
    pub hello: String,
}

/// [`StartFlow`] over plain character sequences.
pub ghost struct StartFlowView {
    pub stage: StartStage,
    pub user: Seq<char>,
    pub hello: Seq<char>,
}

impl View for StartFlow {
    type V = StartFlowView;

    open spec fn view(&self) -> StartFlowView {
        StartFlowView { stage: self.stage, user: self.user@, hello: self.hello@ }
    }
}

impl StartFlow {
    /// A start flow that has not begun.
    pub fn new() -> (r: StartFlow)
        ensures
            r@ == (StartFlowView {
                stage: StartStage::Idle,
                user: Seq::<char>::empty(),
                hello: Seq::<char>::empty(),
            }),
    {
        StartFlow { stage: StartStage::Idle, user: String::new(), hello: String::new() }
    }
}

/// What happened while the start screen was up.
#[derive(Debug, PartialEq, Eq)]
pub enum StartEvent {
    Begin,
    ScanSucceeded(String),
    ScanFailed(String),
    GreetingFetched(Option<String>),
    UserChecked(Result<bool, String>),
    UserCreateAttempted,
    BalanceFetched(Option<String>),
}

/// [`StartEvent`] over plain character sequences.
pub ghost enum StartEventView {
    Begin,
    ScanSucceeded(Seq<char>),
    ScanFailed(Seq<char>),
    GreetingFetched(Option<Seq<char>>),
    UserChecked(Result<bool, Seq<char>>),
    UserCreateAttempted,
    BalanceFetched(Option<Seq<char>>),
}

impl View for StartEvent {
    type V = StartEventView;

    open spec fn view(&self) -> StartEventView {
        match self {
            StartEvent::Begin => StartEventView::Begin,
            StartEvent::ScanSucceeded(id) => StartEventView::ScanSucceeded(id@),
            StartEvent::ScanFailed(e) => StartEventView::ScanFailed(e@),
            StartEvent::GreetingFetched(h) => StartEventView::GreetingFetched(text_of(*h)),
            StartEvent::UserChecked(r) => StartEventView::UserChecked(
                match r {
                    Ok(b) => Ok(*b),
                    Err(e) => Err(e@),
                },
            ),
            StartEvent::UserCreateAttempted => StartEventView::UserCreateAttempted,
            StartEvent::BalanceFetched(b) => StartEventView::BalanceFetched(text_of(*b)),
        }
    }
}

/// What the start flow asks for next.
#[derive(Debug, PartialEq, Eq)]
pub enum StartAction {
    /// Turn high contrast off, show the startup screen, wait this many
    /// seconds, then scan a card.
    ShowStartup { pause_secs: u64 },
    /// Report that the scan failed; the flow ends.
    ReportScanFailure(String),
    /// Remember the scanned student and fetch their greeting.
    RememberUserAndGreet(String),
    /// Look the student's account up.
    CheckUser(String),
    /// Create the student's account.
    CreateUser(String),
    /// Fetch the student's balance.
    FetchBalance(String),
    /// Report a database error; the flow ends.
    ReportDatabaseError(String),
    /// Show the top-up screen with this balance and greeting; the flow ends.
    ShowTopUp { balance: String, hello: String },
    /// Nothing to do.
    Wait,
}

/// [`StartAction`] over plain character sequences.
pub ghost enum StartActionView {
    ShowStartup { pause_secs: u64 },
    ReportScanFailure(Seq<char>),
    RememberUserAndGreet(Seq<char>),
    CheckUser(Seq<char>),
    CreateUser(Seq<char>),
    FetchBalance(Seq<char>),
    ReportDatabaseError(Seq<char>),
    ShowTopUp { balance: Seq<char>, hello: Seq<char> },
    Wait,
}

impl View for StartAction {
    type V = StartActionView;

    open spec fn view(&self) -> StartActionView {
        match self {
            StartAction::ShowStartup { pause_secs } => StartActionView::ShowStartup {
                pause_secs: *pause_secs,
            },
            StartAction::ReportScanFailure(e) => StartActionView::ReportScanFailure(e@),
            StartAction::RememberUserAndGreet(u) => StartActionView::RememberUserAndGreet(u@),
            StartAction::CheckUser(u) => StartActionView::CheckUser(u@),
            StartAction::CreateUser(u) => StartActionView::CreateUser(u@),
            StartAction::FetchBalance(u) => StartActionView::FetchBalance(u@),
            StartAction::ReportDatabaseError(e) => StartActionView::ReportDatabaseError(e@),
            StartAction::ShowTopUp { balance, hello } => StartActionView::ShowTopUp {
                balance: balance@,
                hello: hello@,
            },
            StartAction::Wait => StartActionView::Wait,
        }
    }
}

/// The start flow with another stage.
pub open spec fn start_at(f: StartFlowView, stage: StartStage) -> StartFlowView {
    StartFlowView { stage, user: f.user, hello: f.hello }
}

/// One step of the start flow. The startup screen is shown for three
/// seconds before the scan; a failed scan ends the flow; a scanned student
/// is greeted (with "Welcome!" when no greeting can be had), has an account
/// created when the lookup says there is none, and then sees the top-up
/// screen with their balance ("£0.00" when it cannot be read); a database
/// error on the lookup ends the flow. Events that do not fit the stage
/// change nothing.
pub open spec fn start_next(f: StartFlowView, e: StartEventView) -> (StartFlowView, StartActionView) {
    match (f.stage, e) {
        (StartStage::Idle, StartEventView::Begin) => (
            start_at(f, StartStage::Scanning),
            StartActionView::ShowStartup { pause_secs: 3 },
        ),
        (StartStage::Scanning, StartEventView::ScanFailed(err)) => (
            start_at(f, StartStage::Finished),
            StartActionView::ReportScanFailure(err),
        ),
        (StartStage::Scanning, StartEventView::ScanSucceeded(id)) => (
            StartFlowView { stage: StartStage::Greeting, user: id, hello: f.hello },
            StartActionView::RememberUserAndGreet(id),
        ),
        (StartStage::Greeting, StartEventView::GreetingFetched(h)) => (
            StartFlowView {
                stage: StartStage::CheckingUser,
                user: f.user,
                hello: or_default(h, welcome()),
            },
            StartActionView::CheckUser(f.user),
        ),
        (StartStage::CheckingUser, StartEventView::UserChecked(Ok(true))) => (
            start_at(f, StartStage::LoadingBalance),
            StartActionView::FetchBalance(f.user),
        ),
        (StartStage::CheckingUser, StartEventView::UserChecked(Ok(false))) => (
            start_at(f, StartStage::CreatingUser),
            StartActionView::CreateUser(f.user),
        ),
        (StartStage::CheckingUser, StartEventView::UserChecked(Err(err))) => (
            start_at(f, StartStage::Finished),
            StartActionView::ReportDatabaseError(err),
        ),
        (StartStage::CreatingUser, StartEventView::UserCreateAttempted) => (
            start_at(f, StartStage::LoadingBalance),
            StartActionView::FetchBalance(f.user),
        ),
        (StartStage::LoadingBalance, StartEventView::BalanceFetched(b)) => (
            start_at(f, StartStage::Finished),
            StartActionView::ShowTopUp {
                balance: or_default(b, initial_balance_spec()),
                hello: f.hello,
            },
        ),
        _ => (f, StartActionView::Wait),
    }
}

/// Takes one step of the start flow (see [`start_next`]).
pub fn start_step(flow: StartFlow, event: StartEvent) -> (r: (StartFlow, StartAction))
    ensures
        (r.0@, r.1@) == start_next(flow@, event@),
{
    let StartFlow { stage, user, hello } = flow;
    match (stage, event) {
        (StartStage::Idle, StartEvent::Begin) => (
            StartFlow { stage: StartStage::Scanning, user, hello },
            StartAction::ShowStartup { pause_secs: 3 },
        ),
        (StartStage::Scanning, StartEvent::ScanFailed(err)) => (
            StartFlow { stage: StartStage::Finished, user, hello },
            StartAction::ReportScanFailure(err),
        ),
        (StartStage::Scanning, StartEvent::ScanSucceeded(id)) => {
            let remembered = id.clone();
            (
                StartFlow { stage: StartStage::Greeting, user: id, hello },
                StartAction::RememberUserAndGreet(remembered),
            )
        },
        (StartStage::Greeting, StartEvent::GreetingFetched(h)) => {
            let text = match h {
                Some(t) => t,
                None => String::from_str("Welcome!"),
            };
            let asked = user.clone();
            (
                StartFlow { stage: StartStage::CheckingUser, user, hello: text },
                StartAction::CheckUser(asked),
            )
        },
        (StartStage::CheckingUser, StartEvent::UserChecked(Ok(exists))) => {
            let asked = user.clone();
            if exists {
                (
                    StartFlow { stage: StartStage::LoadingBalance, user, hello },
                    StartAction::FetchBalance(asked),
                )
            } else {
                (
                    StartFlow { stage: StartStage::CreatingUser, user, hello },
                    StartAction::CreateUser(asked),
                )
            }
        },
        (StartStage::CheckingUser, StartEvent::UserChecked(Err(err))) => (
            StartFlow { stage: StartStage::Finished, user, hello },
            StartAction::ReportDatabaseError(err),
        ),
        (StartStage::CreatingUser, StartEvent::UserCreateAttempted) => {
            let asked = user.clone();
            (
                StartFlow { stage: StartStage::LoadingBalance, user, hello },
                StartAction::FetchBalance(asked),
            )
        },
        (StartStage::LoadingBalance, StartEvent::BalanceFetched(b)) => {
            let balance = match b {
                Some(t) => t,
                None => String::from_str("£0.00"),
            };
            let shown = hello.clone();
            (
                StartFlow { stage: StartStage::Finished, user, hello },
                StartAction::ShowTopUp { balance, hello: shown },
            )
        },
        (stage, _) => (StartFlow { stage, user, hello }, StartAction::Wait),
    }
}


// ---------------------------------------------------------------------
// A card payment: read the card, and on approval add the amount to the
// student's balance; every outcome returns to the start screen.
// ---------------------------------------------------------------------

/// Where a card payment stands.
#[derive(PartialEq, Eq, Structural, Clone, Copy, Debug)]
pub enum CardStage {
    Idle,
    Reading,
    LoadingBalance,
    Computing,
    Saving,
    Accepted,
    Declined,
    Cancelled,
    Finished,
}

/// A card payment: its stage, the student, the cleaned amount, and the new
/// balance once it is known.
#[derive(Debug, PartialEq, Eq)]
pub struct CardFlow {
    pub stage: CardStage,
    pub user: String,
    pub amount: String,
    pub new_balance: String,
}

/// [`CardFlow`] over plain character sequences.
pub ghost struct CardFlowView {
    pub stage: CardStage,
    pub user: Seq<char>,
    pub amount: Seq<char>,
    pub new_balance: Seq<char>,
}

impl View for CardFlow {
    type V = CardFlowView;

    open spec fn view(&self) -> CardFlowView {
        CardFlowView {
            stage: self.stage,
            user: self.user@,
            amount: self.amount@,
            new_balance: self.new_balance@,
        }
    }
}

impl CardFlow {
    /// A card payment that has not begun.
    pub fn new(payment: PaymentRequest) -> (r: CardFlow)
        ensures
            r@ == (CardFlowView {
                stage: CardStage::Idle,
                user: payment.user@,
                amount: payment.amount@,
                new_balance: Seq::<char>::empty(),
            }),
    {
        CardFlow {
            stage: CardStage::Idle,
            user: payment.user,
            amount: payment.amount,
            new_balance: String::new(),
        }
    }
}

/// What happened during a card payment.
#[derive(Debug, PartialEq, Eq)]
pub enum CardEvent {
    Begin,
    /// The card reader approved the payment.
    CardApproved,
    /// The card reader refused the payment or failed.
    CardRefused,
    /// The student pressed cancel.
    CancelPressed,
    BalanceFetched(Option<String>),
    TopUpComputed(String),
    BalanceSaved,
    /// The outcome screen has been shown for its time.
    PauseOver,
}

/// [`CardEvent`] over plain character sequences.
pub ghost enum CardEventView {
    Begin,
    CardApproved,
    CardRefused,
    CancelPressed,
    BalanceFetched(Option<Seq<char>>),
    TopUpComputed(Seq<char>),
    BalanceSaved,
    PauseOver,
}

impl View for CardEvent {
    type V = CardEventView;

    open spec fn view(&self) -> CardEventView {
        match self {
            CardEvent::Begin => CardEventView::Begin,
            CardEvent::CardApproved => CardEventView::CardApproved,
            CardEvent::CardRefused => CardEventView::CardRefused,
            CardEvent::CancelPressed => CardEventView::CancelPressed,
            CardEvent::BalanceFetched(b) => CardEventView::BalanceFetched(text_of(*b)),
            CardEvent::TopUpComputed(t) => CardEventView::TopUpComputed(t@),
            CardEvent::BalanceSaved => CardEventView::BalanceSaved,
            CardEvent::PauseOver => CardEventView::PauseOver,
        }
    }
}

/// What a card payment asks for next.
#[derive(Debug, PartialEq, Eq)]
pub enum CardAction {
    /// Show the card screen and start reading a card for this amount, while
    /// listening for cancel.
    ReadCard { amount: String },
    /// Fetch the student's balance.
    FetchBalance(String),
    /// Add the amount to the balance (both cleaned for the number parser)
    /// and write the sum as money.
    ComputeTopUp { balance: String, amount: String },
    /// Store the new balance for the student.
    SaveBalance { user: String, balance: String },
    /// Show an outcome screen (with the new balance when there is one) for
    /// this many seconds.
    ShowOutcome { screen: Screen, shown: Option<String>, pause_secs: u64 },
    /// Go back to the start screen, which scans the next card.
    RestartStart,
    /// Nothing to do.
    Wait,
}

/// [`CardAction`] over plain character sequences.
pub ghost enum CardActionView {
    ReadCard { amount: Seq<char> },
    FetchBalance(Seq<char>),
    ComputeTopUp { balance: Seq<char>, amount: Seq<char> },
    SaveBalance { user: Seq<char>, balance: Seq<char> },
    ShowOutcome { screen: Screen, shown: Option<Seq<char>>, pause_secs: u64 },
    RestartStart,
    Wait,
}

impl View for CardAction {
    type V = CardActionView;

    open spec fn view(&self) -> CardActionView {
        match self {
            CardAction::ReadCard { amount } => CardActionView::ReadCard { amount: amount@ },
            CardAction::FetchBalance(u) => CardActionView::FetchBalance(u@),
            CardAction::ComputeTopUp { balance, amount } => CardActionView::ComputeTopUp {
                balance: balance@,
                amount: amount@,
            },
            CardAction::SaveBalance { user, balance } => CardActionView::SaveBalance {
                user: user@,
                balance: balance@,
            },
            CardAction::ShowOutcome { screen, shown, pause_secs } => CardActionView::ShowOutcome {
                screen: *screen,
                shown: text_of(*shown),
                pause_secs: *pause_secs,
            },
            CardAction::RestartStart => CardActionView::RestartStart,
            CardAction::Wait => CardActionView::Wait,
        }
    }
}

/// The card payment with another stage.
pub open spec fn card_at(f: CardFlowView, stage: CardStage) -> CardFlowView {
    CardFlowView { stage, user: f.user, amount: f.amount, new_balance: f.new_balance }
}

/// One step of a card payment. The card is read while cancel is listened
/// for; the first of the two to happen decides. On approval the balance is
/// fetched ("£0.00" when it cannot be read), the amount added to it, the
/// sum stored and shown on the accept screen for five seconds. A refusal
/// shows the decline screen for three seconds, a cancel the cancelled
/// screen for two. After the outcome screen the kiosk returns to the start
/// screen. Events that do not fit the stage change nothing.
pub open spec fn card_next(f: CardFlowView, e: CardEventView) -> (CardFlowView, CardActionView) {
    match (f.stage, e) {
        (CardStage::Idle, CardEventView::Begin) => (
            card_at(f, CardStage::Reading),
            CardActionView::ReadCard { amount: f.amount },
        ),
        (CardStage::Reading, CardEventView::CardApproved) => (
            card_at(f, CardStage::LoadingBalance),
            CardActionView::FetchBalance(f.user),
        ),
        (CardStage::Reading, CardEventView::CardRefused) => (
            card_at(f, CardStage::Declined),
            CardActionView::ShowOutcome { screen: Screen::Decline, shown: None, pause_secs: 3 },
        ),
        (CardStage::Reading, CardEventView::CancelPressed) => (
            card_at(f, CardStage::Cancelled),
            CardActionView::ShowOutcome { screen: Screen::Cancelled, shown: None, pause_secs: 2 },
        ),
        (CardStage::LoadingBalance, CardEventView::BalanceFetched(b)) => (
            card_at(f, CardStage::Computing),
            CardActionView::ComputeTopUp {
                balance: clean_amount_spec(drop_char(or_default(b, initial_balance_spec()), pound())),
                amount: f.amount,
            },
        ),
        (CardStage::Computing, CardEventView::TopUpComputed(sum)) => (
            CardFlowView { stage: CardStage::Saving, user: f.user, amount: f.amount, new_balance: sum },
            CardActionView::SaveBalance { user: f.user, balance: sum },
        ),
        (CardStage::Saving, CardEventView::BalanceSaved) => (
            card_at(f, CardStage::Accepted),
            CardActionView::ShowOutcome {
                screen: Screen::Accept,
                shown: Some(f.new_balance),
                pause_secs: 5,
            },
        ),
        (CardStage::Accepted, CardEventView::PauseOver) => (
            card_at(f, CardStage::Finished),
            CardActionView::RestartStart,
        ),
        (CardStage::Declined, CardEventView::PauseOver) => (
            card_at(f, CardStage::Finished),
            CardActionView::RestartStart,
        ),
        (CardStage::Cancelled, CardEventView::PauseOver) => (
            card_at(f, CardStage::Finished),
            CardActionView::RestartStart,
        ),
        _ => (f, CardActionView::Wait),
    }
}

/// Takes one step of a card payment (see [`card_next`]).
pub fn card_step(flow: CardFlow, event: CardEvent) -> (r: (CardFlow, CardAction))
    ensures
        (r.0@, r.1@) == card_next(flow@, event@),
{
    let CardFlow { stage, user, amount, new_balance } = flow;
    match (stage, event) {
        (CardStage::Idle, CardEvent::Begin) => {
            let shown = amount.clone();
            (
                CardFlow { stage: CardStage::Reading, user, amount, new_balance },
                CardAction::ReadCard { amount: shown },
            )
        },
        (CardStage::Reading, CardEvent::CardApproved) => {
            let asked = user.clone();
            (
                CardFlow { stage: CardStage::LoadingBalance, user, amount, new_balance },
                CardAction::FetchBalance(asked),
            )
        },
        (CardStage::Reading, CardEvent::CardRefused) => (
            CardFlow { stage: CardStage::Declined, user, amount, new_balance },
            CardAction::ShowOutcome { screen: Screen::Decline, shown: None, pause_secs: 3 },
        ),
        (CardStage::Reading, CardEvent::CancelPressed) => (
            CardFlow { stage: CardStage::Cancelled, user, amount, new_balance },
            CardAction::ShowOutcome { screen: Screen::Cancelled, shown: None, pause_secs: 2 },
        ),
        (CardStage::LoadingBalance, CardEvent::BalanceFetched(b)) => {
            let current = match b {
                Some(t) => t,
                None => String::from_str("£0.00"),
            };
            let unsigned = remove_pound_sign_from_money(current);
            let cleaned = clean_amount(unsigned.as_str());
            let added = amount.clone();
            (
                CardFlow { stage: CardStage::Computing, user, amount, new_balance },
                CardAction::ComputeTopUp { balance: cleaned, amount: added },
            )
        },
        (CardStage::Computing, CardEvent::TopUpComputed(sum)) => {
            let stored = sum.clone();
            let who = user.clone();
            (
                CardFlow { stage: CardStage::Saving, user, amount, new_balance: sum },
                CardAction::SaveBalance { user: who, balance: stored },
            )
        },
        (CardStage::Saving, CardEvent::BalanceSaved) => {
            let shown = new_balance.clone();
            (
                CardFlow { stage: CardStage::Accepted, user, amount, new_balance },
                CardAction::ShowOutcome {
                    screen: Screen::Accept,
                    shown: Some(shown),
                    pause_secs: 5,
                },
            )
        },
        (CardStage::Accepted, CardEvent::PauseOver) | (CardStage::Declined, CardEvent::PauseOver)
        | (CardStage::Cancelled, CardEvent::PauseOver) => (
            CardFlow { stage: CardStage::Finished, user, amount, new_balance },
            CardAction::RestartStart,
        ),
        (stage, _) => (CardFlow { stage, user, amount, new_balance }, CardAction::Wait),
    }
}


// ---------------------------------------------------------------------
// Properties of the flows.
// ---------------------------------------------------------------------

/// The actions that a sequence of events draws from the start flow.
pub open spec fn start_actions(f: StartFlowView, events: Seq<StartEventView>) -> Seq<
    StartActionView,
>
    decreases events.len(),
{
    if events.len() == 0 {
        Seq::empty()
    } else {
        let (next, action) = start_next(f, events[0]);
        seq![action] + start_actions(next, events.drop_first())
    }
}

/// The actions that a sequence of events draws from a card payment.
pub open spec fn card_actions(f: CardFlowView, events: Seq<CardEventView>) -> Seq<CardActionView>
    decreases events.len(),
{
    if events.len() == 0 {
        Seq::empty()
    } else {
        let (next, action) = card_next(f, events[0]);
        seq![action] + card_actions(next, events.drop_first())
    }
}

proof fn start_actions_len(f: StartFlowView, events: Seq<StartEventView>)
    ensures
        start_actions(f, events).len() == events.len(),
    decreases events.len(),
{
    if events.len() > 0 {
        start_actions_len(start_next(f, events[0]).0, events.drop_first());
    }
}

proof fn card_actions_len(f: CardFlowView, events: Seq<CardEventView>)
    ensures
        card_actions(f, events).len() == events.len(),
    decreases events.len(),
{
    if events.len() > 0 {
        card_actions_len(card_next(f, events[0]).0, events.drop_first());
    }
}

/// A finished start flow does nothing more, whatever happens.
pub proof fn finished_start_flow_stays_idle(f: StartFlowView, events: Seq<StartEventView>)
    requires
        f.stage == StartStage::Finished,
    ensures
        forall|i: int|
            0 <= i < events.len() ==> #[trigger] start_actions(f, events)[i]
                == StartActionView::Wait,
    decreases events.len(),
{
    if events.len() > 0 {
        let rest = events.drop_first();
        finished_start_flow_stays_idle(f, rest);
        start_actions_len(f, rest);
        let all = start_actions(f, events);
        assert(all =~= seq![StartActionView::Wait] + start_actions(f, rest));
        assert forall|i: int| 0 <= i < events.len() implies #[trigger] all[i]
            == StartActionView::Wait by {
            if i > 0 {
                assert(all[i] == start_actions(f, rest)[i - 1]);
            }
        }
    }
}

/// A failed scan or a database error on the account lookup ends the start
/// flow: no account is touched and no top-up screen is shown afterwards.
pub proof fn start_failure_stops(f: StartFlowView, e: StartEventView, later: Seq<StartEventView>)
    requires
        (f.stage == StartStage::Scanning && e is ScanFailed) || (f.stage == StartStage::CheckingUser
            && e matches StartEventView::UserChecked(Err(_))),
    ensures
        start_next(f, e).0.stage == StartStage::Finished,
        forall|i: int|
            0 <= i < later.len() ==> #[trigger] start_actions(start_next(f, e).0, later)[i]
                == StartActionView::Wait,
{
    finished_start_flow_stays_idle(start_next(f, e).0, later);
}

/// Once a card is scanned the flow keeps that student: every account
/// action names the student the flow holds, and only a scan changes it.
pub proof fn start_flow_keeps_scanned_student(f: StartFlowView, e: StartEventView)
    ensures
        !(f.stage == StartStage::Scanning && e is ScanSucceeded) ==> start_next(f, e).0.user
            == f.user,
        f.stage == StartStage::Scanning ==> (e matches StartEventView::ScanSucceeded(id)
            ==> start_next(f, e).0.user == id),
        start_next(f, e).1 matches StartActionView::CheckUser(u) ==> u == f.user,
        start_next(f, e).1 matches StartActionView::CreateUser(u) ==> u == f.user,
        start_next(f, e).1 matches StartActionView::FetchBalance(u) ==> u == f.user,
{
}

/// A finished card payment does nothing more, whatever happens.
pub proof fn finished_card_flow_stays_idle(f: CardFlowView, events: Seq<CardEventView>)
    requires
        f.stage == CardStage::Finished,
    ensures
        forall|i: int|
            0 <= i < events.len() ==> #[trigger] card_actions(f, events)[i] == CardActionView::Wait,
    decreases events.len(),
{
    if events.len() > 0 {
        let rest = events.drop_first();
        finished_card_flow_stays_idle(f, rest);
        card_actions_len(f, rest);
        let all = card_actions(f, events);
        assert(all =~= seq![CardActionView::Wait] + card_actions(f, rest));
        assert forall|i: int| 0 <= i < events.len() implies #[trigger] all[i]
            == CardActionView::Wait by {
            if i > 0 {
                assert(all[i] == card_actions(f, rest)[i - 1]);
            }
        }
    }
}

/// The stages reached only through an approved card read.
pub open spec fn after_approval(stage: CardStage) -> bool {
    stage == CardStage::LoadingBalance || stage == CardStage::Computing || stage
        == CardStage::Saving || stage == CardStage::Accepted
}

proof fn saves_need_approval(f: CardFlowView, events: Seq<CardEventView>)
    ensures
        forall|i: int|
            0 <= i < events.len() && #[trigger] card_actions(f, events)[i] is SaveBalance ==> after_approval(
                f.stage,
            ) || exists|j: int| 0 <= j < i && events[j] is CardApproved,
    decreases events.len(),
{
    if events.len() > 0 {
        let (next, action) = card_next(f, events[0]);
        let rest = events.drop_first();
        saves_need_approval(next, rest);
        card_actions_len(next, rest);
        let all = card_actions(f, events);
        assert(all =~= seq![action] + card_actions(next, rest));
        assert forall|i: int|
            0 <= i < events.len() && #[trigger] all[i] is SaveBalance implies after_approval(f.stage)
                || exists|j: int| 0 <= j < i && events[j] is CardApproved by {
            if i > 0 {
                assert(all[i] == card_actions(next, rest)[i - 1]);
                if after_approval(next.stage) {
                    if !after_approval(f.stage) {
                        assert(events[0] is CardApproved);
                    }
                } else {
                    let j = choose|j: int| 0 <= j < i - 1 && rest[j] is CardApproved;
                    assert(events[j + 1] is CardApproved);
                }
            }
        }
    }
}

/// Money is only credited for an approved card: in any payment, a new
/// balance is stored only after the card reader approved the payment.
pub proof fn balance_saved_only_after_approval(f: CardFlowView, events: Seq<CardEventView>)
    requires
        f.stage == CardStage::Idle,
    ensures
        forall|i: int|
            0 <= i < events.len() && #[trigger] card_actions(f, events)[i] is SaveBalance
                ==> exists|j: int| 0 <= j < i && events[j] is CardApproved,
{
    saves_need_approval(f, events);
}

/// How many balance saves a list of actions holds.
pub open spec fn save_count(actions: Seq<CardActionView>) -> nat
    decreases actions.len(),
{
    if actions.len() == 0 {
        0
    } else {
        (if actions[0] is SaveBalance { 1nat } else { 0nat }) + save_count(actions.drop_first())
    }
}

/// How many balance saves a payment can still make from a stage.
pub open spec fn saves_left(stage: CardStage) -> nat {
    match stage {
        CardStage::Idle | CardStage::Reading | CardStage::LoadingBalance | CardStage::Computing => 1,
        _ => 0,
    }
}

proof fn saves_bounded(f: CardFlowView, events: Seq<CardEventView>)
    ensures
        save_count(card_actions(f, events)) <= saves_left(f.stage),
    decreases events.len(),
{
    if events.len() > 0 {
        let (next, action) = card_next(f, events[0]);
        let rest = card_actions(next, events.drop_first());
        saves_bounded(next, events.drop_first());
        let all = seq![action] + rest;
        assert(all[0] == action);
        assert(all.drop_first() =~= rest);
    }
}

/// A payment stores a new balance at most once, whatever happens.
pub proof fn balance_saved_at_most_once(f: CardFlowView, events: Seq<CardEventView>)
    requires
        f.stage == CardStage::Idle,
    ensures
        save_count(card_actions(f, events)) <= 1,
{
    saves_bounded(f, events);
}

/// What each step of the start screen does with what it is told: the
/// startup screen shows for three seconds before the scan; a scanned
/// student becomes the flow's student and is greeted; the greeting shown is
/// the fetched one, or "Welcome!" when none came; the account is checked,
/// created when it does not exist, and a database error ends the flow; the
/// top-up screen shows exactly the fetched balance text, or "£0.00" when the
/// balance could not be read, with the greeting.
pub proof fn start_screen_answers(f: StartFlowView, id: Seq<char>, t: Seq<char>)
    ensures
        f.stage == StartStage::Idle ==> start_next(f, StartEventView::Begin).1
            == (StartActionView::ShowStartup { pause_secs: 3 }),
        f.stage == StartStage::Scanning ==> start_next(f, StartEventView::ScanSucceeded(id)) == (
            StartFlowView { stage: StartStage::Greeting, user: id, hello: f.hello },
            StartActionView::RememberUserAndGreet(id),
        ),
        f.stage == StartStage::Scanning ==> start_next(f, StartEventView::ScanFailed(t)).1
            == StartActionView::ReportScanFailure(t),
        f.stage == StartStage::Greeting ==> start_next(f, StartEventView::GreetingFetched(Some(t)))
            == (
            StartFlowView { stage: StartStage::CheckingUser, user: f.user, hello: t },
            StartActionView::CheckUser(f.user),
        ),
        f.stage == StartStage::Greeting ==> start_next(f, StartEventView::GreetingFetched(None)).0.hello
            == "Welcome!"@,
        f.stage == StartStage::CheckingUser ==> start_next(f, StartEventView::UserChecked(Ok(true))).1
            == StartActionView::FetchBalance(f.user),
        f.stage == StartStage::CheckingUser ==> start_next(f, StartEventView::UserChecked(Ok(false))).1
            == StartActionView::CreateUser(f.user),
        f.stage == StartStage::CheckingUser ==> start_next(f, StartEventView::UserChecked(Err(t))) == (
            StartFlowView { stage: StartStage::Finished, user: f.user, hello: f.hello },
            StartActionView::ReportDatabaseError(t),
        ),
        f.stage == StartStage::CreatingUser ==> start_next(f, StartEventView::UserCreateAttempted).1
            == StartActionView::FetchBalance(f.user),
        f.stage == StartStage::LoadingBalance ==> start_next(f, StartEventView::BalanceFetched(Some(t)))
            == (
            StartFlowView { stage: StartStage::Finished, user: f.user, hello: f.hello },
            StartActionView::ShowTopUp { balance: t, hello: f.hello },
        ),
        f.stage == StartStage::LoadingBalance ==> start_next(f, StartEventView::BalanceFetched(None)).1
            == (StartActionView::ShowTopUp { balance: "£0.00"@, hello: f.hello }),
{
}

/// What each step of a card payment does with what it is told: the card
/// is read for the payment's amount; an approval fetches the student's
/// balance; the top-up is computed from exactly the fetched balance text
/// with its pound signs removed and surrounding white space trimmed
/// ("£0.00" when no balance was fetched) and the payment's amount; the
/// computed sum is stored for the student and shown on the accept screen
/// for five seconds; a refusal shows the decline screen for three seconds
/// and a cancel the cancelled screen for two; each outcome screen is
/// followed by a return to the start screen.
pub proof fn card_payment_answers(f: CardFlowView, b: Option<Seq<char>>, sum: Seq<char>)
    ensures
        f.stage == CardStage::Idle ==> card_next(f, CardEventView::Begin).1
            == (CardActionView::ReadCard { amount: f.amount }),
        f.stage == CardStage::Reading ==> card_next(f, CardEventView::CardApproved).1
            == CardActionView::FetchBalance(f.user),
        f.stage == CardStage::Reading ==> card_next(f, CardEventView::CardRefused).1
            == (CardActionView::ShowOutcome { screen: Screen::Decline, shown: None, pause_secs: 3 }),
        f.stage == CardStage::Reading ==> card_next(f, CardEventView::CancelPressed).1
            == (CardActionView::ShowOutcome { screen: Screen::Cancelled, shown: None, pause_secs: 2 }),
        f.stage == CardStage::LoadingBalance ==> card_next(f, CardEventView::BalanceFetched(b)).1
            == (CardActionView::ComputeTopUp {
            balance: trim(
                drop_char(
                    match b {
                        Some(t) => t,
                        None => "£0.00"@,
                    },
                    '£',
                ),
            ),
            amount: f.amount,
        }),
        f.stage == CardStage::Computing ==> card_next(f, CardEventView::TopUpComputed(sum)) == (
            CardFlowView {
                stage: CardStage::Saving,
                user: f.user,
                amount: f.amount,
                new_balance: sum,
            },
            CardActionView::SaveBalance { user: f.user, balance: sum },
        ),
        f.stage == CardStage::Saving ==> card_next(f, CardEventView::BalanceSaved).1
            == (CardActionView::ShowOutcome {
            screen: Screen::Accept,
            shown: Some(f.new_balance),
            pause_secs: 5,
        }),
        (f.stage == CardStage::Accepted || f.stage == CardStage::Declined || f.stage
            == CardStage::Cancelled) ==> card_next(f, CardEventView::PauseOver).1
            == CardActionView::RestartStart,
{
    let raw = match b {
        Some(t) => t,
        None => "£0.00"@,
    };
    drop_char_removes_all(raw, '£');
    assert(or_default(b, initial_balance_spec()) == raw);
}

/// The screens' names as the window knows them.
pub proof fn screen_names()
    ensures
        screen_name(Screen::Startup) == "startup"@,
        screen_name(Screen::TopUp) == "topup"@,
        screen_name(Screen::CardInput) == "card_input"@,
        screen_name(Screen::Accept) == "accept"@,
        screen_name(Screen::Decline) == "decline"@,
        screen_name(Screen::Cancelled) == "cancelled"@,
{
}

/// The stored balance is the computed sum, for the paying student.
pub proof fn saved_balance_is_computed_sum(f: CardFlowView, e: CardEventView)
    ensures
        card_next(f, e).1 matches CardActionView::SaveBalance { user, balance } ==> f.stage
            == CardStage::Computing && e == CardEventView::TopUpComputed(balance) && user == f.user,
        card_next(f, e).1 matches CardActionView::ShowOutcome { screen: Screen::Accept, shown: Some(b), pause_secs: _ } ==> b == f.new_balance,
{
}

/// Only the first of card read and cancel counts: a cancel once the read
/// has finished changes nothing.
pub proof fn late_cancel_ignored(f: CardFlowView)
    requires
        f.stage != CardStage::Reading,
    ensures
        card_next(f, CardEventView::CancelPressed) == (f, CardActionView::Wait),
{
}

/// Every outcome of a card payment (approved, refused, or cancelled) ends
/// by returning to the start screen, once the program reports back what
/// each action gave.
pub proof fn every_payment_returns_to_start(
    f: CardFlowView,
    balance: Option<Seq<char>>,
    sum: Seq<char>,
)
    requires
        f.stage == CardStage::Idle,
    ensures
        ({
            let approved = seq![
                CardEventView::Begin,
                CardEventView::CardApproved,
                CardEventView::BalanceFetched(balance),
                CardEventView::TopUpComputed(sum),
                CardEventView::BalanceSaved,
                CardEventView::PauseOver,
            ];
            let acts = card_actions(f, approved);
            acts.len() == 6 && acts[3] == CardActionView::SaveBalance { user: f.user, balance: sum }
                && acts[4] == (CardActionView::ShowOutcome {
                screen: Screen::Accept,
                shown: Some(sum),
                pause_secs: 5,
            }) && acts[5] == CardActionView::RestartStart
        }),
        card_actions(f, seq![CardEventView::Begin, CardEventView::CardRefused, CardEventView::PauseOver])[2]
            == CardActionView::RestartStart,
        card_actions(f, seq![CardEventView::Begin, CardEventView::CancelPressed, CardEventView::PauseOver])[2]
            == CardActionView::RestartStart,
{
    let approved = seq![
        CardEventView::Begin,
        CardEventView::CardApproved,
        CardEventView::BalanceFetched(balance),
        CardEventView::TopUpComputed(sum),
        CardEventView::BalanceSaved,
        CardEventView::PauseOver,
    ];
    reveal_with_fuel(card_actions, 7);
    assert(approved.drop_first() =~= approved.subrange(1, 6));
    let acts = card_actions(f, approved);
    assert(acts.len() == 6);
}

} // verus!
