//! The college ("My Runshaw") service: request texts, reading its replies,
//! and the steps that turn a student id into the greeting on screen.

use vstd::prelude::*;
use crate::text::{remove_first_and_last, without_ends, same_text, starts_with_text};

verus! {

/// The address that answers whether a student has an account.
pub fn account_exists_url(student_id: &str) -> (r: String)
    ensures
        r@ == "https://runshaw-api.danieldb.uk/api/exists/"@ + student_id@,
{
    let mut url = String::from_str("https://runshaw-api.danieldb.uk/api/exists/");
    url.append(student_id);
    url
}

/// The address that answers a student's name.
pub fn name_lookup_url(student_id: &str) -> (r: String)
    ensures
        r@ == "https://runshaw-api.danieldb.uk/api/name/get/"@ + student_id@,
{
    let mut url = String::from_str("https://runshaw-api.danieldb.uk/api/name/get/");
    url.append(student_id);
    url
}

/// The sign-in address of a student.
pub fn login_email(student_id: &str) -> (r: String)
    ensures
        r@ == student_id@ + "@student.runshaw.ac.uk"@,
{
    let mut email = String::from_str(student_id);
    email.append("@student.runshaw.ac.uk");
    email
}

/// The `Authorization` header value that carries a session token.
pub fn bearer_header(jwt: &str) -> (r: String)
    ensures
        r@ == "Bearer "@ + jwt@,
{
    let mut header = String::from_str("Bearer ");
    header.append(jwt);
    header
}

/// The one reply body that means "this account exists".
pub open spec fn account_exists_body() -> Seq<char> {
    "{\"exists\":true}"@
}

/// Whether the reply to an account check says the account exists: only the
/// exact body `{"exists":true}` does.
pub fn account_exists_reply(body: &str) -> (r: bool)
    ensures
        r == (body@ == account_exists_body()),
        r == (body@ == "{\"exists\":true}"@),
{
    same_text(body, "{\"exists\":true}")
}

/// What the name lookup reply holds for the kiosk: its `name` field written
/// out as JSON text, and its `detail` field written out as JSON text when it
/// is not `null`.
#[derive(Debug, PartialEq, Eq)]
pub struct NameReply {
    pub name: String,
    pub detail: Option<String>,
}

/// The text that a name lookup gives back when the service reports a problem.
pub open spec fn failed_name() -> Seq<char> {
    "FAIL!!!!!! RETRY!!!"@
}

/// The prefix that marks a failed name lookup.
pub open spec fn failure_prefix() -> Seq<char> {
    "FAIL!"@
}

/// The name a reply yields: the failure text when the reply carries a
/// detail; otherwise the name, with its quotes taken off when it is written
/// as a JSON string.
pub open spec fn name_from_reply_spec(name: Seq<char>, detail: Option<Seq<char>>) -> Seq<char> {
    if detail is Some {
        failed_name()
    } else if name[0] == '"' {
        without_ends(name)
    } else {
        name
    }
}

/// The name a lookup reply yields (see [`name_from_reply_spec`]); the name
/// text must not be empty where it is read.
pub fn name_from_reply(reply: &NameReply) -> (r: String)
    requires
        reply.detail is Some || reply.name@.len() > 0,
    ensures
        r@ == name_from_reply_spec(
            reply.name@,
            match reply.detail {
                Some(d) => Some(d@),
                None => None,
            },
        ),
{
    if reply.detail.is_some() {
        return String::from_str("FAIL!!!!!! RETRY!!!");
    }
    let name = reply.name.as_str();
    if name.get_char(0) == '"' {
        String::from_str(remove_first_and_last(name))
    } else {
        String::from_str(name)
    }
}

/// The text a lookup reply shows in the first sign-in helper: the detail
/// when there is one, else the name as written.
pub fn name_or_detail(reply: &NameReply) -> (r: String)
    ensures
        r@ == (match reply.detail {
            Some(d) => d@,
            None => reply.name@,
        }),
{
    match &reply.detail {
        Some(d) => d.clone(),
        None => reply.name.clone(),
    }
}

/// Whether a looked-up name is the failure text.
pub fn is_failed_name(name: &str) -> (r: bool)
    ensures
        r == failure_prefix().is_prefix_of(name@),
        r == "FAIL!"@.is_prefix_of(name@),
{
    starts_with_text(name, "FAIL!")
}


/// The greeting shown when the student's name is known.
pub open spec fn greeting_for(name: Seq<char>) -> Seq<char> {
    "Hello, "@ + name + "!"@
}

/// The greeting shown when no name can be had.
pub open spec fn plain_hello() -> Seq<char> {
    "Hello!"@
}

/// Where the greeting steps stand: waiting for the account check, for the
/// first name lookup, for the single retry, or finished.
#[derive(PartialEq, Eq, Structural, Clone, Copy, Debug)]
pub enum GreetingStage {
    AwaitingAccount,
    AwaitingName,
    AwaitingRetry,
    Done,
}

/// What the kiosk learned from the college service.
#[derive(Debug, PartialEq, Eq)]
pub enum GreetingEvent {
    AccountChecked(bool),
    NameReceived(String),
}

/// [`GreetingEvent`] over plain character sequences.
pub ghost enum GreetingEventView {
    AccountChecked(bool),
    NameReceived(Seq<char>),
}

impl View for GreetingEvent {
    type V = GreetingEventView;

    open spec fn view(&self) -> GreetingEventView {
        match self {
            GreetingEvent::AccountChecked(b) => GreetingEventView::AccountChecked(*b),
            GreetingEvent::NameReceived(n) => GreetingEventView::NameReceived(n@),
        }
    }
}

/// What the kiosk does next: look the name up (again), show the greeting,
/// or keep waiting.
#[derive(Debug, PartialEq, Eq)]
pub enum GreetingAction {
    FetchName,
    Finish(String),
    Wait,
}

/// [`GreetingAction`] over plain character sequences.
pub ghost enum GreetingActionView {
    FetchName,
    Finish(Seq<char>),
    Wait,
}

impl View for GreetingAction {
    type V = GreetingActionView;

    open spec fn view(&self) -> GreetingActionView {
        match self {
            GreetingAction::FetchName => GreetingActionView::FetchName,
            GreetingAction::Finish(t) => GreetingActionView::Finish(t@),
            GreetingAction::Wait => GreetingActionView::Wait,
        }
    }
}

/// One greeting step: an unknown account greets plainly; a known one has
/// its name looked up, and a failed lookup is tried once more before the
/// kiosk falls back to the plain greeting. Events that do not fit the stage
/// change nothing.
pub open spec fn greeting_next(stage: GreetingStage, event: GreetingEventView) -> (
    GreetingStage,
    GreetingActionView,
) {
    match (stage, event) {
        (GreetingStage::AwaitingAccount, GreetingEventView::AccountChecked(exists)) => {
            if exists {
                (GreetingStage::AwaitingName, GreetingActionView::FetchName)
            } else {
                (GreetingStage::Done, GreetingActionView::Finish(plain_hello()))
            }
        },
        (GreetingStage::AwaitingName, GreetingEventView::NameReceived(name)) => {
            if failure_prefix().is_prefix_of(name) {
                (GreetingStage::AwaitingRetry, GreetingActionView::FetchName)
            } else {
                (GreetingStage::Done, GreetingActionView::Finish(greeting_for(name)))
            }
        },
        (GreetingStage::AwaitingRetry, GreetingEventView::NameReceived(name)) => {
            if failure_prefix().is_prefix_of(name) {
                (GreetingStage::Done, GreetingActionView::Finish(plain_hello()))
            } else {
                (GreetingStage::Done, GreetingActionView::Finish(greeting_for(name)))
            }
        },
        _ => (stage, GreetingActionView::Wait),
    }
}

/// The text "Hello, <name>!".
fn greeting_text(name: &str) -> (r: String)
    ensures
        r@ == greeting_for(name@),
{
    let mut text = String::from_str("Hello, ");
    text.append(name);
    text.append("!");
    text
}

/// Takes one greeting step (see [`greeting_next`]).
pub fn greeting_step(stage: GreetingStage, event: GreetingEvent) -> (r: (
    GreetingStage,
    GreetingAction,
))
    ensures
        (r.0, r.1@) == greeting_next(stage, event@),
{
    match (stage, event) {
        (GreetingStage::AwaitingAccount, GreetingEvent::AccountChecked(exists)) => {
            if exists {
                (GreetingStage::AwaitingName, GreetingAction::FetchName)
            } else {
                (GreetingStage::Done, GreetingAction::Finish(String::from_str("Hello!")))
            }
        },
        (GreetingStage::AwaitingName, GreetingEvent::NameReceived(name)) => {
            if is_failed_name(name.as_str()) {
                (GreetingStage::AwaitingRetry, GreetingAction::FetchName)
            } else {
                (GreetingStage::Done, GreetingAction::Finish(greeting_text(name.as_str())))
            }
        },
        (GreetingStage::AwaitingRetry, GreetingEvent::NameReceived(name)) => {
            if is_failed_name(name.as_str()) {
                (GreetingStage::Done, GreetingAction::Finish(String::from_str("Hello!")))
            } else {
                (GreetingStage::Done, GreetingAction::Finish(greeting_text(name.as_str())))
            }
        },
        (stage, _) => (stage, GreetingAction::Wait),
    }
}


/// The actions that a sequence of events draws from the greeting steps,
/// starting at `stage`.
pub open spec fn greeting_actions(stage: GreetingStage, events: Seq<GreetingEventView>) -> Seq<
    GreetingActionView,
>
    decreases events.len(),
{
    if events.len() == 0 {
        Seq::empty()
    } else {
        let (next, action) = greeting_next(stage, events[0]);
        seq![action] + greeting_actions(next, events.drop_first())
    }
}

/// How many name lookups a list of actions asks for.
pub open spec fn lookup_count(actions: Seq<GreetingActionView>) -> nat
    decreases actions.len(),
{
    if actions.len() == 0 {
        0
    } else {
        (if actions[0] is FetchName { 1nat } else { 0nat }) + lookup_count(actions.drop_first())
    }
}

/// How many name lookups are still allowed at a stage.
pub open spec fn lookups_left(stage: GreetingStage) -> nat {
    match stage {
        GreetingStage::AwaitingAccount => 2,
        GreetingStage::AwaitingName => 1,
        _ => 0,
    }
}

/// What each greeting step does, in terms of what the service answered:
/// an unknown account is greeted "Hello!" at once and a known one has its
/// name looked up; a name that does not start with "FAIL!" is greeted as
/// "Hello, <name>!" on the first lookup or the retry; a name starting with
/// "FAIL!" is looked up once more, and after a second failure the greeting
/// is "Hello!".
pub proof fn greeting_answers(n: Seq<char>)
    ensures
        greeting_next(GreetingStage::AwaitingAccount, GreetingEventView::AccountChecked(false)) == (
            GreetingStage::Done,
            GreetingActionView::Finish("Hello!"@),
        ),
        greeting_next(GreetingStage::AwaitingAccount, GreetingEventView::AccountChecked(true)) == (
            GreetingStage::AwaitingName,
            GreetingActionView::FetchName,
        ),
        !"FAIL!"@.is_prefix_of(n) ==> greeting_next(
            GreetingStage::AwaitingName,
            GreetingEventView::NameReceived(n),
        ) == (GreetingStage::Done, GreetingActionView::Finish("Hello, "@ + n + "!"@)),
        !"FAIL!"@.is_prefix_of(n) ==> greeting_next(
            GreetingStage::AwaitingRetry,
            GreetingEventView::NameReceived(n),
        ) == (GreetingStage::Done, GreetingActionView::Finish("Hello, "@ + n + "!"@)),
        "FAIL!"@.is_prefix_of(n) ==> greeting_next(
            GreetingStage::AwaitingName,
            GreetingEventView::NameReceived(n),
        ) == (GreetingStage::AwaitingRetry, GreetingActionView::FetchName),
        "FAIL!"@.is_prefix_of(n) ==> greeting_next(
            GreetingStage::AwaitingRetry,
            GreetingEventView::NameReceived(n),
        ) == (GreetingStage::Done, GreetingActionView::Finish("Hello!"@)),
{
}

/// Reading the service's replies: only the exact body `{"exists":true}`
/// means the account exists; a reply with a detail yields the failure text
/// "FAIL!!!!!! RETRY!!!"; a name written as a JSON string (starting with a
/// quote) yields the text between its first and last character, and any
/// other name is kept as it is.
pub proof fn replies_read(body: Seq<char>, name: Seq<char>, detail: Option<Seq<char>>)
    ensures
        (body == account_exists_body()) == (body == "{\"exists\":true}"@),
        detail is Some ==> name_from_reply_spec(name, detail) == "FAIL!!!!!! RETRY!!!"@,
        detail is None && name.len() >= 2 && name[0] == '"' ==> name_from_reply_spec(name, detail)
            == name.subrange(1, name.len() - 1),
        detail is None && name.len() == 1 && name[0] == '"' ==> name_from_reply_spec(name, detail)
            == Seq::<char>::empty(),
        detail is None && name.len() > 0 && name[0] != '"' ==> name_from_reply_spec(name, detail)
            == name,
{
}

/// The name is looked up at most once more after a failure: whatever the
/// service answers, a greeting asks for at most two name lookups.
pub proof fn greeting_looks_up_at_most_twice(events: Seq<GreetingEventView>)
    ensures
        lookup_count(greeting_actions(GreetingStage::AwaitingAccount, events)) <= 2,
{
    lookups_bounded(GreetingStage::AwaitingAccount, events);
}

proof fn lookups_bounded(stage: GreetingStage, events: Seq<GreetingEventView>)
    ensures
        lookup_count(greeting_actions(stage, events)) <= lookups_left(stage),
    decreases events.len(),
{
    if events.len() > 0 {
        let (next, action) = greeting_next(stage, events[0]);
        let rest = greeting_actions(next, events.drop_first());
        lookups_bounded(next, events.drop_first());
        let all = seq![action] + rest;
        assert(all[0] == action);
        assert(all.drop_first() =~= rest);
    }
}

/// Every greeting the kiosk shows is "Hello!" or "Hello, <name>!" for a
/// looked-up name that is not the failure text; a finished greeting stays
/// finished.
pub proof fn greeting_shows_plain_or_named(stage: GreetingStage, event: GreetingEventView)
    ensures
        greeting_next(stage, event).1 matches GreetingActionView::Finish(text) ==> text
            == plain_hello() || (event matches GreetingEventView::NameReceived(n) && !failure_prefix().is_prefix_of(n)
            && text == greeting_for(n)),
        stage == GreetingStage::Done ==> greeting_next(stage, event) == (
            GreetingStage::Done,
            GreetingActionView::Wait,
        ),
{
}

} // verus!
