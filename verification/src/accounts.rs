//! Decisions on the replies of the kiosk's own accounts database, where each
//! student has one row holding a `balance` text.

use vstd::prelude::*;
use crate::text::{contains_text, has_infix, occurs_at};

verus! {

/// The balance a newly created account starts with.
pub open spec fn initial_balance_spec() -> Seq<char> {
    "£0.00"@
}

/// The balance text of a newly created account, `£0.00`.
pub fn initial_balance() -> (r: String)
    ensures
        r@ == initial_balance_spec(),
        r@ == "£0.00"@,
{
    String::from_str("£0.00")
}

/// The marker that the database puts in the reply to a lookup of a row that
/// does not exist.
pub open spec fn not_found_marker() -> Seq<char> {
    "\"code\":404"@
}

/// How a lookup of a student's row ended: the row came back, or the database
/// answered with an error whose reply body is held here.
#[derive(Debug, PartialEq, Eq)]
pub enum RowLookup {
    Found,
    Failed(String),
}

/// Whether a student has an account, as far as one lookup tells.
#[derive(PartialEq, Eq, Structural, Clone, Copy, Debug)]
pub enum UserPresence {
    Present,
    Absent,
    Unknown,
}

/// Reads a row lookup: a found row means the student is known; an error
/// whose reply carries the not-found code means the student is not; any
/// other error leaves it unknown.
pub fn user_presence(lookup: &RowLookup) -> (r: UserPresence)
    ensures
        match lookup {
            RowLookup::Found => r == UserPresence::Present,
            RowLookup::Failed(reply) => if has_infix(reply@, not_found_marker()) {
                r == UserPresence::Absent
            } else {
                r == UserPresence::Unknown
            },
        },
        match lookup {
            RowLookup::Failed(reply) => (r == UserPresence::Absent <==> exists|i: int|
                0 <= i && i + 10 <= reply@.len() && #[trigger] reply@.subrange(i, i + 10)
                    == "\"code\":404"@),
            RowLookup::Found => true,
        },
        lookup matches RowLookup::Failed(_) ==> r != UserPresence::Present,
        lookup is Found ==> r == UserPresence::Present,
{
    proof {
        reveal_strlit("\"code\":404");
    }
    match lookup {
        RowLookup::Found => UserPresence::Present,
        RowLookup::Failed(reply) => {
            proof {
                let m = not_found_marker();
                assert(m.len() == 10);
                assert(has_infix(reply@, m) <==> exists|i: int|
                    0 <= i && i + 10 <= reply@.len() && #[trigger] reply@.subrange(i, i + 10) == m) by {
                    if has_infix(reply@, m) {
                        let i = choose|i: int| occurs_at(reply@, m, i);
                        assert(reply@.subrange(i, i + 10) == m);
                    }
                    if exists|i: int|
                        0 <= i && i + 10 <= reply@.len() && #[trigger] reply@.subrange(i, i + 10) == m {
                        let i = choose|i: int|
                            0 <= i && i + 10 <= reply@.len() && #[trigger] reply@.subrange(i, i + 10) == m;
                        assert(occurs_at(reply@, m, i));
                    }
                }
            }
            if contains_text(reply.as_str(), "\"code\":404") {
                UserPresence::Absent
            } else {
                UserPresence::Unknown
            }
        },
    }
}

/// Reads a row lookup when every error is taken to mean "no account".
pub fn found_or_absent(lookup: &RowLookup) -> (r: bool)
    ensures
        r == (lookup is Found),
{
    match lookup {
        RowLookup::Found => true,
        RowLookup::Failed(_) => false,
    }
}

/// What a row holds under its `balance` key: nothing, a text, or a value
/// that is not a text.
#[derive(Debug, PartialEq, Eq)]
pub enum BalanceField {
    Absent,
    Text(String),
    NotText,
}

/// A row whose `balance` is missing or not a text.
#[derive(PartialEq, Eq, Structural, Clone, Copy, Debug)]
pub enum BalanceError {
    MissingOrInvalid,
}

impl BalanceError {
    /// The message that the kiosk reports for this error.
    pub fn message(&self) -> (r: String)
        ensures
            r@ == "Balance field missing or invalid format"@,
    {
        String::from_str("Balance field missing or invalid format")
    }
}

/// The balance text of a row, or the error when the row has none.
pub fn balance_from_field(field: &BalanceField) -> (r: Result<String, BalanceError>)
    ensures
        match field {
            BalanceField::Text(t) => r matches Ok(b) && b@ == t@,
            _ => r == Err::<String, BalanceError>(BalanceError::MissingOrInvalid),
        },
{
    match field {
        BalanceField::Text(t) => Ok(t.clone()),
        _ => Err(BalanceError::MissingOrInvalid),
    }
}

} // verus!
