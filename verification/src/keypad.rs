//! The amount keypad: editing the typed amount and submitting it.

use vstd::prelude::*;
use crate::money::{clean_amount, clean_amount_spec};
use crate::text::{contains_char, drop_char, same_text, trim, without_last};

verus! {

/// The amount after a key press: a `.` key is refused when the amount
/// already holds a `.`; any other key is appended.
pub open spec fn append_key_spec(amount: Seq<char>, key: Seq<char>) -> Seq<char> {
    if key == seq!['.'] && amount.contains('.') {
        amount
    } else {
        amount + key
    }
}

/// Applies a key press to the typed amount (see [`append_key_spec`]).
pub fn append_key(amount: &str, key: &str) -> (r: String)
    ensures
        r@ == append_key_spec(amount@, key@),
{
    let mut out = String::from_str(amount);
    proof {
        reveal_strlit(".");
        assert("."@ =~= seq!['.']);
    }
    if same_text(key, ".") && contains_char(amount, '.') {
        return out;
    }
    out.append(key);
    out
}

/// The amount after a key press when the key is judged by its first
/// character: a key starting with `.` is refused when the amount already
/// holds a `.`.
pub open spec fn append_key_by_first_char_spec(amount: Seq<char>, key: Seq<char>) -> Seq<char> {
    if key[0] == '.' && amount.contains('.') {
        amount
    } else {
        amount + key
    }
}

/// Applies a key press judged by its first character (see
/// [`append_key_by_first_char_spec`]); the key must not be empty.
pub fn append_key_by_first_char(amount: &str, key: &str) -> (r: String)
    requires
        key@.len() > 0,
    ensures
        r@ == append_key_by_first_char_spec(amount@, key@),
{
    let mut out = String::from_str(amount);
    if key.get_char(0) == '.' && contains_char(amount, '.') {
        return out;
    }
    out.append(key);
    out
}

/// The amount after the delete key: its last character removed, if any.
pub open spec fn delete_key_spec(amount: Seq<char>) -> Seq<char> {
    if amount.len() == 0 {
        amount
    } else {
        amount.drop_last()
    }
}

/// Applies the delete key to the typed amount.
pub fn delete_key(amount: &str) -> (r: String)
    ensures
        r@ == delete_key_spec(amount@),
{
    without_last(amount)
}

/// A card payment to start: whose account it tops up, and the typed amount
/// cleaned for the number parser.
#[derive(Debug, PartialEq, Eq)]
pub struct PaymentRequest {
    pub user: String,
    pub amount: String,
}

/// What pressing "submit" starts: nothing for an empty amount or when no
/// student has been scanned; otherwise a payment for the scanned student
/// with the cleaned amount.
pub fn submit_amount(amount: &str, user: Option<String>) -> (r: Option<PaymentRequest>)
    ensures
        amount@.len() == 0 ==> r is None,
        user is None ==> r is None,
        amount@.len() > 0 && user is Some ==> (r matches Some(p) && p.user@ == user->0@
            && p.amount@ == clean_amount_spec(amount@) && p.amount@ == trim(drop_char(amount@, '£'))),
{
    if amount.unicode_len() == 0 {
        return None;
    }
    match user {
        None => None,
        Some(u) => Some(PaymentRequest { user: u, amount: clean_amount(amount) }),
    }
}

/// At most one `.` occurs in `s`.
pub open spec fn at_most_one_point(s: Seq<char>) -> bool {
    forall|i: int, j: int| 0 <= i < s.len() && 0 <= j < s.len() && s[i] == '.' && s[j] == '.' ==> i == j
}

/// Only one decimal point is allowed: pressing a single key never gives an
/// amount a second `.`.
pub proof fn keypad_keeps_one_point(amount: Seq<char>, key: Seq<char>)
    requires
        at_most_one_point(amount),
        key.len() == 1,
    ensures
        at_most_one_point(append_key_spec(amount, key)),
        at_most_one_point(append_key_by_first_char_spec(amount, key)),
{
    let r = amount + key;
    if key[0] == '.' {
        assert(key =~= seq!['.']);
        if !amount.contains('.') {
            assert forall|i: int, j: int|
                0 <= i < r.len() && 0 <= j < r.len() && r[i] == '.' && r[j] == '.' implies i == j by {
                if i < amount.len() {
                    assert(amount[i] == '.');
                }
                if j < amount.len() {
                    assert(amount[j] == '.');
                }
            }
        }
    } else {
        assert(key != seq!['.']) by {
            if key == seq!['.'] {
                assert(key[0] == '.');
            }
        }
        assert forall|i: int, j: int|
            0 <= i < r.len() && 0 <= j < r.len() && r[i] == '.' && r[j] == '.' implies i == j by {
            assert(i < amount.len());
            assert(j < amount.len());
            assert(amount[i] == '.' && amount[j] == '.');
        }
    }
}

/// A key press appends the key, except that a lone `.` is refused when the
/// amount already holds a `.`; for the first-character rule, a key starting
/// with `.` is refused in the same case. Nothing else is ever refused.
pub proof fn keys_are_appended(amount: Seq<char>, key: Seq<char>)
    ensures
        key != seq!['.'] ==> append_key_spec(amount, key) == amount + key,
        key == seq!['.'] && (forall|i: int| 0 <= i < amount.len() ==> amount[i] != '.')
            ==> append_key_spec(amount, key) == amount + key,
        key == seq!['.'] && (exists|i: int| 0 <= i < amount.len() && amount[i] == '.')
            ==> append_key_spec(amount, key) == amount,
        key.len() > 0 && key[0] != '.' ==> append_key_by_first_char_spec(amount, key) == amount
            + key,
        key.len() > 0 && (forall|i: int| 0 <= i < amount.len() ==> amount[i] != '.')
            ==> append_key_by_first_char_spec(amount, key) == amount + key,
        key.len() > 0 && key[0] == '.' && (exists|i: int| 0 <= i < amount.len() && amount[i] == '.')
            ==> append_key_by_first_char_spec(amount, key) == amount,
        key.len() > 0 ==> delete_key_spec(amount + key) == amount + key.drop_last(),
        amount.len() > 0 ==> delete_key_spec(amount) == amount.subrange(0, amount.len() - 1),
        amount.len() == 0 ==> delete_key_spec(amount) == amount,
{
    if key.len() > 0 {
        assert((amount + key).drop_last() =~= amount + key.drop_last());
    }
    if amount.len() > 0 {
        assert(amount.drop_last() =~= amount.subrange(0, amount.len() - 1));
    }
}

/// The delete key never adds a `.`: an amount with at most one `.` keeps
/// at most one.
pub proof fn delete_keeps_one_point(amount: Seq<char>)
    requires
        at_most_one_point(amount),
    ensures
        at_most_one_point(delete_key_spec(amount)),
{
    let r = delete_key_spec(amount);
    assert forall|i: int, j: int|
        0 <= i < r.len() && 0 <= j < r.len() && r[i] == '.' && r[j] == '.' implies i == j by {
        assert(amount[i] == r[i] && amount[j] == r[j]);
    }
}

/// The delete key takes back a key press that was accepted.
pub proof fn delete_undoes_key(amount: Seq<char>, key: Seq<char>)
    requires
        key.len() == 1,
    ensures
        append_key_spec(amount, key) != amount ==> delete_key_spec(append_key_spec(amount, key))
            == amount,
        append_key_by_first_char_spec(amount, key) != amount ==> delete_key_spec(
            append_key_by_first_char_spec(amount, key),
        ) == amount,
{
    assert((amount + key).drop_last() =~= amount);
}

} // verus!
