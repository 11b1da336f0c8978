//! Money strings as the kiosk shows and stores them ("£12.50").

use vstd::prelude::*;
use vstd::utf8::encode_utf8;
use vstd::string::StringSliceAdditionalSpecFns;
use crate::text::{drop_char, drop_char_removes_all, is_white_space, trim, trim_keeps_the_middle, trimmed, without_char};

verus! {

/// The currency sign that balances carry.
pub open spec fn pound() -> char {
    '£'
}

/// The money text with every pound sign taken out.
pub fn remove_pound_sign_from_money(money: String) -> (r: String)
    ensures
        r@ == drop_char(money@, pound()),
        r@ == drop_char(money@, '£'),
{
    without_char(money.as_str(), '£')
}

/// The text of an amount as it is handed to the number parser: pound signs
/// removed, then surrounding white space trimmed.
pub open spec fn clean_amount_spec(text: Seq<char>) -> Seq<char> {
    trim(drop_char(text, pound()))
}

/// The text of an amount with pound signs removed and white space trimmed.
pub fn clean_amount(text: &str) -> (r: String)
    ensures
        r@ == clean_amount_spec(text@),
        r@ == trim(drop_char(text@, '£')),
{
    let no_sign = without_char(text, '£');
    trimmed(no_sign.as_str())
}

/// Takes a money text and produces nothing; kept for the kiosk's money
/// conversion hook, which performs no work.
pub fn convert_money_to_float(money: String) {
    let _fixed_money = "";
}

/// The position of the first `c` in `s` at or after `from`, or `s.len()`
/// when there is none.
pub open spec fn next_index_of(s: Seq<char>, c: char, from: int) -> int
    decreases s.len() - from,
{
    if from < 0 || from >= s.len() {
        s.len() as int
    } else if s[from] == c {
        from
    } else {
        next_index_of(s, c, from + 1)
    }
}

/// The characters between the first `.` of `s` and the next `.` (or the end).
pub open spec fn dot_fraction(s: Seq<char>) -> Seq<char> {
    let i = next_index_of(s, '.', 0);
    s.subrange(i + 1, next_index_of(s, '.', i + 1))
}

/// The digit text that the kiosk's first amount conversion parses: without
/// a `.` the whole text; with one, the part after the first `.`, followed by
/// its first two characters again when that part is longer than two bytes.
/// That rule drops the integer part and repeats the first two fraction
/// characters; it is superseded by [`clean_amount_spec`], which the kiosk's
/// keypad and payments use.
pub open spec fn decimal_part_text_spec(s: Seq<char>) -> Seq<char> {
    if s.contains('.') {
        let f = dot_fraction(s);
        if encode_utf8(f).len() > 2 {
            f + f.subrange(0, 2)
        } else {
            f
        }
    } else {
        s
    }
}

/// Whether [`decimal_part_text_spec`] is defined for `s`: a part after the
/// `.` that is longer than two bytes must hold at least two characters.
pub open spec fn decimal_part_text_defined(s: Seq<char>) -> bool {
    s.contains('.') && encode_utf8(dot_fraction(s)).len() > 2 ==> dot_fraction(s).len() >= 2
}

/// The first `c` in `s` at or after `from` (or the length of `s`).
fn find_char_from(s: &str, c: char, from: usize) -> (r: usize)
    requires
        from <= s@.len(),
    ensures
        r == next_index_of(s@, c, from as int),
        from <= r <= s@.len(),
        forall|j: int| from <= j < r ==> s@[j] != c,
        r < s@.len() ==> s@[r as int] == c,
{
    let n = s.unicode_len();
    let mut i = from;
    while i < n && s.get_char(i) != c
        invariant
            n == s@.len(),
            from <= i <= n,
            next_index_of(s@, c, from as int) == next_index_of(s@, c, i as int),
            forall|j: int| from <= j < i ==> s@[j] != c,
        decreases n - i,
    {
        i = i + 1;
    }
    i
}

/// The digit text that the kiosk's first amount conversion parses (see
/// [`decimal_part_text_spec`]), or `None` where that conversion fails on a
/// missing second character. Superseded by [`clean_amount`]: it drops the
/// integer part of the amount.
pub fn decimal_part_text(text: &str) -> (r: Option<String>)
    ensures
        r is Some <==> decimal_part_text_defined(text@),
        r matches Some(t) ==> t@ == decimal_part_text_spec(text@),
{
    let n = text.unicode_len();
    let i = find_char_from(text, '.', 0);
    if i == n {
        assert(!text@.contains('.'));
        return Some(String::from_str(text));
    }
    assert(text@.contains('.')) by {
        assert(text@[i as int] == '.');
    }
    let k = find_char_from(text, '.', i + 1);
    let fraction = text.substring_char(i + 1, k);
    assert(fraction@ == dot_fraction(text@));
    let byte_len = fraction.as_bytes().len();
    assert(byte_len == encode_utf8(dot_fraction(text@)).len());
    if byte_len > 2 {
        let m = fraction.unicode_len();
        if m < 2 {
            return None;
        }
        let mut out = String::from_str(fraction);
        out.append(fraction.substring_char(0, 2));
        Some(out)
    } else {
        Some(String::from_str(fraction))
    }
}


/// Taking the pound signs off a balance before cleaning it changes nothing,
/// since cleaning takes them off anyway.
pub proof fn cleaning_after_sign_removal(text: Seq<char>)
    ensures
        clean_amount_spec(drop_char(text, pound())) == clean_amount_spec(text),
{
    drop_char_removes_all(text, pound());
}


/// Cleaning an amount removes exactly the pound signs and the white space
/// around the rest: the result is one contiguous stretch of the text with
/// its pound signs removed, only white space is cut off on either side,
/// the stretch neither starts nor ends with white space, and no pound sign
/// is left.
pub proof fn cleaning_removes_signs_and_outer_space(text: Seq<char>)
    ensures
        clean_amount_spec(text) == trim(drop_char(text, '£')),
        !clean_amount_spec(text).contains('£'),
        exists|a: int, b: int|
            {
                &&& 0 <= a <= b <= drop_char(text, '£').len()
                &&& clean_amount_spec(text) == #[trigger] drop_char(text, '£').subrange(a, b)
                &&& forall|i: int|
                    0 <= i < a ==> is_white_space(#[trigger] drop_char(text, '£')[i])
                &&& forall|i: int|
                    b <= i < drop_char(text, '£').len() ==> is_white_space(
                        #[trigger] drop_char(text, '£')[i],
                    )
                &&& a < b ==> !is_white_space(drop_char(text, '£')[a]) && !is_white_space(
                    drop_char(text, '£')[b - 1],
                )
            },
{
    let d = drop_char(text, '£');
    drop_char_removes_all(text, '£');
    trim_keeps_the_middle(d);
    let (a, b) = choose|a: int, b: int|
        {
            &&& 0 <= a <= b <= d.len()
            &&& trim(d) == d.subrange(a, b)
            &&& forall|i: int| 0 <= i < a ==> is_white_space(#[trigger] d[i])
            &&& forall|i: int| b <= i < d.len() ==> is_white_space(#[trigger] d[i])
            &&& a < b ==> !is_white_space(d[a]) && !is_white_space(d[b - 1])
        };
    assert(!trim(d).contains('£')) by {
        if trim(d).contains('£') {
            let k = choose|k: int| 0 <= k < trim(d).len() && trim(d)[k] == '£';
            assert(d[a + k] == '£');
        }
    }
}


/// The first '.' of `s` at or after `from` is found where it is.
proof fn next_index_of_is_first(s: Seq<char>, c: char, from: int, at: int)
    requires
        0 <= from <= at <= s.len(),
        forall|j: int| from <= j < at ==> s[j] != c,
        at < s.len() ==> s[at] == c,
    ensures
        next_index_of(s, c, from) == at,
    decreases at - from,
{
    if from < at {
        next_index_of_is_first(s, c, from + 1, at);
    }
}

/// The kiosk's first conversion rule, in terms of where the points are:
/// without a '.' the whole text is parsed; otherwise, with `i` the first
/// '.' and `k` the next '.' after it (or the end), the characters strictly
/// between them are parsed, followed by their first two characters again
/// when they take more than two bytes.
pub proof fn decimal_part_between_points(text: Seq<char>, i: int, k: int)
    ensures
        (forall|j: int| 0 <= j < text.len() ==> text[j] != '.') ==> decimal_part_text_spec(text)
            == text,
        0 <= i < k <= text.len() && text[i] == '.' && (forall|j: int|
            0 <= j < i ==> text[j] != '.') && (forall|j: int| i < j < k ==> text[j] != '.') && (k
            < text.len() ==> text[k] == '.') ==> decimal_part_text_spec(text) == (if encode_utf8(
            text.subrange(i + 1, k),
        ).len() > 2 {
            text.subrange(i + 1, k) + text.subrange(i + 1, k).subrange(0, 2)
        } else {
            text.subrange(i + 1, k)
        }),
{
    if 0 <= i < k <= text.len() && text[i] == '.' && (forall|j: int| 0 <= j < i ==> text[j] != '.')
        && (forall|j: int| i < j < k ==> text[j] != '.') && (k < text.len() ==> text[k] == '.') {
        next_index_of_is_first(text, '.', 0, i);
        next_index_of_is_first(text, '.', i + 1, k);
        assert(text.contains('.'));
    }
}

} // verus!
