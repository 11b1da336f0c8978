//! The clock in the corner of the kiosk screen.

use vstd::prelude::*;

verus! {

/// The decimal digit character for `d` (0 to 9).
pub open spec fn digit_char(d: int) -> char {
    (48 + d) as char
}

/// `n` (0 to 99) written with two digits, zero-padded.
pub open spec fn two_digits(n: int) -> Seq<char> {
    seq![digit_char(n / 10), digit_char(n % 10)]
}

/// The hour as a 12-hour dial shows it: 12 for midnight and noon, else the
/// hour modulo 12.
pub open spec fn dial_hour(hour: int) -> int {
    if hour % 12 == 0 {
        12
    } else {
        hour % 12
    }
}

/// The time written as `hh:mm AM` / `hh:mm PM` with a zero-padded 12-hour
/// hour (the `%I:%M %p` pattern).
pub open spec fn twelve_hour_text(hour: int, minute: int) -> Seq<char> {
    two_digits(dial_hour(hour)) + seq![':'] + two_digits(minute) + seq![' '] + (if hour >= 12 {
        seq!['P', 'M']
    } else {
        seq!['A', 'M']
    })
}

/// Formats a time of day with chrono's `NaiveTime::format` and the pattern
/// `%I:%M %p`. The contract claims what chrono's formatting code does for
/// that pattern: `%I` writes the 12-hour hour (`hour % 12`, with 0 shown as
/// 12) in two zero-padded digits, `%M` the minute in two zero-padded digits,
/// and `%p` writes `AM` before noon and `PM` from noon on.
#[verifier::external_body]
fn format_twelve_hour(hour: u32, minute: u32) -> (r: String)
    requires
        hour < 24,
        minute < 60,
    ensures
        r@ == twelve_hour_text(hour as int, minute as int),
{
    chrono::NaiveTime::from_hms_opt(hour, minute, 0).unwrap().format("%I:%M %p").to_string()
}

/// `s` without its leading `c` characters.
pub open spec fn strip_leading(s: Seq<char>, c: char) -> Seq<char>
    decreases s.len(),
{
    if s.len() > 0 && s[0] == c {
        strip_leading(s.drop_first(), c)
    } else {
        s
    }
}

/// `s` without its leading `c` characters (what `trim_start_matches(c)` gives).
pub fn strip_leading_char(s: &str, c: char) -> (r: String)
    ensures
        r@ == strip_leading(s@, c),
{
    let n = s.unicode_len();
    let mut a: usize = 0;
    assert(s@.subrange(0, n as int) =~= s@);
    while a < n && s.get_char(a) == c
        invariant
            n == s@.len(),
            a <= n,
            strip_leading(s@, c) == strip_leading(s@.subrange(a as int, n as int), c),
        decreases n - a,
    {
        assert(s@.subrange(a as int, n as int).drop_first() =~= s@.subrange(a + 1, n as int));
        a = a + 1;
    }
    String::from_str(s.substring_char(a, n))
}

/// The clock text the kiosk shows: the 12-hour time without leading zeros
/// ("9:05 AM", "12:30 PM").
pub fn clock_label(hour: u32, minute: u32) -> (r: String)
    requires
        hour < 24,
        minute < 60,
    ensures
        r@ == strip_leading(twelve_hour_text(hour as int, minute as int), '0'),
{
    let full = format_twelve_hour(hour, minute);
    strip_leading_char(full.as_str(), '0')
}

/// The clock never shows a leading zero: its label starts with a digit from
/// 1 to 9.
pub proof fn clock_label_starts_with_nonzero_digit(hour: int, minute: int)
    requires
        0 <= hour < 24,
        0 <= minute < 60,
    ensures
        ({
            let label = strip_leading(twelve_hour_text(hour, minute), '0');
            label.len() > 0 && '1' <= label[0] && label[0] <= '9'
        }),
{
    let t = twelve_hour_text(hour, minute);
    let h = dial_hour(hour);
    assert(1 <= h <= 12);
    assert(t[0] == digit_char(h / 10));
    assert(t[1] == digit_char(h % 10));
    if h >= 10 {
        assert(t[0] == '1');
        assert(strip_leading(t, '0') == t);
    } else {
        assert(t[0] == '0');
        assert(t.drop_first()[0] == digit_char(h % 10));
        assert(t.drop_first()[0] != '0');
        assert(strip_leading(t.drop_first(), '0') == t.drop_first());
    }
}


/// Stripping leading `c`s removes exactly the leading run of `c`: what is
/// left is the rest of the text, which is empty or starts with another
/// character.
pub proof fn strip_leading_removes_the_run(s: Seq<char>, c: char)
    ensures
        exists|k: int|
            0 <= k <= s.len() && strip_leading(s, c) == #[trigger] s.subrange(k, s.len() as int)
                && (forall|j: int| 0 <= j < k ==> s[j] == c) && (k < s.len() ==> s[k] != c),
    decreases s.len(),
{
    if s.len() > 0 && s[0] == c {
        let rest = s.drop_first();
        strip_leading_removes_the_run(rest, c);
        let k1 = choose|k: int|
            0 <= k <= rest.len() && strip_leading(rest, c) == #[trigger] rest.subrange(
                k,
                rest.len() as int,
            ) && (forall|j: int| 0 <= j < k ==> rest[j] == c) && (k < rest.len() ==> rest[k] != c);
        assert(rest.subrange(k1, rest.len() as int) =~= s.subrange(k1 + 1, s.len() as int));
        assert(forall|j: int| 0 <= j < k1 + 1 ==> s[j] == c) by {
            assert forall|j: int| 0 <= j < k1 + 1 implies s[j] == c by {
                if j > 0 {
                    assert(s[j] == rest[j - 1]);
                }
            }
        }
        assert(k1 + 1 < s.len() ==> s[k1 + 1] == rest[k1]);
    } else {
        assert(s.subrange(0, s.len() as int) =~= s);
    }
}

} // verus!
