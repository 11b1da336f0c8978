//! Character-level text operations with exact contracts over `Seq<char>`.

use vstd::prelude::*;

verus! {

/// `needle` occurs in `hay` starting at position `i`.
pub open spec fn occurs_at(hay: Seq<char>, needle: Seq<char>, i: int) -> bool {
    &&& 0 <= i
    &&& i + needle.len() <= hay.len()
    &&& hay.subrange(i, i + needle.len()) == needle
}

/// `needle` occurs somewhere in `hay`.
pub open spec fn has_infix(hay: Seq<char>, needle: Seq<char>) -> bool {
    exists|i: int| occurs_at(hay, needle, i)
}

/// Whether two strings hold the same characters.
pub fn same_text(a: &str, b: &str) -> (r: bool)
    ensures
        r == (a@ == b@),
{
    let n = a.unicode_len();
    let m = b.unicode_len();
    if n != m {
        return false;
    }
    let mut i: usize = 0;
    while i < n
        invariant
            n == a@.len(),
            m == b@.len(),
            n == m,
            i <= n,
            forall|j: int| 0 <= j < i ==> a@[j] == b@[j],
        decreases n - i,
    {
        if a.get_char(i) != b.get_char(i) {
            return false;
        }
        i = i + 1;
    }
    assert(a@ =~= b@);
    true
}


/// Whether `needle` occurs in `hay` at character position `i`.
fn matches_at(hay: &str, needle: &str, i: usize) -> (r: bool)
    requires
        i + needle@.len() <= hay@.len(),
    ensures
        r == occurs_at(hay@, needle@, i as int),
{
    let n = hay.unicode_len();
    let m = needle.unicode_len();
    let mut j: usize = 0;
    while j < m
        invariant
            n == hay@.len(),
            m == needle@.len(),
            i + m <= hay@.len(),
            j <= m,
            forall|k: int| 0 <= k < j ==> hay@[i + k] == needle@[k],
        decreases m - j,
    {
        if hay.get_char(i + j) != needle.get_char(j) {
            assert(hay@.subrange(i as int, i + m)[j as int] != needle@[j as int]);
            return false;
        }
        j = j + 1;
    }
    assert(hay@.subrange(i as int, i + m) =~= needle@);
    true
}

/// Whether `needle` occurs anywhere in `hay` (what `str::contains` answers
/// for a string pattern).
pub fn contains_text(hay: &str, needle: &str) -> (r: bool)
    ensures
        r == has_infix(hay@, needle@),
{
    let n = hay.unicode_len();
    let m = needle.unicode_len();
    if m > n {
        assert forall|k: int| !occurs_at(hay@, needle@, k) by {}
        return false;
    }
    if m == 0 {
        assert(hay@.subrange(0, 0) =~= needle@);
        assert(occurs_at(hay@, needle@, 0));
        return true;
    }
    let last = n - m;
    let mut i: usize = 0;
    while i <= last
        invariant
            n == hay@.len(),
            m == needle@.len(),
            m > 0,
            last == n - m,
            i <= last + 1,
            forall|k: int| 0 <= k < i ==> !occurs_at(hay@, needle@, k),
        decreases last + 1 - i,
    {
        if matches_at(hay, needle, i) {
            return true;
        }
        i = i + 1;
    }
    assert forall|k: int| !occurs_at(hay@, needle@, k) by {
        if 0 <= k < i {
        }
    }
    false
}

/// Whether the character `c` occurs in `s`.
pub fn contains_char(s: &str, c: char) -> (r: bool)
    ensures
        r == s@.contains(c),
{
    let n = s.unicode_len();
    let mut i: usize = 0;
    while i < n
        invariant
            n == s@.len(),
            i <= n,
            forall|k: int| 0 <= k < i ==> s@[k] != c,
        decreases n - i,
    {
        if s.get_char(i) == c {
            return true;
        }
        i = i + 1;
    }
    false
}

/// Whether `s` begins with `prefix`.
pub fn starts_with_text(s: &str, prefix: &str) -> (r: bool)
    ensures
        r == prefix@.is_prefix_of(s@),
{
    let n = s.unicode_len();
    let m = prefix.unicode_len();
    if m > n {
        return false;
    }
    let r = matches_at(s, prefix, 0);
    assert(s@.subrange(0, m as int) == s@.subrange(0, 0 + m as int));
    r
}

/// `s` with every occurrence of `c` left out.
pub open spec fn drop_char(s: Seq<char>, c: char) -> Seq<char> {
    s.filter(other_than(c))
}

/// The predicate "is not `c`".
pub open spec fn other_than(c: char) -> spec_fn(char) -> bool {
    |x: char| x != c
}

/// `s` with every occurrence of `c` removed (what `str::replace(c, "")` gives).
pub fn without_char(s: &str, c: char) -> (r: String)
    ensures
        r@ == drop_char(s@, c),
{
    let mut res = String::new();
    let n = s.unicode_len();
    let mut i: usize = 0;
    assert(s@.take(0) =~= Seq::<char>::empty());
    while i < n
        invariant
            n == s@.len(),
            i <= n,
            res@ == drop_char(s@.take(i as int), c),
        decreases n - i,
    {
        let ch = s.get_char(i);
        let ghost before = res@;
        if ch != c {
            let piece = s.substring_char(i, i + 1);
            assert(piece@ =~= seq![ch]);
            res.append(piece);
        }
        proof {
            assert(s@.take(i + 1) =~= s@.take(i as int).push(ch));
            s@.take(i as int).lemma_filter_push(ch, other_than(c));
            if ch != c {
                assert(res@ =~= before.push(ch));
            }
        }
        i = i + 1;
    }
    assert(s@.take(n as int) =~= s@);
    res
}

/// `s` without its last character, if it has one (what `String::pop` leaves).
pub fn without_last(s: &str) -> (r: String)
    ensures
        r@ == (if s@.len() == 0 { s@ } else { s@.drop_last() }),
{
    let n = s.unicode_len();
    if n == 0 {
        String::from_str(s)
    } else {
        let kept = s.substring_char(0, n - 1);
        assert(kept@ =~= s@.drop_last());
        String::from_str(kept)
    }
}

/// `value` without its first and last character (empty for one character
/// or none).
pub open spec fn without_ends(value: Seq<char>) -> Seq<char> {
    if value.len() <= 1 {
        Seq::<char>::empty()
    } else {
        value.subrange(1, value.len() - 1)
    }
}

/// Drops the first and the last character of `value`; a value of at most one
/// character becomes empty.
pub fn remove_first_and_last(value: &str) -> (r: &str)
    ensures
        r@ == without_ends(value@),
{
    let n = value.unicode_len();
    if n <= 1 {
        let r = value.substring_char(0, 0);
        assert(r@ =~= Seq::<char>::empty());
        r
    } else {
        value.substring_char(1, n - 1)
    }
}


/// The characters with the Unicode `White_Space` property, which is what
/// `char::is_whitespace` tests and what `str::trim` strips.
pub open spec fn is_white_space(c: char) -> bool {
    let u = c as u32;
    ||| 0x9 <= u <= 0xd
    ||| u == 0x20
    ||| u == 0x85
    ||| u == 0xa0
    ||| u == 0x1680
    ||| 0x2000 <= u <= 0x200a
    ||| u == 0x2028
    ||| u == 0x2029
    ||| u == 0x202f
    ||| u == 0x205f
    ||| u == 0x3000
}

/// Whether `c` is white space in the sense of [`is_white_space`].
pub fn is_white_space_char(c: char) -> (r: bool)
    ensures
        r == is_white_space(c),
{
    let u = c as u32;
    (0x9 <= u && u <= 0xd) || u == 0x20 || u == 0x85 || u == 0xa0 || u == 0x1680 || (0x2000 <= u
        && u <= 0x200a) || u == 0x2028 || u == 0x2029 || u == 0x202f || u == 0x205f || u == 0x3000
}

/// `s` without its leading white space.
pub open spec fn trim_start(s: Seq<char>) -> Seq<char>
    decreases s.len(),
{
    if s.len() > 0 && is_white_space(s[0]) {
        trim_start(s.drop_first())
    } else {
        s
    }
}

/// `s` without its trailing white space.
pub open spec fn trim_end(s: Seq<char>) -> Seq<char>
    decreases s.len(),
{
    if s.len() > 0 && is_white_space(s.last()) {
        trim_end(s.drop_last())
    } else {
        s
    }
}

/// `s` without leading and trailing white space (what `str::trim` gives).
pub open spec fn trim(s: Seq<char>) -> Seq<char> {
    trim_end(trim_start(s))
}

/// `s` with leading and trailing white space removed.
pub fn trimmed(s: &str) -> (r: String)
    ensures
        r@ == trim(s@),
{
    let n = s.unicode_len();
    let mut a: usize = 0;
    assert(s@.subrange(0, n as int) =~= s@);
    while a < n && is_white_space_char(s.get_char(a))
        invariant
            n == s@.len(),
            a <= n,
            trim_start(s@) == trim_start(s@.subrange(a as int, n as int)),
        decreases n - a,
    {
        assert(s@.subrange(a as int, n as int).drop_first() =~= s@.subrange(a + 1, n as int));
        a = a + 1;
    }
    let ghost front = s@.subrange(a as int, n as int);
    assert(trim_start(front) == front);
    let mut b: usize = n;
    while b > a && is_white_space_char(s.get_char(b - 1))
        invariant
            n == s@.len(),
            a <= b <= n,
            front == s@.subrange(a as int, n as int),
            trim_end(front) == trim_end(s@.subrange(a as int, b as int)),
        decreases b - a,
    {
        assert(s@.subrange(a as int, b as int).drop_last() =~= s@.subrange(a as int, b - 1));
        b = b - 1;
    }
    let kept = s.substring_char(a, b);
    assert(trim_end(s@.subrange(a as int, b as int)) == s@.subrange(a as int, b as int));
    String::from_str(kept)
}


/// Dropping both ends takes off the quotes around a quoted text: for any
/// text `s` and quote character `q`, the ends of `q s q` leave `s`.
pub proof fn dropping_ends_unquotes(s: Seq<char>, q: char)
    ensures
        without_ends(seq![q] + s + seq![q]) == s,
{
    assert((seq![q] + s + seq![q]).subrange(1, s.len() as int + 1) =~= s);
}

/// Removing a character leaves none of it behind, keeps every other
/// character, and removing it again changes nothing.
pub proof fn drop_char_removes_all(s: Seq<char>, c: char)
    ensures
        !drop_char(s, c).contains(c),
        forall|i: int| 0 <= i < s.len() && s[i] != c ==> drop_char(s, c).contains(s[i]),
        drop_char(drop_char(s, c), c) == drop_char(s, c),
{
    broadcast use vstd::seq_lib::group_filter_ensures;

    let d = drop_char(s, c);
    assert forall|i: int| 0 <= i < s.len() && s[i] != c implies d.contains(s[i]) by {
        s.lemma_filter_contains(other_than(c), i);
    }
    assert(!d.contains(c)) by {
        if d.contains(c) {
            let k = choose|k: int| 0 <= k < d.len() && d[k] == c;
            s.lemma_filter_pred(other_than(c), k);
        }
    }
    drop_char_of_clean(d, c);
}

/// Removing `c` from a text without `c` changes nothing.
proof fn drop_char_of_clean(s: Seq<char>, c: char)
    requires
        !s.contains(c),
    ensures
        drop_char(s, c) == s,
    decreases s.len(),
{
    if s.len() > 0 {
        let front = s.drop_last();
        assert(!front.contains(c)) by {
            if front.contains(c) {
                let k = choose|k: int| 0 <= k < front.len() && front[k] == c;
                assert(s[k] == c);
            }
        }
        drop_char_of_clean(front, c);
        assert(s =~= front.push(s.last()));
        assert(s.last() != c) by {
            assert(s[s.len() - 1] == s.last());
        }
        front.lemma_filter_push(s.last(), other_than(c));
    } else {
        reveal(Seq::filter);
    }
}


/// Removing `c` works piece by piece: removing it from `a + b` is removing
/// it from `a` and from `b`; a lone `c` disappears and a lone other
/// character stays. Together these fix what the removal gives on every text.
pub proof fn drop_char_piecewise(a: Seq<char>, b: Seq<char>, c: char, x: char)
    ensures
        drop_char(a + b, c) == drop_char(a, c) + drop_char(b, c),
        drop_char(seq![c], c) == Seq::<char>::empty(),
        x != c ==> drop_char(seq![x], c) == seq![x],
        drop_char(Seq::<char>::empty(), c) == Seq::<char>::empty(),
{
    broadcast use vstd::seq_lib::group_filter_ensures;

    Seq::filter_distributes_over_add(a, b, other_than(c));
    Seq::<char>::empty().lemma_filter_push(c, other_than(c));
    Seq::<char>::empty().lemma_filter_push(x, other_than(c));
    assert(Seq::<char>::empty().push(c) =~= seq![c]);
    assert(Seq::<char>::empty().push(x) =~= seq![x]);
    reveal(Seq::filter);
}

/// `trim_start(s)` drops exactly the leading white space of `s`.
proof fn trim_start_shape(s: Seq<char>) -> (a: int)
    ensures
        0 <= a <= s.len(),
        trim_start(s) == s.subrange(a, s.len() as int),
        forall|i: int| 0 <= i < a ==> is_white_space(#[trigger] s[i]),
        a < s.len() ==> !is_white_space(s[a]),
    decreases s.len(),
{
    if s.len() > 0 && is_white_space(s[0]) {
        let rest = s.drop_first();
        let a1 = trim_start_shape(rest);
        assert(rest.subrange(a1, rest.len() as int) =~= s.subrange(a1 + 1, s.len() as int));
        assert forall|i: int| 0 <= i < a1 + 1 implies is_white_space(#[trigger] s[i]) by {
            if i > 0 {
                assert(s[i] == rest[i - 1]);
            }
        }
        a1 + 1
    } else {
        assert(s.subrange(0, s.len() as int) =~= s);
        0
    }
}

/// `trim_end(s)` drops exactly the trailing white space of `s`.
proof fn trim_end_shape(s: Seq<char>) -> (b: int)
    ensures
        0 <= b <= s.len(),
        trim_end(s) == s.subrange(0, b),
        forall|i: int| b <= i < s.len() ==> is_white_space(#[trigger] s[i]),
        b > 0 ==> !is_white_space(s[b - 1]),
    decreases s.len(),
{
    if s.len() > 0 && is_white_space(s.last()) {
        let rest = s.drop_last();
        let b1 = trim_end_shape(rest);
        assert(rest.subrange(0, b1) =~= s.subrange(0, b1));
        assert forall|i: int| b1 <= i < s.len() implies is_white_space(#[trigger] s[i]) by {
            if i < s.len() - 1 {
                assert(s[i] == rest[i]);
            }
        }
        b1
    } else {
        assert(s.subrange(0, s.len() as int) =~= s);
        s.len() as int
    }
}

/// Trimming keeps one contiguous stretch of the text, removing only white
/// space before and after it, and the stretch neither starts nor ends with
/// white space.
pub proof fn trim_keeps_the_middle(s: Seq<char>)
    ensures
        exists|a: int, b: int|
            {
                &&& 0 <= a <= b <= s.len()
                &&& trim(s) == s.subrange(a, b)
                &&& forall|i: int| 0 <= i < a ==> is_white_space(#[trigger] s[i])
                &&& forall|i: int| b <= i < s.len() ==> is_white_space(#[trigger] s[i])
                &&& a < b ==> !is_white_space(s[a]) && !is_white_space(s[b - 1])
            },
{
    let a = trim_start_shape(s);
    let mid = s.subrange(a, s.len() as int);
    let b1 = trim_end_shape(mid);
    let b = a + b1;
    assert(mid.subrange(0, b1) =~= s.subrange(a, b));
    assert forall|i: int| b <= i < s.len() implies is_white_space(#[trigger] s[i]) by {
        assert(s[i] == mid[i - a]);
    }
    if a < b {
        assert(s[b - 1] == mid[b1 - 1]);
    }
    assert(trim(s) == s.subrange(a, b));
}


/// Dropping both ends keeps exactly the characters strictly inside: two
/// fewer characters, each one place further in; at most one character
/// leaves nothing.
pub proof fn dropping_ends_keeps_inside(value: Seq<char>)
    ensures
        value.len() <= 1 ==> without_ends(value).len() == 0,
        value.len() >= 2 ==> without_ends(value).len() == value.len() - 2 && forall|i: int|
            0 <= i < value.len() - 2 ==> #[trigger] without_ends(value)[i] == value[i + 1],
{
}

} // verus!
