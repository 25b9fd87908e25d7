//! Character-level text handling: the parts of `str` that the error parsers use
//! (prefix stripping, splitting at a pattern, trimming, parsing a `usize`),
//! stated over `Seq<char>` and implemented over character vectors.
use vstd::prelude::*;

verus! {

broadcast use vstd::string::group_string_axioms;

// ---------------------------------------------------------------------------
// Specifications
// ---------------------------------------------------------------------------

/// `c` is one of the ASCII digits `'0'..='9'`.
pub open spec fn is_ascii_digit(c: char) -> bool {
    '0' <= c && c <= '9'
}

/// The value of an ASCII digit.
pub open spec fn digit_value(c: char) -> nat {
    (c as int - '0' as int) as nat
}

/// Every character of `s` is an ASCII digit.
pub open spec fn all_ascii_digits(s: Seq<char>) -> bool {
    forall|i: int| 0 <= i < s.len() ==> is_ascii_digit(#[trigger] s[i])
}

/// The number that a run of ASCII digits denotes in base ten.
pub open spec fn digits_value(s: Seq<char>) -> nat
    decreases s.len(),
{
    if s.len() == 0 {
        0
    } else {
        digits_value(s.drop_last()) * 10 + digit_value(s.last())
    }
}

/// What `s.parse::<usize>()` gives, `.ok()`: an optional `+` followed by at
/// least one ASCII digit and nothing else, whose value fits in a `usize`.
pub open spec fn parse_usize_spec(s: Seq<char>) -> Option<usize> {
    let d = if s.len() > 0 && s[0] == '+' {
        s.drop_first()
    } else {
        s
    };
    if d.len() > 0 && all_ascii_digits(d) && digits_value(d) <= usize::MAX {
        Some(digits_value(d) as usize)
    } else {
        None
    }
}

/// `pat` occurs in `s` at position `i`.
pub open spec fn occurs_at(s: Seq<char>, pat: Seq<char>, i: int) -> bool {
    0 <= i && i + pat.len() <= s.len() && s.subrange(i, i + pat.len()) == pat
}

/// The first position at or after `from` where `pat` occurs in `s`.
pub open spec fn find_from(s: Seq<char>, pat: Seq<char>, from: nat) -> Option<nat>
    decreases s.len() - from,
{
    if from + pat.len() > s.len() {
        None
    } else if s.subrange(from as int, (from + pat.len()) as int) == pat {
        Some(from)
    } else if from < s.len() {
        find_from(s, pat, from + 1)
    } else {
        None
    }
}

/// `s.strip_prefix(p)`.
pub open spec fn strip_prefix(s: Seq<char>, p: Seq<char>) -> Option<Seq<char>> {
    if p.len() <= s.len() && s.take(p.len() as int) == p {
        Some(s.skip(p.len() as int))
    } else {
        None
    }
}

/// The piece of index `n` that `s.split(pat)` yields, for a non-empty `pat`:
/// the pieces are the text between successive non-overlapping occurrences of
/// `pat`, searched from the left.
pub open spec fn split_piece(s: Seq<char>, pat: Seq<char>, n: nat) -> Option<Seq<char>>
    decreases n,
{
    match find_from(s, pat, 0) {
        None => if n == 0 {
            Some(s)
        } else {
            None
        },
        Some(i) => if n == 0 {
            Some(s.take(i as int))
        } else {
            split_piece(s.skip((i + pat.len()) as int), pat, (n - 1) as nat)
        },
    }
}

/// The pieces of `s.split(pat)` that follow the first `n`, joined again with
/// `pat`: the text after the `n`-th occurrence of `pat`, or nothing when `pat`
/// occurs fewer than `n` times.
pub open spec fn split_remainder(s: Seq<char>, pat: Seq<char>, n: nat) -> Seq<char>
    decreases n,
{
    if n == 0 {
        s
    } else {
        match find_from(s, pat, 0) {
            None => Seq::empty(),
            Some(i) => split_remainder(s.skip((i + pat.len()) as int), pat, (n - 1) as nat),
        }
    }
}

/// `s.trim_start_matches(c)`.
pub open spec fn trim_start_char(s: Seq<char>, c: char) -> Seq<char>
    decreases s.len(),
{
    if s.len() > 0 && s[0] == c {
        trim_start_char(s.drop_first(), c)
    } else {
        s
    }
}

/// `s.trim_end_matches(pat)` for a non-empty `pat`: every trailing repetition
/// of `pat` is removed.
pub open spec fn trim_end_pattern(s: Seq<char>, pat: Seq<char>) -> Seq<char>
    decreases s.len(),
{
    if pat.len() > 0 && pat.len() <= s.len() && s.skip(s.len() - pat.len()) == pat {
        trim_end_pattern(s.take(s.len() - pat.len()), pat)
    } else {
        s
    }
}

/// `c` is white space as Unicode's `White_Space` property defines it, which
/// is what `char::is_whitespace` and `str::trim_end` go by.
pub open spec fn is_white_space(c: char) -> bool {
    ||| c == '\t'
    ||| c == '\n'
    ||| c == '\u{0B}'
    ||| c == '\u{0C}'
    ||| c == '\r'
    ||| c == ' '
    ||| c == '\u{85}'
    ||| c == '\u{A0}'
    ||| c == '\u{1680}'
    ||| '\u{2000}' <= c && c <= '\u{200A}'
    ||| c == '\u{2028}'
    ||| c == '\u{2029}'
    ||| c == '\u{202F}'
    ||| c == '\u{205F}'
    ||| c == '\u{3000}'
}

/// `s.trim_end()`: every trailing white-space character is removed.
pub open spec fn trim_end_white_space(s: Seq<char>) -> Seq<char>
    decreases s.len(),
{
    if s.len() > 0 && is_white_space(s.last()) {
        trim_end_white_space(s.drop_last())
    } else {
        s
    }
}

// ---------------------------------------------------------------------------
// Lemmas
// ---------------------------------------------------------------------------

/// `find_from` gives the first occurrence at or after `from`, or `None` when
/// there is none.
pub proof fn lemma_find_from(s: Seq<char>, pat: Seq<char>, from: nat)
    ensures
        match find_from(s, pat, from) {
            Some(i) => from <= i && occurs_at(s, pat, i as int) && forall|j: int|
                from <= j < i ==> !#[trigger] occurs_at(s, pat, j),
            None => forall|j: int| from <= j ==> !#[trigger] occurs_at(s, pat, j),
        },
    decreases s.len() - from,
{
    if from + pat.len() > s.len() {
    } else if s.subrange(from as int, (from + pat.len()) as int) == pat {
    } else if from < s.len() {
        lemma_find_from(s, pat, from + 1);
    } else {
        assert(pat.len() == 0);
        assert(s.subrange(from as int, (from + pat.len()) as int) =~= pat);
    }
}

/// An occurrence with none before it (from `from` on) is what `find_from` finds.
pub proof fn lemma_find_first_occurrence(s: Seq<char>, pat: Seq<char>, from: nat, k: nat)
    requires
        from <= k,
        occurs_at(s, pat, k as int),
        forall|j: int| from <= j < k ==> !#[trigger] occurs_at(s, pat, j),
    ensures
        find_from(s, pat, from) == Some(k),
{
    lemma_find_from(s, pat, from);
}

/// No occurrence from `from` on means `find_from` finds nothing.
pub proof fn lemma_find_none(s: Seq<char>, pat: Seq<char>, from: nat)
    requires
        forall|j: int| from <= j ==> !#[trigger] occurs_at(s, pat, j),
    ensures
        find_from(s, pat, from) is None,
{
    lemma_find_from(s, pat, from);
}

/// The value of a prefix of a run of digits is at most the value of the run.
pub proof fn lemma_digits_value_prefix(s: Seq<char>, j: int)
    requires
        0 <= j <= s.len(),
    ensures
        digits_value(s.take(j)) <= digits_value(s),
    decreases s.len(),
{
    if j < s.len() {
        lemma_digits_value_prefix(s.drop_last(), j);
        assert(s.drop_last().take(j) =~= s.take(j));
    } else {
        assert(s.take(j) =~= s);
    }
}

/// The ASCII digit of value `d` (for `d < 10`).
pub open spec fn digit_char(d: nat) -> char {
    (d + '0' as int) as char
}

/// The base-ten representation of `n`, without sign or leading zeros.
pub open spec fn decimal(n: nat) -> Seq<char>
    decreases n,
{
    if n < 10 {
        seq![digit_char(n)]
    } else {
        decimal(n / 10).push(digit_char(n % 10))
    }
}

/// The decimal representation of `n` is a non-empty run of digits that
/// denotes `n`.
pub proof fn lemma_decimal(n: nat)
    ensures
        decimal(n).len() > 0,
        all_ascii_digits(decimal(n)),
        digits_value(decimal(n)) == n,
    decreases n,
{
    if n < 10 {
        assert(decimal(n).drop_last() =~= Seq::<char>::empty());
        assert(digit_value(digit_char(n)) == n);
        assert(digits_value(Seq::<char>::empty()) == 0);
        assert(digits_value(decimal(n)) == digits_value(decimal(n).drop_last()) * 10 + digit_value(
            decimal(n).last(),
        ));
    } else {
        lemma_decimal(n / 10);
        assert(decimal(n).drop_last() =~= decimal(n / 10));
        assert(digit_value(digit_char(n % 10)) == n % 10);
        assert(n == (n / 10) * 10 + n % 10);
        assert(digits_value(decimal(n)) == digits_value(decimal(n).drop_last()) * 10 + digit_value(
            decimal(n).last(),
        ));
    }
}

/// `str::parse::<usize>` reads back the decimal representation of a `usize`.
pub proof fn lemma_parse_decimal(n: usize)
    ensures
        parse_usize_spec(decimal(n as nat)) == Some(n),
{
    lemma_decimal(n as nat);
}

/// When `pat` does not occur in `d + pat + rest` before the end of `d`, the
/// occurrence right after `d` is the first, so `d` is the first piece of the
/// split and the pieces after it are those of `rest`.
pub proof fn lemma_split_after_first(d: Seq<char>, pat: Seq<char>, rest: Seq<char>)
    requires
        pat.len() > 0,
        forall|j: int| 0 <= j < d.len() ==> !#[trigger] occurs_at(d + pat + rest, pat, j),
    ensures
        find_from(d + pat + rest, pat, 0) == Some(d.len()),
        split_piece(d + pat + rest, pat, 0) == Some(d),
        split_piece(d + pat + rest, pat, 1) == split_piece(rest, pat, 0),
        split_remainder(d + pat + rest, pat, 1) == rest,
        split_remainder(d + pat + rest, pat, 2) == split_remainder(rest, pat, 1),
{
    let s = d + pat + rest;
    assert(s.subrange(d.len() as int, (d.len() + pat.len()) as int) =~= pat);
    lemma_find_first_occurrence(s, pat, 0, d.len());
    assert(s.take(d.len() as int) =~= d);
    assert(s.skip((d.len() + pat.len()) as int) =~= rest);
    assert(split_remainder(rest, pat, 0) == rest);
}

/// When no character of `d` can start `pat`, the first occurrence of `pat` in
/// `d + pat + rest` is the one right after `d`.
pub proof fn lemma_split_after(d: Seq<char>, pat: Seq<char>, rest: Seq<char>)
    requires
        pat.len() > 0,
        forall|i: int| 0 <= i < d.len() ==> d[i] != pat[0],
    ensures
        find_from(d + pat + rest, pat, 0) == Some(d.len()),
        split_piece(d + pat + rest, pat, 0) == Some(d),
        split_piece(d + pat + rest, pat, 1) == split_piece(rest, pat, 0),
        split_remainder(d + pat + rest, pat, 1) == rest,
        split_remainder(d + pat + rest, pat, 2) == split_remainder(rest, pat, 1),
{
    let s = d + pat + rest;
    assert forall|j: int| 0 <= j < d.len() implies !#[trigger] occurs_at(s, pat, j) by {
        if occurs_at(s, pat, j) {
            assert(s.subrange(j, j + pat.len())[0] == s[j]);
        }
    }
    lemma_split_after_first(d, pat, rest);
}

/// When `pat` does not occur in `s`, the split yields `s` alone.
pub proof fn lemma_split_none(s: Seq<char>, pat: Seq<char>)
    requires
        forall|j: int| 0 <= j ==> !#[trigger] occurs_at(s, pat, j),
    ensures
        find_from(s, pat, 0) is None,
        split_piece(s, pat, 0) == Some(s),
        split_piece(s, pat, 1) is None,
{
    lemma_find_none(s, pat, 0);
}

/// Trimming a character that does not start a non-empty run of digits leaves it.
pub proof fn lemma_trim_start_digits(d: Seq<char>, c: char)
    requires
        d.len() > 0,
        all_ascii_digits(d),
        !is_ascii_digit(c),
    ensures
        trim_start_char(d, c) == d,
{
    assert(is_ascii_digit(d[0]));
}

/// Trimming a pattern that does not end like a non-empty run of digits leaves it.
pub proof fn lemma_trim_end_digits(d: Seq<char>, pat: Seq<char>)
    requires
        d.len() > 0,
        all_ascii_digits(d),
        pat.len() > 0,
        !is_ascii_digit(pat.last()),
    ensures
        trim_end_pattern(d, pat) == d,
{
    if pat.len() <= d.len() && d.skip(d.len() - pat.len()) == pat {
        assert(d.skip(d.len() - pat.len())[pat.len() - 1] == d[d.len() - 1]);
        assert(is_ascii_digit(d[d.len() - 1]));
    }
}

/// Trailing white space after a non-empty run of digits is all that
/// `trim_end` removes.
pub proof fn lemma_trim_end_white_space_after_digits(d: Seq<char>, g: Seq<char>)
    requires
        d.len() > 0,
        all_ascii_digits(d),
        forall|i: int| 0 <= i < g.len() ==> is_white_space(#[trigger] g[i]),
    ensures
        trim_end_white_space(d + g) == d,
    decreases g.len(),
{
    if g.len() == 0 {
        assert(d + g =~= d);
        assert(is_ascii_digit(d.last()));
    } else {
        assert((d + g).drop_last() =~= d + g.drop_last());
        assert((d + g).last() == g.last());
        lemma_trim_end_white_space_after_digits(d, g.drop_last());
    }
}

// ---------------------------------------------------------------------------
// Executable helpers over character vectors
// ---------------------------------------------------------------------------

/// Copies the characters of `s` into a vector.
pub fn chars_of(s: &str) -> (v: Vec<char>)
    ensures
        v@ == s@,
{
    let mut v: Vec<char> = Vec::new();
    for c in it: s.chars()
        invariant
            v@ == it.seq().take(it.index() as int),
            it.seq() == s@,
    {
        v.push(c);
    }
    v
}

/// Whether `a` and `b` hold the same characters.
pub fn same_chars(a: &Vec<char>, b: &Vec<char>) -> (r: bool)
    ensures
        r == (a@ == b@),
{
    if a.len() != b.len() {
        return false;
    }
    let mut i: usize = 0;
    while i < a.len()
        invariant
            a.len() == b.len(),
            i <= a.len(),
            forall|j: int| 0 <= j < i ==> a@[j] == b@[j],
        decreases a.len() - i,
    {
        if a[i] != b[i] {
            return false;
        }
        i = i + 1;
    }
    assert(a@ =~= b@);
    true
}

/// Whether `pat` occurs at position `i` of `s` and ends at or before `hi`.
pub fn matches_at(s: &Vec<char>, hi: usize, pat: &Vec<char>, i: usize) -> (r: bool)
    requires
        i <= hi <= s.len(),
    ensures
        r == (i + pat.len() <= hi && s@.subrange(i as int, i + pat.len()) == pat@),
{
    if pat.len() > hi - i {
        return false;
    }
    let mut j: usize = 0;
    while j < pat.len()
        invariant
            i + pat.len() <= hi <= s.len(),
            j <= pat.len(),
            forall|k: int| 0 <= k < j ==> s@[i + k] == pat@[k],
        decreases pat.len() - j,
    {
        if s[i + j] != pat[j] {
            assert(s@.subrange(i as int, i + pat.len())[j as int] != pat@[j as int]);
            return false;
        }
        j = j + 1;
    }
    assert(s@.subrange(i as int, i + pat.len()) =~= pat@);
    true
}

/// The first occurrence of `pat` in the window `s[lo..hi]`, as a position of `s`.
pub fn find_in(s: &Vec<char>, pat: &Vec<char>, lo: usize, hi: usize) -> (r: Option<usize>)
    requires
        lo <= hi <= s.len(),
    ensures
        match r {
            Some(i) => lo <= i && find_from(s@.subrange(lo as int, hi as int), pat@, 0) == Some(
                (i - lo) as nat,
            ),
            None => find_from(s@.subrange(lo as int, hi as int), pat@, 0) is None,
        },
{
    let ghost w = s@.subrange(lo as int, hi as int);
    let mut i: usize = lo;
    while pat.len() <= hi - i
        invariant
            lo <= i <= hi <= s.len(),
            w == s@.subrange(lo as int, hi as int),
            find_from(w, pat@, 0) == find_from(w, pat@, (i - lo) as nat),
        decreases hi - i,
    {
        let found = matches_at(s, hi, pat, i);
        proof {
            assert(w.subrange(i - lo, i - lo + pat.len()) =~= s@.subrange(
                i as int,
                i + pat.len(),
            ));
        }
        if found {
            return Some(i);
        }
        proof {
            if pat.len() == 0 {
                assert(s@.subrange(i as int, i + pat.len()) =~= pat@);
            }
        }
        i = i + 1;
    }
    None
}

/// Skips every `c` at the start of the window `s[lo..hi]`; returns the new start.
pub fn trim_start_char_in(s: &Vec<char>, lo: usize, hi: usize, c: char) -> (r: usize)
    requires
        lo <= hi <= s.len(),
    ensures
        lo <= r <= hi,
        s@.subrange(r as int, hi as int) == trim_start_char(s@.subrange(lo as int, hi as int), c),
{
    let mut i: usize = lo;
    while i < hi && s[i] == c
        invariant
            lo <= i <= hi <= s.len(),
            trim_start_char(s@.subrange(i as int, hi as int), c) == trim_start_char(
                s@.subrange(lo as int, hi as int),
                c,
            ),
        decreases hi - i,
    {
        assert(s@.subrange(i as int, hi as int).drop_first() =~= s@.subrange(i + 1, hi as int));
        i = i + 1;
    }
    i
}

/// Removes every trailing repetition of `pat` from the window `s[lo..hi]`;
/// returns the new end.
pub fn trim_end_pattern_in(s: &Vec<char>, lo: usize, hi: usize, pat: &Vec<char>) -> (r: usize)
    requires
        lo <= hi <= s.len(),
        pat.len() > 0,
    ensures
        lo <= r <= hi,
        s@.subrange(lo as int, r as int) == trim_end_pattern(s@.subrange(lo as int, hi as int), pat@),
{
    let mut e: usize = hi;
    while pat.len() <= e - lo && matches_at(s, e, pat, e - pat.len())
        invariant
            lo <= e <= hi <= s.len(),
            pat.len() > 0,
            trim_end_pattern(s@.subrange(lo as int, e as int), pat@) == trim_end_pattern(
                s@.subrange(lo as int, hi as int),
                pat@,
            ),
        decreases e,
    {
        let ghost w = s@.subrange(lo as int, e as int);
        assert(w.skip(w.len() - pat.len()) =~= s@.subrange(e - pat.len(), e as int));
        assert(w.take(w.len() - pat.len()) =~= s@.subrange(lo as int, e - pat.len()));
        e = e - pat.len();
    }
    proof {
        let w = s@.subrange(lo as int, e as int);
        if pat.len() <= w.len() {
            assert(w.skip(w.len() - pat.len()) =~= s@.subrange(e - pat.len(), e as int));
        }
    }
    e
}

/// `s[lo..hi].parse::<usize>().ok()`.
pub fn parse_usize_in(s: &Vec<char>, lo: usize, hi: usize) -> (r: Option<usize>)
    requires
        lo <= hi <= s.len(),
    ensures
        r == parse_usize_spec(s@.subrange(lo as int, hi as int)),
{
    let ghost w = s@.subrange(lo as int, hi as int);
    let mut start: usize = lo;
    if lo < hi && s[lo] == '+' {
        start = lo + 1;
        assert(w.drop_first() =~= s@.subrange(start as int, hi as int));
    } else {
        assert(w =~= s@.subrange(start as int, hi as int));
    }
    let ghost d = s@.subrange(start as int, hi as int);
    if start >= hi {
        return None;
    }
    assert(parse_usize_spec(w) == (if all_ascii_digits(d) && digits_value(d) <= usize::MAX {
        Some(digits_value(d) as usize)
    } else {
        None
    }));
    let mut acc: usize = 0;
    let mut i: usize = start;
    assert(d.take(0) =~= Seq::<char>::empty());
    while i < hi
        invariant
            lo <= start <= i <= hi <= s.len(),
            start < hi,
            d == s@.subrange(start as int, hi as int),
            parse_usize_spec(s@.subrange(lo as int, hi as int)) == (if all_ascii_digits(d)
                && digits_value(d) <= usize::MAX {
                Some(digits_value(d) as usize)
            } else {
                None
            }),
            all_ascii_digits(d.take(i - start)),
            acc == digits_value(d.take(i - start)),
        decreases hi - i,
    {
        let c: char = s[i];
        if !('0' <= c && c <= '9') {
            assert(!is_ascii_digit(d[i - start]));
            return None;
        }
        let ghost k: int = i - start;
        assert(d.take(k + 1).drop_last() =~= d.take(k));
        assert(d.take(k + 1).last() == c);
        let dv: usize = (c as u32 - '0' as u32) as usize;
        assert(dv == digit_value(c));
        match acc.checked_mul(10) {
            None => {
                proof {
                    if all_ascii_digits(d) {
                        lemma_digits_value_prefix(d, k + 1);
                    }
                }
                return None;
            },
            Some(m) => match m.checked_add(dv) {
                None => {
                    proof {
                        if all_ascii_digits(d) {
                            lemma_digits_value_prefix(d, k + 1);
                        }
                    }
                    return None;
                },
                Some(v) => {
                    acc = v;
                },
            },
        }
        assert(all_ascii_digits(d.take(k + 1)));
        i = i + 1;
    }
    assert(d.take(i - start) =~= d);
    Some(acc)
}

/// Removes the trailing white space of the window `s[lo..hi]`; returns the
/// new end.
pub fn trim_end_white_space_in(s: &Vec<char>, lo: usize, hi: usize) -> (r: usize)
    requires
        lo <= hi <= s.len(),
    ensures
        lo <= r <= hi,
        s@.subrange(lo as int, r as int) == trim_end_white_space(s@.subrange(lo as int, hi as int)),
{
    let mut e: usize = hi;
    while e > lo && is_white_space_char(s[e - 1])
        invariant
            lo <= e <= hi <= s.len(),
            trim_end_white_space(s@.subrange(lo as int, e as int)) == trim_end_white_space(
                s@.subrange(lo as int, hi as int),
            ),
        decreases e,
    {
        assert(s@.subrange(lo as int, e as int).drop_last() =~= s@.subrange(lo as int, e - 1));
        e = e - 1;
    }
    e
}

/// `c.is_whitespace()`.
pub fn is_white_space_char(c: char) -> (r: bool)
    ensures
        r == is_white_space(c),
{
    c == '\t' || c == '\n' || c == '\u{0B}' || c == '\u{0C}' || c == '\r' || c == ' ' || c
        == '\u{85}' || c == '\u{A0}' || c == '\u{1680}' || ('\u{2000}' <= c && c <= '\u{200A}')
        || c == '\u{2028}' || c == '\u{2029}' || c == '\u{202F}' || c == '\u{205F}' || c
        == '\u{3000}'
}

} // verus!
