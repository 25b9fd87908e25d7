//! The window error types and the translation of minifb's errors into them,
//! including the recovery of the sizes from minifb's "buffer too small" message.
use vstd::prelude::*;

use crate::text::{
    decimal, is_ascii_digit, is_white_space, lemma_decimal, lemma_split_after_first,
    lemma_trim_end_white_space_after_digits, lemma_parse_decimal,
    lemma_split_after, lemma_split_none, lemma_trim_end_digits, lemma_trim_start_digits,
    occurs_at, chars_of, find_in, find_from, matches_at, parse_usize_in, parse_usize_spec, same_chars,
    split_piece, split_remainder, strip_prefix, trim_end_pattern, trim_end_pattern_in,
    trim_end_white_space, trim_end_white_space_in, trim_start_char, trim_start_char_in,
};

verus! {

broadcast use vstd::string::group_string_axioms;

/// Why a window could not be created.
#[derive(Debug, PartialEq, Eq)]
pub enum WindowCreationError {
    /// Transparency was asked for without the borderless property.
    TransparencyRequiresBorderlessProperty,
    /// The operating system refused to create the window.
    OsFailed,
    /// Any other reason, with the message that the backend gave.
    Misc(String),
}

/// Why a window could not be updated.
#[derive(Debug, PartialEq, Eq)]
pub enum WindowUpdateError {
    /// The pixel buffer handed over was smaller than its dimensions require.
    BufferInvalidSize {
        width: usize,
        stride: usize,
        height: usize,
        expected: usize,
        gotten: usize,
    },
    /// Any other reason, with the message that the backend gave.
    Misc(String),
}

/// The errors of the windowing backend.
#[derive(Debug, PartialEq, Eq)]
pub enum WindowError {
    /// A window (menu) of that kind already exists.
    DuplicateWindow,
    /// The operating system does not support the operation.
    OsNotSupported,
    /// The window could not be opened.
    FailedToOpenWindow(WindowCreationError),
    /// The window could not be updated.
    FailedToUpdateWindow(WindowUpdateError),
    /// A file that the operation needs could not be written or read.
    FileAccessNotPossible { path: String },
    /// The icon could not be loaded.
    UnableToLoadIcon,
    /// The operation is not implemented on this platform.
    NotImplemented,
    /// Any other failure, with a message.
    Misc(String),
}

/// The errors that minifb reports, as plain values.
#[derive(Debug, PartialEq, Eq)]
pub enum MinifbError {
    /// Menus are not supported.
    MenusNotSupported,
    /// The menu already exists.
    MenuExists(String),
    /// The window could not be created, with minifb's message.
    WindowCreate(String),
    /// The window could not be updated, with minifb's message.
    UpdateFailed(String),
}

// ---------------------------------------------------------------------------
// Window creation messages
// ---------------------------------------------------------------------------

/// minifb's message when transparency is asked for without `borderless`.
pub open spec fn transparency_message() -> Seq<char> {
    "Window transparency requires the borderless property"@
}

/// minifb's message when the operating system refuses the window.
pub open spec fn os_failed_message() -> Seq<char> {
    "Unable to create Window"@
}

/// `e` is the creation error that the message `msg` stands for.
pub open spec fn creation_error_for(msg: Seq<char>, e: WindowCreationError) -> bool {
    if msg == transparency_message() {
        e is TransparencyRequiresBorderlessProperty
    } else if msg == os_failed_message() {
        e is OsFailed
    } else {
        e matches WindowCreationError::Misc(m) && m@ == msg
    }
}

/// Translates minifb's window creation message into a [`WindowCreationError`]:
/// the two messages that minifb writes for known reasons become their own
/// variants, any other message is kept in `Misc`.
pub fn minifb_window_creation_error_to_error(error: &str) -> (r: WindowCreationError)
    ensures
        creation_error_for(error@, r),
{
    let msg = chars_of(error);
    let transparency = chars_of("Window transparency requires the borderless property");
    if same_chars(&msg, &transparency) {
        return WindowCreationError::TransparencyRequiresBorderlessProperty;
    }
    let os_failed = chars_of("Unable to create Window");
    if same_chars(&msg, &os_failed) {
        return WindowCreationError::OsFailed;
    }
    WindowCreationError::Misc(error.to_owned())
}

// ---------------------------------------------------------------------------
// The "buffer too small" message
// ---------------------------------------------------------------------------

/// The text before the sizes in the "buffer too small" update message.
pub open spec fn mismatch_prefix() -> Seq<char> {
    "Update failed because input buffer is too small. Required size for "@
}

/// What follows the stride in the stride field.
pub open spec fn stride_suffix() -> Seq<char> {
    " stride)"@
}

/// What separates the height from the required size.
pub open spec fn buffer_is() -> Seq<char> {
    " buffer is "@
}

/// What separates the required size from the actual size.
pub open spec fn size_separator() -> Seq<char> {
    " bytes but the size of the input buffer has the size "@
}

/// What follows the stride field: the end of `"({stride} stride)"` and the
/// `"x"` before the height.
pub open spec fn stride_close() -> Seq<char> {
    "stride) x "@
}

/// What follows the first two space-separated fields, up to the height:
/// `"x "`, or `"stride) x "` as minifb writes it (the rest of its
/// `"({stride} stride)"` field). Either is stripped.
pub open spec fn after_stride(fields: Seq<char>) -> Option<Seq<char>> {
    match strip_prefix(fields, seq!['x', ' ']) {
        Some(after_x) => Some(after_x),
        None => strip_prefix(fields, stride_close()),
    }
}

/// What ends the actual size.
pub open spec fn bytes_suffix() -> Seq<char> {
    " bytes"@
}

/// A piece of `s.split(pat)` parsed as a `usize`.
pub open spec fn parse_piece(s: Seq<char>, pat: Seq<char>, n: nat) -> Option<usize> {
    match split_piece(s, pat, n) {
        Some(t) => parse_usize_spec(t),
        None => None,
    }
}

/// The width, the stride and what follows the `"x"` before the height, read
/// from the text after the prefix: the first two space-separated fields are
/// the width and the stride (with its leading `(`s and trailing `" stride)"`s
/// trimmed), and the rest of the fields, joined again, must start with `"x "`
/// or `"stride) x "` ([`after_stride`]).
pub open spec fn sizes_head(rest: Seq<char>) -> Option<(usize, usize, Seq<char>)> {
    let sp = seq![' '];
    let stride = match split_piece(rest, sp, 1) {
        Some(t) => parse_usize_spec(trim_end_pattern(trim_start_char(t, '('), stride_suffix())),
        None => None,
    };
    match (
        parse_piece(rest, sp, 0),
        stride,
        after_stride(split_remainder(rest, sp, 2)),
    ) {
        (Some(w), Some(st), Some(after_x)) => Some((w, st, after_x)),
        _ => None,
    }
}

/// The height and the text after `" buffer is "`: the first two pieces of the
/// split at `" buffer is "`.
pub open spec fn sizes_middle(after_x: Seq<char>) -> Option<(usize, Seq<char>)> {
    match (parse_piece(after_x, buffer_is(), 0), split_piece(after_x, buffer_is(), 1)) {
        (Some(h), Some(rest2)) => Some((h, rest2)),
        _ => None,
    }
}

/// The required and the actual size: the first two pieces of the split at the
/// size separator, the first with its trailing white space trimmed (the
/// line break and indentation before `"bytes"`), the second with its trailing
/// `" bytes"`s trimmed.
pub open spec fn sizes_tail(rest2: Seq<char>) -> Option<(usize, usize)> {
    let actual = match split_piece(rest2, size_separator(), 1) {
        Some(t) => parse_usize_spec(trim_end_pattern(t, bytes_suffix())),
        None => None,
    };
    let required = match split_piece(rest2, size_separator(), 0) {
        Some(t) => parse_usize_spec(trim_end_white_space(t)),
        None => None,
    };
    match (required, actual) {
        (Some(req), Some(act)) => Some((req, act)),
        _ => None,
    }
}

/// What [`parse_update_buffer_size_mismatch_error`] returns on `input`:
/// `(width, stride, height, required, actual)` read from the "buffer too small"
/// message, or `None` when any step of the reading fails.
pub open spec fn spec_parse_mismatch(input: Seq<char>) -> Option<
    (usize, usize, usize, usize, usize),
> {
    match strip_prefix(input, mismatch_prefix()) {
        None => None,
        Some(rest) => match sizes_head(rest) {
            None => None,
            Some((w, st, after_x)) => match sizes_middle(after_x) {
                None => None,
                Some((h, rest2)) => match sizes_tail(rest2) {
                    None => None,
                    Some((req, act)) => Some((w, st, h, req, act)),
                },
            },
        },
    }
}

/// The five numeric fields of a "buffer too small" message as text, trimmed
/// as the reader trims them: width, stride, height, required and actual size;
/// `None` when the prefix or a separator is missing.
pub open spec fn mismatch_fields(input: Seq<char>) -> Option<
    (Seq<char>, Seq<char>, Seq<char>, Seq<char>, Seq<char>),
> {
    let sp = seq![' '];
    match strip_prefix(input, mismatch_prefix()) {
        None => None,
        Some(rest) => match (
            split_piece(rest, sp, 0),
            split_piece(rest, sp, 1),
            after_stride(split_remainder(rest, sp, 2)),
        ) {
            (Some(wt), Some(st), Some(after_x)) => match (
                split_piece(after_x, buffer_is(), 0),
                split_piece(after_x, buffer_is(), 1),
            ) {
                (Some(ht), Some(rest2)) => match (
                    split_piece(rest2, size_separator(), 0),
                    split_piece(rest2, size_separator(), 1),
                ) {
                    (Some(rt), Some(at)) => Some(
                        (
                            wt,
                            trim_end_pattern(trim_start_char(st, '('), stride_suffix()),
                            ht,
                            trim_end_white_space(rt),
                            trim_end_pattern(at, bytes_suffix()),
                        ),
                    ),
                    _ => None,
                },
                _ => None,
            },
            _ => None,
        },
    }
}

/// The reader gives sizes exactly when the message has its five fields and
/// each of them parses as a `usize` (an optional `+` and decimal digits, at
/// most `usize::MAX`), and then it gives their values; a field that does not
/// parse makes the whole result `None`.
pub proof fn law_parse_is_fields_parsed(input: Seq<char>)
    ensures
        spec_parse_mismatch(input) == match mismatch_fields(input) {
            None => None,
            Some((wt, st, ht, rt, at)) => match (
                parse_usize_spec(wt),
                parse_usize_spec(st),
                parse_usize_spec(ht),
                parse_usize_spec(rt),
                parse_usize_spec(at),
            ) {
                (Some(w), Some(s), Some(h), Some(r), Some(a)) => Some((w, s, h, r, a)),
                _ => None,
            },
        },
{
}

/// One character as a pattern.
fn single_char(c: char) -> (v: Vec<char>)
    ensures
        v@ == seq![c],
{
    let mut v: Vec<char> = Vec::new();
    v.push(c);
    assert(v@ =~= seq![c]);
    v
}

/// End of the first piece of the split of `s[lo..hi]` at `pat`, and the start
/// of the rest when the pattern occurs.
fn first_piece(s: &Vec<char>, pat: &Vec<char>, lo: usize, hi: usize) -> (r: (usize, Option<usize>))
    requires
        lo <= hi <= s.len(),
    ensures
        lo <= r.0 <= hi,
        split_piece(s@.subrange(lo as int, hi as int), pat@, 0) == Some(
            s@.subrange(lo as int, r.0 as int),
        ),
        match r.1 {
            Some(next) => r.0 + pat.len() == next && next <= hi && s@.subrange(
                lo as int,
                hi as int,
            ).skip(next - lo) == s@.subrange(next as int, hi as int) && find_from(
                s@.subrange(lo as int, hi as int),
                pat@,
                0,
            ) == Some((r.0 - lo) as nat),
            None => r.0 == hi && find_from(s@.subrange(lo as int, hi as int), pat@, 0) is None,
        },
{
    let ghost w = s@.subrange(lo as int, hi as int);
    match find_in(s, pat, lo, hi) {
        Some(i) => {
            proof {
                crate::text::lemma_find_from(w, pat@, 0);
                assert(w.take(i - lo) =~= s@.subrange(lo as int, i as int));
                assert(w.skip(i - lo + pat.len()) =~= s@.subrange(i + pat.len(), hi as int));
            }
            (i, Some(i + pat.len()))
        },
        None => {
            assert(w =~= s@.subrange(lo as int, hi as int));
            (hi, None)
        },
    }
}

/// The width, the stride, and the start of the text after `"stride) x "`, read from
/// `s[lo..]`.
fn parse_sizes_head(s: &Vec<char>, lo: usize) -> (r: Option<(usize, usize, usize)>)
    requires
        lo <= s.len(),
    ensures
        match r {
            Some((w, st, a)) => lo <= a <= s.len() && sizes_head(s@.subrange(lo as int, s.len() as int))
                == Some((w, st, s@.subrange(a as int, s.len() as int))),
            None => sizes_head(s@.subrange(lo as int, s.len() as int)) is None,
        },
{
    let n: usize = s.len();
    let ghost rest = s@.subrange(lo as int, n as int);
    let sp = single_char(' ');
    let (e1, next1) = first_piece(s, &sp, lo, n);
    let width = parse_usize_in(s, lo, e1);
    let start2: usize = match next1 {
        Some(x) => x,
        None => {
            assert(split_piece(rest, sp@, 1) is None);
            return None;
        },
    };
    let ghost rest1 = s@.subrange(start2 as int, n as int);
    assert(split_piece(rest, sp@, 1) == split_piece(rest1, sp@, 0));
    assert(split_remainder(rest, sp@, 2) == split_remainder(rest1, sp@, 1));
    let (e2, next2) = first_piece(s, &sp, start2, n);
    let paren_end: usize = trim_start_char_in(s, start2, e2, '(');
    let stride_suffix_chars = chars_of(" stride)");
    proof {
        reveal_strlit(" stride)");
    }
    let stride_end: usize = trim_end_pattern_in(s, paren_end, e2, &stride_suffix_chars);
    let stride = parse_usize_in(s, paren_end, stride_end);
    let start3: usize = match next2 {
        Some(x) => x,
        None => {
            assert(split_remainder(rest1, sp@, 1) =~= Seq::<char>::empty());
            proof {
                reveal_strlit("stride) x ");
                assert(strip_prefix(Seq::<char>::empty(), seq!['x', ' ']) is None);
            }
            return None;
        },
    };
    proof {
        let rest2 = s@.subrange(start3 as int, n as int);
        assert(split_remainder(rest1, sp@, 1) == split_remainder(rest2, sp@, 0));
    }
    let xs = {
        let mut v: Vec<char> = Vec::new();
        v.push('x');
        v.push(' ');
        v
    };
    assert(xs@ =~= seq!['x', ' ']);
    let close = chars_of("stride) x ");
    let after = match strip_prefix_at(s, &xs, start3) {
        Some(a) => Some(a),
        None => strip_prefix_at(s, &close, start3),
    };
    match (width, stride, after) {
        (Some(w), Some(st), Some(a)) => Some((w, st, a)),
        _ => None,
    }
}

/// Where the text after `pat` starts when `s[at..]` starts with `pat`.
fn strip_prefix_at(s: &Vec<char>, pat: &Vec<char>, at: usize) -> (r: Option<usize>)
    requires
        at <= s.len(),
    ensures
        match r {
            Some(a) => at <= a <= s.len() && strip_prefix(
                s@.subrange(at as int, s.len() as int),
                pat@,
            ) == Some(s@.subrange(a as int, s.len() as int)),
            None => strip_prefix(s@.subrange(at as int, s.len() as int), pat@) is None,
        },
{
    let n: usize = s.len();
    let found = matches_at(s, n, pat, at);
    proof {
        let t = s@.subrange(at as int, n as int);
        if at + pat@.len() <= n {
            assert(t.take(pat@.len() as int) =~= s@.subrange(at as int, at + pat@.len()));
            assert(t.skip(pat@.len() as int) =~= s@.subrange(at + pat@.len(), n as int));
        }
    }
    if found {
        Some(at + pat.len())
    } else {
        None
    }
}

/// The height and the window `s[a..b]` of the text after `" buffer is "`, read
/// from `s[lo..]`.
fn parse_sizes_middle(s: &Vec<char>, lo: usize) -> (r: Option<(usize, usize, usize)>)
    requires
        lo <= s.len(),
    ensures
        match r {
            Some((h, a, b)) => lo <= a <= b <= s.len() && sizes_middle(
                s@.subrange(lo as int, s.len() as int),
            ) == Some((h, s@.subrange(a as int, b as int))),
            None => sizes_middle(s@.subrange(lo as int, s.len() as int)) is None,
        },
{
    let n: usize = s.len();
    let ghost ax = s@.subrange(lo as int, n as int);
    let bi = chars_of(" buffer is ");
    let (e1, next1) = first_piece(s, &bi, lo, n);
    let height = parse_usize_in(s, lo, e1);
    let start2: usize = match next1 {
        Some(x) => x,
        None => {
            assert(split_piece(ax, bi@, 1) is None);
            return None;
        },
    };
    assert(split_piece(ax, bi@, 1) == split_piece(s@.subrange(start2 as int, n as int), bi@, 0));
    let (e2, _next2) = first_piece(s, &bi, start2, n);
    match height {
        Some(h) => Some((h, start2, e2)),
        None => None,
    }
}

/// The required and the actual size, read from the window `s[lo..hi]`.
fn parse_sizes_tail(s: &Vec<char>, lo: usize, hi: usize) -> (r: Option<(usize, usize)>)
    requires
        lo <= hi <= s.len(),
    ensures
        r == sizes_tail(s@.subrange(lo as int, hi as int)),
{
    let ghost rest2 = s@.subrange(lo as int, hi as int);
    let sep = chars_of(" bytes but the size of the input buffer has the size ");
    let (e1, next1) = first_piece(s, &sep, lo, hi);
    let required_end: usize = trim_end_white_space_in(s, lo, e1);
    let required = parse_usize_in(s, lo, required_end);
    let start2: usize = match next1 {
        Some(x) => x,
        None => {
            assert(split_piece(rest2, sep@, 1) is None);
            return None;
        },
    };
    assert(split_piece(rest2, sep@, 1) == split_piece(
        s@.subrange(start2 as int, hi as int),
        sep@,
        0,
    ));
    let (e2, _next2) = first_piece(s, &sep, start2, hi);
    let bytes = chars_of(" bytes");
    proof {
        reveal_strlit(" bytes");
    }
    let actual_end: usize = trim_end_pattern_in(s, start2, e2, &bytes);
    let actual = parse_usize_in(s, start2, actual_end);
    match (required, actual) {
        (Some(req), Some(act)) => Some((req, act)),
        _ => None,
    }
}

/// Reads `(width, stride, height, required, actual)` back out of minifb's
/// "buffer too small" update message, whose wording is
/// `"... Required size for {w} ({s} stride) x {h} buffer is {r}\n            bytes
/// but the size of the input buffer has the size {a} bytes"`. After the fixed
/// prefix, the width and the stride are the first two space-separated fields
/// (the stride with `(` and `" stride)"` trimmed), the rest must start with
/// `"x "` or `"stride) x "`, the height runs up to `" buffer is "`, the required size up
/// to `" bytes but the size of the input buffer has the size "` (with the white
/// space before it trimmed), and the actual size up to the next such separator,
/// with `" bytes"` trimmed. Any step that fails gives `None`.
pub fn parse_update_buffer_size_mismatch_error(input: &str) -> (r: Option<
    (usize, usize, usize, usize, usize),
>)
    ensures
        r == spec_parse_mismatch(input@),
{
    let s = chars_of(input);
    let n: usize = s.len();
    let prefix = chars_of("Update failed because input buffer is too small. Required size for ");
    if !matches_at(&s, n, &prefix, 0) {
        proof {
            if prefix@.len() <= input@.len() {
                assert(input@.take(prefix@.len() as int) =~= s@.subrange(0, prefix@.len() as int));
            }
        }
        return None;
    }
    let lo: usize = prefix.len();
    assert(input@.take(lo as int) =~= s@.subrange(0, lo as int));
    assert(input@.skip(lo as int) =~= s@.subrange(lo as int, n as int));
    let (width, stride, a) = match parse_sizes_head(&s, lo) {
        Some(t) => t,
        None => {
            return None;
        },
    };
    let (height, b0, b1) = match parse_sizes_middle(&s, a) {
        Some(t) => t,
        None => {
            return None;
        },
    };
    match parse_sizes_tail(&s, b0, b1) {
        Some((required, actual)) => Some((width, stride, height, required, actual)),
        None => None,
    }
}

/// minifb's "buffer too small" message for the given sizes, exactly as minifb
/// formats it: a line break and twelve spaces stand before `"bytes but"`.
pub open spec fn minifb_mismatch_message(
    width: usize,
    stride: usize,
    height: usize,
    required: usize,
    actual: usize,
) -> Seq<char> {
    mismatch_prefix() + decimal(width as nat) + " ("@ + decimal(stride as nat) + " stride) x "@
        + decimal(height as nat) + " buffer is "@ + decimal(required as nat)
        + "\n            bytes but the size of the input buffer has the size "@ + decimal(
        actual as nat,
    ) + " bytes"@
}

/// The same message on one line: a single space before `"bytes but"`.
pub open spec fn one_line_mismatch_message(
    width: usize,
    stride: usize,
    height: usize,
    required: usize,
    actual: usize,
) -> Seq<char> {
    mismatch_prefix() + decimal(width as nat) + " ("@ + decimal(stride as nat) + " stride) x "@
        + decimal(height as nat) + " buffer is "@ + decimal(required as nat)
        + " bytes but the size of the input buffer has the size "@ + decimal(actual as nat)
        + " bytes"@
}

/// The message for the given sizes, with `gap` (white space) standing between
/// the required size and the separator `" bytes but the size of the input
/// buffer has the size "`.
pub open spec fn mismatch_message_with_gap(
    width: usize,
    stride: usize,
    height: usize,
    required: usize,
    actual: usize,
    gap: Seq<char>,
) -> Seq<char> {
    mismatch_prefix() + decimal(width as nat) + seq![' ', '('] + decimal(stride as nat) + seq![' ']
        + stride_close() + decimal(height as nat) + buffer_is() + decimal(required as nat) + gap
        + size_separator() + decimal(actual as nat) + bytes_suffix()
}

/// `gap` is all white space.
pub open spec fn all_white_space(gap: Seq<char>) -> bool {
    forall|i: int| 0 <= i < gap.len() ==> is_white_space(#[trigger] gap[i])
}

/// `" buffer is "` does not occur in the text that follows it in the message.
proof fn lemma_no_buffer_is(required: usize, actual: usize, gap: Seq<char>)
    requires
        all_white_space(gap),
    ensures
        forall|j: int|
            0 <= j ==> !#[trigger] occurs_at(
                decimal(required as nat) + gap + size_separator() + decimal(actual as nat)
                    + bytes_suffix(),
                buffer_is(),
                j,
            ),
{
    reveal_strlit(" buffer is ");
    reveal_strlit(" bytes but the size of the input buffer has the size ");
    reveal_strlit(" bytes");
    lemma_decimal(required as nat);
    lemma_decimal(actual as nat);
    let dr = decimal(required as nat);
    let da = decimal(actual as nat);
    let sep = size_separator();
    let t = dr + gap + sep + da + bytes_suffix();
    let bi = buffer_is();
    let g = gap.len();
    assert(sep.len() == 53);
    assert forall|j: int| 0 <= j implies !#[trigger] occurs_at(t, bi, j) by {
        if occurs_at(t, bi, j) {
            let w = t.subrange(j, j + 11);
            assert(w[0] == t[j] && w[1] == t[j + 1] && w[2] == t[j + 2] && w[3] == t[j + 3]
                && w[8] == t[j + 8]);
            assert(t[j] == ' ' && t[j + 1] == 'b' && t[j + 2] == 'u' && t[j + 3] == 'f' && t[j
                + 8] == 'i');
            if j < dr.len() {
                assert(is_ascii_digit(dr[j]));
            } else if j < dr.len() + g {
                if j + 1 < dr.len() + g {
                    assert(t[j + 1] == gap[j + 1 - dr.len()]);
                    assert(is_white_space(gap[j + 1 - dr.len()]));
                } else {
                    assert(t[j + 1] == sep[0]);
                }
            } else if j < dr.len() + g + 53 {
                let k = j - dr.len() - g;
                assert(t[j] == sep[k]);
                if k == 52 {
                    assert(t[j + 1] == da[0]);
                    assert(is_ascii_digit(da[0]));
                } else {
                    assert(t[j + 1] == sep[k + 1]);
                    if k + 3 < 53 {
                        assert(t[j + 2] == sep[k + 2]);
                        assert(t[j + 3] == sep[k + 3]);
                    }
                    if k + 8 < 53 {
                        assert(t[j + 8] == sep[k + 8]);
                    }
                }
            } else if j < dr.len() + g + 53 + da.len() {
                assert(is_ascii_digit(da[j - dr.len() - g - 53]));
            }
        }
    }
}

/// The first fields: width and stride, then the rest after `"stride) x "`.
proof fn lemma_sizes_head(width: usize, stride: usize, tail: Seq<char>)
    ensures
        sizes_head(decimal(width as nat) + seq![' ', '('] + decimal(stride as nat) + seq![' ']
            + stride_close() + tail) == Some((width, stride, tail)),
{
    reveal_strlit(" stride)");
    lemma_decimal(width as nat);
    lemma_decimal(stride as nat);
    lemma_parse_decimal(width);
    lemma_parse_decimal(stride);
    let dw = decimal(width as nat);
    let ds = decimal(stride as nat);
    let sp = seq![' '];
    let field2 = seq!['('] + ds;
    let after = stride_close() + tail;
    let rest1 = field2 + sp + after;
    let rest = dw + sp + rest1;
    assert(rest =~= dw + seq![' ', '('] + ds + seq![' '] + stride_close() + tail);
    lemma_split_after(dw, sp, rest1);
    assert forall|i: int| 0 <= i < field2.len() implies field2[i] != sp[0] by {
        if i > 0 {
            assert(field2[i] == ds[i - 1]);
        }
    }
    lemma_split_after(field2, sp, after);
    assert(split_remainder(after, sp, 0) == after);
    assert(field2.drop_first() =~= ds);
    assert(trim_start_char(field2, '(') == trim_start_char(ds, '('));
    lemma_trim_start_digits(ds, '(');
    lemma_trim_end_digits(ds, stride_suffix());
    reveal_strlit("stride) x ");
    assert(after[0] == 's');
    assert(after.take(2)[0] == 's');
    assert(strip_prefix(after, seq!['x', ' ']) is None);
    assert(after.take(stride_close().len() as int) =~= stride_close());
    assert(after.skip(stride_close().len() as int) =~= tail);
}

/// The height, then the rest after `" buffer is "`.
proof fn lemma_sizes_middle(height: usize, rest2: Seq<char>)
    requires
        forall|j: int| 0 <= j ==> !#[trigger] occurs_at(rest2, buffer_is(), j),
    ensures
        sizes_middle(decimal(height as nat) + buffer_is() + rest2) == Some((height, rest2)),
{
    reveal_strlit(" buffer is ");
    lemma_decimal(height as nat);
    lemma_parse_decimal(height);
    let dh = decimal(height as nat);
    assert forall|i: int| 0 <= i < dh.len() implies dh[i] != buffer_is()[0] by {
        assert(is_ascii_digit(dh[i]));
    }
    lemma_split_after(dh, buffer_is(), rest2);
    lemma_split_none(rest2, buffer_is());
}

/// The required and the actual size.
proof fn lemma_sizes_tail(required: usize, actual: usize, gap: Seq<char>)
    requires
        all_white_space(gap),
    ensures
        sizes_tail((decimal(required as nat) + gap) + size_separator() + (decimal(actual as nat)
            + bytes_suffix())) == Some((required, actual)),
{
    reveal_strlit(" bytes but the size of the input buffer has the size ");
    reveal_strlit(" bytes");
    lemma_decimal(required as nat);
    lemma_decimal(actual as nat);
    lemma_parse_decimal(required);
    lemma_parse_decimal(actual);
    let dr = decimal(required as nat);
    let da = decimal(actual as nat);
    let d = dr + gap;
    let sep = size_separator();
    let t = da + bytes_suffix();
    let s = d + sep + t;
    assert forall|j: int| 0 <= j < d.len() implies !#[trigger] occurs_at(s, sep, j) by {
        if occurs_at(s, sep, j) {
            let w = s.subrange(j, j + 53);
            assert(w[0] == s[j] && w[1] == s[j + 1]);
            if j < dr.len() {
                assert(s[j] == dr[j]);
                assert(is_ascii_digit(dr[j]));
            } else if j + 1 < d.len() {
                assert(s[j + 1] == gap[j + 1 - dr.len()]);
                assert(is_white_space(gap[j + 1 - dr.len()]));
            } else {
                assert(s[j + 1] == sep[0]);
            }
        }
    }
    lemma_split_after_first(d, sep, t);
    assert forall|j: int| 0 <= j implies !#[trigger] occurs_at(t, sep, j) by {
        if occurs_at(t, sep, j) {
            assert(t.subrange(j, j + 53)[0] == t[j]);
            assert(t[j] == da[j]);
            assert(is_ascii_digit(da[j]));
        }
    }
    lemma_split_none(t, sep);
    lemma_trim_end_white_space_after_digits(dr, gap);
    let bytes = bytes_suffix();
    assert(t.skip(t.len() - bytes.len()) =~= bytes);
    assert(t.take(t.len() - bytes.len()) =~= da);
    assert(trim_end_pattern(t, bytes) == trim_end_pattern(da, bytes));
    lemma_trim_end_digits(da, bytes);
}

/// Reading the sizes back out of the message that states them, with any white
/// space before `"bytes but"`, gives them back.
pub proof fn law_parse_mismatch_round_trip(
    width: usize,
    stride: usize,
    height: usize,
    required: usize,
    actual: usize,
    gap: Seq<char>,
)
    requires
        all_white_space(gap),
    ensures
        spec_parse_mismatch(mismatch_message_with_gap(width, stride, height, required, actual, gap))
            == Some((width, stride, height, required, actual)),
{
    let dr = decimal(required as nat);
    let da = decimal(actual as nat);
    let rest2 = dr + gap + size_separator() + da + bytes_suffix();
    let middle = decimal(height as nat) + buffer_is() + rest2;
    let rest = decimal(width as nat) + seq![' ', '('] + decimal(stride as nat) + seq![' ']
        + stride_close() + middle;
    let msg = mismatch_message_with_gap(width, stride, height, required, actual, gap);
    assert(msg =~= mismatch_prefix() + rest);
    assert(msg.take(mismatch_prefix().len() as int) =~= mismatch_prefix());
    assert(msg.skip(mismatch_prefix().len() as int) =~= rest);
    lemma_sizes_head(width, stride, middle);
    lemma_no_buffer_is(required, actual, gap);
    lemma_sizes_middle(height, rest2);
    assert(rest2 =~= (dr + gap) + size_separator() + (da + bytes_suffix()));
    lemma_sizes_tail(required, actual, gap);
}

/// Reading the sizes back out of minifb's message gives back the sizes that
/// minifb wrote into it.
pub proof fn law_parse_minifb_message(
    width: usize,
    stride: usize,
    height: usize,
    required: usize,
    actual: usize,
)
    ensures
        spec_parse_mismatch(minifb_mismatch_message(width, stride, height, required, actual))
            == Some((width, stride, height, required, actual)),
{
    reveal_strlit(" (");
    reveal_strlit(" stride) x ");
    reveal_strlit("stride) x ");
    reveal_strlit("\n           ");
    reveal_strlit("\n            bytes but the size of the input buffer has the size ");
    reveal_strlit(" bytes but the size of the input buffer has the size ");
    let gap = "\n           "@;
    assert(" ("@ =~= seq![' ', '(']);
    assert(" stride) x "@ =~= seq![' '] + stride_close());
    assert("\n            bytes but the size of the input buffer has the size "@ =~= gap
        + size_separator());
    assert(all_white_space(gap));
    assert(minifb_mismatch_message(width, stride, height, required, actual)
        =~= mismatch_message_with_gap(width, stride, height, required, actual, gap));
    law_parse_mismatch_round_trip(width, stride, height, required, actual, gap);
}

/// Reading the sizes back out of the one-line message gives them back.
pub proof fn law_parse_one_line_message(
    width: usize,
    stride: usize,
    height: usize,
    required: usize,
    actual: usize,
)
    ensures
        spec_parse_mismatch(one_line_mismatch_message(width, stride, height, required, actual))
            == Some((width, stride, height, required, actual)),
{
    reveal_strlit(" (");
    reveal_strlit(" stride) x ");
    reveal_strlit("stride) x ");
    assert(" ("@ =~= seq![' ', '(']);
    assert(" stride) x "@ =~= seq![' '] + stride_close());
    let gap = Seq::<char>::empty();
    assert(one_line_mismatch_message(width, stride, height, required, actual)
        =~= mismatch_message_with_gap(width, stride, height, required, actual, gap));
    law_parse_mismatch_round_trip(width, stride, height, required, actual, gap);
}

/// minifb's update message becomes `BufferInvalidSize` with the sizes that it
/// states.
pub proof fn law_update_error_of_minifb_message(
    width: usize,
    stride: usize,
    height: usize,
    required: usize,
    actual: usize,
    e: WindowUpdateError,
)
    requires
        update_error_for(minifb_mismatch_message(width, stride, height, required, actual), e),
    ensures
        e == (WindowUpdateError::BufferInvalidSize {
            width,
            stride,
            height,
            expected: required,
            gotten: actual,
        }),
{
    law_parse_minifb_message(width, stride, height, required, actual);
}

/// `e` is the update error that the message `msg` stands for.
pub open spec fn update_error_for(msg: Seq<char>, e: WindowUpdateError) -> bool {
    match spec_parse_mismatch(msg) {
        Some((w, st, h, req, act)) => e == (WindowUpdateError::BufferInvalidSize {
            width: w,
            stride: st,
            height: h,
            expected: req,
            gotten: act,
        }),
        None => e matches WindowUpdateError::Misc(m) && m@ == msg,
    }
}

/// Translates minifb's update message into a [`WindowUpdateError`]: the
/// "buffer too small" message becomes `BufferInvalidSize` with the sizes it
/// states, any other message is kept in `Misc`.
pub fn minifb_window_update_error_to_error(error: &str) -> (r: WindowUpdateError)
    ensures
        update_error_for(error@, r),
{
    match parse_update_buffer_size_mismatch_error(error) {
        Some((width, stride, height, expected, gotten)) => WindowUpdateError::BufferInvalidSize {
            width,
            stride,
            height,
            expected,
            gotten,
        },
        None => WindowUpdateError::Misc(error.to_owned()),
    }
}

/// `r` is the window error that the minifb error `e` stands for.
pub open spec fn window_error_for(e: MinifbError, r: WindowError) -> bool {
    match e {
        MinifbError::MenuExists(_) => r is DuplicateWindow,
        MinifbError::MenusNotSupported => r is OsNotSupported,
        MinifbError::WindowCreate(reason) => r matches WindowError::FailedToOpenWindow(c)
            && creation_error_for(reason@, c),
        MinifbError::UpdateFailed(reason) => r matches WindowError::FailedToUpdateWindow(u)
            && update_error_for(reason@, u),
    }
}

/// Translates a minifb error into a [`WindowError`].
pub fn minifb_error_to_error(error: &MinifbError) -> (r: WindowError)
    ensures
        window_error_for(*error, r),
{
    match error {
        MinifbError::MenuExists(_) => WindowError::DuplicateWindow,
        MinifbError::MenusNotSupported => WindowError::OsNotSupported,
        MinifbError::WindowCreate(reason) => WindowError::FailedToOpenWindow(
            minifb_window_creation_error_to_error(reason.as_str()),
        ),
        MinifbError::UpdateFailed(reason) => WindowError::FailedToUpdateWindow(
            minifb_window_update_error_to_error(reason.as_str()),
        ),
    }
}

/// minifb's two creation messages for known reasons become their own
/// variants, and any other message is kept, unchanged, in `Misc`.
pub proof fn law_creation_messages(msg: Seq<char>, e: WindowCreationError)
    requires
        creation_error_for(msg, e),
    ensures
        msg == "Window transparency requires the borderless property"@ ==> e
            == WindowCreationError::TransparencyRequiresBorderlessProperty,
        msg == "Unable to create Window"@ && msg
            != "Window transparency requires the borderless property"@ ==> e
            == WindowCreationError::OsFailed,
        msg != "Window transparency requires the borderless property"@ && msg
            != "Unable to create Window"@ ==> (e matches WindowCreationError::Misc(m) && m@ == msg),
{
}

/// An update message that does not state the sizes is kept, unchanged, in
/// `Misc`; one that does becomes `BufferInvalidSize` with its width, stride,
/// height, required size as `expected` and actual size as `gotten`.
pub proof fn law_update_messages(msg: Seq<char>, e: WindowUpdateError)
    requires
        update_error_for(msg, e),
    ensures
        spec_parse_mismatch(msg) is None ==> (e matches WindowUpdateError::Misc(m) && m@ == msg),
        spec_parse_mismatch(msg) matches Some((w, st, h, req, act)) ==> e
            == (WindowUpdateError::BufferInvalidSize {
            width: w,
            stride: st,
            height: h,
            expected: req,
            gotten: act,
        }),
{
}

/// Each minifb error becomes the window error of the same meaning: an existing
/// menu a duplicate, unsupported menus an unsupported operation, a creation
/// failure a failure to open with its message translated, an update failure a
/// failure to update with its message translated.
pub proof fn law_minifb_errors(e: MinifbError, r: WindowError)
    requires
        window_error_for(e, r),
    ensures
        e is MenuExists ==> r == WindowError::DuplicateWindow,
        e is MenusNotSupported ==> r == WindowError::OsNotSupported,
        e matches MinifbError::WindowCreate(reason) ==> (r matches WindowError::FailedToOpenWindow(c)
            && creation_error_for(reason@, c)),
        e matches MinifbError::UpdateFailed(reason) ==> (r matches WindowError::FailedToUpdateWindow(u)
            && update_error_for(reason@, u)),
{
}

} // verus!
