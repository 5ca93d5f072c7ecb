//! Lexical primitives: character classes, whitespace and comments, identifiers,
//! numeric literals and quoted strings.
use vstd::prelude::*;

use crate::text::push_char;

verus! {

/// What a lexical scan reads at a position: a value and the position after it,
/// or a failure that consumed nothing (`Empty`) or that did (`Failed`).
pub enum SpecStep<V> {
    Done(V, int),
    Empty,
    Failed,
}

/// A grammar error: where it happened, what stood there and what was expected.
#[derive(Debug, PartialEq, Eq)]
pub struct ParseError {
    pub position: usize,
    pub unexpected: Option<char>,
    pub expected: String,
}

/// The result of running one production at a position.
#[derive(Debug)]
pub enum Step<T> {
    Done(T, usize),
    Empty(ParseError),
    Failed(ParseError),
}

impl<T: View> View for Step<T> {
    type V = SpecStep<T::V>;

    open spec fn view(&self) -> SpecStep<T::V> {
        match self {
            Step::Done(v, e) => SpecStep::Done(v@, *e as int),
            Step::Empty(_) => SpecStep::Empty,
            Step::Failed(_) => SpecStep::Failed,
        }
    }
}

impl<T> Step<T> {
    pub open spec fn end(&self) -> int {
        match self {
            Step::Done(_, e) => *e as int,
            _ => -1,
        }
    }
}

/// Builds the error for a production that expected `what` at position `p`.
pub fn error_at(s: &Vec<char>, p: usize, what: &str) -> (r: ParseError)
    ensures
        r.position == p,
        r.expected@ == what@,
        p < s@.len() ==> r.unexpected == Some(s@[p as int]),
        p >= s@.len() ==> r.unexpected is None,
{
    let unexpected = if p < s.len() {
        Some(s[p])
    } else {
        None
    };
    ParseError { position: p, unexpected, expected: String::from_str(what) }
}

/// Whitespace as `char::is_whitespace` defines it (the Unicode `White_Space` property).
pub open spec fn is_ws_char(c: char) -> bool {
    ('\u{9}' <= c && c <= '\u{d}') || c == ' ' || c == '\u{85}' || c == '\u{a0}' || c
        == '\u{1680}' || ('\u{2000}' <= c && c <= '\u{200a}') || c == '\u{2028}' || c
        == '\u{2029}' || c == '\u{202f}' || c == '\u{205f}' || c == '\u{3000}'
}

pub fn is_whitespace(c: char) -> (r: bool)
    ensures
        r == is_ws_char(c),
{
    ('\u{9}' <= c && c <= '\u{d}') || c == ' ' || c == '\u{85}' || c == '\u{a0}' || c
        == '\u{1680}' || ('\u{2000}' <= c && c <= '\u{200a}') || c == '\u{2028}' || c
        == '\u{2029}' || c == '\u{202f}' || c == '\u{205f}' || c == '\u{3000}'
}

pub open spec fn is_ascii_letter(c: char) -> bool {
    ('a' <= c && c <= 'z') || ('A' <= c && c <= 'Z')
}

pub open spec fn is_digit(c: char) -> bool {
    '0' <= c && c <= '9'
}

/// What `char::is_alphabetic` answers for `c`.
pub uninterp spec fn alphabetic(c: char) -> bool;

/// What `char::is_alphanumeric` answers for `c`.
pub uninterp spec fn alphanumeric(c: char) -> bool;

/// Relies on `char::is_alphabetic`: whether `c` has the Unicode `Alphabetic` property.
#[verifier::external_body]
fn char_is_alphabetic(c: char) -> (r: bool)
    ensures
        r == alphabetic(c),
{
    c.is_alphabetic()
}

/// Relies on `char::is_alphanumeric`: whether `c` is `Alphabetic` or `Numeric`.
#[verifier::external_body]
fn char_is_alphanumeric(c: char) -> (r: bool)
    ensures
        r == alphanumeric(c),
{
    c.is_alphanumeric()
}

/// A letter, `_` or `$` (beyond ASCII: an alphabetic character).
pub open spec fn is_id_start(c: char) -> bool {
    if c <= '\u{7f}' {
        is_ascii_letter(c) || c == '_' || c == '$'
    } else {
        alphabetic(c)
    }
}

/// A letter, a digit, `_` or `$` (beyond ASCII: an alphanumeric character).
pub open spec fn is_id_part(c: char) -> bool {
    if c <= '\u{7f}' {
        is_ascii_letter(c) || is_digit(c) || c == '_' || c == '$'
    } else {
        alphanumeric(c)
    }
}

pub fn identifier_start_char(c: char) -> (r: bool)
    ensures
        r == is_id_start(c),
{
    if c <= '\u{7f}' {
        ('a' <= c && c <= 'z') || ('A' <= c && c <= 'Z') || c == '_' || c == '$'
    } else {
        char_is_alphabetic(c)
    }
}

pub fn identifier_part_char(c: char) -> (r: bool)
    ensures
        r == is_id_part(c),
{
    if c <= '\u{7f}' {
        ('a' <= c && c <= 'z') || ('A' <= c && c <= 'Z') || ('0' <= c && c <= '9') || c == '_'
            || c == '$'
    } else {
        char_is_alphanumeric(c)
    }
}

// ---------------------------------------------------------------------------
// Whitespace and comments
// ---------------------------------------------------------------------------
/// The end of a line comment whose text starts at `i`: the next line feed, or the end.
pub open spec fn line_comment_end(s: Seq<char>, i: int) -> int
    decreases s.len() - i,
{
    if i < 0 || i >= s.len() || s[i] == '\n' {
        i
    } else {
        line_comment_end(s, i + 1)
    }
}

/// The position after the first `*/` at or after `i`, if there is one.
pub open spec fn block_comment_close(s: Seq<char>, i: int) -> Option<int>
    decreases s.len() - i,
{
    if i < 0 || i + 1 >= s.len() {
        None
    } else if s[i] == '*' && s[i + 1] == '/' {
        Some(i + 2)
    } else {
        block_comment_close(s, i + 1)
    }
}

/// The end of a comment (`// ...` or `/* ... */`) that starts at `p`.
pub open spec fn comment_end(s: Seq<char>, p: int) -> Option<int> {
    if 0 <= p && p + 1 < s.len() && s[p] == '/' && s[p + 1] == '/' {
        Some(line_comment_end(s, p + 2))
    } else if 0 <= p && p + 1 < s.len() && s[p] == '/' && s[p + 1] == '*' {
        block_comment_close(s, p + 2)
    } else {
        None
    }
}

/// The position after the run of whitespace and comments that starts at `p`.
pub open spec fn ws_end(s: Seq<char>, p: int) -> int
    decreases s.len() - p,
{
    if p < 0 || p >= s.len() {
        p
    } else if is_ws_char(s[p]) {
        ws_end(s, p + 1)
    } else if comment_end(s, p) is Some && p < comment_end(s, p)->0 <= s.len() {
        ws_end(s, comment_end(s, p)->0)
    } else {
        p
    }
}

/// The position after the run of whitespace (comments not included) that starts at `p`.
pub open spec fn spaces_end(s: Seq<char>, p: int) -> int
    decreases s.len() - p,
{
    if p < 0 || p >= s.len() || !is_ws_char(s[p]) {
        p
    } else {
        spaces_end(s, p + 1)
    }
}

fn line_comment_end_exec(s: &Vec<char>, i: usize) -> (r: usize)
    requires
        i <= s@.len(),
    ensures
        r == line_comment_end(s@, i as int),
        i <= r <= s@.len(),
{
    let mut j = i;
    while j < s.len() && s[j] != '\n'
        invariant
            i <= j <= s@.len(),
            line_comment_end(s@, j as int) == line_comment_end(s@, i as int),
        decreases s@.len() - j,
    {
        j = j + 1;
    }
    j
}

fn block_comment_close_exec(s: &Vec<char>, i: usize) -> (r: Option<usize>)
    requires
        i <= s@.len(),
    ensures
        r is None ==> block_comment_close(s@, i as int) is None,
        r is Some ==> block_comment_close(s@, i as int) == Some(r->0 as int) && i + 2 <= r->0
            <= s@.len(),
{
    let mut j = i;
    while j < s.len() && j + 1 < s.len()
        invariant
            i <= j <= s@.len(),
            block_comment_close(s@, j as int) == block_comment_close(s@, i as int),
        decreases s@.len() - j,
    {
        if s[j] == '*' && s[j + 1] == '/' {
            return Some(j + 2);
        }
        j = j + 1;
    }
    None
}

/// Reads a comment at `p`, returning the position after it.
pub fn comment_end_exec(s: &Vec<char>, p: usize) -> (r: Option<usize>)
    requires
        p <= s@.len(),
    ensures
        r is None ==> comment_end(s@, p as int) is None,
        r is Some ==> comment_end(s@, p as int) == Some(r->0 as int) && p + 2 <= r->0
            <= s@.len(),
{
    if p < s.len() && p + 1 < s.len() && s[p] == '/' && s[p + 1] == '/' {
        Some(line_comment_end_exec(s, p + 2))
    } else if p < s.len() && p + 1 < s.len() && s[p] == '/' && s[p + 1] == '*' {
        block_comment_close_exec(s, p + 2)
    } else {
        None
    }
}

/// Skips whitespace and comments.
pub fn skip_ws(s: &Vec<char>, p: usize) -> (r: usize)
    requires
        p <= s@.len(),
    ensures
        r == ws_end(s@, p as int),
        p <= r <= s@.len(),
{
    let mut q = p;
    while q < s.len()
        invariant
            p <= q <= s@.len(),
            ws_end(s@, q as int) == ws_end(s@, p as int),
        decreases s@.len() - q,
    {
        if is_whitespace(s[q]) {
            q = q + 1;
        } else {
            match comment_end_exec(s, q) {
                Some(e) => {
                    q = e;
                },
                None => {
                    return q;
                },
            }
        }
    }
    q
}

/// Skips whitespace only.
pub fn skip_spaces(s: &Vec<char>, p: usize) -> (r: usize)
    requires
        p <= s@.len(),
    ensures
        r == spaces_end(s@, p as int),
        p <= r <= s@.len(),
{
    let mut q = p;
    while q < s.len() && is_whitespace(s[q])
        invariant
            p <= q <= s@.len(),
            spaces_end(s@, q as int) == spaces_end(s@, p as int),
        decreases s@.len() - q,
    {
        q = q + 1;
    }
    q
}

// ---------------------------------------------------------------------------
// Identifiers
// ---------------------------------------------------------------------------
/// The end of the run of identifier characters that starts at `i`.
pub open spec fn id_part_end(s: Seq<char>, i: int) -> int
    decreases s.len() - i,
{
    if 0 <= i < s.len() && is_id_part(s[i]) {
        id_part_end(s, i + 1)
    } else {
        i
    }
}

/// The end of a simple identifier that starts at `p`.
pub open spec fn simple_end(s: Seq<char>, p: int) -> Option<int> {
    if 0 <= p < s.len() && is_id_start(s[p]) {
        Some(id_part_end(s, p + 1))
    } else {
        None
    }
}

pub proof fn lemma_id_part_end_bounds(s: Seq<char>, i: int)
    requires
        0 <= i <= s.len(),
    ensures
        i <= id_part_end(s, i) <= s.len(),
    decreases s.len() - i,
{
    if i < s.len() && is_id_part(s[i]) {
        lemma_id_part_end_bounds(s, i + 1);
    }
}

/// Reads a simple identifier: a start character, then identifier characters.
pub fn scan_simple_identifier(s: &Vec<char>, p: usize) -> (r: Option<usize>)
    requires
        p <= s@.len(),
    ensures
        r is None ==> simple_end(s@, p as int) is None,
        r is Some ==> simple_end(s@, p as int) == Some(r->0 as int) && p < r->0 <= s@.len(),
{
    if p < s.len() && identifier_start_char(s[p]) {
        let mut j = p + 1;
        while j < s.len() && identifier_part_char(s[j])
            invariant
                p < j <= s@.len(),
                id_part_end(s@, j as int) == id_part_end(s@, p + 1),
            decreases s@.len() - j,
        {
            j = j + 1;
        }
        Some(j)
    } else {
        None
    }
}

/// The remainder of a hyphen-joined identifier whose segments so far read `acc`
/// and which continues at `q`.
pub open spec fn identifier_rest(s: Seq<char>, q: int, acc: Seq<char>) -> SpecStep<Seq<char>>
    decreases s.len() - q,
{
    if 0 <= q < s.len() && s[q] == '-' {
        let r = ws_end(s, q + 1);
        match simple_end(s, r) {
            Some(e) => if q < r < e && ws_end(s, e) <= s.len() && e <= ws_end(s, e) {
                identifier_rest(s, ws_end(s, e), acc + seq!['-'] + s.subrange(r, e))
            } else {
                SpecStep::Failed
            },
            None => SpecStep::Failed,
        }
    } else {
        SpecStep::Done(acc, q)
    }
}

/// A surface identifier: simple identifiers joined by `-`, each followed by
/// optional whitespace and comments; its text joins the segments with `-`.
pub open spec fn spec_identifier(s: Seq<char>, p: int) -> SpecStep<Seq<char>> {
    match simple_end(s, p) {
        Some(e) => identifier_rest(s, ws_end(s, e), s.subrange(p, e)),
        None => SpecStep::Empty,
    }
}

// ---------------------------------------------------------------------------
// Numeric literals
// ---------------------------------------------------------------------------
/// The end of the run of decimal digits that starts at `i`.
pub open spec fn digits_end(s: Seq<char>, i: int) -> int
    decreases s.len() - i,
{
    if 0 <= i < s.len() && is_digit(s[i]) {
        digits_end(s, i + 1)
    } else {
        i
    }
}

/// An integer: an optional sign and one or more digits.
pub open spec fn integer_end(s: Seq<char>, p: int) -> Option<int> {
    let q = if 0 <= p < s.len() && (s[p] == '+' || s[p] == '-') {
        p + 1
    } else {
        p
    };
    if 0 <= q < s.len() && is_digit(s[q]) {
        Some(digits_end(s, q))
    } else {
        None
    }
}

/// A fraction: `.` and one or more digits.
pub open spec fn fraction_end(s: Seq<char>, p: int) -> Option<int> {
    if 0 <= p && p + 1 < s.len() && s[p] == '.' && is_digit(s[p + 1]) {
        Some(digits_end(s, p + 1))
    } else {
        None
    }
}

/// An exponent: `e` or `E` and an integer.
pub open spec fn exponent_end(s: Seq<char>, p: int) -> Option<int> {
    if 0 <= p < s.len() && (s[p] == 'e' || s[p] == 'E') {
        integer_end(s, p + 1)
    } else {
        None
    }
}

/// A numeric literal: an integer, then a fraction if one follows, then an
/// exponent if one follows.
pub open spec fn number_end(s: Seq<char>, p: int) -> Option<int> {
    match integer_end(s, p) {
        None => None,
        Some(a) => {
            let b = match fraction_end(s, a) {
                Some(b) => b,
                None => a,
            };
            match exponent_end(s, b) {
                Some(c) => Some(c),
                None => Some(b),
            }
        },
    }
}

pub fn scan_digits(s: &Vec<char>, i: usize) -> (r: usize)
    requires
        i <= s@.len(),
    ensures
        r == digits_end(s@, i as int),
        i <= r <= s@.len(),
{
    let mut j = i;
    while j < s.len() && '0' <= s[j] && s[j] <= '9'
        invariant
            i <= j <= s@.len(),
            digits_end(s@, j as int) == digits_end(s@, i as int),
        decreases s@.len() - j,
    {
        j = j + 1;
    }
    j
}

pub fn scan_integer(s: &Vec<char>, p: usize) -> (r: Option<usize>)
    requires
        p <= s@.len(),
    ensures
        r is None ==> integer_end(s@, p as int) is None,
        r is Some ==> integer_end(s@, p as int) == Some(r->0 as int) && p < r->0 <= s@.len(),
{
    let q = if p < s.len() && (s[p] == '+' || s[p] == '-') {
        p + 1
    } else {
        p
    };
    if q < s.len() && '0' <= s[q] && s[q] <= '9' {
        Some(scan_digits(s, q + 1))
    } else {
        None
    }
}

pub fn scan_fraction(s: &Vec<char>, p: usize) -> (r: Option<usize>)
    requires
        p <= s@.len(),
    ensures
        r is None ==> fraction_end(s@, p as int) is None,
        r is Some ==> fraction_end(s@, p as int) == Some(r->0 as int) && p < r->0 <= s@.len(),
{
    if p < s.len() && p + 1 < s.len() && s[p] == '.' && '0' <= s[p + 1] && s[p + 1] <= '9' {
        Some(scan_digits(s, p + 2))
    } else {
        None
    }
}

pub fn scan_exponent(s: &Vec<char>, p: usize) -> (r: Option<usize>)
    requires
        p <= s@.len(),
    ensures
        r is None ==> exponent_end(s@, p as int) is None,
        r is Some ==> exponent_end(s@, p as int) == Some(r->0 as int) && p < r->0 <= s@.len(),
{
    if p < s.len() && (s[p] == 'e' || s[p] == 'E') {
        scan_integer(s, p + 1)
    } else {
        None
    }
}

pub fn scan_number(s: &Vec<char>, p: usize) -> (r: Option<usize>)
    requires
        p <= s@.len(),
    ensures
        r is None ==> number_end(s@, p as int) is None,
        r is Some ==> number_end(s@, p as int) == Some(r->0 as int) && p < r->0 <= s@.len(),
{
    match scan_integer(s, p) {
        None => None,
        Some(a) => {
            let b = match scan_fraction(s, a) {
                Some(b) => b,
                None => a,
            };
            match scan_exponent(s, b) {
                Some(c) => Some(c),
                None => Some(b),
            }
        },
    }
}

// ---------------------------------------------------------------------------
// Booleans, quoted strings and character literals
// ---------------------------------------------------------------------------
/// `true` or `false` at `p`: the value and the end.
pub open spec fn boolean_at(s: Seq<char>, p: int) -> Option<(bool, int)> {
    if 0 <= p && p + 4 <= s.len() && s.subrange(p, p + 4) == seq!['t', 'r', 'u', 'e'] {
        Some((true, p + 4))
    } else if 0 <= p && p + 5 <= s.len() && s.subrange(p, p + 5) == seq!['f', 'a', 'l', 's', 'e'] {
        Some((false, p + 5))
    } else {
        None
    }
}

pub fn scan_boolean(s: &Vec<char>, p: usize) -> (r: Option<(bool, usize)>)
    requires
        p <= s@.len(),
    ensures
        match r {
            None => boolean_at(s@, p as int) is None,
            Some((b, e)) => boolean_at(s@, p as int) == Some((b, e as int)) && p < e <= s@.len(),
        },
{
    if p < s.len() && s.len() - p >= 4 && s[p] == 't' && s[p + 1] == 'r' && s[p + 2] == 'u'
        && s[p + 3] == 'e' {
        assert(s@.subrange(p as int, p + 4) =~= seq!['t', 'r', 'u', 'e']);
        Some((true, p + 4))
    } else if p < s.len() && s.len() - p >= 5 && s[p] == 'f' && s[p + 1] == 'a' && s[p + 2] == 'l'
        && s[p + 3] == 's' && s[p + 4] == 'e' {
        assert(s@.subrange(p as int, p + 5) =~= seq!['f', 'a', 'l', 's', 'e']);
        assert(s@.subrange(p as int, p + 4) != seq!['t', 'r', 'u', 'e']) by {
            assert(s@.subrange(p as int, p + 4)[0] == 'f');
        }
        Some((false, p + 5))
    } else {
        assert(p + 4 <= s@.len() ==> s@.subrange(p as int, p + 4) != seq!['t', 'r', 'u', 'e']) by {
            if p + 4 <= s@.len() && s@.subrange(p as int, p + 4) == seq!['t', 'r', 'u', 'e'] {
                assert(s@.subrange(p as int, p + 4)[0] == s@[p as int]);
                assert(s@.subrange(p as int, p + 4)[1] == s@[p + 1]);
                assert(s@.subrange(p as int, p + 4)[2] == s@[p + 2]);
                assert(s@.subrange(p as int, p + 4)[3] == s@[p + 3]);
            }
        }
        assert(p + 5 <= s@.len() ==> s@.subrange(p as int, p + 5) != seq!['f', 'a', 'l', 's', 'e']) by {
            if p + 5 <= s@.len() && s@.subrange(p as int, p + 5) == seq!['f', 'a', 'l', 's', 'e'] {
                assert(s@.subrange(p as int, p + 5)[0] == s@[p as int]);
                assert(s@.subrange(p as int, p + 5)[1] == s@[p + 1]);
                assert(s@.subrange(p as int, p + 5)[2] == s@[p + 2]);
                assert(s@.subrange(p as int, p + 5)[3] == s@[p + 3]);
                assert(s@.subrange(p as int, p + 5)[4] == s@[p + 4]);
            }
        }
        None
    }
}

/// The character that the escape `\c` stands for, if `c` is one of `' " \ n r t b f v 0`.
pub open spec fn escape_value(c: char) -> Option<char> {
    if c == '\'' {
        Some('\'')
    } else if c == '"' {
        Some('"')
    } else if c == '\\' {
        Some('\\')
    } else if c == 'n' {
        Some('\n')
    } else if c == 'r' {
        Some('\r')
    } else if c == 't' {
        Some('\t')
    } else if c == 'b' {
        Some('\u{8}')
    } else if c == 'f' {
        Some('\u{c}')
    } else if c == 'v' {
        Some('\u{b}')
    } else if c == '0' {
        Some('\0')
    } else {
        None
    }
}

pub fn escape_value_exec(c: char) -> (r: Option<char>)
    ensures
        r == escape_value(c),
{
    if c == '\'' {
        Some('\'')
    } else if c == '"' {
        Some('"')
    } else if c == '\\' {
        Some('\\')
    } else if c == 'n' {
        Some('\n')
    } else if c == 'r' {
        Some('\r')
    } else if c == 't' {
        Some('\t')
    } else if c == 'b' {
        Some('\u{8}')
    } else if c == 'f' {
        Some('\u{c}')
    } else if c == 'v' {
        Some('\u{b}')
    } else if c == '0' {
        Some('\0')
    } else {
        None
    }
}

/// The body of a string quoted with `q`, read from `i` with `acc` read so far:
/// an escape where a backslash starts one, the closing quote, or any other
/// character as itself. The result is the characters and the end.
pub open spec fn quoted_body(s: Seq<char>, i: int, q: char, acc: Seq<char>) -> Option<(Seq<char>, int)>
    decreases s.len() - i,
{
    if i < 0 || i >= s.len() {
        None
    } else if s[i] == '\\' && i + 1 < s.len() && escape_value(s[i + 1]) is Some {
        quoted_body(s, i + 2, q, acc.push(escape_value(s[i + 1])->0))
    } else if s[i] == q {
        Some((acc, i + 1))
    } else {
        quoted_body(s, i + 1, q, acc.push(s[i]))
    }
}

/// A string quoted with `q` at `p`.
pub open spec fn quoted_at(s: Seq<char>, p: int, q: char) -> Option<(Seq<char>, int)> {
    if 0 <= p < s.len() && s[p] == q {
        quoted_body(s, p + 1, q, Seq::empty())
    } else {
        None
    }
}

pub fn scan_quoted(s: &Vec<char>, p: usize, q: char) -> (r: Option<(String, usize)>)
    requires
        p <= s@.len(),
    ensures
        match r {
            None => quoted_at(s@, p as int, q) is None,
            Some((v, e)) => quoted_at(s@, p as int, q) == Some((v@, e as int)) && p < e <= s@.len(),
        },
{
    if !(p < s.len() && s[p] == q) {
        return None;
    }
    let mut acc = String::new();
    let mut i = p + 1;
    while i < s.len()
        invariant
            p < i <= s@.len(),
            quoted_body(s@, i as int, q, acc@) == quoted_at(s@, p as int, q),
        decreases s@.len() - i,
    {
        if s[i] == '\\' && i + 1 < s.len() {
            match escape_value_exec(s[i + 1]) {
                Some(c) => {
                    push_char(&mut acc, c);
                    i = i + 2;
                    continue;
                },
                None => {},
            }
        }
        if s[i] == q {
            return Some((acc, i + 1));
        }
        push_char(&mut acc, s[i]);
        i = i + 1;
    }
    None
}

/// A character literal of the host language at `p`: a quote, an escape or any
/// character but a quote, and a quote.
pub open spec fn char_literal_end(s: Seq<char>, p: int) -> Option<int> {
    if !(0 <= p && p + 2 < s.len() && s[p] == '\'') {
        None
    } else if s[p + 1] == '\\' && escape_value(s[p + 2]) is Some {
        if p + 3 < s.len() && s[p + 3] == '\'' {
            Some(p + 4)
        } else {
            None
        }
    } else if s[p + 1] != '\'' && s[p + 2] == '\'' {
        Some(p + 3)
    } else {
        None
    }
}

pub fn scan_char_literal(s: &Vec<char>, p: usize) -> (r: Option<usize>)
    requires
        p <= s@.len(),
    ensures
        r is None ==> char_literal_end(s@, p as int) is None,
        r is Some ==> char_literal_end(s@, p as int) == Some(r->0 as int) && p < r->0 <= s@.len(),
{
    if !(p < s.len() && s.len() - p > 2 && s[p] == '\'') {
        None
    } else if s[p + 1] == '\\' && escape_value_exec(s[p + 2]).is_some() {
        if s.len() - p > 3 && s[p + 3] == '\'' {
            Some(p + 4)
        } else {
            None
        }
    } else if s[p + 1] != '\'' && s[p + 2] == '\'' {
        Some(p + 3)
    } else {
        None
    }
}

// ---------------------------------------------------------------------------
// Text
// ---------------------------------------------------------------------------
/// The four characters that text cannot hold.
pub open spec fn is_delimiter(c: char) -> bool {
    c == '{' || c == '}' || c == '<' || c == '>'
}

/// A run of text from `i` with `acc` read so far: characters other than the
/// delimiters, where whitespace right before a delimiter is left out.
pub open spec fn text_run(s: Seq<char>, i: int, acc: Seq<char>) -> (Seq<char>, int)
    decreases s.len() - i,
{
    if 0 <= i < s.len() && !is_delimiter(s[i]) {
        let a = spaces_end(s, i + 1);
        if i < a <= s.len() && a < s.len() && is_delimiter(s[a]) {
            text_run(s, a, acc.push(s[i]))
        } else {
            text_run(s, i + 1, acc.push(s[i]))
        }
    } else {
        (acc, i)
    }
}

/// Text at `p`: at least one character.
pub open spec fn spec_text(s: Seq<char>, p: int) -> SpecStep<Seq<char>> {
    if 0 <= p < s.len() && !is_delimiter(s[p]) {
        SpecStep::Done(text_run(s, p, Seq::empty()).0, text_run(s, p, Seq::empty()).1)
    } else {
        SpecStep::Empty
    }
}

pub fn is_delimiter_exec(c: char) -> (r: bool)
    ensures
        r == is_delimiter(c),
{
    c == '{' || c == '}' || c == '<' || c == '>'
}

pub fn scan_text(s: &Vec<char>, p: usize) -> (r: Option<(String, usize)>)
    requires
        p <= s@.len(),
    ensures
        match r {
            None => spec_text(s@, p as int) is Empty,
            Some((v, e)) => spec_text(s@, p as int) == SpecStep::Done(v@, e as int) && p < e
                <= s@.len(),
        },
{
    if !(p < s.len() && !is_delimiter_exec(s[p])) {
        return None;
    }
    let mut acc = String::new();
    let mut i = p;
    while i < s.len() && !is_delimiter_exec(s[i])
        invariant
            p <= i <= s@.len(),
            i > p ==> acc@.len() > 0,
            text_run(s@, i as int, acc@) == text_run(s@, p as int, Seq::empty()),
        decreases s@.len() - i,
    {
        push_char(&mut acc, s[i]);
        let a = skip_spaces(s, i + 1);
        if a < s.len() && is_delimiter_exec(s[a]) {
            i = a;
        } else {
            i = i + 1;
        }
    }
    Some((acc, i))
}

} // verus!
