//! Tag and attribute names: hyphenated identifiers, namespaced names, member
//! paths, and the match of a closing tag against its opening name.
use vstd::prelude::*;

use crate::ast::{NameV, RSXClosingElement, RSXElementName, RSXIdentifier};
use crate::lexical::{
    error_at, identifier_rest, scan_simple_identifier, skip_spaces, skip_ws, spaces_end,
    spec_identifier, ws_end, SpecStep, Step,
};
use crate::text::{chars_of, push_char, push_range, push_str, string_of};

verus! {

/// Reads a hyphen-joined identifier, and the whitespace and comments after it.
pub fn scan_identifier(s: &Vec<char>, p: usize) -> (r: Step<RSXIdentifier>)
    requires
        p <= s@.len(),
    ensures
        r@ == spec_identifier(s@, p as int),
        r is Done ==> p < r.end() <= s@.len(),
{
    match scan_simple_identifier(s, p) {
        None => Step::Empty(error_at(s, p, "identifier")),
        Some(e) => {
            let mut acc = string_of(s, p, e);
            let mut q = skip_ws(s, e);
            while q < s.len() && s[q] == '-'
                invariant
                    p < q <= s@.len(),
                    identifier_rest(s@, q as int, acc@) == spec_identifier(s@, p as int),
                decreases s@.len() - q,
            {
                let r0 = skip_ws(s, q + 1);
                match scan_simple_identifier(s, r0) {
                    None => {
                        return Step::Failed(error_at(s, r0, "identifier"));
                    },
                    Some(e2) => {
                        let ghost before = acc@;
                        push_char(&mut acc, '-');
                        push_range(&mut acc, s, r0, e2);
                        assert(acc@ == before + seq!['-'] + s@.subrange(r0 as int, e2 as int));
                        q = skip_ws(s, e2);
                    },
                }
            }
            Step::Done(RSXIdentifier(acc), q)
        },
    }
}

/// `ns:name`, each part an identifier.
pub open spec fn spec_namespaced(s: Seq<char>, p: int) -> SpecStep<(Seq<char>, Seq<char>)> {
    match spec_identifier(s, p) {
        SpecStep::Done(a, e) => if 0 <= e < s.len() && s[e] == ':' {
            match spec_identifier(s, e + 1) {
                SpecStep::Done(b, f) => SpecStep::Done((a, b), f),
                _ => SpecStep::Failed,
            }
        } else {
            SpecStep::Failed
        },
        SpecStep::Empty => SpecStep::Empty,
        SpecStep::Failed => SpecStep::Failed,
    }
}

pub fn scan_namespaced(s: &Vec<char>, p: usize) -> (r: Step<(RSXIdentifier, RSXIdentifier)>)
    requires
        p <= s@.len(),
    ensures
        r@ == spec_namespaced(s@, p as int),
        r is Done ==> p < r.end() <= s@.len(),
{
    match scan_identifier(s, p) {
        Step::Done(a, e) => {
            if e < s.len() && s[e] == ':' {
                match scan_identifier(s, e + 1) {
                    Step::Done(b, f) => Step::Done((a, b), f),
                    Step::Empty(err) => Step::Failed(err),
                    Step::Failed(err) => Step::Failed(err),
                }
            } else {
                Step::Failed(error_at(s, e, ":"))
            }
        },
        Step::Empty(err) => Step::Empty(err),
        Step::Failed(err) => Step::Failed(err),
    }
}

/// The rest of a member path whose segments so far are `acc`, continuing at `q`.
pub open spec fn member_rest(s: Seq<char>, q: int, acc: Seq<Seq<char>>) -> SpecStep<Seq<Seq<char>>>
    decreases s.len() - q,
{
    if 0 <= q < s.len() && s[q] == '.' {
        match spec_identifier(s, q + 1) {
            SpecStep::Done(b, f) => if q < f <= s.len() {
                member_rest(s, f, acc.push(b))
            } else {
                SpecStep::Failed
            },
            _ => SpecStep::Failed,
        }
    } else {
        SpecStep::Done(acc, q)
    }
}

/// `a.b(.c)*`, each part an identifier.
pub open spec fn spec_member(s: Seq<char>, p: int) -> SpecStep<Seq<Seq<char>>> {
    match spec_identifier(s, p) {
        SpecStep::Done(a, e) => if 0 <= e < s.len() && s[e] == '.' {
            match spec_identifier(s, e + 1) {
                SpecStep::Done(b, f) => member_rest(s, f, seq![a, b]),
                _ => SpecStep::Failed,
            }
        } else {
            SpecStep::Failed
        },
        SpecStep::Empty => SpecStep::Empty,
        SpecStep::Failed => SpecStep::Failed,
    }
}

pub open spec fn ids_view(v: Seq<RSXIdentifier>) -> Seq<Seq<char>> {
    v.map_values(|i: RSXIdentifier| i@)
}

pub fn scan_member(s: &Vec<char>, p: usize) -> (r: Step<Vec<RSXIdentifier>>)
    requires
        p <= s@.len(),
    ensures
        match (r, spec_member(s@, p as int)) {
            (Step::Done(v, e), SpecStep::Done(w, f)) => ids_view(v@) == w && e == f && p < e
                <= s@.len(),
            (Step::Empty(_), SpecStep::Empty) => true,
            (Step::Failed(_), SpecStep::Failed) => true,
            _ => false,
        },
{
    match scan_identifier(s, p) {
        Step::Done(a, e) => {
            if e < s.len() && s[e] == '.' {
                match scan_identifier(s, e + 1) {
                    Step::Done(b, f) => {
                        let mut v: Vec<RSXIdentifier> = Vec::new();
                        v.push(a);
                        v.push(b);
                        assert(ids_view(v@) =~= seq![v@[0]@, v@[1]@]);
                        let mut q = f;
                        while q < s.len() && s[q] == '.'
                            invariant
                                p < q <= s@.len(),
                                member_rest(s@, q as int, ids_view(v@)) == spec_member(
                                    s@,
                                    p as int,
                                ),
                            decreases s@.len() - q,
                        {
                            match scan_identifier(s, q + 1) {
                                Step::Done(c, g) => {
                                    let ghost before = v@;
                                    let ghost cv = c@;
                                    v.push(c);
                                    assert(ids_view(v@) =~= ids_view(before).push(cv));
                                    q = g;
                                },
                                Step::Empty(err) => {
                                    return Step::Failed(err);
                                },
                                Step::Failed(err) => {
                                    return Step::Failed(err);
                                },
                            }
                        }
                        Step::Done(v, q)
                    },
                    Step::Empty(err) => Step::Failed(err),
                    Step::Failed(err) => Step::Failed(err),
                }
            } else {
                Step::Failed(error_at(s, e, "."))
            }
        },
        Step::Empty(err) => Step::Empty(err),
        Step::Failed(err) => Step::Failed(err),
    }
}

/// A tag name: a member path, else a namespaced name, else an identifier.
pub open spec fn spec_element_name(s: Seq<char>, p: int) -> SpecStep<NameV> {
    match spec_member(s, p) {
        SpecStep::Done(v, e) => SpecStep::Done(NameV::Member(v), e),
        _ => match spec_namespaced(s, p) {
            SpecStep::Done((a, b), e) => SpecStep::Done(NameV::Namespaced(a, b), e),
            _ => match spec_identifier(s, p) {
                SpecStep::Done(a, e) => SpecStep::Done(NameV::Simple(a), e),
                SpecStep::Empty => SpecStep::Empty,
                SpecStep::Failed => SpecStep::Failed,
            },
        },
    }
}

pub fn scan_element_name(s: &Vec<char>, p: usize) -> (r: Step<RSXElementName>)
    requires
        p <= s@.len(),
    ensures
        r@ == spec_element_name(s@, p as int),
        r is Done ==> p < r.end() <= s@.len() && !(r->Done_0 is KnownName),
{
    match scan_member(s, p) {
        Step::Done(v, e) => {
            return Step::Done(RSXElementName::MemberExpression(v), e);
        },
        _ => {},
    }
    match scan_namespaced(s, p) {
        Step::Done((a, b), e) => {
            return Step::Done(RSXElementName::NamedspacedName(a, b), e);
        },
        _ => {},
    }
    match scan_identifier(s, p) {
        Step::Done(a, e) => Step::Done(RSXElementName::Name(a), e),
        Step::Empty(err) => Step::Empty(err),
        Step::Failed(err) => Step::Failed(err),
    }
}

/// The segments of a member path joined by `.`.
pub open spec fn join_dots(v: Seq<Seq<char>>) -> Seq<char>
    decreases v.len(),
{
    if v.len() == 0 {
        Seq::empty()
    } else if v.len() == 1 {
        v[0]
    } else {
        join_dots(v.drop_last()) + seq!['.'] + v.last()
    }
}

/// The text of a tag name as it is written.
pub open spec fn name_text(n: NameV) -> Seq<char> {
    match n {
        NameV::Simple(a) => a,
        NameV::Namespaced(a, b) => a + seq![':'] + b,
        NameV::Member(v) => join_dots(v),
        NameV::Known(_) => Seq::empty(),
    }
}

/// Writes a tag name as text. Known names come from the serializer only and
/// have no text here.
pub fn name_to_text(n: &RSXElementName) -> (r: String)
    requires
        !(n is KnownName),
    ensures
        r@ == name_text(n@),
{
    match n {
        RSXElementName::KnownName(_) => String::new(),
        RSXElementName::Name(a) => a.0.clone(),
        RSXElementName::NamedspacedName(a, b) => {
            let mut r = a.0.clone();
            push_char(&mut r, ':');
            push_str(&mut r, b.0.as_str());
            r
        },
        RSXElementName::MemberExpression(v) => {
            let ghost w = ids_view(v@);
            let mut r = String::new();
            let mut i: usize = 0;
            while i < v.len()
                invariant
                    i <= v@.len(),
                    w == ids_view(v@),
                    r@ == join_dots(w.subrange(0, i as int)),
                decreases v@.len() - i,
            {
                let ghost before = r@;
                if i > 0 {
                    push_char(&mut r, '.');
                }
                push_str(&mut r, v[i].0.as_str());
                assert(w.subrange(0, i + 1).drop_last() =~= w.subrange(0, i as int));
                if i == 0 {
                    assert(w.subrange(0, 1) =~= seq![w[0]]);
                }
                i = i + 1;
            }
            assert(w.subrange(0, v@.len() as int) =~= w);
            r
        },
    }
}

pub open spec fn is_separator(c: char) -> bool {
    c == '-' || c == ':' || c == '.'
}

/// Matches the name text `t[j..]` against the input at `i`. Whitespace may stand
/// before and after each separator (`-`, `:`, `.`); everything else must be
/// equal character for character. The result is the end of the match, or the
/// position of the first input character that differs.
pub open spec fn match_name(s: Seq<char>, i: int, t: Seq<char>, j: int) -> Result<int, int>
    decreases t.len() - j,
{
    if j < 0 || j >= t.len() {
        Ok(i)
    } else if is_separator(t[j]) {
        let a = spaces_end(s, i);
        if 0 <= a < s.len() && s[a] == t[j] {
            match_name(s, spaces_end(s, a + 1), t, j + 1)
        } else {
            Err(a)
        }
    } else if 0 <= i < s.len() && s[i] == t[j] {
        match_name(s, i + 1, t, j + 1)
    } else {
        Err(i)
    }
}

pub fn match_name_exec(s: &Vec<char>, i: usize, t: &Vec<char>) -> (r: Result<usize, usize>)
    requires
        i <= s@.len(),
    ensures
        match r {
            Ok(e) => match_name(s@, i as int, t@, 0) == Ok::<int, int>(e as int) && i <= e <= s@.len(),
            Err(e) => match_name(s@, i as int, t@, 0) == Err::<int, int>(e as int) && e <= s@.len(),
        },
{
    let mut q = i;
    let mut j: usize = 0;
    while j < t.len()
        invariant
            i <= q <= s@.len(),
            j <= t@.len(),
            match_name(s@, q as int, t@, j as int) == match_name(s@, i as int, t@, 0),
        decreases t@.len() - j,
    {
        if t[j] == '-' || t[j] == ':' || t[j] == '.' {
            let a = skip_spaces(s, q);
            if a < s.len() && s[a] == t[j] {
                q = skip_spaces(s, a + 1);
            } else {
                return Err(a);
            }
        } else if q < s.len() && s[q] == t[j] {
            q = q + 1;
        } else {
            return Err(q);
        }
        j = j + 1;
    }
    Ok(q)
}

/// The character at `i`, if `i` is inside the input.
pub open spec fn char_at(s: Seq<char>, i: int) -> Option<char> {
    if 0 <= i < s.len() {
        Some(s[i])
    } else {
        None
    }
}

/// What reading a closing tag for the name text `t` at `p` gives.
pub enum ClosingV {
    Done(int),
    Empty,
    /// Failed at this position.
    Failed(int),
}

/// A closing tag: `<`, whitespace, `/`, whitespace and comments, the name text
/// (see `match_name`), whitespace and comments, `>`.
pub open spec fn spec_closing(s: Seq<char>, p: int, t: Seq<char>) -> ClosingV {
    if !(0 <= p < s.len() && s[p] == '<') {
        ClosingV::Empty
    } else {
        let a = spaces_end(s, p + 1);
        if !(0 <= a < s.len() && s[a] == '/') {
            ClosingV::Failed(a)
        } else {
            match match_name(s, ws_end(s, a + 1), t, 0) {
                Err(i) => ClosingV::Failed(i),
                Ok(c) => {
                    let d = ws_end(s, c);
                    if 0 <= d < s.len() && s[d] == '>' {
                        ClosingV::Done(d + 1)
                    } else {
                        ClosingV::Failed(d)
                    }
                },
            }
        }
    }
}

/// Reads the closing tag of `name`. Where the name differs, the error holds
/// the position of the first differing character and the expected name text.
pub fn scan_closing<'a>(s: &Vec<char>, p: usize, name: &'a RSXElementName) -> (r: Step<RSXClosingElement<'a>>)
    requires
        p <= s@.len(),
        !(name is KnownName),
    ensures
        match (r, spec_closing(s@, p as int, name_text(name@))) {
            (Step::Done(c, e), ClosingV::Done(f)) => e == f && p < e <= s@.len() && c.0 == name,
            (Step::Empty(_), ClosingV::Empty) => true,
            (Step::Failed(err), ClosingV::Failed(i)) => err.position == i && i <= s@.len()
                && err.unexpected == char_at(s@, i),
            _ => false,
        },
        ({
            let a = spaces_end(s@, p + 1);
            p < s@.len() && s@[p as int] == '<' && a < s@.len() && s@[a] == '/' && match_name(
                s@,
                ws_end(s@, a + 1),
                name_text(name@),
                0,
            ) is Err
        }) ==> r is Failed && r->Failed_0.expected@ == name_text(name@),
{
    if !(p < s.len() && s[p] == '<') {
        return Step::Empty(error_at(s, p, "</"));
    }
    let a = skip_spaces(s, p + 1);
    if !(a < s.len() && s[a] == '/') {
        return Step::Failed(error_at(s, a, "/"));
    }
    let text = name_to_text(name);
    let t = chars_of(text.as_str());
    let b = skip_ws(s, a + 1);
    match match_name_exec(s, b, &t) {
        Err(i) => Step::Failed(error_at(s, i, text.as_str())),
        Ok(c) => {
            let d = skip_ws(s, c);
            if d < s.len() && s[d] == '>' {
                Step::Done(RSXClosingElement(name), d + 1)
            } else {
                Step::Failed(error_at(s, d, ">"))
            }
        },
    }
}

} // verus!
