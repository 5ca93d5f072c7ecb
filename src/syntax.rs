//! The grammar as functions over plain values: what each production reads at a
//! position of the input, given how many placeholders were drawn before it.
//! The executable productions of `grammar` are proved to answer exactly this.
use vstd::prelude::*;

use crate::ast::NameV;
use crate::lexical::{
    boolean_at, char_literal_end, comment_end, number_end, quoted_at, spaces_end, spec_identifier,
    spec_text, ws_end, SpecStep,
};
use crate::model::{AttrNameV, AttributeV, ChildV, ElementV, ExprV, FragV, StrV, ValueV};
use crate::names::{
    match_name, name_text, spec_closing, spec_element_name, spec_namespaced, ClosingV,
};
use crate::placeholders::placeholder_text;

verus! {

/// What a production reads: the value, the position after it and the number
/// of placeholders drawn so far; or a failure without (`Empty`) or after
/// (`Failed`) consuming input, with the number of placeholders drawn so far.
pub enum Parsed<V> {
    Done(V, int, nat),
    Empty(nat),
    Failed(nat),
}

/// An executable result `r`, with `k` placeholders drawn after it, is what `p` says.
pub open spec fn agrees<V>(r: SpecStep<V>, k: nat, p: Parsed<V>) -> bool {
    match (r, p) {
        (SpecStep::Done(v, e), Parsed::Done(w, f, j)) => v == w && e == f && k == j,
        (SpecStep::Empty, Parsed::Empty(j)) => k == j,
        (SpecStep::Failed, Parsed::Failed(j)) => k == j,
        _ => false,
    }
}

/// `e` moved past `p` and stays within the input, as do the whitespace and
/// comments after it.
pub open spec fn advances(s: Seq<char>, p: int, e: int) -> bool {
    p < e && e <= ws_end(s, e) <= s.len()
}

pub open spec fn empty_expr() -> ExprV {
    ExprV { tokens: Seq::empty(), elements: Seq::empty() }
}

/// The block `acc` with one more fragment; `k` placeholders were drawn before it.
pub open spec fn add_fragment(acc: ExprV, f: FragV, k: nat) -> ExprV {
    match f {
        FragV::Empty => acc,
        FragV::Token(c) => ExprV { tokens: acc.tokens.push(c), elements: acc.elements },
        FragV::Tokens(t) => ExprV { tokens: acc.tokens + t, elements: acc.elements },
        FragV::Element(e) => ExprV {
            tokens: acc.tokens + placeholder_text(k),
            elements: acc.elements.push((placeholder_text(k), e)),
        },
        FragV::Expr(x) => ExprV {
            tokens: acc.tokens + seq!['{'] + x.tokens + seq!['}'],
            elements: acc.elements + x.elements,
        },
    }
}

/// The placeholders that a fragment draws.
pub open spec fn fragment_draws(f: FragV) -> nat {
    if f is Element {
        1
    } else {
        0
    }
}

// ---------------------------------------------------------------------------
// Code blocks
// ---------------------------------------------------------------------------
pub open spec fn code_block(s: Seq<char>, p: int, k: nat) -> Parsed<ExprV>
    decreases s.len() - p, 1int,
{
    if !(0 <= p < s.len() && s[p] == '{') {
        Parsed::Empty(k)
    } else {
        fragments(s, p + 1, k, empty_expr())
    }
}

pub open spec fn spread_code_block(s: Seq<char>, p: int, k: nat) -> Parsed<ExprV>
    decreases s.len() - p, 1int,
{
    if !(0 <= p < s.len() && s[p] == '{') {
        Parsed::Empty(k)
    } else {
        let q = ws_end(s, p + 1);
        if !(p < q && q + 3 <= s.len() && s[q] == '.' && s[q + 1] == '.' && s[q + 2] == '.') {
            Parsed::Failed(k)
        } else if !(q + 3 < s.len() && s[q + 3] != '}') {
            Parsed::Failed(k)
        } else {
            fragments(s, q + 3, k, empty_expr())
        }
    }
}

/// Fragments from `q` up to and including the closing `}`, added to `acc`.
pub open spec fn fragments(s: Seq<char>, q: int, k: nat, acc: ExprV) -> Parsed<ExprV>
    decreases s.len() - q, 5int,
{
    if q < 0 || q >= s.len() {
        Parsed::Failed(k)
    } else if s[q] == '}' {
        Parsed::Done(acc, q + 1, k)
    } else {
        match fragment(s, q, k) {
            Parsed::Done(f, e, j) => if q < e <= s.len() {
                fragments(s, e, j + fragment_draws(f), add_fragment(acc, f, j))
            } else {
                Parsed::Failed(j)
            },
            Parsed::Empty(j) => Parsed::Failed(j),
            Parsed::Failed(j) => Parsed::Failed(j),
        }
    }
}

pub open spec fn fragment(s: Seq<char>, p: int, k: nat) -> Parsed<FragV>
    decreases s.len() - p, 4int,
{
    match code_block(s, p, k) {
        Parsed::Done(x, e, j) => Parsed::Done(FragV::Expr(x), e, j),
        Parsed::Empty(j) | Parsed::Failed(j) => match element(s, p, j) {
            Parsed::Done(el, e, i) => Parsed::Done(FragV::Element(el), e, i),
            Parsed::Empty(i) | Parsed::Failed(i) => match comment_end(s, p) {
                Some(e) => Parsed::Done(FragV::Empty, e, i),
                None => match char_literal_end(s, p) {
                    Some(e) => Parsed::Done(FragV::Tokens(s.subrange(p, e)), e, i),
                    None => match quoted_at(s, p, '"') {
                        Some((_, e)) => Parsed::Done(FragV::Tokens(s.subrange(p, e)), e, i),
                        None => if 0 <= p < s.len() && s[p] != '}' {
                            Parsed::Done(FragV::Token(s[p]), p + 1, i)
                        } else {
                            Parsed::Empty(i)
                        },
                    },
                },
            },
        },
    }
}

// ---------------------------------------------------------------------------
// Elements
// ---------------------------------------------------------------------------
pub open spec fn element(s: Seq<char>, p: int, k: nat) -> Parsed<ElementV>
    decreases s.len() - p, 3int,
{
    match self_closing_element(s, p, k) {
        Parsed::Done((n, a), e, j) => Parsed::Done(ElementV::SelfClosing(n, a), e, j),
        Parsed::Empty(j) | Parsed::Failed(j) => match normal_element(s, p, j) {
            Parsed::Done((n, a, c), e, i) => Parsed::Done(ElementV::Normal(n, a, c), e, i),
            Parsed::Empty(i) => Parsed::Empty(i),
            Parsed::Failed(i) => Parsed::Failed(i),
        },
    }
}

/// The attributes after a tag name at `q`, if any, and the position after them
/// and the whitespace and comments that follow.
pub open spec fn optional_attributes(s: Seq<char>, q: int, k: nat) -> Parsed<Seq<AttributeV>>
    decreases s.len() - q, 5int,
{
    match attributes(s, q, k) {
        Parsed::Done(a, e, j) => Parsed::Done(a, ws_end(s, e), j),
        Parsed::Empty(j) => Parsed::Done(Seq::empty(), q, j),
        Parsed::Failed(j) => Parsed::Failed(j),
    }
}

/// `<` name and attributes; the name, the attributes, where they end and the
/// draws so far.
pub open spec fn tag_start(s: Seq<char>, p: int, k: nat) -> Parsed<(NameV, Seq<AttributeV>)>
    decreases s.len() - p, 0int,
{
    if !(0 <= p < s.len() && s[p] == '<') {
        Parsed::Empty(k)
    } else {
        match spec_element_name(s, ws_end(s, p + 1)) {
            SpecStep::Done(n, e) => if advances(s, p, e) {
                match optional_attributes(s, ws_end(s, e), k) {
                    Parsed::Done(a, q, j) => Parsed::Done((n, a), q, j),
                    Parsed::Empty(j) => Parsed::Failed(j),
                    Parsed::Failed(j) => Parsed::Failed(j),
                }
            } else {
                Parsed::Failed(k)
            },
            _ => Parsed::Failed(k),
        }
    }
}

pub open spec fn self_closing_element(s: Seq<char>, p: int, k: nat) -> Parsed<
    (NameV, Seq<AttributeV>),
>
    decreases s.len() - p, 1int,
{
    match tag_start(s, p, k) {
        Parsed::Done(t, q, j) => if 0 <= q < s.len() && s[q] == '/' && spaces_end(s, q + 1)
            < s.len() && s[spaces_end(s, q + 1)] == '>' {
            Parsed::Done(t, spaces_end(s, q + 1) + 1, j)
        } else {
            Parsed::Failed(j)
        },
        Parsed::Empty(j) => Parsed::Empty(j),
        Parsed::Failed(j) => Parsed::Failed(j),
    }
}

pub open spec fn opening_element(s: Seq<char>, p: int, k: nat) -> Parsed<(NameV, Seq<AttributeV>)>
    decreases s.len() - p, 1int,
{
    match tag_start(s, p, k) {
        Parsed::Done(t, q, j) => if 0 <= q < s.len() && s[q] == '>' {
            Parsed::Done(t, q + 1, j)
        } else {
            Parsed::Failed(j)
        },
        Parsed::Empty(j) => Parsed::Empty(j),
        Parsed::Failed(j) => Parsed::Failed(j),
    }
}

/// The closing tag of `n` at `q`, after the children `c`.
pub open spec fn close_normal(
    s: Seq<char>,
    q: int,
    n: NameV,
    a: Seq<AttributeV>,
    c: Seq<ChildV>,
    k: nat,
) -> Parsed<(NameV, Seq<AttributeV>, Seq<ChildV>)> {
    match spec_closing(s, q, name_text(n)) {
        ClosingV::Done(e) => Parsed::Done((n, a, c), e, k),
        _ => Parsed::Failed(k),
    }
}

pub open spec fn normal_element(s: Seq<char>, p: int, k: nat) -> Parsed<
    (NameV, Seq<AttributeV>, Seq<ChildV>),
>
    decreases s.len() - p, 2int,
{
    match opening_element(s, p, k) {
        Parsed::Done((n, a), e, j) => if advances(s, p, e) {
            let q = ws_end(s, e);
            match children(s, q, j) {
                Parsed::Done(c, e2, i) => close_normal(s, ws_end(s, e2), n, a, c, i),
                Parsed::Empty(i) => close_normal(s, q, n, a, Seq::empty(), i),
                Parsed::Failed(i) => Parsed::Failed(i),
            }
        } else {
            Parsed::Failed(j)
        },
        Parsed::Empty(j) => Parsed::Empty(j),
        Parsed::Failed(j) => Parsed::Failed(j),
    }
}

/// A closing tag at `q` whose name differs from the name text `t`: the
/// position of the first differing character, and `t`.
pub open spec fn closing_mismatch_at(s: Seq<char>, q: int, t: Seq<char>) -> Option<(int, Seq<char>)> {
    let a = spaces_end(s, q + 1);
    if 0 <= q < s.len() && s[q] == '<' && 0 <= a < s.len() && s[a] == '/' {
        match match_name(s, ws_end(s, a + 1), t, 0) {
            Err(i) => Some((i, t)),
            Ok(_) => None,
        }
    } else {
        None
    }
}

/// Where the normal element at `p` reads its opening tag and children and then
/// meets a closing tag of another name: the position of the first character
/// that differs from its own name, and that name's text.
pub open spec fn normal_closing_mismatch(s: Seq<char>, p: int, k: nat) -> Option<(int, Seq<char>)> {
    match opening_element(s, p, k) {
        Parsed::Done((n, a), e, j) => if advances(s, p, e) {
            let q = ws_end(s, e);
            match children(s, q, j) {
                Parsed::Done(c, e2, i) => closing_mismatch_at(s, ws_end(s, e2), name_text(n)),
                Parsed::Empty(i) => closing_mismatch_at(s, q, name_text(n)),
                Parsed::Failed(i) => None,
            }
        } else {
            None
        },
        _ => None,
    }
}

/// Where the element at `p` is not self-closing and fails at a closing tag of
/// another name, as `normal_closing_mismatch` says.
pub open spec fn element_closing_mismatch(s: Seq<char>, p: int, k: nat) -> Option<(int, Seq<char>)> {
    match self_closing_element(s, p, k) {
        Parsed::Done(..) => None,
        Parsed::Empty(j) | Parsed::Failed(j) => normal_closing_mismatch(s, p, j),
    }
}

// ---------------------------------------------------------------------------
// Attributes
// ---------------------------------------------------------------------------
pub open spec fn attributes(s: Seq<char>, p: int, k: nat) -> Parsed<Seq<AttributeV>>
    decreases s.len() - p, 4int,
{
    match attribute(s, p, k) {
        Parsed::Done(a, e, j) => if advances(s, p, e) {
            attributes_rest(s, ws_end(s, e), j, seq![a])
        } else {
            Parsed::Failed(j)
        },
        Parsed::Empty(j) => Parsed::Empty(j),
        Parsed::Failed(j) => Parsed::Failed(j),
    }
}

/// More attributes from `q`, after those read so far, `acc`.
pub open spec fn attributes_rest(s: Seq<char>, q: int, k: nat, acc: Seq<AttributeV>) -> Parsed<
    Seq<AttributeV>,
>
    decreases s.len() - q, 4int,
{
    match attribute(s, q, k) {
        Parsed::Done(a, e, j) => if advances(s, q, e) {
            attributes_rest(s, ws_end(s, e), j, acc.push(a))
        } else {
            Parsed::Failed(j)
        },
        Parsed::Empty(j) => Parsed::Done(acc, q, j),
        Parsed::Failed(j) => Parsed::Failed(j),
    }
}

pub open spec fn attribute(s: Seq<char>, p: int, k: nat) -> Parsed<AttributeV>
    decreases s.len() - p, 3int,
{
    match spread_code_block(s, p, k) {
        Parsed::Done(x, e, j) => Parsed::Done(AttributeV::Spread(x), e, j),
        Parsed::Empty(j) | Parsed::Failed(j) => match custom_attribute(s, p, j) {
            Parsed::Done(a, e, i) => Parsed::Done(a, e, i),
            Parsed::Empty(i) | Parsed::Failed(i) => match attribute_name(s, p) {
                SpecStep::Done(n, e) => Parsed::Done(AttributeV::Named(n, ValueV::Default), e, i),
                SpecStep::Empty => Parsed::Empty(i),
                SpecStep::Failed => Parsed::Failed(i),
            },
        },
    }
}

pub open spec fn attribute_name(s: Seq<char>, p: int) -> SpecStep<AttrNameV> {
    match spec_namespaced(s, p) {
        SpecStep::Done((a, b), e) => SpecStep::Done(AttrNameV::Namespaced(a, b), e),
        _ => match spec_identifier(s, p) {
            SpecStep::Done(a, e) => SpecStep::Done(AttrNameV::Simple(a), e),
            SpecStep::Empty => SpecStep::Empty,
            SpecStep::Failed => SpecStep::Failed,
        },
    }
}

pub open spec fn custom_attribute(s: Seq<char>, p: int, k: nat) -> Parsed<AttributeV>
    decreases s.len() - p, 2int,
{
    match attribute_name(s, p) {
        SpecStep::Done(n, e) => {
            let q = ws_end(s, e);
            if 0 <= q < s.len() && s[q] == '=' && p < ws_end(s, q + 1) <= s.len() {
                match attribute_value(s, ws_end(s, q + 1), k) {
                    Parsed::Done(v, e2, j) => Parsed::Done(AttributeV::Named(n, v), e2, j),
                    Parsed::Empty(j) => Parsed::Failed(j),
                    Parsed::Failed(j) => Parsed::Failed(j),
                }
            } else {
                Parsed::Failed(k)
            }
        },
        SpecStep::Empty => Parsed::Empty(k),
        SpecStep::Failed => Parsed::Failed(k),
    }
}

/// `{`, whitespace and comments, then `inner` ending at `e`, whitespace and
/// comments, `}`: the position after the `}`.
pub open spec fn braced_end(s: Seq<char>, e: int) -> Option<int> {
    let q = ws_end(s, e);
    if 0 <= q < s.len() && s[q] == '}' {
        Some(q + 1)
    } else {
        None
    }
}

pub open spec fn bracketed_boolean(s: Seq<char>, p: int) -> SpecStep<bool> {
    match boolean_at(s, p) {
        Some((b, e)) => SpecStep::Done(b, e),
        None => if 0 <= p < s.len() && s[p] == '{' {
            match boolean_at(s, ws_end(s, p + 1)) {
                Some((b, e)) => match braced_end(s, e) {
                    Some(f) => SpecStep::Done(b, f),
                    None => SpecStep::Failed,
                },
                None => SpecStep::Failed,
            }
        } else {
            SpecStep::Empty
        },
    }
}

pub open spec fn bracketed_number(s: Seq<char>, p: int) -> SpecStep<Seq<char>> {
    match number_end(s, p) {
        Some(e) => SpecStep::Done(s.subrange(p, e), e),
        None => if 0 <= p < s.len() && s[p] == '{' {
            let q = ws_end(s, p + 1);
            match number_end(s, q) {
                Some(e) => match braced_end(s, e) {
                    Some(f) => SpecStep::Done(s.subrange(q, e), f),
                    None => SpecStep::Failed,
                },
                None => SpecStep::Failed,
            }
        } else {
            SpecStep::Empty
        },
    }
}

/// A quoted string, double quotes first, and the whitespace and comments after it.
pub open spec fn string_characters(s: Seq<char>, p: int) -> SpecStep<StrV> {
    match quoted_at(s, p, '"') {
        Some((v, e)) => SpecStep::Done(StrV::Double(v), ws_end(s, e)),
        None => match quoted_at(s, p, '\'') {
            Some((v, e)) => SpecStep::Done(StrV::Single(v), ws_end(s, e)),
            None => if 0 <= p < s.len() && s[p] == '\'' {
                SpecStep::Failed
            } else {
                SpecStep::Empty
            },
        },
    }
}

pub open spec fn bracketed_string(s: Seq<char>, p: int) -> SpecStep<StrV> {
    match string_characters(s, p) {
        SpecStep::Done(v, e) => SpecStep::Done(v, e),
        SpecStep::Failed => SpecStep::Failed,
        SpecStep::Empty => if 0 <= p < s.len() && s[p] == '{' {
            match string_characters(s, ws_end(s, p + 1)) {
                SpecStep::Done(v, e) => if 0 <= e < s.len() && s[e] == '}' {
                    SpecStep::Done(v, e + 1)
                } else {
                    SpecStep::Failed
                },
                _ => SpecStep::Failed,
            }
        } else {
            SpecStep::Empty
        },
    }
}

pub open spec fn attribute_value(s: Seq<char>, p: int, k: nat) -> Parsed<ValueV>
    decreases s.len() - p, 4int,
{
    match bracketed_boolean(s, p) {
        SpecStep::Done(b, e) => Parsed::Done(ValueV::Boolean(b), e, k),
        _ => match bracketed_number(s, p) {
            SpecStep::Done(t, e) => Parsed::Done(ValueV::Number(t), e, k),
            _ => match bracketed_string(s, p) {
                SpecStep::Done(v, e) => Parsed::Done(ValueV::Str(v), e, k),
                _ => match code_block(s, p, k) {
                    Parsed::Done(x, e, j) => Parsed::Done(ValueV::CodeBlock(x), e, j),
                    Parsed::Empty(j) | Parsed::Failed(j) => match element(s, p, j) {
                        Parsed::Done(el, e, i) => Parsed::Done(ValueV::Element(el), e, i),
                        Parsed::Empty(i) => Parsed::Empty(i),
                        Parsed::Failed(i) => Parsed::Failed(i),
                    },
                },
            },
        },
    }
}

// ---------------------------------------------------------------------------
// Children
// ---------------------------------------------------------------------------
pub open spec fn children(s: Seq<char>, p: int, k: nat) -> Parsed<Seq<ChildV>>
    decreases s.len() - p, 5int,
{
    match child(s, p, k) {
        Parsed::Done(c, e, j) => if advances(s, p, e) {
            children_rest(s, ws_end(s, e), j, seq![c])
        } else {
            Parsed::Failed(j)
        },
        Parsed::Empty(j) => Parsed::Empty(j),
        Parsed::Failed(j) => Parsed::Failed(j),
    }
}

/// More children from `q`, after those read so far, `acc`.
pub open spec fn children_rest(s: Seq<char>, q: int, k: nat, acc: Seq<ChildV>) -> Parsed<
    Seq<ChildV>,
>
    decreases s.len() - q, 5int,
{
    match child(s, q, k) {
        Parsed::Done(c, e, j) => if advances(s, q, e) {
            children_rest(s, ws_end(s, e), j, acc.push(c))
        } else {
            Parsed::Failed(j)
        },
        Parsed::Empty(j) => Parsed::Done(acc, q, j),
        Parsed::Failed(j) => Parsed::Failed(j),
    }
}

pub open spec fn child(s: Seq<char>, p: int, k: nat) -> Parsed<ChildV>
    decreases s.len() - p, 4int,
{
    match code_block(s, p, k) {
        Parsed::Done(x, e, j) => Parsed::Done(ChildV::CodeBlock(x), e, j),
        Parsed::Empty(j) | Parsed::Failed(j) => match element(s, p, j) {
            Parsed::Done(el, e, i) => Parsed::Done(ChildV::Element(el), e, i),
            Parsed::Empty(i) | Parsed::Failed(i) => match spec_text(s, p) {
                SpecStep::Done(t, e) => Parsed::Done(ChildV::Text(t), e, i),
                _ => Parsed::Empty(i),
            },
        },
    }
}

} // verus!
