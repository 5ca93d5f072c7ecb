//! The element, attribute and children grammars, and the scanner that reads
//! code blocks of host source and embeds the elements found in them.
//!
//! Every production reads from a position of the input and answers a `Step`:
//! `Done` with the value and the position after it, `Empty` when it failed
//! without consuming input (the caller may try its next alternative), or
//! `Failed` when it failed after consuming input. An alternative that the
//! grammar marks as tentative is retried from the same position whatever way
//! it failed.
use vstd::prelude::*;

use crate::ast::{
    JSDoubleStringCharacters, JSSingleStringCharacters, RSXAttribute, RSXAttributeBoolean,
    RSXAttributeName, RSXAttributeNumber, RSXAttributeString, RSXAttributeValue, RSXAttributes,
    RSXChild, RSXChildren, RSXElement, RSXElementName, RSXNormalElement, RSXOpeningElement,
    RSXParsedExpression, RSXRawCodeFragment, RSXSelfClosingElement, RSXText,
};
use crate::lexical::{
    comment_end_exec, error_at, scan_boolean, scan_char_literal, scan_number, scan_quoted,
    scan_text, skip_spaces, skip_ws, ws_end, SpecStep, Step,
};
use crate::model::{
    lemma_attributes_v_push, lemma_children_v_push, lemma_pairs_v_append, lemma_pairs_v_push,
    attributes_v, children_v, pairs_v, AttributeV, ExprV, ValueV,
};
use crate::names::{
    char_at, scan_closing, scan_element_name, scan_identifier, scan_namespaced, spec_element_name,
};
use crate::placeholders::{PlaceholderGenerator, RSXElementPlaceholder};
use crate::syntax::{
    add_fragment, agrees, attribute, attribute_name, attribute_value, attributes, attributes_rest,
    bracketed_boolean, bracketed_number, bracketed_string, child, children, children_rest,
    code_block, custom_attribute, element, element_closing_mismatch, empty_expr, fragment, fragment_draws, fragments,
    normal_closing_mismatch, normal_element, opening_element, optional_attributes, self_closing_element,
    spread_code_block, string_characters, tag_start,
};
use crate::text::{push_char, push_str, string_of};

verus! {

/// `r` failed with the error of a closing tag of another name: at `m`'s
/// position, on the character there, expecting `m`'s name text.
pub open spec fn reports_mismatch<T>(s: Seq<char>, r: Step<T>, m: Option<(int, Seq<char>)>) -> bool {
    match m {
        Some((i, t)) => r matches Step::Failed(err) && err.position == i && err.expected@ == t
            && err.unexpected == char_at(s, i),
        None => true,
    }
}

/// What every production promises: the generator stays well formed and only
/// moves forward, and a success consumed input and ended within it.
pub open spec fn produced<T>(
    s: Seq<char>,
    p: int,
    r: Step<T>,
    g0: PlaceholderGenerator,
    g1: PlaceholderGenerator,
) -> bool {
    &&& g1.wf()
    &&& g1.count() >= g0.count()
    &&& r is Done ==> p < r.end() <= s.len()
}

// ---------------------------------------------------------------------------
// Code blocks
// ---------------------------------------------------------------------------
/// A code block: `{`, fragments, and the matching `}`.
pub fn code_block_at(s: &Vec<char>, p: usize, g: &mut PlaceholderGenerator) -> (r: Step<
    RSXParsedExpression,
>)
    requires
        p <= s@.len(),
        old(g).wf(),
    ensures
        produced(s@, p as int, r, *old(g), *final(g)),
        agrees(r@, final(g).count(), code_block(s@, p as int, old(g).count())),
        !(p < s@.len() && s@[p as int] == '{') ==> r is Empty,
    decreases s@.len() - p, 1int,
{
    if !(p < s.len() && s[p] == '{') {
        return Step::Empty(error_at(s, p, "{"));
    }
    fragments_until_close(s, p + 1, g)
}

/// A spread: `{`, whitespace and comments, `...`, at least one fragment, `}`.
pub fn spread_code_block_at(s: &Vec<char>, p: usize, g: &mut PlaceholderGenerator) -> (r: Step<
    RSXParsedExpression,
>)
    requires
        p <= s@.len(),
        old(g).wf(),
    ensures
        produced(s@, p as int, r, *old(g), *final(g)),
        agrees(r@, final(g).count(), spread_code_block(s@, p as int, old(g).count())),
        !(p < s@.len() && s@[p as int] == '{') ==> r is Empty,
    decreases s@.len() - p, 1int,
{
    if !(p < s.len() && s[p] == '{') {
        return Step::Empty(error_at(s, p, "{"));
    }
    let q = skip_ws(s, p + 1);
    if !(q < s.len() && s.len() - q >= 3 && s[q] == '.' && s[q + 1] == '.' && s[q + 2] == '.') {
        return Step::Failed(error_at(s, q, "..."));
    }
    if !(q + 3 < s.len() && s[q + 3] != '}') {
        return Step::Failed(error_at(s, q + 3, "expression"));
    }
    fragments_until_close(s, q + 3, g)
}

/// The fragments of a code block from `p` up to and including its closing `}`.
/// Each element found is replaced in the tokens by a fresh placeholder; a nested
/// block is kept in its braces and its elements are appended in order.
pub fn fragments_until_close(s: &Vec<char>, p: usize, g: &mut PlaceholderGenerator) -> (r: Step<
    RSXParsedExpression,
>)
    requires
        0 < p <= s@.len(),
        old(g).wf(),
    ensures
        produced(s@, p as int, r, *old(g), *final(g)),
        agrees(r@, final(g).count(), fragments(s@, p as int, old(g).count(), empty_expr())),
    decreases s@.len() - p, 5int,
{
    let mut tokens = String::new();
    let mut elements: Vec<(RSXElementPlaceholder, RSXElement)> = Vec::new();
    let mut q = p;
    assert(ExprV { tokens: tokens@, elements: pairs_v(elements@) } == empty_expr());
    loop
        invariant
            p <= q <= s@.len(),
            g.wf(),
            g.count() >= old(g).count(),
            fragments(s@, q as int, g.count(), ExprV { tokens: tokens@, elements: pairs_v(elements@) })
                == fragments(s@, p as int, old(g).count(), empty_expr()),
        decreases s@.len() - q,
    {
        if q >= s.len() {
            return Step::Failed(error_at(s, q, "}"));
        }
        if s[q] == '}' {
            return Step::Done(RSXParsedExpression { tokens, elements }, q + 1);
        }
        let ghost acc = ExprV { tokens: tokens@, elements: pairs_v(elements@) };
        match fragment_at(s, q, g) {
            Step::Done(fragment, e) => {
                let ghost j = g.count();
                let ghost fv = fragment@;
                match fragment {
                    RSXRawCodeFragment::Empty => {},
                    RSXRawCodeFragment::Token(c) => push_char(&mut tokens, c),
                    RSXRawCodeFragment::Tokens(t) => push_str(&mut tokens, t.as_str()),
                    RSXRawCodeFragment::Element(element) => {
                        let placeholder = RSXElementPlaceholder::generate(g);
                        push_str(&mut tokens, placeholder.as_str());
                        proof {
                            lemma_pairs_v_push(elements@, (placeholder, element));
                        }
                        elements.push((placeholder, element));
                    },
                    RSXRawCodeFragment::ParsedExpression(inner) => {
                        let mut inner = inner;
                        push_char(&mut tokens, '{');
                        push_str(&mut tokens, inner.tokens.as_str());
                        push_char(&mut tokens, '}');
                        proof {
                            lemma_pairs_v_append(elements@, inner.elements@);
                        }
                        elements.append(&mut inner.elements);
                    },
                }
                assert(ExprV { tokens: tokens@, elements: pairs_v(elements@) } =~= add_fragment(
                    acc,
                    fv,
                    j,
                ));
                assert(g.count() == j + fragment_draws(fv));
                q = e;
            },
            Step::Empty(err) => {
                return Step::Failed(err);
            },
            Step::Failed(err) => {
                return Step::Failed(err);
            },
        }
    }
}

/// One fragment of host source, tried in order: a nested code block, an
/// element, a comment (dropped), a character literal, a string literal (both
/// kept as written), or any single character but `}`.
pub fn fragment_at(s: &Vec<char>, p: usize, g: &mut PlaceholderGenerator) -> (r: Step<
    RSXRawCodeFragment,
>)
    requires
        p <= s@.len(),
        old(g).wf(),
    ensures
        produced(s@, p as int, r, *old(g), *final(g)),
        agrees(r@, final(g).count(), fragment(s@, p as int, old(g).count())),
        p < s@.len() && s@[p as int] != '}' ==> r is Done,
        (p >= s@.len() || s@[p as int] == '}') ==> r is Empty,
    decreases s@.len() - p, 4int,
{
    match code_block_at(s, p, g) {
        Step::Done(block, e) => {
            return Step::Done(RSXRawCodeFragment::ParsedExpression(block), e);
        },
        _ => {},
    }
    match element_at(s, p, g) {
        Step::Done(element, e) => {
            return Step::Done(RSXRawCodeFragment::Element(element), e);
        },
        _ => {},
    }
    match comment_end_exec(s, p) {
        Some(e) => {
            return Step::Done(RSXRawCodeFragment::Empty, e);
        },
        None => {},
    }
    match scan_char_literal(s, p) {
        Some(e) => {
            return Step::Done(RSXRawCodeFragment::Tokens(string_of(s, p, e)), e);
        },
        None => {},
    }
    match scan_quoted(s, p, '"') {
        Some((_, e)) => {
            return Step::Done(RSXRawCodeFragment::Tokens(string_of(s, p, e)), e);
        },
        None => {},
    }
    if p < s.len() && s[p] != '}' {
        Step::Done(RSXRawCodeFragment::Token(s[p]), p + 1)
    } else {
        Step::Empty(error_at(s, p, "expression"))
    }
}

// ---------------------------------------------------------------------------
// Elements
// ---------------------------------------------------------------------------
/// An element: a self-closing one if that reads, else a normal one.
pub fn element_at(s: &Vec<char>, p: usize, g: &mut PlaceholderGenerator) -> (r: Step<RSXElement>)
    requires
        p <= s@.len(),
        old(g).wf(),
    ensures
        produced(s@, p as int, r, *old(g), *final(g)),
        agrees(r@, final(g).count(), element(s@, p as int, old(g).count())),
        reports_mismatch(s@, r, element_closing_mismatch(s@, p as int, old(g).count())),
        !(p < s@.len() && s@[p as int] == '<') ==> r is Empty,
    decreases s@.len() - p, 3int,
{
    match self_closing_element_at(s, p, g) {
        Step::Done(element, e) => {
            return Step::Done(RSXElement::SelfClosing(element), e);
        },
        _ => {},
    }
    match normal_element_at(s, p, g) {
        Step::Done(element, e) => Step::Done(RSXElement::Normal(element), e),
        Step::Empty(err) => Step::Empty(err),
        Step::Failed(err) => Step::Failed(err),
    }
}

/// `<`, whitespace and comments, and a tag name.
pub fn element_open_at(s: &Vec<char>, p: usize) -> (r: Step<RSXElementName>)
    requires
        p <= s@.len(),
    ensures
        r is Done ==> p < r.end() <= s@.len() && !(r->Done_0 is KnownName),
        !(p < s@.len() && s@[p as int] == '<') ==> r is Empty,
        r is Done ==> s@[p as int] == '<' && spec_element_name(s@, ws_end(s@, p + 1))
            == SpecStep::Done(r->Done_0@, r.end()),
        p < s@.len() && s@[p as int] == '<' && !(spec_element_name(s@, ws_end(s@, p + 1)) is Done) ==> r is Failed,
        p < s@.len() && s@[p as int] == '<' && spec_element_name(s@, ws_end(s@, p + 1)) is Done ==> r is Done,
{
    if !(p < s.len() && s[p] == '<') {
        return Step::Empty(error_at(s, p, "<"));
    }
    let q = skip_ws(s, p + 1);
    match scan_element_name(s, q) {
        Step::Done(name, e) => Step::Done(name, e),
        Step::Empty(err) => Step::Failed(err),
        Step::Failed(err) => Step::Failed(err),
    }
}

/// The optional attributes after a tag name, and the position after them and
/// the whitespace and comments that follow.
fn optional_attributes_at(s: &Vec<char>, p: usize, g: &mut PlaceholderGenerator) -> (r: Step<
    RSXAttributes,
>)
    requires
        0 < p <= s@.len(),
        old(g).wf(),
    ensures
        produced(s@, p as int - 1, r, *old(g), *final(g)),
        agrees(r@, final(g).count(), optional_attributes(s@, p as int, old(g).count())),
        r is Empty ==> false,
        r is Done ==> p <= r.end(),
    decreases s@.len() - p, 5int,
{
    match attributes_at(s, p, g) {
        Step::Done(attributes, e) => Step::Done(attributes, skip_ws(s, e)),
        Step::Empty(_) => Step::Done(RSXAttributes(Vec::new()), p),
        Step::Failed(err) => Step::Failed(err),
    }
}

/// `<` name and attributes, up to where the tag closes.
fn tag_start_at(s: &Vec<char>, p: usize, g: &mut PlaceholderGenerator) -> (r: Step<
    (RSXElementName, RSXAttributes),
>)
    requires
        p <= s@.len(),
        old(g).wf(),
    ensures
        produced(s@, p as int, r, *old(g), *final(g)),
        agrees(r@, final(g).count(), tag_start(s@, p as int, old(g).count())),
        !(p < s@.len() && s@[p as int] == '<') ==> r is Empty,
        r is Done ==> !(r->Done_0.0 is KnownName),
    decreases s@.len() - p, 0int,
{
    let (name, e) = match element_open_at(s, p) {
        Step::Done(name, e) => (name, e),
        Step::Empty(err) => {
            return Step::Empty(err);
        },
        Step::Failed(err) => {
            return Step::Failed(err);
        },
    };
    let q = skip_ws(s, e);
    match optional_attributes_at(s, q, g) {
        Step::Done(attributes, q2) => Step::Done((name, attributes), q2),
        Step::Empty(err) => Step::Failed(err),
        Step::Failed(err) => Step::Failed(err),
    }
}

/// `<` name, attributes, then `/` and `>` (whitespace between them allowed).
pub fn self_closing_element_at(s: &Vec<char>, p: usize, g: &mut PlaceholderGenerator) -> (r: Step<
    RSXSelfClosingElement,
>)
    requires
        p <= s@.len(),
        old(g).wf(),
    ensures
        produced(s@, p as int, r, *old(g), *final(g)),
        agrees(r@, final(g).count(), self_closing_element(s@, p as int, old(g).count())),
        !(p < s@.len() && s@[p as int] == '<') ==> r is Empty,
    decreases s@.len() - p, 1int,
{
    let ((name, attributes), q2) = match tag_start_at(s, p, g) {
        Step::Done(t, q2) => (t, q2),
        Step::Empty(err) => {
            return Step::Empty(err);
        },
        Step::Failed(err) => {
            return Step::Failed(err);
        },
    };
    if !(q2 < s.len() && s[q2] == '/') {
        return Step::Failed(error_at(s, q2, "/>"));
    }
    let q3 = skip_spaces(s, q2 + 1);
    if q3 < s.len() && s[q3] == '>' {
        Step::Done(RSXSelfClosingElement(name, attributes), q3 + 1)
    } else {
        Step::Failed(error_at(s, q3, ">"))
    }
}

/// `<` name, attributes, `>`.
pub fn opening_element_at(s: &Vec<char>, p: usize, g: &mut PlaceholderGenerator) -> (r: Step<
    RSXOpeningElement,
>)
    requires
        p <= s@.len(),
        old(g).wf(),
    ensures
        produced(s@, p as int, r, *old(g), *final(g)),
        agrees(r@, final(g).count(), opening_element(s@, p as int, old(g).count())),
        !(p < s@.len() && s@[p as int] == '<') ==> r is Empty,
        r is Done ==> !(r->Done_0.0 is KnownName),
    decreases s@.len() - p, 1int,
{
    let ((name, attributes), q2) = match tag_start_at(s, p, g) {
        Step::Done(t, q2) => (t, q2),
        Step::Empty(err) => {
            return Step::Empty(err);
        },
        Step::Failed(err) => {
            return Step::Failed(err);
        },
    };
    if q2 < s.len() && s[q2] == '>' {
        Step::Done(RSXOpeningElement(name, attributes), q2 + 1)
    } else {
        Step::Failed(error_at(s, q2, ">"))
    }
}

/// An opening tag, children, and the closing tag of the same name.
pub fn normal_element_at(s: &Vec<char>, p: usize, g: &mut PlaceholderGenerator) -> (r: Step<
    RSXNormalElement,
>)
    requires
        p <= s@.len(),
        old(g).wf(),
    ensures
        produced(s@, p as int, r, *old(g), *final(g)),
        agrees(r@, final(g).count(), normal_element(s@, p as int, old(g).count())),
        reports_mismatch(s@, r, normal_closing_mismatch(s@, p as int, old(g).count())),
        !(p < s@.len() && s@[p as int] == '<') ==> r is Empty,
    decreases s@.len() - p, 2int,
{
    let (name, attributes, e) = match opening_element_at(s, p, g) {
        Step::Done(RSXOpeningElement(name, attributes), e) => (name, attributes, e),
        Step::Empty(err) => {
            return Step::Empty(err);
        },
        Step::Failed(err) => {
            return Step::Failed(err);
        },
    };
    let q = skip_ws(s, e);
    let (children, q2) = match children_at(s, q, g) {
        Step::Done(children, e2) => (children, skip_ws(s, e2)),
        Step::Empty(_) => (RSXChildren(Vec::new()), q),
        Step::Failed(err) => {
            return Step::Failed(err);
        },
    };
    let end = match scan_closing(s, q2, &name) {
        Step::Done(_, e3) => e3,
        Step::Empty(err) => {
            return Step::Failed(err);
        },
        Step::Failed(err) => {
            return Step::Failed(err);
        },
    };
    Step::Done(RSXNormalElement(name, attributes, children), end)
}

// ---------------------------------------------------------------------------
// Attributes
// ---------------------------------------------------------------------------
/// One or more attributes, each followed by whitespace and comments.
pub fn attributes_at(s: &Vec<char>, p: usize, g: &mut PlaceholderGenerator) -> (r: Step<
    RSXAttributes,
>)
    requires
        p <= s@.len(),
        old(g).wf(),
    ensures
        produced(s@, p as int, r, *old(g), *final(g)),
        agrees(r@, final(g).count(), attributes(s@, p as int, old(g).count())),
        r is Done ==> r->Done_0.0@.len() > 0,
    decreases s@.len() - p, 4int,
{
    let mut list: Vec<RSXAttribute> = Vec::new();
    match attribute_at(s, p, g) {
        Step::Done(a, e) => {
            proof {
                lemma_attributes_v_push(list@, a);
            }
            list.push(a);
            let mut q = skip_ws(s, e);
            loop
                invariant
                    p < q <= s@.len(),
                    g.wf(),
                    g.count() >= old(g).count(),
                    list@.len() > 0,
                    attributes_rest(s@, q as int, g.count(), attributes_v(list@))
                        == attributes(s@, p as int, old(g).count()),
                decreases s@.len() - q,
            {
                match attribute_at(s, q, g) {
                    Step::Done(a, e) => {
                        proof {
                            lemma_attributes_v_push(list@, a);
                        }
                        list.push(a);
                        q = skip_ws(s, e);
                    },
                    Step::Empty(_) => {
                        return Step::Done(RSXAttributes(list), q);
                    },
                    Step::Failed(err) => {
                        return Step::Failed(err);
                    },
                }
            }
        },
        Step::Empty(err) => Step::Empty(err),
        Step::Failed(err) => Step::Failed(err),
    }
}

/// An attribute: a spread if that reads, else a named one with a value if
/// that reads, else a name alone.
pub fn attribute_at(s: &Vec<char>, p: usize, g: &mut PlaceholderGenerator) -> (r: Step<
    RSXAttribute,
>)
    requires
        p <= s@.len(),
        old(g).wf(),
    ensures
        produced(s@, p as int, r, *old(g), *final(g)),
        agrees(r@, final(g).count(), attribute(s@, p as int, old(g).count())),
    decreases s@.len() - p, 3int,
{
    match spread_code_block_at(s, p, g) {
        Step::Done(expression, e) => {
            return Step::Done(RSXAttribute::Spread(expression), e);
        },
        _ => {},
    }
    match custom_attribute_at(s, p, g) {
        Step::Done(attribute, e) => {
            return Step::Done(attribute, e);
        },
        _ => {},
    }
    default_attribute_at(s, p)
}

/// A name, `=`, and a value, with whitespace and comments between them.
pub fn custom_attribute_at(s: &Vec<char>, p: usize, g: &mut PlaceholderGenerator) -> (r: Step<
    RSXAttribute,
>)
    requires
        p <= s@.len(),
        old(g).wf(),
    ensures
        produced(s@, p as int, r, *old(g), *final(g)),
        agrees(r@, final(g).count(), custom_attribute(s@, p as int, old(g).count())),
    decreases s@.len() - p, 2int,
{
    let (name, e) = match attribute_name_at(s, p) {
        Step::Done(name, e) => (name, e),
        Step::Empty(err) => {
            return Step::Empty(err);
        },
        Step::Failed(err) => {
            return Step::Failed(err);
        },
    };
    let q = skip_ws(s, e);
    if !(q < s.len() && s[q] == '=') {
        return Step::Failed(error_at(s, q, "="));
    }
    let q2 = skip_ws(s, q + 1);
    match attribute_value_at(s, q2, g) {
        Step::Done(value, e2) => Step::Done(RSXAttribute::Named(name, value), e2),
        Step::Empty(err) => Step::Failed(err),
        Step::Failed(err) => Step::Failed(err),
    }
}

/// A name alone; its value is the default (true).
pub fn default_attribute_at(s: &Vec<char>, p: usize) -> (r: Step<RSXAttribute>)
    requires
        p <= s@.len(),
    ensures
        r is Done ==> p < r.end() <= s@.len(),
        match attribute_name(s@, p as int) {
            SpecStep::Done(n, e) => r@ == SpecStep::Done(AttributeV::Named(n, ValueV::Default), e),
            SpecStep::Empty => r is Empty,
            SpecStep::Failed => r is Failed,
        },
{
    match attribute_name_at(s, p) {
        Step::Done(name, e) => Step::Done(RSXAttribute::Named(name, RSXAttributeValue::Default), e),
        Step::Empty(err) => Step::Empty(err),
        Step::Failed(err) => Step::Failed(err),
    }
}

/// An attribute name: a namespaced name if that reads, else an identifier.
pub fn attribute_name_at(s: &Vec<char>, p: usize) -> (r: Step<RSXAttributeName>)
    requires
        p <= s@.len(),
    ensures
        r is Done ==> p < r.end() <= s@.len(),
        r@ == attribute_name(s@, p as int),
{
    match scan_namespaced(s, p) {
        Step::Done((ns, n), e) => {
            return Step::Done(RSXAttributeName::NamedspacedName(ns, n), e);
        },
        _ => {},
    }
    match scan_identifier(s, p) {
        Step::Done(n, e) => Step::Done(RSXAttributeName::Name(n), e),
        Step::Empty(err) => Step::Empty(err),
        Step::Failed(err) => Step::Failed(err),
    }
}

/// An attribute value, tried in order: a boolean, a number, a quoted string
/// (each optionally in braces), a code block, an element.
pub fn attribute_value_at(s: &Vec<char>, p: usize, g: &mut PlaceholderGenerator) -> (r: Step<
    RSXAttributeValue,
>)
    requires
        p <= s@.len(),
        old(g).wf(),
    ensures
        produced(s@, p as int, r, *old(g), *final(g)),
        agrees(r@, final(g).count(), attribute_value(s@, p as int, old(g).count())),
    decreases s@.len() - p, 4int,
{
    match bracketed_boolean_at(s, p) {
        Step::Done(b, e) => {
            return Step::Done(RSXAttributeValue::Boolean(b), e);
        },
        _ => {},
    }
    match bracketed_number_at(s, p) {
        Step::Done(n, e) => {
            return Step::Done(RSXAttributeValue::Number(n), e);
        },
        _ => {},
    }
    match bracketed_string_at(s, p) {
        Step::Done(v, e) => {
            return Step::Done(RSXAttributeValue::Str(v), e);
        },
        _ => {},
    }
    match code_block_at(s, p, g) {
        Step::Done(expression, e) => {
            return Step::Done(RSXAttributeValue::CodeBlock(expression), e);
        },
        _ => {},
    }
    match element_at(s, p, g) {
        Step::Done(element, e) => Step::Done(RSXAttributeValue::Element(element), e),
        Step::Empty(err) => Step::Empty(err),
        Step::Failed(err) => Step::Failed(err),
    }
}

/// `true` or `false`, or one of them in braces.
pub fn bracketed_boolean_at(s: &Vec<char>, p: usize) -> (r: Step<RSXAttributeBoolean>)
    requires
        p <= s@.len(),
    ensures
        r is Done ==> p < r.end() <= s@.len(),
        r@ == bracketed_boolean(s@, p as int),
{
    match scan_boolean(s, p) {
        Some((b, e)) => {
            return Step::Done(RSXAttributeBoolean(b), e);
        },
        None => {},
    }
    if !(p < s.len() && s[p] == '{') {
        return Step::Empty(error_at(s, p, "boolean"));
    }
    let q = skip_ws(s, p + 1);
    match scan_boolean(s, q) {
        Some((b, e)) => {
            let q2 = skip_ws(s, e);
            if q2 < s.len() && s[q2] == '}' {
                Step::Done(RSXAttributeBoolean(b), q2 + 1)
            } else {
                Step::Failed(error_at(s, q2, "}"))
            }
        },
        None => Step::Failed(error_at(s, q, "boolean")),
    }
}

/// A numeric literal, or one in braces.
pub fn bracketed_number_at(s: &Vec<char>, p: usize) -> (r: Step<RSXAttributeNumber>)
    requires
        p <= s@.len(),
    ensures
        r is Done ==> p < r.end() <= s@.len(),
        r@ == bracketed_number(s@, p as int),
{
    match scan_number(s, p) {
        Some(e) => {
            return Step::Done(RSXAttributeNumber(string_of(s, p, e)), e);
        },
        None => {},
    }
    if !(p < s.len() && s[p] == '{') {
        return Step::Empty(error_at(s, p, "number"));
    }
    let q = skip_ws(s, p + 1);
    match scan_number(s, q) {
        Some(e) => {
            let q2 = skip_ws(s, e);
            if q2 < s.len() && s[q2] == '}' {
                Step::Done(RSXAttributeNumber(string_of(s, q, e)), q2 + 1)
            } else {
                Step::Failed(error_at(s, q2, "}"))
            }
        },
        None => Step::Failed(error_at(s, q, "number")),
    }
}

/// A quoted string followed by whitespace and comments, or one in braces.
pub fn bracketed_string_at(s: &Vec<char>, p: usize) -> (r: Step<RSXAttributeString>)
    requires
        p <= s@.len(),
    ensures
        r is Done ==> p < r.end() <= s@.len(),
        r@ == bracketed_string(s@, p as int),
{
    match string_characters_at(s, p) {
        Step::Done(v, e) => {
            return Step::Done(v, e);
        },
        Step::Failed(err) => {
            return Step::Failed(err);
        },
        Step::Empty(_) => {},
    }
    if !(p < s.len() && s[p] == '{') {
        return Step::Empty(error_at(s, p, "string"));
    }
    let q = skip_ws(s, p + 1);
    match string_characters_at(s, q) {
        Step::Done(v, e) => {
            if e < s.len() && s[e] == '}' {
                Step::Done(v, e + 1)
            } else {
                Step::Failed(error_at(s, e, "}"))
            }
        },
        Step::Empty(err) => Step::Failed(err),
        Step::Failed(err) => Step::Failed(err),
    }
}

/// A double-quoted string if that reads, else a single-quoted one; then
/// whitespace and comments.
pub fn string_characters_at(s: &Vec<char>, p: usize) -> (r: Step<RSXAttributeString>)
    requires
        p <= s@.len(),
    ensures
        r is Done ==> p < r.end() <= s@.len(),
        r@ == string_characters(s@, p as int),
{
    match scan_quoted(s, p, '"') {
        Some((v, e)) => {
            return Step::Done(
                RSXAttributeString::DoubleQuoted(JSDoubleStringCharacters(v)),
                skip_ws(s, e),
            );
        },
        None => {},
    }
    match scan_quoted(s, p, '\'') {
        Some((v, e)) => Step::Done(
            RSXAttributeString::SingleQuoted(JSSingleStringCharacters(v)),
            skip_ws(s, e),
        ),
        None => {
            if p < s.len() && s[p] == '\'' {
                Step::Failed(error_at(s, p, "'"))
            } else {
                Step::Empty(error_at(s, p, "string"))
            }
        },
    }
}

// ---------------------------------------------------------------------------
// Children
// ---------------------------------------------------------------------------
/// One or more children, each followed by whitespace and comments.
pub fn children_at(s: &Vec<char>, p: usize, g: &mut PlaceholderGenerator) -> (r: Step<
    RSXChildren,
>)
    requires
        p <= s@.len(),
        old(g).wf(),
    ensures
        produced(s@, p as int, r, *old(g), *final(g)),
        agrees(r@, final(g).count(), children(s@, p as int, old(g).count())),
        r is Done ==> r->Done_0.0@.len() > 0,
    decreases s@.len() - p, 5int,
{
    let mut list: Vec<RSXChild> = Vec::new();
    match child_at(s, p, g) {
        Step::Done(c, e) => {
            proof {
                lemma_children_v_push(list@, c);
            }
            list.push(c);
            let mut q = skip_ws(s, e);
            loop
                invariant
                    p < q <= s@.len(),
                    g.wf(),
                    g.count() >= old(g).count(),
                    list@.len() > 0,
                    children_rest(s@, q as int, g.count(), children_v(list@))
                        == children(s@, p as int, old(g).count()),
                decreases s@.len() - q,
            {
                match child_at(s, q, g) {
                    Step::Done(c, e) => {
                        proof {
                            lemma_children_v_push(list@, c);
                        }
                        list.push(c);
                        q = skip_ws(s, e);
                    },
                    Step::Empty(_) => {
                        return Step::Done(RSXChildren(list), q);
                    },
                    Step::Failed(err) => {
                        return Step::Failed(err);
                    },
                }
            }
        },
        Step::Empty(err) => Step::Empty(err),
        Step::Failed(err) => Step::Failed(err),
    }
}

/// A child, tried in order: a code block, an element, text.
pub fn child_at(s: &Vec<char>, p: usize, g: &mut PlaceholderGenerator) -> (r: Step<RSXChild>)
    requires
        p <= s@.len(),
        old(g).wf(),
    ensures
        produced(s@, p as int, r, *old(g), *final(g)),
        agrees(r@, final(g).count(), child(s@, p as int, old(g).count())),
    decreases s@.len() - p, 4int,
{
    match code_block_at(s, p, g) {
        Step::Done(expression, e) => {
            return Step::Done(RSXChild::CodeBlock(expression), e);
        },
        _ => {},
    }
    match element_at(s, p, g) {
        Step::Done(element, e) => {
            return Step::Done(RSXChild::Element(element), e);
        },
        _ => {},
    }
    match scan_text(s, p) {
        Some((t, e)) => Step::Done(RSXChild::Text(RSXText(t)), e),
        None => Step::Empty(error_at(s, p, "text")),
    }
}

} // verus!
