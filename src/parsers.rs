//! The grammar's productions over text: each reads a prefix of its input and
//! answers the value read and the rest of the input, or an error.
use vstd::prelude::*;

use crate::ast::{
    JSNumber, RSXAttribute, RSXAttributeBoolean, RSXAttributeName, RSXAttributeNumber,
    RSXAttributeString, RSXAttributeValue, RSXAttributes, RSXChild, RSXChildren,
    RSXClosingElement, RSXElement, RSXElementName, RSXIdentifier, RSXNormalElement,
    RSXOpeningElement, RSXParsedExpression, RSXRawCodeFragment, RSXSelfClosingElement, RSXText,
    RSXTextCharacter,
};
use crate::grammar::{
    attribute_at, attribute_name_at, attribute_value_at, attributes_at,
    bracketed_boolean_at, bracketed_number_at, bracketed_string_at, child_at, children_at,
    code_block_at, custom_attribute_at, default_attribute_at, element_at, element_open_at,
    fragment_at, normal_element_at, opening_element_at, self_closing_element_at,
    spread_code_block_at, string_characters_at,
};
use crate::lexical::{
    boolean_at, char_literal_end, comment_end, comment_end_exec, digits_end, error_at,
    escape_value, escape_value_exec, exponent_end, fraction_end, integer_end, is_delimiter,
    is_delimiter_exec, is_digit, number_end, quoted_at, scan_boolean, scan_char_literal,
    scan_exponent, scan_fraction, scan_integer, scan_number, scan_quoted,
    scan_simple_identifier, scan_text, simple_end, skip_spaces, skip_ws, spaces_end,
    spec_identifier, spec_text, ws_end, ParseError, SpecStep, Step,
};
use crate::names::{
    char_at, ids_view, name_text, scan_closing, scan_element_name, scan_identifier, scan_member,
    scan_namespaced, spec_closing, spec_element_name, spec_member, spec_namespaced, ClosingV,
};
use crate::placeholders::PlaceholderGenerator;
use crate::syntax::{
    attribute, attribute_name, attribute_value, attributes, bracketed_boolean, bracketed_number,
    bracketed_string, child, children, code_block, custom_attribute, element,
    element_closing_mismatch, fragment, normal_closing_mismatch,
    normal_element, opening_element, self_closing_element, spread_code_block, string_characters,
    Parsed,
};
use crate::text::{chars_of, string_of};

verus! {

/// `out` holds the value read and the input after its first `e` characters.
pub open spec fn read_to<'a, T>(input: Seq<char>, out: Result<(T, &'a str), ParseError>, e: int) -> bool {
    match out {
        Ok((_, rest)) => 0 < e <= input.len() && rest@ == input.subrange(e, input.len() as int),
        Err(_) => false,
    }
}

/// A success consumed at least one character and left the rest of the input.
pub open spec fn consumes<'a, T>(input: Seq<char>, out: Result<(T, &'a str), ParseError>) -> bool {
    match out {
        Ok((_, rest)) => rest@.len() < input.len() && rest@ == input.subrange(
            input.len() - rest@.len(),
            input.len() as int,
        ),
        Err(_) => true,
    }
}

/// What a production read from position 0 answers as a result over the text.
pub open spec fn answers<'a, T>(input: Seq<char>, r: Step<T>, out: Result<(T, &'a str), ParseError>) -> bool {
    match (r, out) {
        (Step::Done(v, e), Ok((w, rest))) => w == v && rest@ == input.subrange(
            e as int,
            input.len() as int,
        ),
        (Step::Empty(x), Err(y)) => x == y,
        (Step::Failed(x), Err(y)) => x == y,
        _ => false,
    }
}

/// `out` is what the production, read from the start of `input`, answers:
/// on success its value and the input after it; `k` placeholders are drawn after it.
pub open spec fn outcome<'a, T: View>(
    input: Seq<char>,
    out: Result<(T, &'a str), ParseError>,
    k: nat,
    p: Parsed<T::V>,
) -> bool {
    match (p, out) {
        (Parsed::Done(v, e, j), Ok((w, rest))) => w@ == v && rest@ == input.subrange(
            e,
            input.len() as int,
        ) && k == j,
        (Parsed::Empty(j), Err(_)) => k == j,
        (Parsed::Failed(j), Err(_)) => k == j,
        _ => false,
    }
}

/// `out` is the error of a closing tag of another name, where `m` says there is one:
/// at its position, on the character there, expecting the element's name text.
pub open spec fn reports_closing_mismatch<'a, T>(
    input: Seq<char>,
    out: Result<(T, &'a str), ParseError>,
    m: Option<(int, Seq<char>)>,
) -> bool {
    match m {
        Some((i, t)) => out matches Err(err) && err.position == i && err.expected@ == t
            && err.unexpected == char_at(input, i),
        None => true,
    }
}

/// `out` is what a production that draws no placeholders answers.
pub open spec fn outcome_of<'a, T: View>(
    input: Seq<char>,
    out: Result<(T, &'a str), ParseError>,
    p: SpecStep<T::V>,
) -> bool {
    match (p, out) {
        (SpecStep::Done(v, e), Ok((w, rest))) => w@ == v && rest@ == input.subrange(
            e,
            input.len() as int,
        ),
        (SpecStep::Empty, Err(_)) => true,
        (SpecStep::Failed, Err(_)) => true,
        _ => false,
    }
}

fn finish<'a, T>(input: &'a str, n: usize, r: Step<T>) -> (out: Result<(T, &'a str), ParseError>)
    requires
        n == input@.len(),
        r is Done ==> 0 < r.end() <= n,
    ensures
        answers(input@, r, out),
        consumes(input@, out),
{
    match r {
        Step::Done(v, e) => {
            let rest = input.substring_char(e, n);
            Ok((v, rest))
        },
        Step::Empty(err) => Err(err),
        Step::Failed(err) => Err(err),
    }
}

/// The characters of the input and their count.
fn load(input: &str) -> (r: (Vec<char>, usize))
    ensures
        r.0@ == input@,
        r.1 == input@.len(),
{
    let v = chars_of(input);
    let n = v.len();
    (v, n)
}

// ---------------------------------------------------------------------------
// Entry points
// ---------------------------------------------------------------------------
/// Parses one element with whitespace and comments around it, and answers
/// the element and the input that follows. Placeholders are drawn from a
/// fresh generator, so the same input always gives the same tree.
pub fn parse(input: &str) -> (out: Result<(RSXElement, &str), ParseError>)
    ensures
        consumes(input@, out),
        reports_closing_mismatch(input@, out, element_closing_mismatch(input@, ws_end(input@, 0), 0)),
        match (element(input@, ws_end(input@, 0), 0), out) {
            (Parsed::Done(v, e, _), Ok((w, rest))) => w@ == v && rest@ == input@.subrange(
                ws_end(input@, e),
                input@.len() as int,
            ),
            (Parsed::Done(..), Err(_)) => false,
            (_, Ok(_)) => false,
            _ => true,
        },
{
    let mut g = PlaceholderGenerator::new();
    rsx_element_ignoring_ws(input, &mut g)
}

/// Whitespace and comments, an element, whitespace and comments.
pub fn rsx_element_ignoring_ws<'a>(input: &'a str, g: &mut PlaceholderGenerator) -> (out: Result<
    (RSXElement, &'a str),
    ParseError,
>)
    requires
        old(g).wf(),
    ensures
        final(g).wf(),
        consumes(input@, out),
        reports_closing_mismatch(
            input@,
            out,
            element_closing_mismatch(input@, ws_end(input@, 0), old(g).count()),
        ),
        match (element(input@, ws_end(input@, 0), old(g).count()), out) {
            (Parsed::Done(v, e, j), Ok((w, rest))) => w@ == v && rest@ == input@.subrange(
                ws_end(input@, e),
                input@.len() as int,
            ) && final(g).count() == j,
            (Parsed::Done(..), Err(_)) => false,
            (_, Ok(_)) => false,
            (Parsed::Empty(j), Err(_)) => final(g).count() == j,
            (Parsed::Failed(j), Err(_)) => final(g).count() == j,
        },
{
    let (s, n) = load(input);
    let p = skip_ws(&s, 0);
    let r = match element_at(&s, p, g) {
        Step::Done(element, e) => Step::Done(element, skip_ws(&s, e)),
        other => other,
    };
    finish(input, n, r)
}

// ---------------------------------------------------------------------------
// Elements
// ---------------------------------------------------------------------------
pub fn rsx_element<'a>(input: &'a str, g: &mut PlaceholderGenerator) -> (out: Result<
    (RSXElement, &'a str),
    ParseError,
>)
    requires
        old(g).wf(),
    ensures
        final(g).wf(),
        outcome(input@, out, final(g).count(), element(input@, 0, old(g).count())),
        consumes(input@, out),
        reports_closing_mismatch(input@, out, element_closing_mismatch(input@, 0, old(g).count())),
        !(input@.len() > 0 && input@[0] == '<') ==> out is Err,
{
    let (s, n) = load(input);
    let r = element_at(&s, 0, g);
    finish(input, n, r)
}

/// `<`, whitespace and comments, and a tag name.
pub fn rsx_element_open(input: &str) -> (out: Result<(RSXElementName, &str), ParseError>)
    ensures
        out is Ok <==> input@.len() > 0 && input@[0] == '<' && spec_element_name(
            input@,
            ws_end(input@, 1),
        ) is Done,
        match spec_element_name(input@, ws_end(input@, 1)) {
            SpecStep::Done(v, e) => out is Ok ==> (out->Ok_0).0@ == v && read_to(input@, out, e),
            _ => true,
        },
{
    let (s, n) = load(input);
    let r = element_open_at(&s, 0);
    finish(input, n, r)
}

pub fn rsx_self_closing_element<'a>(input: &'a str, g: &mut PlaceholderGenerator) -> (out: Result<
    (RSXSelfClosingElement, &'a str),
    ParseError,
>)
    requires
        old(g).wf(),
    ensures
        final(g).wf(),
        outcome(input@, out, final(g).count(), self_closing_element(input@, 0, old(g).count())),
        consumes(input@, out),
{
    let (s, n) = load(input);
    let r = self_closing_element_at(&s, 0, g);
    finish(input, n, r)
}

pub fn rsx_normal_element<'a>(input: &'a str, g: &mut PlaceholderGenerator) -> (out: Result<
    (RSXNormalElement, &'a str),
    ParseError,
>)
    requires
        old(g).wf(),
    ensures
        final(g).wf(),
        outcome(input@, out, final(g).count(), normal_element(input@, 0, old(g).count())),
        consumes(input@, out),
        reports_closing_mismatch(input@, out, normal_closing_mismatch(input@, 0, old(g).count())),
        !(input@.len() > 0 && input@[0] == '<') ==> out is Err,
{
    let (s, n) = load(input);
    let r = normal_element_at(&s, 0, g);
    finish(input, n, r)
}

pub fn rsx_opening_element<'a>(input: &'a str, g: &mut PlaceholderGenerator) -> (out: Result<
    (RSXOpeningElement, &'a str),
    ParseError,
>)
    requires
        old(g).wf(),
    ensures
        final(g).wf(),
        outcome(input@, out, final(g).count(), opening_element(input@, 0, old(g).count())),
        consumes(input@, out),
        !(input@.len() > 0 && input@[0] == '<') ==> out is Err,
{
    let (s, n) = load(input);
    let r = opening_element_at(&s, 0, g);
    finish(input, n, r)
}

/// The closing tag of `name`. A mismatch names the expected text and the
/// position of the first character that differs.
pub fn rsx_closing_element<'a, 'b>(name: &'b RSXElementName, input: &'a str) -> (out: Result<
    (RSXClosingElement<'b>, &'a str),
    ParseError,
>)
    requires
        !(name is KnownName),
    ensures
        match (spec_closing(input@, 0, name_text(name@)), out) {
            (ClosingV::Done(e), Ok((c, rest))) => c.0 == name && rest@ == input@.subrange(
                e,
                input@.len() as int,
            ),
            (ClosingV::Empty, Err(_)) => true,
            (ClosingV::Failed(i), Err(err)) => err.position == i && err.unexpected == char_at(
                input@,
                i,
            ),
            _ => false,
        },
        ({
            let a = spaces_end(input@, 1);
            input@.len() > 0 && input@[0] == '<' && a < input@.len() && input@[a] == '/'
                && crate::names::match_name(input@, ws_end(input@, a + 1), name_text(name@), 0) is Err
        }) ==> (out matches Err(err) && err.expected@ == name_text(name@)),
{
    let (s, n) = load(input);
    let r = scan_closing(&s, 0, name);
    finish(input, n, r)
}

pub fn rsx_element_name(input: &str) -> (out: Result<(RSXElementName, &str), ParseError>)
    ensures
        match (spec_element_name(input@, 0), out) {
            (SpecStep::Done(v, e), Ok((w, rest))) => w@ == v && rest@ == input@.subrange(
                e,
                input@.len() as int,
            ),
            (SpecStep::Done(..), Err(_)) => false,
            (_, Ok(_)) => false,
            _ => true,
        },
{
    let (s, n) = load(input);
    let r = scan_element_name(&s, 0);
    finish(input, n, r)
}

/// A start character (a letter, `_` or `$`) and identifier characters.
pub fn rsx_identifier_simple(input: &str) -> (out: Result<(RSXIdentifier, &str), ParseError>)
    ensures
        match (simple_end(input@, 0), out) {
            (Some(e), Ok((w, rest))) => w@ == input@.subrange(0, e) && rest@ == input@.subrange(
                e,
                input@.len() as int,
            ),
            (None, Err(_)) => true,
            _ => false,
        },
{
    let (s, n) = load(input);
    match scan_simple_identifier(&s, 0) {
        Some(e) => {
            let id = RSXIdentifier(string_of(&s, 0, e));
            Ok((id, input.substring_char(e, n)))
        },
        None => Err(error_at(&s, 0, "identifier")),
    }
}

/// Simple identifiers joined by `-`, whitespace and comments allowed around
/// each `-`; the text joins the segments with `-`.
pub fn rsx_identifier(input: &str) -> (out: Result<(RSXIdentifier, &str), ParseError>)
    ensures
        match (spec_identifier(input@, 0), out) {
            (SpecStep::Done(v, e), Ok((w, rest))) => w@ == v && rest@ == input@.subrange(
                e,
                input@.len() as int,
            ),
            (SpecStep::Done(..), Err(_)) => false,
            (_, Ok(_)) => false,
            _ => true,
        },
{
    let (s, n) = load(input);
    let r = scan_identifier(&s, 0);
    finish(input, n, r)
}

pub fn rsx_namespaced_name(input: &str) -> (out: Result<((RSXIdentifier, RSXIdentifier), &str), ParseError>)
    ensures
        match (spec_namespaced(input@, 0), out) {
            (SpecStep::Done(v, e), Ok((w, rest))) => w@ == v && rest@ == input@.subrange(
                e,
                input@.len() as int,
            ),
            (SpecStep::Done(..), Err(_)) => false,
            (_, Ok(_)) => false,
            _ => true,
        },
{
    let (s, n) = load(input);
    let r = scan_namespaced(&s, 0);
    finish(input, n, r)
}

pub fn rsx_member_expression(input: &str) -> (out: Result<(Vec<RSXIdentifier>, &str), ParseError>)
    ensures
        match (spec_member(input@, 0), out) {
            (SpecStep::Done(v, e), Ok((w, rest))) => ids_view(w@) == v && rest@ == input@.subrange(
                e,
                input@.len() as int,
            ),
            (SpecStep::Done(..), Err(_)) => false,
            (_, Ok(_)) => false,
            _ => true,
        },
{
    let (s, n) = load(input);
    let r = scan_member(&s, 0);
    finish(input, n, r)
}

// ---------------------------------------------------------------------------
// Attributes
// ---------------------------------------------------------------------------
pub fn rsx_attributes<'a>(input: &'a str, g: &mut PlaceholderGenerator) -> (out: Result<
    (RSXAttributes, &'a str),
    ParseError,
>)
    requires
        old(g).wf(),
    ensures
        final(g).wf(),
        outcome(input@, out, final(g).count(), attributes(input@, 0, old(g).count())),
        consumes(input@, out),
        out matches Ok((a, _)) ==> a.0@.len() > 0,
{
    let (s, n) = load(input);
    let r = attributes_at(&s, 0, g);
    finish(input, n, r)
}

pub fn rsx_attribute<'a>(input: &'a str, g: &mut PlaceholderGenerator) -> (out: Result<
    (RSXAttribute, &'a str),
    ParseError,
>)
    requires
        old(g).wf(),
    ensures
        final(g).wf(),
        outcome(input@, out, final(g).count(), attribute(input@, 0, old(g).count())),
        consumes(input@, out),
{
    let (s, n) = load(input);
    let r = attribute_at(&s, 0, g);
    finish(input, n, r)
}

pub fn rsx_spread_attribute<'a>(input: &'a str, g: &mut PlaceholderGenerator) -> (out: Result<
    (RSXAttribute, &'a str),
    ParseError,
>)
    requires
        old(g).wf(),
    ensures
        final(g).wf(),
        match (spread_code_block(input@, 0, old(g).count()), out) {
            (Parsed::Done(x, e, j), Ok((a, rest))) => a@ == crate::model::AttributeV::Spread(x)
                && rest@ == input@.subrange(e, input@.len() as int) && final(g).count() == j,
            (Parsed::Done(..), Err(_)) => false,
            (_, Ok(_)) => false,
            (Parsed::Empty(j), Err(_)) => final(g).count() == j,
            (Parsed::Failed(j), Err(_)) => final(g).count() == j,
        },
        consumes(input@, out),
        out matches Ok((a, _)) ==> a is Spread,
{
    let (s, n) = load(input);
    let r = match spread_code_block_at(&s, 0, g) {
        Step::Done(x, e) => Step::Done(RSXAttribute::Spread(x), e),
        Step::Empty(err) => Step::Empty(err),
        Step::Failed(err) => Step::Failed(err),
    };
    finish(input, n, r)
}

pub fn rsx_custom_attribute<'a>(input: &'a str, g: &mut PlaceholderGenerator) -> (out: Result<
    (RSXAttribute, &'a str),
    ParseError,
>)
    requires
        old(g).wf(),
    ensures
        final(g).wf(),
        outcome(input@, out, final(g).count(), custom_attribute(input@, 0, old(g).count())),
        consumes(input@, out),
{
    let (s, n) = load(input);
    let r = custom_attribute_at(&s, 0, g);
    finish(input, n, r)
}

pub fn rsx_default_attribute(input: &str) -> (out: Result<(RSXAttribute, &str), ParseError>)
    ensures
        match (attribute_name(input@, 0), out) {
            (SpecStep::Done(n, e), Ok((a, rest))) => a@ == crate::model::AttributeV::Named(
                n,
                crate::model::ValueV::Default,
            ) && rest@ == input@.subrange(e, input@.len() as int),
            (SpecStep::Done(..), Err(_)) => false,
            (_, Ok(_)) => false,
            _ => true,
        },
        consumes(input@, out),
{
    let (s, n) = load(input);
    let r = default_attribute_at(&s, 0);
    finish(input, n, r)
}

pub fn rsx_attribute_complex_name(input: &str) -> (out: Result<(RSXAttributeName, &str), ParseError>)
    ensures
        outcome_of(input@, out, attribute_name(input@, 0)),
        consumes(input@, out),
{
    let (s, n) = load(input);
    let r = attribute_name_at(&s, 0);
    finish(input, n, r)
}

pub fn rsx_attribute_value<'a>(input: &'a str, g: &mut PlaceholderGenerator) -> (out: Result<
    (RSXAttributeValue, &'a str),
    ParseError,
>)
    requires
        old(g).wf(),
    ensures
        final(g).wf(),
        outcome(input@, out, final(g).count(), attribute_value(input@, 0, old(g).count())),
        consumes(input@, out),
{
    let (s, n) = load(input);
    let r = attribute_value_at(&s, 0, g);
    finish(input, n, r)
}

pub fn rsx_bracketed_attribute_bool(input: &str) -> (out: Result<(RSXAttributeBoolean, &str), ParseError>)
    ensures
        outcome_of(input@, out, bracketed_boolean(input@, 0)),
        consumes(input@, out),
        boolean_at(input@, 0) matches Some((b, e)) ==> read_to(input@, out, e) && (out->Ok_0).0.0
            == b,
{
    let (s, n) = load(input);
    let r = bracketed_boolean_at(&s, 0);
    finish(input, n, r)
}

/// `true` or `false`.
pub fn rsx_attribute_bool(input: &str) -> (out: Result<(RSXAttributeBoolean, &str), ParseError>)
    ensures
        match (boolean_at(input@, 0), out) {
            (Some((b, e)), Ok((v, rest))) => v.0 == b && rest@ == input@.subrange(
                e,
                input@.len() as int,
            ),
            (None, Err(_)) => true,
            _ => false,
        },
{
    let (s, n) = load(input);
    match scan_boolean(&s, 0) {
        Some((b, e)) => Ok((RSXAttributeBoolean(b), input.substring_char(e, n))),
        None => Err(error_at(&s, 0, "boolean")),
    }
}

pub fn rsx_bracketed_attribute_number(input: &str) -> (out: Result<(RSXAttributeNumber, &str), ParseError>)
    ensures
        outcome_of(input@, out, bracketed_number(input@, 0)),
        consumes(input@, out),
        number_end(input@, 0) matches Some(e) ==> read_to(input@, out, e) && (out->Ok_0).0.0@
            == input@.subrange(0, e),
{
    let (s, n) = load(input);
    let r = bracketed_number_at(&s, 0);
    finish(input, n, r)
}

/// A numeric literal; the number holds it as written.
pub fn rsx_attribute_number(input: &str) -> (out: Result<(RSXAttributeNumber, &str), ParseError>)
    ensures
        match (number_end(input@, 0), out) {
            (Some(e), Ok((v, rest))) => v.0@ == input@.subrange(0, e) && rest@ == input@.subrange(
                e,
                input@.len() as int,
            ),
            (None, Err(_)) => true,
            _ => false,
        },
{
    let (s, n) = load(input);
    match scan_number(&s, 0) {
        Some(e) => Ok((RSXAttributeNumber(string_of(&s, 0, e)), input.substring_char(e, n))),
        None => Err(error_at(&s, 0, "number")),
    }
}

pub fn rsx_bracketed_string_characters(input: &str) -> (out: Result<(RSXAttributeString, &str), ParseError>)
    ensures
        outcome_of(input@, out, bracketed_string(input@, 0)),
        consumes(input@, out),
{
    let (s, n) = load(input);
    let r = bracketed_string_at(&s, 0);
    finish(input, n, r)
}

/// A double-quoted string if that reads, else a single-quoted one, then
/// whitespace and comments.
pub fn rsx_string_characters(input: &str) -> (out: Result<(RSXAttributeString, &str), ParseError>)
    ensures
        outcome_of(input@, out, string_characters(input@, 0)),
        consumes(input@, out),
        match (quoted_at(input@, 0, '"'), quoted_at(input@, 0, '\'')) {
            (Some((v, e)), _) => read_to(input@, out, ws_end(input@, e)) && ((out->Ok_0).0 matches RSXAttributeString::DoubleQuoted(c) && c.0@ == v),
            (None, Some((v, e))) => read_to(input@, out, ws_end(input@, e)) && ((out->Ok_0).0 matches RSXAttributeString::SingleQuoted(c) && c.0@ == v),
            (None, None) => out is Err,
        },
{
    let (s, n) = load(input);
    let r = string_characters_at(&s, 0);
    finish(input, n, r)
}

// ---------------------------------------------------------------------------
// Children
// ---------------------------------------------------------------------------
pub fn rsx_children<'a>(input: &'a str, g: &mut PlaceholderGenerator) -> (out: Result<
    (RSXChildren, &'a str),
    ParseError,
>)
    requires
        old(g).wf(),
    ensures
        final(g).wf(),
        outcome(input@, out, final(g).count(), children(input@, 0, old(g).count())),
        consumes(input@, out),
        out matches Ok((c, _)) ==> c.0@.len() > 0,
{
    let (s, n) = load(input);
    let r = children_at(&s, 0, g);
    finish(input, n, r)
}

pub fn rsx_child<'a>(input: &'a str, g: &mut PlaceholderGenerator) -> (out: Result<
    (RSXChild, &'a str),
    ParseError,
>)
    requires
        old(g).wf(),
    ensures
        final(g).wf(),
        outcome(input@, out, final(g).count(), child(input@, 0, old(g).count())),
        consumes(input@, out),
{
    let (s, n) = load(input);
    let r = child_at(&s, 0, g);
    finish(input, n, r)
}

/// Text: characters other than `{ } < >`, where whitespace right before one
/// of those is left out.
pub fn rsx_text(input: &str) -> (out: Result<(RSXText, &str), ParseError>)
    ensures
        match (spec_text(input@, 0), out) {
            (SpecStep::Done(v, e), Ok((w, rest))) => w.0@ == v && rest@ == input@.subrange(
                e,
                input@.len() as int,
            ),
            (SpecStep::Done(..), Err(_)) => false,
            (_, Ok(_)) => false,
            _ => true,
        },
{
    let (s, n) = load(input);
    match scan_text(&s, 0) {
        Some((t, e)) => Ok((RSXText(t), input.substring_char(e, n))),
        None => Err(error_at(&s, 0, "text")),
    }
}

/// One character of text, and the whitespace after it when a delimiter follows.
pub fn rsx_text_character(input: &str) -> (out: Result<(RSXTextCharacter, &str), ParseError>)
    ensures
        out is Ok <==> input@.len() > 0 && !is_delimiter(input@[0]),
        out matches Ok((c, rest)) ==> c.0 == input@[0] && ({
            let a = spaces_end(input@, 1);
            let e = if a < input@.len() && is_delimiter(input@[a]) {
                a
            } else {
                1
            };
            rest@ == input@.subrange(e, input@.len() as int)
        }),
{
    let (s, n) = load(input);
    if !(0 < n && !is_delimiter_exec(s[0])) {
        return Err(error_at(&s, 0, "text"));
    }
    let a = skip_spaces(&s, 1);
    let e = if a < n && is_delimiter_exec(s[a]) {
        a
    } else {
        1
    };
    Ok((RSXTextCharacter(s[0]), input.substring_char(e, n)))
}

// ---------------------------------------------------------------------------
// Code blocks
// ---------------------------------------------------------------------------
pub fn rsx_code_block_begin(input: &str) -> (out: Result<((), &str), ParseError>)
    ensures
        out is Ok <==> input@.len() > 0 && input@[0] == '{',
        out is Ok ==> read_to(input@, out, 1),
{
    single_char(input, '{')
}

pub fn rsx_code_block_end(input: &str) -> (out: Result<((), &str), ParseError>)
    ensures
        out is Ok <==> input@.len() > 0 && input@[0] == '}',
        out is Ok ==> read_to(input@, out, 1),
{
    single_char(input, '}')
}

/// A code block: its host source with each element replaced by a placeholder,
/// and the elements found, in order.
pub fn rsx_code_block<'a>(input: &'a str, g: &mut PlaceholderGenerator) -> (out: Result<
    (RSXParsedExpression, &'a str),
    ParseError,
>)
    requires
        old(g).wf(),
    ensures
        final(g).wf(),
        outcome(input@, out, final(g).count(), code_block(input@, 0, old(g).count())),
        consumes(input@, out),
        !(input@.len() > 0 && input@[0] == '{') ==> out is Err,
{
    let (s, n) = load(input);
    let r = code_block_at(&s, 0, g);
    finish(input, n, r)
}

/// A spread: `{`, `...`, a host expression, `}`.
pub fn rsx_spread_code_block<'a>(input: &'a str, g: &mut PlaceholderGenerator) -> (out: Result<
    (RSXParsedExpression, &'a str),
    ParseError,
>)
    requires
        old(g).wf(),
    ensures
        final(g).wf(),
        outcome(input@, out, final(g).count(), spread_code_block(input@, 0, old(g).count())),
        consumes(input@, out),
        !(input@.len() > 0 && input@[0] == '{') ==> out is Err,
{
    let (s, n) = load(input);
    let r = spread_code_block_at(&s, 0, g);
    finish(input, n, r)
}

pub fn rsx_code_block_fragment<'a>(input: &'a str, g: &mut PlaceholderGenerator) -> (out: Result<
    (RSXRawCodeFragment, &'a str),
    ParseError,
>)
    requires
        old(g).wf(),
    ensures
        final(g).wf(),
        outcome(input@, out, final(g).count(), fragment(input@, 0, old(g).count())),
        consumes(input@, out),
        out is Err <==> input@.len() == 0 || input@[0] == '}',
{
    let (s, n) = load(input);
    let r = fragment_at(&s, 0, g);
    if n == 0 || s[0] == '}' {
        assert(!(r is Done));
    }
    finish(input, n, r)
}

// ---------------------------------------------------------------------------
// Tags and lexical pieces
// ---------------------------------------------------------------------------
fn single_char(input: &str, c: char) -> (out: Result<((), &str), ParseError>)
    ensures
        out is Ok <==> input@.len() > 0 && input@[0] == c,
        out is Ok ==> read_to(input@, out, 1),
{
    let (s, n) = load(input);
    if n > 0 && s[0] == c {
        Ok(((), input.substring_char(1, n)))
    } else {
        Err(error_at(&s, 0, "character"))
    }
}

pub fn open_tag(input: &str) -> (out: Result<((), &str), ParseError>)
    ensures
        out is Ok <==> input@.len() > 0 && input@[0] == '<',
        out is Ok ==> read_to(input@, out, 1),
{
    single_char(input, '<')
}

pub fn close_tag(input: &str) -> (out: Result<((), &str), ParseError>)
    ensures
        out is Ok <==> input@.len() > 0 && input@[0] == '>',
        out is Ok ==> read_to(input@, out, 1),
{
    single_char(input, '>')
}

/// `<`, whitespace, `/`.
pub fn closing_element_open_tag(input: &str) -> (out: Result<((), &str), ParseError>)
    ensures
        out is Ok <==> input@.len() > 0 && input@[0] == '<' && spaces_end(input@, 1) < input@.len()
            && input@[spaces_end(input@, 1)] == '/',
        out is Ok ==> read_to(input@, out, spaces_end(input@, 1) + 1),
{
    two_chars(input, '<', '/')
}

/// `/`, whitespace, `>`.
pub fn self_closing_element_close_tag(input: &str) -> (out: Result<((), &str), ParseError>)
    ensures
        out is Ok <==> input@.len() > 0 && input@[0] == '/' && spaces_end(input@, 1) < input@.len()
            && input@[spaces_end(input@, 1)] == '>',
        out is Ok ==> read_to(input@, out, spaces_end(input@, 1) + 1),
{
    two_chars(input, '/', '>')
}

fn two_chars(input: &str, a: char, b: char) -> (out: Result<((), &str), ParseError>)
    ensures
        out is Ok <==> input@.len() > 0 && input@[0] == a && spaces_end(input@, 1) < input@.len()
            && input@[spaces_end(input@, 1)] == b,
        out is Ok ==> read_to(input@, out, spaces_end(input@, 1) + 1),
{
    let (s, n) = load(input);
    if !(n > 0 && s[0] == a) {
        return Err(error_at(&s, 0, "character"));
    }
    let q = skip_spaces(&s, 1);
    if q < n && s[q] == b {
        Ok(((), input.substring_char(q + 1, n)))
    } else {
        Err(error_at(&s, q, "character"))
    }
}

/// `+` or `-`.
pub fn sign(input: &str) -> (out: Result<(char, &str), ParseError>)
    ensures
        out is Ok <==> input@.len() > 0 && (input@[0] == '+' || input@[0] == '-'),
        out matches Ok((c, _)) ==> c == input@[0] && read_to(input@, out, 1),
{
    let (s, n) = load(input);
    if n > 0 && (s[0] == '+' || s[0] == '-') {
        Ok((s[0], input.substring_char(1, n)))
    } else {
        Err(error_at(&s, 0, "sign"))
    }
}

/// `_` or `$`.
pub fn identifier_non_alpha_numeric(input: &str) -> (out: Result<(char, &str), ParseError>)
    ensures
        out is Ok <==> input@.len() > 0 && (input@[0] == '_' || input@[0] == '$'),
        out matches Ok((c, _)) ==> c == input@[0] && read_to(input@, out, 1),
{
    let (s, n) = load(input);
    if n > 0 && (s[0] == '_' || s[0] == '$') {
        Ok((s[0], input.substring_char(1, n)))
    } else {
        Err(error_at(&s, 0, "_ or $"))
    }
}

/// A backslash and one of `' " \ n r t b f v 0`: the character it stands for.
pub fn escaped_character(input: &str) -> (out: Result<(char, &str), ParseError>)
    ensures
        out is Ok <==> input@.len() > 1 && input@[0] == '\\' && escape_value(input@[1]) is Some,
        out matches Ok((c, _)) ==> Some(c) == escape_value(input@[1]) && read_to(input@, out, 2),
{
    let (s, n) = load(input);
    if n > 1 && s[0] == '\\' {
        match escape_value_exec(s[1]) {
            Some(c) => {
                return Ok((c, input.substring_char(2, n)));
            },
            None => {},
        }
    }
    Err(error_at(&s, 0, "escape"))
}

/// The value of the decimal digits `s[a..b]`.
pub open spec fn digits_value(s: Seq<char>, a: int, b: int) -> int
    decreases b - a,
{
    if b <= a {
        0
    } else {
        digits_value(s, a, b - 1) * 10 + (s[b - 1] as int - '0' as int)
    }
}

/// The value of the integer (sign and digits) `s[p..e]`.
pub open spec fn integer_value(s: Seq<char>, p: int, e: int) -> int {
    if s[p] == '-' {
        -digits_value(s, p + 1, e)
    } else if s[p] == '+' {
        digits_value(s, p + 1, e)
    } else {
        digits_value(s, p, e)
    }
}

/// The value of the digits `s[a..b]`, if it fits in a `u64`.
fn digits_to_u64(s: &Vec<char>, a: usize, b: usize) -> (r: Option<u64>)
    requires
        a <= b <= s@.len(),
        forall|i: int| a <= i < b ==> is_digit(#[trigger] s@[i]),
    ensures
        r matches Some(v) ==> v == digits_value(s@, a as int, b as int),
        r is None ==> digits_value(s@, a as int, b as int) > u64::MAX,
{
    let mut v: u64 = 0;
    let mut i = a;
    while i < b
        invariant
            a <= i <= b <= s@.len(),
            forall|k: int| a <= k < b ==> is_digit(#[trigger] s@[k]),
            v == digits_value(s@, a as int, i as int),
        decreases b - i,
    {
        let d = (s[i] as u32 - '0' as u32) as u64;
        if v > (u64::MAX - d) / 10 {
            assert(digits_value(s@, a as int, i + 1) > u64::MAX) by (nonlinear_arith)
                requires
                    digits_value(s@, a as int, i + 1) == v * 10 + d,
                    v > (u64::MAX - d) / 10,
                    0 <= d < 10,
            ;
            proof {
                lemma_digits_value_grows(s@, a as int, (i + 1) as int, b as int);
            }
            return None;
        }
        v = v * 10 + d;
        i = i + 1;
    }
    Some(v)
}

proof fn lemma_digits_value_grows(s: Seq<char>, a: int, i: int, j: int)
    requires
        a <= i <= j <= s.len(),
        forall|k: int| a <= k < j ==> is_digit(#[trigger] s[k]),
    ensures
        digits_value(s, a, j) >= digits_value(s, a, i),
    decreases j - i,
{
    if j > i {
        lemma_digits_value_grows(s, a, i, j - 1);
        lemma_digits_value_nonneg(s, a, j - 1);
    }
}

proof fn lemma_digits_value_nonneg(s: Seq<char>, a: int, j: int)
    requires
        a <= j <= s.len(),
        forall|k: int| a <= k < j ==> is_digit(#[trigger] s[k]),
    ensures
        digits_value(s, a, j) >= 0,
    decreases j - a,
{
    if j > a {
        lemma_digits_value_nonneg(s, a, j - 1);
    }
}

proof fn lemma_digits_end(s: Seq<char>, i: int)
    requires
        0 <= i <= s.len(),
    ensures
        i <= digits_end(s, i) <= s.len(),
        forall|k: int| i <= k < digits_end(s, i) ==> is_digit(#[trigger] s[k]),
    decreases s.len() - i,
{
    if i < s.len() && is_digit(s[i]) {
        lemma_digits_end(s, i + 1);
    }
}

/// Reads an integer at `p` and its value, if that fits in an `i64`.
fn integer_value_at(s: &Vec<char>, p: usize) -> (r: Option<(i64, usize)>)
    requires
        p <= s@.len(),
    ensures
        match r {
            Some((v, e)) => integer_end(s@, p as int) == Some(e as int) && v == integer_value(
                s@,
                p as int,
                e as int,
            ) && p < e <= s@.len(),
            None => integer_end(s@, p as int) is None || integer_value(
                s@,
                p as int,
                integer_end(s@, p as int)->0,
            ) > i64::MAX || integer_value(s@, p as int, integer_end(s@, p as int)->0) < i64::MIN,
        },
{
    let e = match scan_integer(s, p) {
        Some(e) => e,
        None => {
            return None;
        },
    };
    let start: usize = if s[p] == '+' || s[p] == '-' {
        p + 1
    } else {
        p
    };
    proof {
        lemma_digits_end(s@, start as int);
    }
    match digits_to_u64(s, start, e) {
        Some(v) => {
            if s[p] == '-' {
                if v == 0x8000_0000_0000_0000u64 {
                    Some((i64::MIN, e))
                } else if v < 0x8000_0000_0000_0000u64 {
                    Some((-(v as i64), e))
                } else {
                    None
                }
            } else if v <= i64::MAX as u64 {
                Some((v as i64, e))
            } else {
                None
            }
        },
        None => None,
    }
}

/// An optional sign and digits: the value, where it fits in an `i64`.
pub fn integer(input: &str) -> (out: Result<(i64, &str), ParseError>)
    ensures
        integer_end(input@, 0) is None ==> out is Err,
        out matches Ok((v, _)) ==> integer_end(input@, 0) matches Some(e) && v == integer_value(
            input@,
            0,
            e,
        ) && read_to(input@, out, e),
        integer_end(input@, 0) matches Some(e) && i64::MIN <= integer_value(input@, 0, e)
            <= i64::MAX ==> out is Ok,
{
    let (s, n) = load(input);
    match integer_value_at(&s, 0) {
        Some((v, e)) => Ok((v, input.substring_char(e, n))),
        None => Err(error_at(&s, 0, "integer")),
    }
}

/// `.` and digits: the value of the digits, where it fits in an `i64`.
pub fn frac(input: &str) -> (out: Result<(i64, &str), ParseError>)
    ensures
        fraction_end(input@, 0) is None ==> out is Err,
        out matches Ok((v, _)) ==> fraction_end(input@, 0) matches Some(e) && v == digits_value(
            input@,
            1,
            e,
        ) && read_to(input@, out, e),
        fraction_end(input@, 0) matches Some(e) && digits_value(input@, 1, e) <= i64::MAX
            ==> out is Ok,
{
    let (s, n) = load(input);
    match scan_fraction(&s, 0) {
        Some(e) => {
            proof {
                lemma_digits_end(s@, 1);
            }
            match digits_to_u64(&s, 1, e) {
                Some(v) => {
                    if v <= i64::MAX as u64 {
                        Ok((v as i64, input.substring_char(e, n)))
                    } else {
                        Err(error_at(&s, 1, "digits"))
                    }
                },
                None => Err(error_at(&s, 1, "digits")),
            }
        },
        None => Err(error_at(&s, 0, "fraction")),
    }
}

/// `e` or `E` and an integer: the value of the integer, where it fits in an `i64`.
pub fn exp(input: &str) -> (out: Result<(i64, &str), ParseError>)
    ensures
        exponent_end(input@, 0) is None ==> out is Err,
        out matches Ok((v, _)) ==> exponent_end(input@, 0) matches Some(e) && v == integer_value(
            input@,
            1,
            e,
        ) && read_to(input@, out, e),
        exponent_end(input@, 0) matches Some(e) && i64::MIN <= integer_value(input@, 1, e)
            <= i64::MAX ==> out is Ok,
{
    let (s, n) = load(input);
    if !(n > 0 && (s[0] == 'e' || s[0] == 'E')) {
        return Err(error_at(&s, 0, "exponent"));
    }
    match integer_value_at(&s, 1) {
        Some((v, e)) => Ok((v, input.substring_char(e, n))),
        None => Err(error_at(&s, 1, "integer")),
    }
}

/// An integer and a fraction, held as written.
pub fn float_simple(input: &str) -> (out: Result<(JSNumber, &str), ParseError>)
    ensures
        match integer_end(input@, 0) {
            Some(a) => match fraction_end(input@, a) {
                Some(b) => read_to(input@, out, b) && (out->Ok_0).0.0@ == input@.subrange(0, b),
                None => out is Err,
            },
            None => out is Err,
        },
{
    let (s, n) = load(input);
    match scan_integer(&s, 0) {
        Some(a) => match scan_fraction(&s, a) {
            Some(b) => Ok((JSNumber(string_of(&s, 0, b)), input.substring_char(b, n))),
            None => Err(error_at(&s, a, "fraction")),
        },
        None => Err(error_at(&s, 0, "integer")),
    }
}

/// An integer, an optional fraction and an exponent, held as written.
pub fn float_exp(input: &str) -> (out: Result<(JSNumber, &str), ParseError>)
    ensures
        match integer_end(input@, 0) {
            Some(a) => {
                let b = match fraction_end(input@, a) {
                    Some(b) => b,
                    None => a,
                };
                match exponent_end(input@, b) {
                    Some(c) => read_to(input@, out, c) && (out->Ok_0).0.0@ == input@.subrange(0, c),
                    None => out is Err,
                }
            },
            None => out is Err,
        },
{
    let (s, n) = load(input);
    match scan_integer(&s, 0) {
        Some(a) => {
            let b = match scan_fraction(&s, a) {
                Some(b) => b,
                None => a,
            };
            match scan_exponent(&s, b) {
                Some(c) => Ok((JSNumber(string_of(&s, 0, c)), input.substring_char(c, n))),
                None => Err(error_at(&s, b, "exponent")),
            }
        },
        None => Err(error_at(&s, 0, "integer")),
    }
}

/// A character literal of the host language: the character it stands for.
pub fn rs_char(input: &str) -> (out: Result<(char, &str), ParseError>)
    ensures
        match (char_literal_end(input@, 0), out) {
            (Some(e), Ok((c, rest))) => rest@ == input@.subrange(e, input@.len() as int) && (if input@[1]
                == '\\' && escape_value(input@[2]) is Some {
                Some(c) == escape_value(input@[2])
            } else {
                c == input@[1]
            }),
            (None, Err(_)) => true,
            _ => false,
        },
{
    let (s, n) = load(input);
    match scan_char_literal(&s, 0) {
        Some(e) => {
            let c = if s[1] == '\\' {
                match escape_value_exec(s[2]) {
                    Some(c) => c,
                    None => s[1],
                }
            } else {
                s[1]
            };
            Ok((c, input.substring_char(e, n)))
        },
        None => Err(error_at(&s, 0, "character literal")),
    }
}

/// A string literal of the host language: its characters, escapes resolved.
pub fn rs_string(input: &str) -> (out: Result<(String, &str), ParseError>)
    ensures
        match (quoted_at(input@, 0, '"'), out) {
            (Some((v, e)), Ok((w, rest))) => w@ == v && rest@ == input@.subrange(
                e,
                input@.len() as int,
            ),
            (None, Err(_)) => true,
            _ => false,
        },
{
    let (s, n) = load(input);
    match scan_quoted(&s, 0, '"') {
        Some((v, e)) => Ok((v, input.substring_char(e, n))),
        None => Err(error_at(&s, 0, "string")),
    }
}

/// A line comment (`//` to the end of the line) or a block comment (`/* */`).
pub fn rs_comment(input: &str) -> (out: Result<((), &str), ParseError>)
    ensures
        match (comment_end(input@, 0), out) {
            (Some(e), Ok((_, rest))) => rest@ == input@.subrange(e, input@.len() as int),
            (None, Err(_)) => true,
            _ => false,
        },
{
    let (s, n) = load(input);
    match comment_end_exec(&s, 0) {
        Some(e) => Ok(((), input.substring_char(e, n))),
        None => Err(error_at(&s, 0, "comment")),
    }
}

/// Whitespace and comments, possibly none.
pub fn rs_whitespace(input: &str) -> (out: Result<((), &str), ParseError>)
    ensures
        out matches Ok((_, rest)) && rest@ == input@.subrange(ws_end(input@, 0), input@.len() as int),
{
    let (s, n) = load(input);
    let e = skip_ws(&s, 0);
    Ok(((), input.substring_char(e, n)))
}

} // verus!
