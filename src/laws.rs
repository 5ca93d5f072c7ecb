//! Laws of the grammar and of the serializer, proved over their specifications.
use vstd::prelude::*;

use crate::ast::{NameV, RSXElement, RSXParsedExpression};
use crate::lexical::{
    comment_end, id_part_end, identifier_rest, is_id_part, is_id_start, is_ws_char, simple_end,
    spaces_end, spec_identifier, ws_end, SpecStep,
};
use crate::names::{member_rest, spec_element_name, spec_member, spec_namespaced};
use crate::model::ElementV;
use crate::serialize::{
    call, children_src, element_src, expression_src, name_src, pair, substitute, vec_list,
};
use crate::syntax::{
    attribute, attribute_name, attributes, custom_attribute, element, optional_attributes,
    self_closing_element, spread_code_block, tag_start, Parsed,
};
use crate::text::{occurs_at, replace_all};

verus! {

/// A tag identifier: simple identifiers joined by single hyphens, with nothing
/// between them; each segment starts with a character that is not whitespace.
pub open spec fn is_tag_identifier(t: Seq<char>) -> bool {
    &&& t.len() > 0
    &&& is_id_start(t[0])
    &&& !is_ws_char(t[0])
    &&& t.last() != '-'
    &&& forall|i: int| 0 <= i < t.len() ==> (#[trigger] t[i] == '-' || is_id_part(t[i]))
    &&& forall|i: int|
        0 <= i < t.len() - 1 && #[trigger] t[i] == '-' ==> is_id_start(t[i + 1]) && !is_ws_char(
            t[i + 1],
        )
}

/// The first hyphen at or after `i` and before `end`, or `end`.
pub open spec fn hyphen_end(s: Seq<char>, i: int, end: int) -> int
    decreases end - i,
{
    if i >= end || s[i] == '-' {
        i
    } else {
        hyphen_end(s, i + 1, end)
    }
}

proof fn lemma_hyphen_end(s: Seq<char>, i: int, end: int)
    requires
        0 <= i <= end < s.len(),
        forall|k: int| i <= k < end ==> (#[trigger] s[k] == '-' || is_id_part(s[k])),
        !is_id_part(s[end]),
    ensures
        i <= hyphen_end(s, i, end) <= end,
        id_part_end(s, i) == hyphen_end(s, i, end),
        hyphen_end(s, i, end) < end ==> s[hyphen_end(s, i, end)] == '-',
    decreases end - i,
{
    if i < end && s[i] != '-' {
        lemma_hyphen_end(s, i + 1, end);
    }
}

/// The hyphenated rest of a tag identifier from the hyphen (or end) at `q`.
proof fn lemma_identifier_rest(s: Seq<char>, p: int, q: int, end: int)
    requires
        0 <= p < q <= end < s.len(),
        forall|k: int| p <= k < end ==> (#[trigger] s[k] == '-' || is_id_part(s[k])),
        forall|k: int|
            p <= k < end - 1 && #[trigger] s[k] == '-' ==> is_id_start(s[k + 1]) && !is_ws_char(
                s[k + 1],
            ),
        s[end - 1] != '-',
        q < end ==> s[q] == '-',
        !is_id_part(s[end]),
        !is_ws_char(s[end]),
        s[end] != '-',
        comment_end(s, end) is None,
    ensures
        identifier_rest(s, q, s.subrange(p, q)) == SpecStep::Done(s.subrange(p, end), end),
    decreases end - q,
{
    if q < end {
        let r = q + 1;
        assert(r < end);
        assert(ws_end(s, r) == r);
        lemma_hyphen_end(s, r + 1, end);
        let e = hyphen_end(s, r + 1, end);
        assert(simple_end(s, r) == Some(e));
        assert(ws_end(s, e) == e);
        assert(s.subrange(p, q) + seq!['-'] + s.subrange(r, e) =~= s.subrange(p, e));
        lemma_identifier_rest(s, p, e, end);
    }
}

/// A tag identifier written at `p`, followed by a character that ends it
/// (neither an identifier character, nor whitespace, nor `-`, nor the start of
/// a comment), reads as that identifier.
proof fn lemma_tag_identifier_at(s: Seq<char>, p: int, t: Seq<char>)
    requires
        is_tag_identifier(t),
        0 <= p,
        p + t.len() < s.len(),
        s.subrange(p, p + t.len()) == t,
        !is_id_part(s[p + t.len()]),
        !is_ws_char(s[p + t.len()]),
        s[p + t.len()] != '-',
        comment_end(s, p + t.len()) is None,
    ensures
        spec_identifier(s, p) == SpecStep::Done(t, p + t.len()),
        !is_ws_char(s[p]),
        comment_end(s, p) is None,
{
    let end: int = p + t.len();
    assert forall|k: int| p <= k < end implies (#[trigger] s[k] == '-' || is_id_part(s[k])) by {
        assert(s[k] == t[k - p]);
    }
    assert forall|k: int|
        p <= k < end - 1 && #[trigger] s[k] == '-' implies is_id_start(s[k + 1]) && !is_ws_char(
        s[k + 1],
    ) by {
        assert(s[k] == t[k - p]);
        assert(s[k + 1] == t[k + 1 - p]);
    }
    assert(s[p] == t[0]);
    assert(s[end - 1] == t.last());
    lemma_hyphen_end(s, p + 1, end);
    let e = hyphen_end(s, p + 1, end);
    assert(simple_end(s, p) == Some(e));
    assert(ws_end(s, e) == e);
    lemma_identifier_rest(s, p, e, end);
    assert(s.subrange(p, end) == t);
}

/// Where a `/` stands, no attribute starts, and the tag's attributes are empty.
proof fn lemma_no_attributes_at_slash(s: Seq<char>, q: int, k: nat)
    requires
        0 <= q < s.len(),
        s[q] == '/',
    ensures
        optional_attributes(s, q, k) == Parsed::<Seq<crate::model::AttributeV>>::Done(
            Seq::empty(),
            q,
            k,
        ),
{
    assert(simple_end(s, q) is None);
    assert(spec_identifier(s, q) is Empty);
    assert(spec_namespaced(s, q) is Empty);
    assert(attribute_name(s, q) is Empty);
    assert(spread_code_block(s, q, k) == Parsed::<crate::model::ExprV>::Empty(k));
    assert(custom_attribute(s, q, k) == Parsed::<crate::model::AttributeV>::Empty(k));
    assert(attribute(s, q, k) == Parsed::<crate::model::AttributeV>::Empty(k));
    assert(attributes(s, q, k) == Parsed::<Seq<crate::model::AttributeV>>::Empty(k));
}

/// A tag `<` name `/>` whose name reads as `n` up to the `/` parses as the
/// self-closing element `n` with no attributes, whatever was drawn before.
proof fn lemma_bare_element(s: Seq<char>, n: NameV, e: int, k: nat)
    requires
        s.len() == e + 2,
        1 < e,
        s[0] == '<',
        s[e] == '/',
        s[e + 1] == '>',
        ws_end(s, 1) == 1,
        spec_element_name(s, 1) == SpecStep::Done(n, e),
        ws_end(s, e) == e,
    ensures
        element(s, 0, k) == Parsed::Done(ElementV::SelfClosing(n, Seq::empty()), s.len() as int, k),
{
    lemma_no_attributes_at_slash(s, e, k);
    assert(spaces_end(s, e + 1) == e + 1);
    assert(tag_start(s, 0, k) == Parsed::Done((n, Seq::<crate::model::AttributeV>::empty()), e, k));
    assert(self_closing_element(s, 0, k) == Parsed::Done(
        (n, Seq::<crate::model::AttributeV>::empty()),
        e + 2,
        k,
    ));
}

/// For every tag `t` made of simple identifiers joined by hyphens (so with no
/// `.` or `:`), `<t/>` reads as the self-closing element named
/// `Simple(t)` with no attributes, spanning the whole input with nothing to
/// skip before or after it. With the contract of `parse`, parsing `<t/>`
/// gives `SelfClosing(Name(t), [])` and leaves nothing.
pub proof fn lemma_tag_self_closing(t: Seq<char>)
    requires
        is_tag_identifier(t),
    ensures
        ({
            let s = seq!['<'] + t + seq!['/', '>'];
            &&& ws_end(s, 0) == 0
            &&& ws_end(s, s.len() as int) == s.len()
            &&& forall|k: nat|
                element(s, 0, k) == Parsed::Done(
                    ElementV::SelfClosing(NameV::Simple(t), Seq::empty()),
                    s.len() as int,
                    k,
                )
        }),
{
    let s = seq!['<'] + t + seq!['/', '>'];
    let e: int = t.len() as int + 1;
    assert(s.subrange(1, e) =~= t);
    assert(s[e] == '/');
    assert(s[e + 1] == '>');
    lemma_tag_identifier_at(s, 1, t);
    assert(ws_end(s, 1) == 1);
    assert(spec_member(s, 1) is Failed);
    assert(spec_namespaced(s, 1) is Failed);
    assert(spec_element_name(s, 1) == SpecStep::Done(NameV::Simple(t), e));
    assert(spaces_end(s, e + 1) == e + 1);
    assert(ws_end(s, 0) == 0);
    assert forall|k: nat|
        element(s, 0, k) == Parsed::Done(
            ElementV::SelfClosing(NameV::Simple(t), Seq::empty()),
            s.len() as int,
            k,
        ) by {
        lemma_bare_element(s, NameV::Simple(t), e, k);
    }
}

/// An input laid out as `<a.b.c/>`, with `a`, `b`, `c` ending at `ea`, `eb`, `ec`,
/// reads its tag name as the member path `[a, b, c]`.
proof fn lemma_member_name_at(s: Seq<char>, a: Seq<char>, b: Seq<char>, c: Seq<char>, ea: int, eb: int, ec: int)
    requires
        is_tag_identifier(a),
        is_tag_identifier(b),
        is_tag_identifier(c),
        ea == a.len() + 1,
        eb == ea + 1 + b.len(),
        ec == eb + 1 + c.len(),
        s.len() == ec + 2,
        s[0] == '<',
        s.subrange(1, ea) == a,
        s[ea] == '.',
        s.subrange(ea + 1, eb) == b,
        s[eb] == '.',
        s.subrange(eb + 1, ec) == c,
        s[ec] == '/',
        s[ec + 1] == '>',
    ensures
        spec_element_name(s, 1) == SpecStep::Done(NameV::Member(seq![a, b, c]), ec),
        ws_end(s, 1) == 1,
        ws_end(s, ec) == ec,
{
    lemma_tag_identifier_at(s, 1, a);
    lemma_tag_identifier_at(s, ea + 1, b);
    lemma_tag_identifier_at(s, eb + 1, c);
    assert(member_rest(s, ec, seq![a, b, c]) == SpecStep::Done(seq![a, b, c], ec));
    assert(member_rest(s, eb, seq![a, b]) == SpecStep::Done(seq![a, b, c], ec)) by {
        assert(seq![a, b].push(c) =~= seq![a, b, c]);
    }
    assert(spec_member(s, 1) == SpecStep::Done(seq![a, b, c], ec));
}

/// `a.b.c` after `<` reads as the member path `[a, b, c]`, up to the `/` after it.
proof fn lemma_member_name(a: Seq<char>, b: Seq<char>, c: Seq<char>)
    requires
        is_tag_identifier(a),
        is_tag_identifier(b),
        is_tag_identifier(c),
    ensures
        ({
            let s = seq!['<'] + a + seq!['.'] + b + seq!['.'] + c + seq!['/', '>'];
            let e = s.len() - 2;
            &&& spec_element_name(s, 1) == SpecStep::Done(NameV::Member(seq![a, b, c]), e)
            &&& ws_end(s, 1) == 1
            &&& ws_end(s, e) == e
            &&& s[0] == '<'
            &&& s[e] == '/'
            &&& s[e + 1] == '>'
        }),
{
    let s = seq!['<'] + a + seq!['.'] + b + seq!['.'] + c + seq!['/', '>'];
    let ea: int = a.len() as int + 1;
    let eb: int = ea + 1 + b.len();
    let ec: int = eb + 1 + c.len();
    assert(s.subrange(1, ea) =~= a);
    assert(s.subrange(ea + 1, eb) =~= b);
    assert(s.subrange(eb + 1, ec) =~= c);
    assert(s[ea] == '.');
    assert(s[eb] == '.');
    assert(s[ec] == '/');
    assert(s[ec + 1] == '>');
    lemma_member_name_at(s, a, b, c, ea, eb, ec);
}

/// For tag identifiers `a`, `b`, `c`, `<a.b.c/>` reads as the self-closing
/// element named by the member path `[a, b, c]`, with no attributes, spanning
/// the input.
pub proof fn lemma_member_tag_self_closing(a: Seq<char>, b: Seq<char>, c: Seq<char>)
    requires
        is_tag_identifier(a),
        is_tag_identifier(b),
        is_tag_identifier(c),
    ensures
        ({
            let s = seq!['<'] + a + seq!['.'] + b + seq!['.'] + c + seq!['/', '>'];
            forall|k: nat|
                element(s, 0, k) == Parsed::Done(
                    ElementV::SelfClosing(NameV::Member(seq![a, b, c]), Seq::empty()),
                    s.len() as int,
                    k,
                )
        }),
{
    let s = seq!['<'] + a + seq!['.'] + b + seq!['.'] + c + seq!['/', '>'];
    lemma_member_name(a, b, c);
    assert forall|k: nat|
        element(s, 0, k) == Parsed::Done(
            ElementV::SelfClosing(NameV::Member(seq![a, b, c]), Seq::empty()),
            s.len() as int,
            k,
        ) by {
        lemma_bare_element(s, NameV::Member(seq![a, b, c]), s.len() - 2, k);
    }
}

/// For tag identifiers `a` and `b`, `<a:b/>` reads as the self-closing
/// element named by the namespaced name `a:b`, with no attributes, spanning
/// the input.
pub proof fn lemma_namespaced_tag_self_closing(a: Seq<char>, b: Seq<char>)
    requires
        is_tag_identifier(a),
        is_tag_identifier(b),
    ensures
        ({
            let s = seq!['<'] + a + seq![':'] + b + seq!['/', '>'];
            &&& forall|k: nat|
                element(s, 0, k) == Parsed::Done(
                    ElementV::SelfClosing(NameV::Namespaced(a, b), Seq::empty()),
                    s.len() as int,
                    k,
                )
        }),
{
    let s = seq!['<'] + a + seq![':'] + b + seq!['/', '>'];
    let ea: int = a.len() as int + 1;
    let eb: int = ea + 1 + b.len();
    assert(s.subrange(1, ea) =~= a);
    assert(s.subrange(ea + 1, eb) =~= b);
    assert(s[ea] == ':');
    assert(s[eb] == '/');
    assert(s[eb + 1] == '>');
    lemma_tag_identifier_at(s, 1, a);
    lemma_tag_identifier_at(s, ea + 1, b);
    assert(spec_member(s, 1) is Failed);
    assert(spec_namespaced(s, 1) == SpecStep::Done((a, b), eb));
    assert(ws_end(s, 1) == 1);
    assert(spaces_end(s, eb + 1) == eb + 1);
    assert forall|k: nat|
        element(s, 0, k) == Parsed::Done(
            ElementV::SelfClosing(NameV::Namespaced(a, b), Seq::empty()),
            s.len() as int,
            k,
        ) by {
        lemma_bare_element(s, NameV::Namespaced(a, b), eb, k);
    }
}

// ---------------------------------------------------------------------------
// Placeholder substitution
// ---------------------------------------------------------------------------
proof fn lemma_replace_none(s: Seq<char>, p: Seq<char>, r: Seq<char>)
    requires
        forall|j: int| !occurs_at(s, p, j),
    ensures
        replace_all(s, p, r) == s,
    decreases s.len(),
{
    if p.len() > 0 && s.len() > 0 {
        let t = s.subrange(1, s.len() as int);
        assert forall|j: int| !occurs_at(t, p, j) by {
            if occurs_at(t, p, j) {
                assert(s.subrange(j + 1, j + 1 + p.len()) =~= t.subrange(j, j + p.len()));
                assert(occurs_at(s, p, j + 1));
            }
        }
        lemma_replace_none(t, p, r);
        assert(seq![s[0]] + t =~= s);
    }
}

/// Where `p` occurs in `u + p + v` only after `u`, replacing it gives `u + r + v`.
pub proof fn lemma_replace_sole(u: Seq<char>, p: Seq<char>, v: Seq<char>, r: Seq<char>)
    requires
        p.len() > 0,
        forall|j: int| j != u.len() ==> !occurs_at(u + p + v, p, j),
    ensures
        replace_all(u + p + v, p, r) == u + r + v,
    decreases u.len(),
{
    let s = u + p + v;
    if u.len() == 0 {
        assert(s.subrange(0, p.len() as int) =~= p);
        assert(s.subrange(p.len() as int, s.len() as int) =~= v);
        assert forall|j: int| !occurs_at(v, p, j) by {
            if occurs_at(v, p, j) {
                assert(s.subrange(j + p.len(), j + p.len() + p.len()) =~= v.subrange(j, j + p.len()));
                assert(occurs_at(s, p, j + p.len()));
            }
        }
        lemma_replace_none(v, p, r);
        assert(u + r + v =~= r + v);
    } else {
        assert(!occurs_at(s, p, 0));
        let u1 = u.subrange(1, u.len() as int);
        let t = s.subrange(1, s.len() as int);
        assert(t =~= u1 + p + v);
        assert forall|j: int| j != u1.len() implies !occurs_at(u1 + p + v, p, j) by {
            if occurs_at(u1 + p + v, p, j) {
                assert(s.subrange(j + 1, j + 1 + p.len()) =~= t.subrange(j, j + p.len()));
                assert(occurs_at(s, p, j + 1));
            }
        }
        lemma_replace_sole(u1, p, v, r);
        assert(seq![s[0]] + (u1 + r + v) =~= u + r + v);
    }
}

/// An element with children and no attributes writes as one call on the pair
/// of its tag and its children, with no attributes argument.
pub proof fn lemma_children_only_call_shape(e: RSXElement)
    requires
        e matches RSXElement::Normal(x) && x.1.0@.len() == 0 && x.2.0@.len() > 0,
    ensures
        e matches RSXElement::Normal(x) && element_src(e) == call(
            "DOMNode"@,
            pair(name_src(x.0), call("DOMChildren"@, vec_list(children_src(x.2.0@)))),
        ),
{
}

/// A code block with no elements writes as its tokens in braces.
pub proof fn lemma_expression_without_elements(x: RSXParsedExpression)
    requires
        x.elements@.len() == 0,
    ensures
        expression_src(x) == seq!['{'] + x.tokens@ + seq!['}'],
{
}

/// In a code block whose tokens hold two placeholders, `a p1 b p2 c`, each
/// placeholder occurring only where it stands, the source holds the two
/// elements' calls in their places and order: `{ a s1 b s2 c }`.
pub proof fn lemma_two_placeholders_in_order(
    x: RSXParsedExpression,
    a: Seq<char>,
    b: Seq<char>,
    c: Seq<char>,
)
    requires
        x.elements@.len() == 2,
        x.elements@[0].0@.len() > 0,
        x.elements@[1].0@.len() > 0,
        x.tokens@ == a + x.elements@[0].0@ + b + x.elements@[1].0@ + c,
        forall|j: int|
            j != 1 + a.len() ==> !occurs_at(
                seq!['{'] + a + x.elements@[0].0@ + b + x.elements@[1].0@ + c + seq!['}'],
                x.elements@[0].0@,
                j,
            ),
        forall|j: int|
            j != 1 + a.len() + element_src(x.elements@[0].1).len() + b.len() ==> !occurs_at(
                seq!['{'] + a + element_src(x.elements@[0].1) + b + x.elements@[1].0@ + c + seq!['}'],
                x.elements@[1].0@,
                j,
            ),
    ensures
        expression_src(x) == seq!['{'] + a + element_src(x.elements@[0].1) + b + element_src(
            x.elements@[1].1,
        ) + c + seq!['}'],
{
    let p1 = x.elements@[0].0@;
    let p2 = x.elements@[1].0@;
    let s1 = element_src(x.elements@[0].1);
    let s2 = element_src(x.elements@[1].1);
    let init = seq!['{'] + x.tokens@ + seq!['}'];
    let pairs = x.elements@;
    assert(pairs.drop_last().drop_last() =~= Seq::empty());
    assert(pairs.drop_last().last() == pairs[0]);
    assert(substitute(init, pairs.drop_last().drop_last()) == init);
    let u = seq!['{'] + a;
    let v = b + p2 + c + seq!['}'];
    assert(init =~= u + p1 + v);
    assert(seq!['{'] + a + p1 + b + p2 + c + seq!['}'] =~= u + p1 + v);
    lemma_replace_sole(u, p1, v, s1);
    let mid = u + s1 + v;
    assert(substitute(init, pairs.drop_last()) == mid);
    let u2 = seq!['{'] + a + s1 + b;
    let v2 = c + seq!['}'];
    assert(mid =~= u2 + p2 + v2);
    assert(seq!['{'] + a + s1 + b + p2 + c + seq!['}'] =~= u2 + p2 + v2);
    assert(u2.len() == 1 + a.len() + s1.len() + b.len());
    lemma_replace_sole(u2, p2, v2, s2);
    assert(u2 + s2 + v2 =~= seq!['{'] + a + s1 + b + s2 + c + seq!['}']);
}

} // verus!
