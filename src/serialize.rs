//! Regenerates host source from the tree: every element becomes a call into
//! the node library, written as tokens separated by single spaces, and the
//! placeholders in code blocks are replaced by the calls of their elements.
use vstd::prelude::*;

use crate::ast::{
    RSXAttributes, RSXChildren, RSXAttribute, RSXAttributeName, RSXAttributeString, RSXAttributeValue, RSXChild, RSXElement,
    RSXElementName, RSXIdentifier, RSXParsedExpression,
};
use crate::known_names::{
    known_attribute_name, known_element_name, spec_known_attribute_name, spec_known_element_name,
};
use crate::placeholders::RSXElementPlaceholder;
use crate::lexical::ParseError;
use crate::text::{
    decimal, push_char, push_decimal, push_str, replace_all, replace_all_of, string_literal,
    string_literal_of,
};

verus! {

broadcast use vstd::std_specs::vec::axiom_vec_index_decreases;

/// `f :: from ( arg )`
pub open spec fn call(f: Seq<char>, arg: Seq<char>) -> Seq<char> {
    f + " :: from ( "@ + arg + " )"@
}

/// `( a , b )`
pub open spec fn pair(a: Seq<char>, b: Seq<char>) -> Seq<char> {
    "( "@ + a + " , "@ + b + " )"@
}

/// `( a , b , c )`
pub open spec fn triple(a: Seq<char>, b: Seq<char>, c: Seq<char>) -> Seq<char> {
    "( "@ + a + " , "@ + b + " , "@ + c + " )"@
}

/// The items of a list, each followed by a comma: ` a , b ,`.
pub open spec fn items(v: Seq<Seq<char>>) -> Seq<char>
    decreases v.len(),
{
    if v.len() == 0 {
        Seq::empty()
    } else {
        items(v.drop_last()) + " "@ + v.last() + " ,"@
    }
}

/// `vec ! [ a , b , ]`
pub open spec fn vec_list(v: Seq<Seq<char>>) -> Seq<char> {
    "vec ! ["@ + items(v) + " ]"@
}

/// The source of a tag name: a known name as a symbol, any other as string literals.
pub open spec fn name_src(n: RSXElementName) -> Seq<char> {
    call(
        "DOMTagName"@,
        match n {
            RSXElementName::KnownName(k) => "KnownElementName :: "@ + k.spec_symbol(),
            RSXElementName::Name(i) => match spec_known_element_name(i@) {
                Some(k) => "KnownElementName :: "@ + k.spec_symbol(),
                None => string_literal(i@),
            },
            RSXElementName::NamedspacedName(ns, i) => pair(string_literal(ns@), string_literal(i@)),
            RSXElementName::MemberExpression(v) => "box ["@ + items(
                v@.map_values(|x: RSXIdentifier| string_literal(x@)),
            ) + " ]"@,
        },
    )
}

/// The source of an attribute name.
pub open spec fn attribute_name_src(n: RSXAttributeName) -> Seq<char> {
    call(
        "DOMAttributeName"@,
        match n {
            RSXAttributeName::KnownName(k) => "KnownAttributeName :: "@ + k.spec_symbol(),
            RSXAttributeName::Name(i) => match spec_known_attribute_name(i@) {
                Some(k) => "KnownAttributeName :: "@ + k.spec_symbol(),
                None => string_literal(i@),
            },
            RSXAttributeName::NamedspacedName(ns, i) => pair(string_literal(ns@), string_literal(i@)),
        },
    )
}

/// The literal of a number: as written, without a leading `+`, typed `f64`.
pub open spec fn number_src(t: Seq<char>) -> Seq<char> {
    (if t.len() > 0 && t[0] == '+' {
        t.subrange(1, t.len() as int)
    } else {
        t
    }) + "f64"@
}

pub open spec fn bool_src(b: bool) -> Seq<char> {
    if b {
        "true"@
    } else {
        "false"@
    }
}

pub open spec fn str_value(v: RSXAttributeString) -> Seq<char> {
    match v {
        RSXAttributeString::SingleQuoted(c) => c.0@,
        RSXAttributeString::DoubleQuoted(c) => c.0@,
    }
}

/// The source of an element.
pub open spec fn element_src(e: RSXElement) -> Seq<char>
    decreases e,
{
    match e {
        RSXElement::SelfClosing(x) => if x.1.0@.len() > 0 {
            call(
                "DOMNode"@,
                pair(name_src(x.0), call("DOMAttributes"@, vec_list(attributes_src(x.1.0@)))),
            )
        } else {
            call("DOMNode"@, name_src(x.0))
        },
        RSXElement::Normal(x) => if x.1.0@.len() > 0 && x.2.0@.len() > 0 {
            call(
                "DOMNode"@,
                triple(
                    name_src(x.0),
                    vec_list(attributes_src(x.1.0@)),
                    vec_list(children_src(x.2.0@)),
                ),
            )
        } else if x.1.0@.len() > 0 {
            call(
                "DOMNode"@,
                pair(name_src(x.0), call("DOMAttributes"@, vec_list(attributes_src(x.1.0@)))),
            )
        } else if x.2.0@.len() > 0 {
            call(
                "DOMNode"@,
                pair(name_src(x.0), call("DOMChildren"@, vec_list(children_src(x.2.0@)))),
            )
        } else {
            call("DOMNode"@, name_src(x.0))
        },
    }
}

/// The sources of the attributes, in order.
pub open spec fn attributes_src(v: Seq<RSXAttribute>) -> Seq<Seq<char>>
    decreases v,
{
    if v.len() == 0 {
        Seq::empty()
    } else {
        attributes_src(v.drop_last()).push(attribute_src(v.last()))
    }
}

/// The sources of the children, in order.
pub open spec fn children_src(v: Seq<RSXChild>) -> Seq<Seq<char>>
    decreases v,
{
    if v.len() == 0 {
        Seq::empty()
    } else {
        children_src(v.drop_last()).push(child_src(v.last()))
    }
}

pub open spec fn attribute_src(a: RSXAttribute) -> Seq<char>
    decreases a,
{
    match a {
        RSXAttribute::Named(n, v) => call(
            "DOMAttribute"@,
            pair(attribute_name_src(n), call("DOMAttributeValue"@, value_src(v))),
        ),
        RSXAttribute::Spread(x) => call("DOMAttribute"@, expression_src(x)),
    }
}

pub open spec fn value_src(v: RSXAttributeValue) -> Seq<char>
    decreases v,
{
    match v {
        RSXAttributeValue::Default => "true"@,
        RSXAttributeValue::Boolean(b) => bool_src(b.0),
        RSXAttributeValue::Number(n) => number_src(n.0@),
        RSXAttributeValue::Str(t) => string_literal(str_value(t)),
        RSXAttributeValue::Element(e) => element_src(e),
        RSXAttributeValue::CodeBlock(x) => expression_src(x),
    }
}

pub open spec fn child_src(c: RSXChild) -> Seq<char>
    decreases c,
{
    match c {
        RSXChild::Element(e) => element_src(e),
        RSXChild::Text(t) => call("DOMNode"@, string_literal(t.0@)),
        RSXChild::CodeBlock(x) => call("DOMNode"@, expression_src(x)),
    }
}

/// The source of a code block: its tokens in braces, with the placeholder of
/// each element replaced by the element's source, in the order recorded.
pub open spec fn expression_src(x: RSXParsedExpression) -> Seq<char>
    decreases x,
{
    substitute(seq!['{'] + x.tokens@ + seq!['}'], x.elements@)
}

/// `code` with the placeholders of `pairs` replaced, first to last.
pub open spec fn substitute(code: Seq<char>, pairs: Seq<(RSXElementPlaceholder, RSXElement)>) -> Seq<
    char,
>
    decreases pairs,
{
    if pairs.len() == 0 {
        code
    } else {
        replace_all(
            substitute(code, pairs.drop_last()),
            pairs.last().0@,
            element_src(pairs.last().1),
        )
    }
}

pub open spec fn strings_view(v: Seq<String>) -> Seq<Seq<char>> {
    v.map_values(|t: String| t@)
}

fn call_of(f: &str, arg: &str) -> (r: String)
    ensures
        r@ == call(f@, arg@),
{
    let mut r = String::new();
    push_str(&mut r, f);
    push_str(&mut r, " :: from ( ");
    push_str(&mut r, arg);
    push_str(&mut r, " )");
    assert(r@ =~= call(f@, arg@));
    r
}

fn pair_of(a: &str, b: &str) -> (r: String)
    ensures
        r@ == pair(a@, b@),
{
    let mut r = String::new();
    push_str(&mut r, "( ");
    push_str(&mut r, a);
    push_str(&mut r, " , ");
    push_str(&mut r, b);
    push_str(&mut r, " )");
    assert(r@ =~= pair(a@, b@));
    r
}

fn triple_of(a: &str, b: &str, c: &str) -> (r: String)
    ensures
        r@ == triple(a@, b@, c@),
{
    let mut r = String::new();
    push_str(&mut r, "( ");
    push_str(&mut r, a);
    push_str(&mut r, " , ");
    push_str(&mut r, b);
    push_str(&mut r, " , ");
    push_str(&mut r, c);
    push_str(&mut r, " )");
    assert(r@ =~= triple(a@, b@, c@));
    r
}

fn items_of(v: &Vec<String>) -> (r: String)
    ensures
        r@ == items(strings_view(v@)),
{
    let mut r = String::new();
    let mut i: usize = 0;
    while i < v.len()
        invariant
            i <= v@.len(),
            r@ == items(strings_view(v@.subrange(0, i as int))),
        decreases v@.len() - i,
    {
        let ghost before = r@;
        push_str(&mut r, " ");
        push_str(&mut r, v[i].as_str());
        push_str(&mut r, " ,");
        let ghost w = strings_view(v@.subrange(0, i + 1));
        assert(w.drop_last() =~= strings_view(v@.subrange(0, i as int)));
        assert(w.last() == v@[i as int]@);
        assert(r@ =~= before + " "@ + v@[i as int]@ + " ,"@);
        i = i + 1;
    }
    assert(v@.subrange(0, v@.len() as int) =~= v@);
    r
}

fn vec_list_of(v: &Vec<String>) -> (r: String)
    ensures
        r@ == vec_list(strings_view(v@)),
{
    let mut r = String::new();
    push_str(&mut r, "vec ! [");
    let body = items_of(v);
    push_str(&mut r, body.as_str());
    push_str(&mut r, " ]");
    assert(r@ =~= vec_list(strings_view(v@)));
    r
}

/// Writes a tag name.
pub fn name_source(n: &RSXElementName) -> (r: String)
    ensures
        r@ == name_src(*n),
{
    let arg = match n {
        RSXElementName::KnownName(k) => {
            let mut a = String::new();
            push_str(&mut a, "KnownElementName :: ");
            push_str(&mut a, k.symbol());
            a
        },
        RSXElementName::Name(i) => match known_element_name(i.0.as_str()) {
            Some(k) => {
                let mut a = String::new();
                push_str(&mut a, "KnownElementName :: ");
                push_str(&mut a, k.symbol());
                a
            },
            None => string_literal_of(i.0.as_str()),
        },
        RSXElementName::NamedspacedName(ns, i) => {
            let a = string_literal_of(ns.0.as_str());
            let b = string_literal_of(i.0.as_str());
            pair_of(a.as_str(), b.as_str())
        },
        RSXElementName::MemberExpression(v) => {
            let mut parts: Vec<String> = Vec::new();
            let mut i: usize = 0;
            while i < v.len()
                invariant
                    i <= v@.len(),
                    strings_view(parts@) == v@.subrange(0, i as int).map_values(
                        |x: RSXIdentifier| string_literal(x@),
                    ),
                decreases v@.len() - i,
            {
                let t = string_literal_of(v[i].0.as_str());
                let ghost before = parts@;
                let ghost tv = t@;
                parts.push(t);
                assert(strings_view(parts@) =~= strings_view(before).push(tv));
                assert(v@.subrange(0, i + 1).map_values(|x: RSXIdentifier| string_literal(x@))
                    =~= v@.subrange(0, i as int).map_values(|x: RSXIdentifier| string_literal(x@)).push(
                    string_literal(v@[i as int]@),
                ));
                i = i + 1;
            }
            assert(v@.subrange(0, v@.len() as int) =~= v@);
            let body = items_of(&parts);
            let mut a = String::new();
            push_str(&mut a, "box [");
            push_str(&mut a, body.as_str());
            push_str(&mut a, " ]");
            a
        },
    };
    call_of("DOMTagName", arg.as_str())
}

/// Writes an attribute name.
pub fn attribute_name_source(n: &RSXAttributeName) -> (r: String)
    ensures
        r@ == attribute_name_src(*n),
{
    let arg = match n {
        RSXAttributeName::KnownName(k) => {
            let mut a = String::new();
            push_str(&mut a, "KnownAttributeName :: ");
            push_str(&mut a, k.symbol());
            a
        },
        RSXAttributeName::Name(i) => match known_attribute_name(i.0.as_str()) {
            Some(k) => {
                let mut a = String::new();
                push_str(&mut a, "KnownAttributeName :: ");
                push_str(&mut a, k.symbol());
                a
            },
            None => string_literal_of(i.0.as_str()),
        },
        RSXAttributeName::NamedspacedName(ns, i) => {
            let a = string_literal_of(ns.0.as_str());
            let b = string_literal_of(i.0.as_str());
            pair_of(a.as_str(), b.as_str())
        },
    };
    call_of("DOMAttributeName", arg.as_str())
}

fn number_source(t: &String) -> (r: String)
    ensures
        r@ == number_src(t@),
{
    let v = crate::text::chars_of(t.as_str());
    let start: usize = if v.len() > 0 && v[0] == '+' {
        1
    } else {
        0
    };
    let mut r = crate::text::string_of(&v, start, v.len());
    push_str(&mut r, "f64");
    assert(v@.subrange(0, v@.len() as int) =~= v@);
    r
}

/// Writes an element as a construction call.
pub fn element_source(e: &RSXElement) -> (r: String)
    ensures
        r@ == element_src(*e),
    decreases e,
{
    match e {
        RSXElement::SelfClosing(x) => {
            let name = name_source(&x.0);
            if x.1.0.len() > 0 {
                let attributes = attributes_source(&x.1.0);
                let list = vec_list_of(&attributes);
                let inner = call_of("DOMAttributes", list.as_str());
                let args = pair_of(name.as_str(), inner.as_str());
                call_of("DOMNode", args.as_str())
            } else {
                call_of("DOMNode", name.as_str())
            }
        },
        RSXElement::Normal(x) => {
            let name = name_source(&x.0);
            let has_attributes = x.1.0.len() > 0;
            let has_children = x.2.0.len() > 0;
            if has_attributes && has_children {
                let attributes = attributes_source(&x.1.0);
                let children = children_source(&x.2.0);
                let a = vec_list_of(&attributes);
                let c = vec_list_of(&children);
                let args = triple_of(name.as_str(), a.as_str(), c.as_str());
                call_of("DOMNode", args.as_str())
            } else if has_attributes {
                let attributes = attributes_source(&x.1.0);
                let list = vec_list_of(&attributes);
                let inner = call_of("DOMAttributes", list.as_str());
                let args = pair_of(name.as_str(), inner.as_str());
                call_of("DOMNode", args.as_str())
            } else if has_children {
                let children = children_source(&x.2.0);
                let list = vec_list_of(&children);
                let inner = call_of("DOMChildren", list.as_str());
                let args = pair_of(name.as_str(), inner.as_str());
                call_of("DOMNode", args.as_str())
            } else {
                call_of("DOMNode", name.as_str())
            }
        },
    }
}

fn attributes_source(v: &Vec<RSXAttribute>) -> (r: Vec<String>)
    ensures
        strings_view(r@) == attributes_src(v@),
    decreases v@,
{
    let mut r: Vec<String> = Vec::new();
    let mut i: usize = 0;
    while i < v.len()
        invariant
            i <= v@.len(),
            strings_view(r@) == attributes_src(v@.subrange(0, i as int)),
        decreases v@.len() - i,
    {
        let t = attribute_source(&v[i]);
        r.push(t);
        assert(v@.subrange(0, i + 1).drop_last() =~= v@.subrange(0, i as int));
        assert(strings_view(r@) =~= attributes_src(v@.subrange(0, i + 1)));
        i = i + 1;
    }
    assert(v@.subrange(0, v@.len() as int) =~= v@);
    r
}

fn children_source(v: &Vec<RSXChild>) -> (r: Vec<String>)
    ensures
        strings_view(r@) == children_src(v@),
    decreases v@,
{
    let mut r: Vec<String> = Vec::new();
    let mut i: usize = 0;
    while i < v.len()
        invariant
            i <= v@.len(),
            strings_view(r@) == children_src(v@.subrange(0, i as int)),
        decreases v@.len() - i,
    {
        let t = child_source(&v[i]);
        r.push(t);
        assert(v@.subrange(0, i + 1).drop_last() =~= v@.subrange(0, i as int));
        assert(strings_view(r@) =~= children_src(v@.subrange(0, i + 1)));
        i = i + 1;
    }
    assert(v@.subrange(0, v@.len() as int) =~= v@);
    r
}

fn attribute_source(a: &RSXAttribute) -> (r: String)
    ensures
        r@ == attribute_src(*a),
    decreases a,
{
    match a {
        RSXAttribute::Named(n, v) => {
            let name = attribute_name_source(n);
            let value = value_source(v);
            let inner = call_of("DOMAttributeValue", value.as_str());
            let args = pair_of(name.as_str(), inner.as_str());
            call_of("DOMAttribute", args.as_str())
        },
        RSXAttribute::Spread(x) => {
            let code = expression_source(x);
            call_of("DOMAttribute", code.as_str())
        },
    }
}

fn value_source(v: &RSXAttributeValue) -> (r: String)
    ensures
        r@ == value_src(*v),
    decreases v,
{
    match v {
        RSXAttributeValue::Default => String::from_str("true"),
        RSXAttributeValue::Boolean(b) => if b.0 {
            String::from_str("true")
        } else {
            String::from_str("false")
        },
        RSXAttributeValue::Number(n) => number_source(&n.0),
        RSXAttributeValue::Str(t) => match t {
            RSXAttributeString::SingleQuoted(c) => string_literal_of(c.0.as_str()),
            RSXAttributeString::DoubleQuoted(c) => string_literal_of(c.0.as_str()),
        },
        RSXAttributeValue::Element(e) => element_source(e),
        RSXAttributeValue::CodeBlock(x) => expression_source(x),
    }
}

fn child_source(c: &RSXChild) -> (r: String)
    ensures
        r@ == child_src(*c),
    decreases c,
{
    match c {
        RSXChild::Element(e) => element_source(e),
        RSXChild::Text(t) => {
            let literal = string_literal_of(t.0.as_str());
            call_of("DOMNode", literal.as_str())
        },
        RSXChild::CodeBlock(x) => {
            let code = expression_source(x);
            call_of("DOMNode", code.as_str())
        },
    }
}

/// Writes a code block: its tokens in braces, each placeholder replaced by
/// the call of its element.
pub fn expression_source(x: &RSXParsedExpression) -> (r: String)
    ensures
        r@ == expression_src(*x),
    decreases x,
{
    let mut code = String::new();
    push_char(&mut code, '{');
    push_str(&mut code, x.tokens.as_str());
    push_char(&mut code, '}');
    let ghost init = seq!['{'] + x.tokens@ + seq!['}'];
    assert(code@ =~= init);
    let mut i: usize = 0;
    while i < x.elements.len()
        invariant
            i <= x.elements@.len(),
            code@ == substitute(init, x.elements@.subrange(0, i as int)),
        decreases x.elements@.len() - i,
    {
        let entry = &x.elements[i];
        let replacement = element_source(&entry.1);
        code = replace_all_of(code.as_str(), entry.0.as_str(), replacement.as_str());
        assert(x.elements@.subrange(0, i + 1).drop_last() =~= x.elements@.subrange(0, i as int));
        i = i + 1;
    }
    assert(x.elements@.subrange(0, x.elements@.len() as int) =~= x.elements@);
    code
}

impl RSXElement {
    /// The host source that constructs this element.
    pub fn to_source(&self) -> (r: String)
        ensures
            r@ == element_src(*self),
    {
        element_source(self)
    }
}

impl RSXAttributes {
    /// The host source of these attributes: a list of attribute calls.
    pub fn to_source(&self) -> (r: String)
        ensures
            r@ == vec_list(attributes_src(self.0@)),
    {
        let v = attributes_source(&self.0);
        vec_list_of(&v)
    }
}

impl RSXChildren {
    /// The host source of these children: a list of node calls.
    pub fn to_source(&self) -> (r: String)
        ensures
            r@ == vec_list(children_src(self.0@)),
    {
        let v = children_source(&self.0);
        vec_list_of(&v)
    }
}

impl RSXParsedExpression {
    /// The host source of this code block, its elements written in place.
    pub fn to_source(&self) -> (r: String)
        ensures
            r@ == expression_src(*self),
    {
        expression_source(self)
    }
}

impl RSXElementName {
    /// The name as it is written in a tag. Known names are made by the
    /// serializer only and have no text here.
    pub fn to_text(&self) -> (r: String)
        requires
            !(self is KnownName),
        ensures
            r@ == crate::names::name_text(self@),
    {
        crate::names::name_to_text(self)
    }
}

impl ParseError {
    /// The error as a message: where it happened, what stood there and what was expected.
    pub fn to_message(&self) -> (r: String)
        ensures
            r@ == "Parse error at "@ + decimal(self.position as nat) + "\n"@ + (match self.unexpected {
                Some(c) => "Unexpected `"@ + seq![c] + "`\n"@,
                None => "Unexpected end of input\n"@,
            }) + "Expected `"@ + self.expected@ + "`\n"@,
    {
        let mut r = String::new();
        push_str(&mut r, "Parse error at ");
        push_decimal(&mut r, self.position as u64);
        push_str(&mut r, "\n");
        match self.unexpected {
            Some(c) => {
                push_str(&mut r, "Unexpected `");
                push_char(&mut r, c);
                push_str(&mut r, "`\n");
            },
            None => {
                push_str(&mut r, "Unexpected end of input\n");
            },
        }
        push_str(&mut r, "Expected `");
        push_str(&mut r, self.expected.as_str());
        push_str(&mut r, "`\n");
        assert(r@ =~= "Parse error at "@ + decimal(self.position as nat) + "\n"@ + (match self.unexpected {
            Some(c) => "Unexpected `"@ + seq![c] + "`\n"@,
            None => "Unexpected end of input\n"@,
        }) + "Expected `"@ + self.expected@ + "`\n"@);
        r
    }
}

} // verus!
