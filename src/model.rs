//! The tree over plain values: what each node of the syntax tree stands for,
//! with texts as character sequences and placeholders as their texts.
use vstd::prelude::*;

use crate::ast::{
    NameV, RSXAttribute, RSXAttributeBoolean, RSXAttributeName, RSXAttributeNumber,
    RSXAttributeString, RSXAttributeValue, RSXAttributes, RSXChild, RSXChildren, RSXElement,
    RSXNormalElement, RSXOpeningElement, RSXParsedExpression, RSXRawCodeFragment,
    RSXSelfClosingElement, RSXText,
};
use crate::known_names::KnownAttributeName;
use crate::placeholders::RSXElementPlaceholder;

verus! {

pub enum ElementV {
    SelfClosing(NameV, Seq<AttributeV>),
    Normal(NameV, Seq<AttributeV>, Seq<ChildV>),
}

pub enum AttrNameV {
    Known(KnownAttributeName),
    Simple(Seq<char>),
    Namespaced(Seq<char>, Seq<char>),
}

pub enum StrV {
    Single(Seq<char>),
    Double(Seq<char>),
}

pub enum ValueV {
    Default,
    Boolean(bool),
    Number(Seq<char>),
    Str(StrV),
    Element(ElementV),
    CodeBlock(ExprV),
}

pub enum AttributeV {
    Named(AttrNameV, ValueV),
    Spread(ExprV),
}

pub enum ChildV {
    Element(ElementV),
    Text(Seq<char>),
    CodeBlock(ExprV),
}

/// A code block: its tokens, and each placeholder text with its element.
#[verifier::ext_equal]
pub struct ExprV {
    pub tokens: Seq<char>,
    pub elements: Seq<(Seq<char>, ElementV)>,
}

pub enum FragV {
    Empty,
    Token(char),
    Tokens(Seq<char>),
    Element(ElementV),
    Expr(ExprV),
}

pub open spec fn element_v(e: RSXElement) -> ElementV
    decreases e,
{
    match e {
        RSXElement::SelfClosing(x) => ElementV::SelfClosing(x.0@, attributes_v(x.1.0@)),
        RSXElement::Normal(x) => ElementV::Normal(x.0@, attributes_v(x.1.0@), children_v(x.2.0@)),
    }
}

pub open spec fn attributes_v(v: Seq<RSXAttribute>) -> Seq<AttributeV>
    decreases v,
{
    if v.len() == 0 {
        Seq::empty()
    } else {
        attributes_v(v.drop_last()).push(attribute_v(v.last()))
    }
}

pub open spec fn children_v(v: Seq<RSXChild>) -> Seq<ChildV>
    decreases v,
{
    if v.len() == 0 {
        Seq::empty()
    } else {
        children_v(v.drop_last()).push(child_v(v.last()))
    }
}

pub open spec fn attribute_name_v(n: RSXAttributeName) -> AttrNameV {
    match n {
        RSXAttributeName::KnownName(k) => AttrNameV::Known(k),
        RSXAttributeName::Name(i) => AttrNameV::Simple(i@),
        RSXAttributeName::NamedspacedName(a, b) => AttrNameV::Namespaced(a@, b@),
    }
}

pub open spec fn str_v(v: RSXAttributeString) -> StrV {
    match v {
        RSXAttributeString::SingleQuoted(c) => StrV::Single(c.0@),
        RSXAttributeString::DoubleQuoted(c) => StrV::Double(c.0@),
    }
}

pub open spec fn attribute_v(a: RSXAttribute) -> AttributeV
    decreases a,
{
    match a {
        RSXAttribute::Named(n, v) => AttributeV::Named(attribute_name_v(n), value_v(v)),
        RSXAttribute::Spread(x) => AttributeV::Spread(expression_v(x)),
    }
}

pub open spec fn value_v(v: RSXAttributeValue) -> ValueV
    decreases v,
{
    match v {
        RSXAttributeValue::Default => ValueV::Default,
        RSXAttributeValue::Boolean(b) => ValueV::Boolean(b.0),
        RSXAttributeValue::Number(n) => ValueV::Number(n.0@),
        RSXAttributeValue::Str(t) => ValueV::Str(str_v(t)),
        RSXAttributeValue::Element(e) => ValueV::Element(element_v(e)),
        RSXAttributeValue::CodeBlock(x) => ValueV::CodeBlock(expression_v(x)),
    }
}

pub open spec fn child_v(c: RSXChild) -> ChildV
    decreases c,
{
    match c {
        RSXChild::Element(e) => ChildV::Element(element_v(e)),
        RSXChild::Text(t) => ChildV::Text(t.0@),
        RSXChild::CodeBlock(x) => ChildV::CodeBlock(expression_v(x)),
    }
}

pub open spec fn expression_v(x: RSXParsedExpression) -> ExprV
    decreases x,
{
    ExprV { tokens: x.tokens@, elements: pairs_v(x.elements@) }
}

pub open spec fn pairs_v(v: Seq<(RSXElementPlaceholder, RSXElement)>) -> Seq<(Seq<char>, ElementV)>
    decreases v,
{
    if v.len() == 0 {
        Seq::empty()
    } else {
        pairs_v(v.drop_last()).push((v.last().0@, element_v(v.last().1)))
    }
}

pub proof fn lemma_attributes_v_push(v: Seq<RSXAttribute>, a: RSXAttribute)
    ensures
        attributes_v(v.push(a)) == attributes_v(v).push(attribute_v(a)),
{
    assert(v.push(a).drop_last() =~= v);
}

pub proof fn lemma_children_v_push(v: Seq<RSXChild>, c: RSXChild)
    ensures
        children_v(v.push(c)) == children_v(v).push(child_v(c)),
{
    assert(v.push(c).drop_last() =~= v);
}

pub proof fn lemma_pairs_v_push(v: Seq<(RSXElementPlaceholder, RSXElement)>, x: (RSXElementPlaceholder, RSXElement))
    ensures
        pairs_v(v.push(x)) == pairs_v(v).push((x.0@, element_v(x.1))),
{
    assert(v.push(x).drop_last() =~= v);
}

pub proof fn lemma_pairs_v_append(v: Seq<(RSXElementPlaceholder, RSXElement)>, w: Seq<(RSXElementPlaceholder, RSXElement)>)
    ensures
        pairs_v(v + w) == pairs_v(v) + pairs_v(w),
    decreases w.len(),
{
    if w.len() == 0 {
        assert(v + w =~= v);
        assert(pairs_v(v) + pairs_v(w) =~= pairs_v(v));
    } else {
        lemma_pairs_v_append(v, w.drop_last());
        assert((v + w).drop_last() =~= v + w.drop_last());
        assert((v + w).last() == w.last());
        assert(pairs_v(v) + pairs_v(w) =~= (pairs_v(v) + pairs_v(w.drop_last())).push(
            (w.last().0@, element_v(w.last().1)),
        ));
    }
}

impl View for RSXElement {
    type V = ElementV;

    open spec fn view(&self) -> ElementV {
        element_v(*self)
    }
}

impl View for RSXSelfClosingElement {
    type V = (NameV, Seq<AttributeV>);

    open spec fn view(&self) -> (NameV, Seq<AttributeV>) {
        (self.0@, attributes_v(self.1.0@))
    }
}

impl View for RSXNormalElement {
    type V = (NameV, Seq<AttributeV>, Seq<ChildV>);

    open spec fn view(&self) -> (NameV, Seq<AttributeV>, Seq<ChildV>) {
        (self.0@, attributes_v(self.1.0@), children_v(self.2.0@))
    }
}

impl View for RSXOpeningElement {
    type V = (NameV, Seq<AttributeV>);

    open spec fn view(&self) -> (NameV, Seq<AttributeV>) {
        (self.0@, attributes_v(self.1.0@))
    }
}

impl View for RSXAttributes {
    type V = Seq<AttributeV>;

    open spec fn view(&self) -> Seq<AttributeV> {
        attributes_v(self.0@)
    }
}

impl View for RSXAttribute {
    type V = AttributeV;

    open spec fn view(&self) -> AttributeV {
        attribute_v(*self)
    }
}

impl View for RSXAttributeName {
    type V = AttrNameV;

    open spec fn view(&self) -> AttrNameV {
        attribute_name_v(*self)
    }
}

impl View for RSXAttributeValue {
    type V = ValueV;

    open spec fn view(&self) -> ValueV {
        value_v(*self)
    }
}

impl View for RSXAttributeBoolean {
    type V = bool;

    open spec fn view(&self) -> bool {
        self.0
    }
}

impl View for RSXAttributeNumber {
    type V = Seq<char>;

    open spec fn view(&self) -> Seq<char> {
        self.0@
    }
}

impl View for RSXAttributeString {
    type V = StrV;

    open spec fn view(&self) -> StrV {
        str_v(*self)
    }
}

impl View for RSXChildren {
    type V = Seq<ChildV>;

    open spec fn view(&self) -> Seq<ChildV> {
        children_v(self.0@)
    }
}

impl View for RSXChild {
    type V = ChildV;

    open spec fn view(&self) -> ChildV {
        child_v(*self)
    }
}

impl View for RSXText {
    type V = Seq<char>;

    open spec fn view(&self) -> Seq<char> {
        self.0@
    }
}

impl View for RSXParsedExpression {
    type V = ExprV;

    open spec fn view(&self) -> ExprV {
        expression_v(*self)
    }
}

impl View for RSXRawCodeFragment {
    type V = FragV;

    open spec fn view(&self) -> FragV {
        match self {
            RSXRawCodeFragment::Empty => FragV::Empty,
            RSXRawCodeFragment::Token(c) => FragV::Token(*c),
            RSXRawCodeFragment::Tokens(t) => FragV::Tokens(t@),
            RSXRawCodeFragment::Element(e) => FragV::Element(e@),
            RSXRawCodeFragment::ParsedExpression(x) => FragV::Expr(x@),
        }
    }
}

} // verus!
