//! The tree that the grammar builds: elements, their names, attributes and
//! children, and the host expressions of code blocks.
use vstd::prelude::*;

use crate::known_names::{KnownAttributeName, KnownElementName};
use crate::placeholders::RSXElementPlaceholder;

verus! {

/// An element: self-closing, or normal with children and a closing tag.
#[derive(Debug, PartialEq)]
pub enum RSXElement {
    SelfClosing(RSXSelfClosingElement),
    Normal(RSXNormalElement),
}

#[derive(Debug, PartialEq)]
pub struct RSXSelfClosingElement(pub RSXElementName, pub RSXAttributes);

#[derive(Debug, PartialEq)]
pub struct RSXNormalElement(pub RSXElementName, pub RSXAttributes, pub RSXChildren);

/// An opening tag: the name and the attributes of a normal element.
#[derive(Debug, PartialEq)]
pub struct RSXOpeningElement(pub RSXElementName, pub RSXAttributes);

/// A closing tag that matched the name it closes.
#[derive(Debug, PartialEq)]
pub struct RSXClosingElement<'a>(pub &'a RSXElementName);

/// A tag name. `KnownName` is made by the serializer's lookup, never by the grammar.
#[derive(Debug, PartialEq)]
pub enum RSXElementName {
    KnownName(KnownElementName),
    Name(RSXIdentifier),
    NamedspacedName(RSXIdentifier, RSXIdentifier),
    MemberExpression(Vec<RSXIdentifier>),
}

/// What a tag name is, over plain texts.
pub enum NameV {
    Known(KnownElementName),
    Simple(Seq<char>),
    Namespaced(Seq<char>, Seq<char>),
    Member(Seq<Seq<char>>),
}

impl View for RSXElementName {
    type V = NameV;

    open spec fn view(&self) -> NameV {
        match self {
            RSXElementName::KnownName(k) => NameV::Known(*k),
            RSXElementName::Name(n) => NameV::Simple(n@),
            RSXElementName::NamedspacedName(ns, n) => NameV::Namespaced(ns@, n@),
            RSXElementName::MemberExpression(v) => NameV::Member(v@.map_values(|i: RSXIdentifier| i@)),
        }
    }
}

/// An identifier; a hyphenated one holds its segments joined by `-`.
#[derive(Debug, PartialEq)]
pub struct RSXIdentifier(pub String);

impl View for RSXIdentifier {
    type V = Seq<char>;

    open spec fn view(&self) -> Seq<char> {
        self.0@
    }
}

/// The attributes of an element, in the order written.
#[derive(Debug, PartialEq)]
pub struct RSXAttributes(pub Vec<RSXAttribute>);

#[derive(Debug, PartialEq)]
pub enum RSXAttribute {
    Named(RSXAttributeName, RSXAttributeValue),
    Spread(RSXParsedExpression),
}

/// An attribute name. `KnownName` is made by the serializer's lookup, never by the grammar.
#[derive(Debug, PartialEq)]
pub enum RSXAttributeName {
    KnownName(KnownAttributeName),
    Name(RSXIdentifier),
    NamedspacedName(RSXIdentifier, RSXIdentifier),
}

#[derive(Debug, PartialEq)]
pub enum RSXAttributeValue {
    Default,
    Boolean(RSXAttributeBoolean),
    Number(RSXAttributeNumber),
    Str(RSXAttributeString),
    Element(RSXElement),
    CodeBlock(RSXParsedExpression),
}

#[derive(Debug, PartialEq)]
pub struct RSXAttributeBoolean(pub bool);

/// A numeric attribute value, held as the literal that was written
/// (sign, digits, fraction and exponent); its value is that literal read as a decimal.
#[derive(Debug, PartialEq)]
pub struct RSXAttributeNumber(pub String);

#[derive(Debug, PartialEq)]
pub enum RSXAttributeString {
    SingleQuoted(JSSingleStringCharacters),
    DoubleQuoted(JSDoubleStringCharacters),
}

/// The children of an element, in the order written.
#[derive(Debug, PartialEq)]
pub struct RSXChildren(pub Vec<RSXChild>);

#[derive(Debug, PartialEq)]
pub enum RSXChild {
    Element(RSXElement),
    Text(RSXText),
    CodeBlock(RSXParsedExpression),
}

#[derive(Debug, PartialEq)]
pub struct RSXText(pub String);

#[derive(Debug, PartialEq)]
pub struct RSXTextCharacter(pub char);

/// One piece of a code block as the scanner reads it.
#[derive(Debug, PartialEq)]
pub enum RSXRawCodeFragment {
    Empty,
    Token(char),
    Tokens(String),
    Element(RSXElement),
    ParsedExpression(RSXParsedExpression),
}

/// The host source of a code block, each element in it replaced by a
/// placeholder, and the elements with their placeholders in the order found.
#[derive(Debug, PartialEq)]
pub struct RSXParsedExpression {
    pub tokens: String,
    pub elements: Vec<(RSXElementPlaceholder, RSXElement)>,
}

#[derive(Debug, PartialEq)]
pub struct JSBool(pub bool);

/// A numeric literal as written.
#[derive(Debug, PartialEq)]
pub struct JSNumber(pub String);

#[derive(Debug, PartialEq)]
pub struct JSSingleStringCharacter(pub char);

/// The characters of a single-quoted string, escapes resolved.
#[derive(Debug, PartialEq)]
pub struct JSSingleStringCharacters(pub String);

#[derive(Debug, PartialEq)]
pub struct JSDoubleStringCharacter(pub char);

/// The characters of a double-quoted string, escapes resolved.
#[derive(Debug, PartialEq)]
pub struct JSDoubleStringCharacters(pub String);

#[derive(Debug, PartialEq)]
pub struct JSIdentifierStart(pub char);

#[derive(Debug, PartialEq)]
pub struct JSIdentifierPart(pub String);

} // verus!
