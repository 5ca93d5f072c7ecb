//! A parser for markup elements embedded in host-language expressions, and a
//! serializer that writes each element back as calls into a node library.
use vstd::prelude::*;

pub mod ast;
pub mod grammar;
pub mod known_names;
pub mod laws;
pub mod model;
pub mod lexical;
pub mod names;
pub mod parsers;
pub mod placeholders;
pub mod serialize;
pub mod syntax;
pub mod text;

pub use ast::{
    JSBool, JSDoubleStringCharacter, JSDoubleStringCharacters, JSIdentifierPart,
    JSIdentifierStart, JSNumber, JSSingleStringCharacter, JSSingleStringCharacters, NameV,
    RSXAttribute, RSXAttributeBoolean, RSXAttributeName, RSXAttributeNumber, RSXAttributeString,
    RSXAttributeValue, RSXAttributes, RSXChild, RSXChildren, RSXClosingElement, RSXElement,
    RSXElementName, RSXIdentifier, RSXNormalElement, RSXOpeningElement, RSXParsedExpression,
    RSXRawCodeFragment, RSXSelfClosingElement, RSXText, RSXTextCharacter,
};
pub use known_names::{known_attribute_name, known_element_name, KnownAttributeName, KnownElementName};
pub use lexical::ParseError;
pub use parsers::{
    close_tag, closing_element_open_tag, escaped_character, exp, float_exp, float_simple, frac,
    identifier_non_alpha_numeric, integer, open_tag, parse, rs_char, rs_comment, rs_string,
    rs_whitespace, rsx_attribute, rsx_attribute_bool, rsx_attribute_complex_name,
    rsx_attribute_number, rsx_attribute_value, rsx_attributes, rsx_bracketed_attribute_bool,
    rsx_bracketed_attribute_number, rsx_bracketed_string_characters, rsx_child, rsx_children,
    rsx_closing_element, rsx_code_block, rsx_code_block_begin, rsx_code_block_end,
    rsx_code_block_fragment, rsx_custom_attribute, rsx_default_attribute, rsx_element,
    rsx_element_ignoring_ws, rsx_element_name, rsx_element_open, rsx_identifier,
    rsx_identifier_simple, rsx_member_expression, rsx_namespaced_name, rsx_normal_element,
    rsx_opening_element, rsx_self_closing_element, rsx_spread_attribute, rsx_spread_code_block,
    rsx_string_characters, rsx_text, rsx_text_character, self_closing_element_close_tag, sign,
};
pub use placeholders::{PlaceholderGenerator, RSXElementPlaceholder};

verus! {

} // verus!
