use rsx_parser::{
    known_attribute_name, known_element_name, parse, rsx_attribute, rsx_code_block,
    JSSingleStringCharacters, KnownAttributeName, KnownElementName, PlaceholderGenerator,
    RSXAttribute, RSXAttributeBoolean, RSXAttributeName, RSXAttributeString, RSXAttributeValue,
    RSXAttributes, RSXChild, RSXChildren, RSXElement, RSXElementName, RSXElementPlaceholder,
    RSXIdentifier, RSXNormalElement, RSXParsedExpression, RSXSelfClosingElement, RSXText,
};

fn id(s: &str) -> RSXIdentifier {
    RSXIdentifier(s.to_string())
}

fn bare(n: RSXElementName) -> RSXElement {
    RSXElement::SelfClosing(RSXSelfClosingElement(n, RSXAttributes(vec![])))
}

#[test]
fn generator_counts_from_zero() {
    let mut g = PlaceholderGenerator::new();
    for i in 0..200u64 {
        assert_eq!(g.next_u64(), i);
    }
}

#[test]
fn placeholders_are_comment_markers() {
    let mut g = PlaceholderGenerator::new();
    let p = RSXElementPlaceholder::generate(&mut g);
    assert_eq!(p.as_str(), "/* rsx:0 */");
    let q = RSXElementPlaceholder::generate(&mut g);
    assert_eq!(q.as_str(), "/* rsx:1 */");
    assert!(p != q);
    assert!(p == RSXElementPlaceholder::dummy());
    assert_eq!(RSXElementPlaceholder::dummy().as_str(), "");
}

#[test]
fn simple_tags_parse_as_bare_self_closing() {
    for tag in ["foo", "Bar", "x1", "_private", "$dollar", "foo-bar", "é"] {
        let source = format!("<{}/>", tag);
        assert_eq!(parse(&source).unwrap(), (bare(RSXElementName::Name(id(tag))), ""));
    }
    assert_eq!(parse("  <foo/>  ").unwrap(), (bare(RSXElementName::Name(id("foo"))), ""));
}

#[test]
fn member_and_namespaced_tags() {
    assert_eq!(
        parse("<a.b.c/>").unwrap(),
        (bare(RSXElementName::MemberExpression(vec![id("a"), id("b"), id("c")])), "")
    );
    assert_eq!(parse("<a:b/>").unwrap(), (bare(RSXElementName::NamedspacedName(id("a"), id("b"))), ""));
}

#[test]
fn serializes_div_with_text_child() {
    let (ast, _) = parse("<div>Hello world!</div>").unwrap();
    let source = ast.to_source();
    assert_eq!(
        source,
        "DOMNode :: from ( ( DOMTagName :: from ( KnownElementName :: Div ) , DOMChildren :: from ( \
         vec ! [ DOMNode :: from ( \"Hello world!\" ) , ] ) ) )"
    );
    assert!(!source.contains("DOMAttributes"));
}

#[test]
fn closing_tag_mismatch_names_expected_tag() {
    let err = parse("<foo>...</bar>").err().unwrap();
    assert_eq!(err.expected, "foo");
    assert_eq!(err.unexpected, Some('b'));
    assert_eq!(err.position, 10);
    assert!(err.to_message().contains("Unexpected `b`\nExpected `foo`\n"));
    let err = parse("<foo-bar></foo-baz>").err().unwrap();
    assert_eq!((err.expected.as_str(), err.unexpected), ("foo-bar", Some('z')));
    let err = parse("<foo>").err().unwrap();
    assert_eq!(err.unexpected, None);
}

#[test]
fn attribute_value_precedence() {
    let mut g = PlaceholderGenerator::new();
    let key = || RSXAttributeName::Name(id("attribute"));
    assert_eq!(
        rsx_attribute("attribute=true", &mut g).unwrap(),
        (RSXAttribute::Named(key(), RSXAttributeValue::Boolean(RSXAttributeBoolean(true))), "")
    );
    let (a, rest) = rsx_attribute("attribute=1.2e3", &mut g).unwrap();
    assert_eq!(rest, "");
    match a {
        RSXAttribute::Named(_, RSXAttributeValue::Number(n)) => {
            assert_eq!(n.0.parse::<f64>().unwrap(), 1200.0)
        },
        other => panic!("not a number: {:?}", other),
    }
    assert_eq!(
        rsx_attribute("attribute='it\\'s'", &mut g).unwrap(),
        (
            RSXAttribute::Named(
                key(),
                RSXAttributeValue::Str(RSXAttributeString::SingleQuoted(JSSingleStringCharacters(
                    "it's".to_string()
                )))
            ),
            ""
        )
    );
    assert!(parse("<a attribute='it''s'/>").is_err());
    assert!(parse("<a attribute='it\\'s'/>").is_ok());
}

#[test]
fn two_sibling_elements_are_replaced_in_order() {
    let mut g = PlaceholderGenerator::new();
    let (block, _) = rsx_code_block("{ pair(<left/>, <right/>) }", &mut g).unwrap();
    assert_eq!(block.elements.len(), 2);
    let source = block.to_source();
    assert_eq!(
        source,
        "{ pair(DOMNode :: from ( DOMTagName :: from ( \"left\" ) ), DOMNode :: from ( \
         DOMTagName :: from ( \"right\" ) )) }"
    );
    assert!(!source.contains("rsx:"));
}

#[test]
fn expression_without_elements_keeps_its_tokens() {
    let x = RSXParsedExpression { tokens: " a + /* c */ b ".to_string(), elements: vec![] };
    assert_eq!(x.to_source(), "{ a + /* c */ b }");
    let empty = RSXParsedExpression { tokens: String::new(), elements: vec![] };
    assert_eq!(empty.to_source(), "{}");
}

#[test]
fn known_names_ignore_ascii_case() {
    assert_eq!(known_element_name("DIV"), Some(KnownElementName::Div));
    assert_eq!(known_element_name("img"), Some(KnownElementName::Image));
    assert_eq!(known_element_name("Image"), Some(KnownElementName::Image));
    assert_eq!(known_element_name("map"), Some(KnownElementName::ImageMap));
    assert_eq!(known_element_name("divs"), None);
    assert_eq!(known_attribute_name("ContentEditable"), Some(KnownAttributeName::CntEditable));
    assert_eq!(known_attribute_name("onclick"), None);
    let (ast, _) = parse("<Map/>").unwrap();
    assert_eq!(ast.to_source(), "DOMNode :: from ( DOMTagName :: from ( KnownElementName :: Map ) )");
}

#[test]
fn string_literals_are_escaped_in_source() {
    let element = RSXElement::Normal(RSXNormalElement(
        RSXElementName::Name(id("p")),
        RSXAttributes(vec![]),
        RSXChildren(vec![RSXChild::Text(RSXText("a\"b\\c\nd'e\0é".to_string()))]),
    ));
    assert_eq!(
        element.to_source(),
        "DOMNode :: from ( ( DOMTagName :: from ( KnownElementName :: P ) , DOMChildren :: from ( \
         vec ! [ DOMNode :: from ( \"a\\\"b\\\\c\\nd'e\\0\\u{e9}\" ) , ] ) ) )"
    );
}

#[test]
fn number_literals_in_source() {
    let (ast, _) = parse("<a n=+1.5e2 m={-3}/>").unwrap();
    assert_eq!(
        ast.to_source(),
        "DOMNode :: from ( ( DOMTagName :: from ( KnownElementName :: A ) , DOMAttributes :: from ( \
         vec ! [ DOMAttribute :: from ( ( DOMAttributeName :: from ( \"n\" ) , DOMAttributeValue :: \
         from ( 1.5e2f64 ) ) ) , DOMAttribute :: from ( ( DOMAttributeName :: from ( \"m\" ) , \
         DOMAttributeValue :: from ( -3f64 ) ) ) , ] ) ) )"
    );
}

#[test]
fn edge_inputs() {
    assert!(parse("").is_err());
    assert!(parse("   ").is_err());
    assert!(parse("text").is_err());
    assert!(parse("<1/>").is_err());
    assert_eq!(parse("<a/> tail").unwrap().1, "tail");
    assert_eq!(
        parse("/* lead */ <a></a> // trail").unwrap(),
        (
            RSXElement::Normal(RSXNormalElement(
                RSXElementName::Name(id("a")),
                RSXAttributes(vec![]),
                RSXChildren(vec![])
            )),
            ""
        )
    );
}

#[test]
fn duplicate_attributes_keep_their_order() {
    let (ast, _) = parse("<a x='1' x='2' {...rest}/>").unwrap();
    match ast {
        RSXElement::SelfClosing(RSXSelfClosingElement(_, attributes)) => {
            assert_eq!(attributes.0.len(), 3);
            assert!(matches!(&attributes.0[2], RSXAttribute::Spread(x) if x.tokens == "rest"));
        },
        _ => panic!("not self-closing"),
    }
}

#[test]
fn element_name_text() {
    assert_eq!(RSXElementName::MemberExpression(vec![id("a"), id("b")]).to_text(), "a.b");
    assert_eq!(RSXElementName::NamedspacedName(id("a"), id("b")).to_text(), "a:b");
}
