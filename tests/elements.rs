use rsx_parser::{
    rsx_closing_element, rsx_element, rsx_element_name, rsx_identifier, rsx_identifier_simple,
    rsx_member_expression, rsx_namespaced_name, rsx_normal_element, rsx_opening_element,
    rsx_self_closing_element, JSSingleStringCharacters, PlaceholderGenerator, RSXAttribute,
    RSXAttributeName, RSXAttributeString, RSXAttributeValue, RSXAttributes, RSXChild,
    RSXChildren, RSXElement, RSXElementName, RSXIdentifier, RSXNormalElement, RSXOpeningElement,
    RSXSelfClosingElement, RSXText,
};

fn id(s: &str) -> RSXIdentifier {
    RSXIdentifier(s.to_string())
}

fn name(s: &str) -> RSXElementName {
    RSXElementName::Name(id(s))
}

fn ns(a: &str, b: &str) -> RSXElementName {
    RSXElementName::NamedspacedName(id(a), id(b))
}

fn member(xs: &[&str]) -> RSXElementName {
    RSXElementName::MemberExpression(xs.iter().map(|x| id(x)).collect())
}

fn flag(k: &str) -> RSXAttribute {
    RSXAttribute::Named(RSXAttributeName::Name(id(k)), RSXAttributeValue::Default)
}

fn single(k: &str, v: &str) -> RSXAttribute {
    RSXAttribute::Named(
        RSXAttributeName::Name(id(k)),
        RSXAttributeValue::Str(RSXAttributeString::SingleQuoted(JSSingleStringCharacters(
            v.to_string(),
        ))),
    )
}

fn normal(n: RSXElementName, a: Vec<RSXAttribute>, c: Vec<RSXChild>) -> RSXNormalElement {
    RSXNormalElement(n, RSXAttributes(a), RSXChildren(c))
}

fn closing(n: RSXElementName) -> RSXSelfClosingElement {
    RSXSelfClosingElement(n, RSXAttributes(vec![]))
}

fn opening(n: RSXElementName) -> RSXOpeningElement {
    RSXOpeningElement(n, RSXAttributes(vec![]))
}

fn text(t: &str) -> RSXChild {
    RSXChild::Text(RSXText(t.to_string()))
}

/// Compares two token texts, ignoring the spacing between tokens.
fn same_tokens(a: &str, b: &str) -> bool {
    let x: String = a.chars().filter(|c| !c.is_whitespace()).collect();
    let y: String = b.chars().filter(|c| !c.is_whitespace()).collect();
    x == y
}

#[test]
fn test_rsx_element_tokenize() {
    let mut g = PlaceholderGenerator::new();
    let value = rsx_element(
        r#"<root>
                     <foo/>
                     <foo.member.bar/>
                     <foo-bar/>
                     <foo - bar/>
                     <foo-bar.member/>
                     <foo - bar.member/>
                     <foo-bar.member.bar-baz/>
                     <foo - bar.member.bar - baz/>
                     <foo:bar/>
                     <foo-a:bar-b/>
                     <foo-a:bar-b/>
                     <foo></foo>
                     <x - foo - bar></x - foo - bar>
                   </root>
                "#,
        &mut g,
    )
    .unwrap()
    .0;
    let tokens = r#"
            DOMNode::from((
                DOMTagName::from("root"),
                DOMChildren::from(vec![
                    DOMNode::from(DOMTagName::from("foo")),
                    DOMNode::from(DOMTagName::from(box ["foo", "member", "bar",])),
                    DOMNode::from(DOMTagName::from("foo-bar")),
                    DOMNode::from(DOMTagName::from("foo-bar")),
                    DOMNode::from(DOMTagName::from(box ["foo-bar", "member",])),
                    DOMNode::from(DOMTagName::from(box ["foo-bar", "member",])),
                    DOMNode::from(DOMTagName::from(box ["foo-bar", "member", "bar-baz",])),
                    DOMNode::from(DOMTagName::from(box ["foo-bar", "member", "bar-baz",])),
                    DOMNode::from(DOMTagName::from(("foo", "bar"))),
                    DOMNode::from(DOMTagName::from(("foo-a", "bar-b"))),
                    DOMNode::from(DOMTagName::from(("foo-a", "bar-b"))),
                    DOMNode::from(DOMTagName::from("foo")),
                    DOMNode::from(DOMTagName::from("x-foo-bar")),
                ])
            ))"#;
    let source = value.to_source();
    println!("{}", source);
    assert!(same_tokens(&source, tokens));
}

#[test]
fn test_rsx_element() {
    let mut g = PlaceholderGenerator::new();
    assert_eq!(
        rsx_element(
            r#"<foo bar='baz'>
                            <foo bar='baz'>
                                <foo bar='baz'/>
                                hello<bar/>
                                world<baz/>
                            </foo>
                        </foo>"#,
            &mut g
        )
        .unwrap(),
        (
            RSXElement::Normal(normal(
                name("foo"),
                vec![single("bar", "baz")],
                vec![RSXChild::Element(RSXElement::Normal(normal(
                    name("foo"),
                    vec![single("bar", "baz")],
                    vec![
                        RSXChild::Element(RSXElement::SelfClosing(RSXSelfClosingElement(
                            name("foo"),
                            RSXAttributes(vec![single("bar", "baz")])
                        ))),
                        text("hello"),
                        RSXChild::Element(RSXElement::SelfClosing(closing(name("bar")))),
                        text("world"),
                        RSXChild::Element(RSXElement::SelfClosing(closing(name("baz")))),
                    ]
                )))]
            )),
            ""
        )
    );
}

#[test]
fn test_rsx_normal_element() {
    let mut g = PlaceholderGenerator::new();
    assert_eq!(rsx_normal_element("", &mut g).is_err(), true);
    assert_eq!(rsx_normal_element(" ", &mut g).is_err(), true);
    assert_eq!(rsx_normal_element("<foo>", &mut g).is_err(), true);
    assert_eq!(rsx_normal_element("<foo/>", &mut g).is_err(), true);
    assert_eq!(rsx_normal_element("< foo />", &mut g).is_err(), true);
    assert_eq!(rsx_normal_element("<foo/ >", &mut g).is_err(), true);
    assert_eq!(rsx_normal_element("</foo>", &mut g).is_err(), true);
    assert_eq!(rsx_normal_element("<foo-bar/>", &mut g).is_err(), true);
    assert_eq!(rsx_normal_element("<foo:bar/>", &mut g).is_err(), true);
    assert_eq!(rsx_normal_element("<foo.bar/>", &mut g).is_err(), true);

    assert_eq!(
        rsx_normal_element("<foo></foo>", &mut g).unwrap(),
        (normal(name("foo"), vec![], vec![]), "")
    );
    assert_eq!(
        rsx_normal_element("< foo ></foo>", &mut g).unwrap(),
        (normal(name("foo"), vec![], vec![]), "")
    );
    assert_eq!(
        rsx_normal_element("<foo></ foo >", &mut g).unwrap(),
        (normal(name("foo"), vec![], vec![]), "")
    );
    assert_eq!(
        rsx_normal_element("< foo ></ foo >", &mut g).unwrap(),
        (normal(name("foo"), vec![], vec![]), "")
    );
    assert_eq!(
        rsx_normal_element("<foo-bar></foo-bar>", &mut g).unwrap(),
        (normal(name("foo-bar"), vec![], vec![]), "")
    );
    assert_eq!(
        rsx_normal_element("<foo:bar></foo:bar>", &mut g).unwrap(),
        (normal(ns("foo", "bar"), vec![], vec![]), "")
    );
    assert_eq!(
        rsx_normal_element("<foo.bar></foo.bar>", &mut g).unwrap(),
        (normal(member(&["foo", "bar"]), vec![], vec![]), "")
    );
}

#[test]
fn test_rsx_normal_element_with_attributes() {
    let mut g = PlaceholderGenerator::new();
    assert_eq!(
        rsx_normal_element("<foo bar></foo>", &mut g).unwrap(),
        (normal(name("foo"), vec![flag("bar")], vec![]), "")
    );
    assert_eq!(
        rsx_normal_element("< foo bar ></ foo >", &mut g).unwrap(),
        (normal(name("foo"), vec![flag("bar")], vec![]), "")
    );
    assert_eq!(
        rsx_normal_element("<foo bar baz></foo>", &mut g).unwrap(),
        (normal(name("foo"), vec![flag("bar"), flag("baz")], vec![]), "")
    );
    assert_eq!(
        rsx_normal_element("< foo bar baz ></ foo >", &mut g).unwrap(),
        (normal(name("foo"), vec![flag("bar"), flag("baz")], vec![]), "")
    );
    assert_eq!(
        rsx_normal_element("<f b='z'></f>", &mut g).unwrap(),
        (normal(name("f"), vec![single("b", "z")], vec![]), "")
    );
    assert_eq!(
        rsx_normal_element("< f b = 'z' ></ f >", &mut g).unwrap(),
        (normal(name("f"), vec![single("b", "z")], vec![]), "")
    );
}

#[test]
fn test_rsx_self_closing_element() {
    let mut g = PlaceholderGenerator::new();
    assert_eq!(rsx_self_closing_element("", &mut g).is_err(), true);
    assert_eq!(rsx_self_closing_element(" ", &mut g).is_err(), true);
    assert_eq!(rsx_self_closing_element("<foo>", &mut g).is_err(), true);
    assert_eq!(rsx_self_closing_element("<foo/>", &mut g).unwrap(), (closing(name("foo")), ""));
    assert_eq!(rsx_self_closing_element("< foo />", &mut g).unwrap(), (closing(name("foo")), ""));
    assert_eq!(rsx_self_closing_element("<foo/ >", &mut g).unwrap(), (closing(name("foo")), ""));
    assert_eq!(rsx_self_closing_element("</foo>", &mut g).is_err(), true);
    assert_eq!(
        rsx_self_closing_element("<foo-bar/>", &mut g).unwrap(),
        (closing(name("foo-bar")), "")
    );
    assert_eq!(
        rsx_self_closing_element("<foo:bar/>", &mut g).unwrap(),
        (closing(ns("foo", "bar")), "")
    );
    assert_eq!(
        rsx_self_closing_element("<foo.bar/>", &mut g).unwrap(),
        (closing(member(&["foo", "bar"])), "")
    );
}

#[test]
fn test_rsx_self_closing_element_with_attributes() {
    let mut g = PlaceholderGenerator::new();
    let with = |n: &str, a: Vec<RSXAttribute>| RSXSelfClosingElement(name(n), RSXAttributes(a));
    assert_eq!(
        rsx_self_closing_element("<foo bar/>", &mut g).unwrap(),
        (with("foo", vec![flag("bar")]), "")
    );
    assert_eq!(
        rsx_self_closing_element("< foo bar />", &mut g).unwrap(),
        (with("foo", vec![flag("bar")]), "")
    );
    assert_eq!(
        rsx_self_closing_element("<foo bar baz/>", &mut g).unwrap(),
        (with("foo", vec![flag("bar"), flag("baz")]), "")
    );
    assert_eq!(
        rsx_self_closing_element("< foo bar baz />", &mut g).unwrap(),
        (with("foo", vec![flag("bar"), flag("baz")]), "")
    );
    assert_eq!(
        rsx_self_closing_element("<f b='z'/>", &mut g).unwrap(),
        (with("f", vec![single("b", "z")]), "")
    );
    assert_eq!(
        rsx_self_closing_element("< f b = 'z' />", &mut g).unwrap(),
        (with("f", vec![single("b", "z")]), "")
    );
}

#[test]
fn test_rsx_opening_element() {
    let mut g = PlaceholderGenerator::new();
    assert_eq!(rsx_opening_element("", &mut g).is_err(), true);
    assert_eq!(rsx_opening_element(" ", &mut g).is_err(), true);
    assert_eq!(rsx_opening_element("<foo>", &mut g).unwrap(), (opening(name("foo")), ""));
    assert_eq!(rsx_opening_element("< foo >", &mut g).unwrap(), (opening(name("foo")), ""));
    assert_eq!(rsx_opening_element("<foo/>", &mut g).is_err(), true);
    assert_eq!(rsx_opening_element("</foo>", &mut g).is_err(), true);
    assert_eq!(
        rsx_opening_element("<foo-bar>", &mut g).unwrap(),
        (opening(name("foo-bar")), "")
    );
    assert_eq!(
        rsx_opening_element("<foo:bar>", &mut g).unwrap(),
        (opening(ns("foo", "bar")), "")
    );
    assert_eq!(
        rsx_opening_element("<foo.bar>", &mut g).unwrap(),
        (opening(member(&["foo", "bar"])), "")
    );
}

#[test]
fn test_rsx_opening_element_with_attributes() {
    let mut g = PlaceholderGenerator::new();
    let with = |n: &str, a: Vec<RSXAttribute>| RSXOpeningElement(name(n), RSXAttributes(a));
    assert_eq!(
        rsx_opening_element("<foo bar>", &mut g).unwrap(),
        (with("foo", vec![flag("bar")]), "")
    );
    assert_eq!(
        rsx_opening_element("< foo bar >", &mut g).unwrap(),
        (with("foo", vec![flag("bar")]), "")
    );
    assert_eq!(
        rsx_opening_element("<foo bar baz>", &mut g).unwrap(),
        (with("foo", vec![flag("bar"), flag("baz")]), "")
    );
    assert_eq!(
        rsx_opening_element("< foo bar baz >", &mut g).unwrap(),
        (with("foo", vec![flag("bar"), flag("baz")]), "")
    );
    assert_eq!(
        rsx_opening_element("<f b='z'>", &mut g).unwrap(),
        (with("f", vec![single("b", "z")]), "")
    );
    assert_eq!(
        rsx_opening_element("< f b = 'z' >", &mut g).unwrap(),
        (with("f", vec![single("b", "z")]), "")
    );
}

#[test]
fn test_rsx_closing_element() {
    let message = |n: &RSXElementName, input: &str| {
        rsx_closing_element(n, input).err().unwrap().to_message()
    };
    assert_eq!(rsx_closing_element(&name(""), "").is_err(), true);
    assert_eq!(rsx_closing_element(&name(""), " ").is_err(), true);
    assert_eq!(rsx_closing_element(&name("foo"), "<foo>").is_err(), true);
    assert_eq!(rsx_closing_element(&name("foo"), "<foo/>").is_err(), true);
    assert_eq!(rsx_closing_element(&name("foo"), "</foo>").is_err(), false);
    assert_eq!(
        message(&name("baz"), "</foo>").contains("Unexpected `f`\nExpected `baz`\n"),
        true
    );
    assert_eq!(rsx_closing_element(&name("foo"), "</ foo >").is_err(), false);
    assert_eq!(
        message(&name("baz"), "</ foo >").contains("Unexpected `f`\nExpected `baz`\n"),
        true
    );
    assert_eq!(rsx_closing_element(&name("foo"), "< /foo>").is_err(), false);
    assert_eq!(
        message(&name("baz"), "< /foo>").contains("Unexpected `f`\nExpected `baz`\n"),
        true
    );
    assert_eq!(rsx_closing_element(&name("foo-bar"), "</foo-bar>").is_err(), false);
    assert_eq!(
        message(&name("foo-baz"), "</foo-bar>").contains("Unexpected `r`\nExpected `foo-baz`\n"),
        true
    );
    assert_eq!(rsx_closing_element(&ns("foo", "bar"), "</foo:bar>").is_err(), false);
    assert_eq!(
        message(&ns("foo", "baz"), "</foo:bar>").contains("Unexpected `r`\nExpected `foo:baz`\n"),
        true
    );
    assert_eq!(rsx_closing_element(&member(&["foo", "bar"]), "</foo.bar>").is_err(), false);
    assert_eq!(
        message(&member(&["foo", "baz"]), "</foo.bar>")
            .contains("Unexpected `r`\nExpected `foo.baz`\n"),
        true
    );
}

#[test]
fn test_rsx_element_name() {
    assert_eq!(rsx_element_name("").is_err(), true);
    assert_eq!(rsx_element_name(" ").is_err(), true);
    assert_eq!(rsx_element_name("foo").unwrap(), (name("foo"), ""));
    assert_eq!(rsx_element_name("foo-bar").unwrap(), (name("foo-bar"), ""));
    assert_eq!(rsx_element_name("foo:bar").unwrap(), (ns("foo", "bar"), ""));
    assert_eq!(rsx_element_name("foo.bar").unwrap(), (member(&["foo", "bar"]), ""));
}

#[test]
fn test_rsx_identifier_simple() {
    assert_eq!(rsx_identifier_simple("").is_err(), true);
    assert_eq!(rsx_identifier_simple(" ").is_err(), true);
    assert_eq!(rsx_identifier_simple("foo").unwrap(), (id("foo"), ""));
    assert_eq!(rsx_identifier_simple("foo_bar").unwrap(), (id("foo_bar"), ""));
    assert_eq!(rsx_identifier_simple("foo$bar").unwrap(), (id("foo$bar"), ""));
    assert_eq!(rsx_identifier_simple("1foo").is_err(), true);
    assert_eq!(rsx_identifier_simple("foo1").unwrap(), (id("foo1"), ""));
}

#[test]
fn test_rsx_identifier() {
    assert_eq!(rsx_identifier("").is_err(), true);
    assert_eq!(rsx_identifier(" ").is_err(), true);
    assert_eq!(rsx_identifier("foo").unwrap(), (id("foo"), ""));
    assert_eq!(rsx_identifier("foo-bar").unwrap(), (id("foo-bar"), ""));
    assert_eq!(rsx_identifier("$foo-$bar").unwrap(), (id("$foo-$bar"), ""));
    assert_eq!(rsx_identifier("1foo-bar").is_err(), true);
    assert_eq!(rsx_identifier("foo1-bar").unwrap(), (id("foo1-bar"), ""));
    assert_eq!(rsx_identifier("foo-1bar").is_err(), true);
    assert_eq!(rsx_identifier("foo-bar1").unwrap(), (id("foo-bar1"), ""));
}

#[test]
fn test_rsx_namespaced_name() {
    assert_eq!(rsx_namespaced_name("").is_err(), true);
    assert_eq!(rsx_namespaced_name(" ").is_err(), true);
    assert_eq!(rsx_namespaced_name("foo").is_err(), true);
    assert_eq!(rsx_namespaced_name("foo:bar").unwrap(), ((id("foo"), id("bar")), ""));
    assert_eq!(rsx_namespaced_name("$foo:$bar").unwrap(), ((id("$foo"), id("$bar")), ""));
    assert_eq!(rsx_namespaced_name("foo:bar:baz").unwrap(), ((id("foo"), id("bar")), ":baz"));
    assert_eq!(
        rsx_namespaced_name("$foo:$bar:$baz").unwrap(),
        ((id("$foo"), id("$bar")), ":$baz")
    );
    assert_eq!(rsx_namespaced_name("1foo:bar").is_err(), true);
    assert_eq!(rsx_namespaced_name("foo1:bar").unwrap(), ((id("foo1"), id("bar")), ""));
    assert_eq!(rsx_namespaced_name("foo:1bar").is_err(), true);
    assert_eq!(rsx_namespaced_name("foo:bar1").unwrap(), ((id("foo"), id("bar1")), ""));
}

#[test]
fn test_rsx_member_expression() {
    let ids = |xs: &[&str]| xs.iter().map(|x| id(x)).collect::<Vec<_>>();
    assert_eq!(rsx_member_expression("").is_err(), true);
    assert_eq!(rsx_member_expression(" ").is_err(), true);
    assert_eq!(rsx_member_expression("foo").is_err(), true);
    assert_eq!(rsx_member_expression("foo.bar").unwrap().0, ids(&["foo", "bar"]));
    assert_eq!(rsx_member_expression("$foo.$bar").unwrap().0, ids(&["$foo", "$bar"]));
    assert_eq!(rsx_member_expression("foo.bar.baz").unwrap().0, ids(&["foo", "bar", "baz"]));
    assert_eq!(
        rsx_member_expression("$foo.$bar.$baz").unwrap().0,
        ids(&["$foo", "$bar", "$baz"])
    );
    assert_eq!(rsx_member_expression("1foo.bar").is_err(), true);
    assert_eq!(rsx_member_expression("foo1.bar").unwrap().0, ids(&["foo1", "bar"]));
    assert_eq!(rsx_member_expression("foo.1bar").is_err(), true);
    assert_eq!(rsx_member_expression("foo.bar1").unwrap().0, ids(&["foo", "bar1"]));
}
