use rsx_parser::{
    parse, rsx_element_ignoring_ws, JSDoubleStringCharacters, JSSingleStringCharacters,
    PlaceholderGenerator, RSXAttribute, RSXAttributeBoolean, RSXAttributeName,
    RSXAttributeNumber, RSXAttributeString, RSXAttributeValue, RSXAttributes, RSXChild,
    RSXChildren, RSXElement, RSXElementName, RSXElementPlaceholder, RSXIdentifier,
    RSXNormalElement, RSXParsedExpression, RSXSelfClosingElement, RSXText,
};

fn name(s: &str) -> RSXElementName {
    RSXElementName::Name(RSXIdentifier(s.to_string()))
}

fn text(t: &str) -> RSXChild {
    RSXChild::Text(RSXText(t.to_string()))
}

fn normal(n: &str, a: Vec<RSXAttribute>, c: Vec<RSXChild>) -> RSXElement {
    RSXElement::Normal(RSXNormalElement(name(n), RSXAttributes(a), RSXChildren(c)))
}

fn named(k: &str, v: RSXAttributeValue) -> RSXAttribute {
    RSXAttribute::Named(RSXAttributeName::Name(RSXIdentifier(k.to_string())), v)
}

fn block(tokens: &str, elements: Vec<(RSXElementPlaceholder, RSXElement)>) -> RSXParsedExpression {
    RSXParsedExpression { tokens: tokens.to_string(), elements }
}

#[test]
fn test_simple() {
    let source = "<div>Hello world!</div>";
    let (ast, remaining): (RSXElement, _) = parse(source).unwrap();
    assert_eq!((ast, remaining), (normal("div", vec![], vec![text("Hello world!")]), ""));
}

#[test]
fn test_tokenize_1() {
    let source = "<foo>Hello world!</foo>";
    let (ast, _): (RSXElement, _) = parse(source).unwrap();
    assert_eq!(
        ast.to_source(),
        "DOMNode :: from ( ( DOMTagName :: from ( \"foo\" ) , DOMChildren :: from ( vec ! [ \
         DOMNode :: from ( \"Hello world!\" ) , ] ) ) )"
    );
}

#[test]
fn test_tokenize_2() {
    let source = "<div hidden style={stylesheet.get(\".foo\")}>Hello world!</div>";
    let (ast, _): (RSXElement, _) = parse(source).unwrap();
    assert_eq!(
        ast.to_source(),
        "DOMNode :: from ( ( DOMTagName :: from ( KnownElementName :: Div ) , vec ! [ \
         DOMAttribute :: from ( ( DOMAttributeName :: from ( KnownAttributeName :: Hidden ) , \
         DOMAttributeValue :: from ( true ) ) ) , DOMAttribute :: from ( ( DOMAttributeName :: \
         from ( KnownAttributeName :: Style ) , DOMAttributeValue :: from ( \
         {stylesheet.get(\".foo\")} ) ) ) , ] , vec ! [ DOMNode :: from ( \"Hello world!\" ) , ] \
         ) )",
    );
}

#[test]
fn test_tokenize_3() {
    let source = "<x-foo-bar>Hello world!</x-foo-bar>";
    let (ast, _): (RSXElement, _) = parse(source).unwrap();
    assert_eq!(
        ast.to_source(),
        "DOMNode :: from ( ( DOMTagName :: from ( \"x-foo-bar\" ) , DOMChildren :: from ( vec ! [ \
         DOMNode :: from ( \"Hello world!\" ) , ] ) ) )"
    );
}

#[test]
fn test_rsx_simple_expression() {
    let mut g = PlaceholderGenerator::new();
    assert_eq!(
        rsx_element_ignoring_ws(r#"<div>Hello world!</div>"#, &mut g).unwrap(),
        (normal("div", vec![], vec![text("Hello world!")]), "")
    );
}

#[test]
fn test_rsx_complex() {
    let mut g = PlaceholderGenerator::new();
    let single = |v: &str| {
        RSXAttributeValue::Str(RSXAttributeString::SingleQuoted(JSSingleStringCharacters(
            v.to_string(),
        )))
    };
    let double = |v: &str| {
        RSXAttributeValue::Str(RSXAttributeString::DoubleQuoted(JSDoubleStringCharacters(
            v.to_string(),
        )))
    };
    let (ast, rest) = rsx_element_ignoring_ws(
        r#"
                        <root
                            first
                            second={true}
                            third={false}
                            fourth={1}
                            fifth='2'
                            sixth="3"
                            seventh={'4'}
                            eighth={"5"}
                            ninth={6 + 7 - 8 * 9 / 10}
                            tenth={|e: Event| { println!("{:?}", e); }}
                        >
                            <div>hello</div>
                            <span>world</span>
                            {
                                if foo {
                                    <first>lorem { 1 + 2 } ipsum</first>
                                } else {
                                    <second>dolor { 3 + 4 } sit</second>
                                }
                            }
                            <ul>
                                <li>First</li>
                                <li>Second</li>
                                <li>Third</li>
                            </ul>
                            <void/>
                        </root>
                "#,
        &mut g,
    )
    .unwrap();
    let fourth = match &ast {
        RSXElement::Normal(RSXNormalElement(_, attributes, _)) => match &attributes.0[3] {
            RSXAttribute::Named(_, RSXAttributeValue::Number(n)) => n.0.parse::<f64>().unwrap(),
            _ => panic!("fourth attribute is not a number"),
        },
        _ => panic!("root is not a normal element"),
    };
    assert_eq!(fourth, 1f64);
    assert_eq!(
        (ast, rest),
        (
            normal(
                "root",
                vec![
                    named("first", RSXAttributeValue::Default),
                    named("second", RSXAttributeValue::Boolean(RSXAttributeBoolean(true))),
                    named("third", RSXAttributeValue::Boolean(RSXAttributeBoolean(false))),
                    named("fourth", RSXAttributeValue::Number(RSXAttributeNumber("1".to_string()))),
                    named("fifth", single("2")),
                    named("sixth", double("3")),
                    named("seventh", single("4")),
                    named("eighth", double("5")),
                    named("ninth", RSXAttributeValue::CodeBlock(block("6 + 7 - 8 * 9 / 10", vec![]))),
                    named(
                        "tenth",
                        RSXAttributeValue::CodeBlock(block(
                            "|e: Event| { println!(\"{:?}\", e); }",
                            vec![]
                        ))
                    ),
                ],
                vec![
                    RSXChild::Element(normal("div", vec![], vec![text("hello")])),
                    RSXChild::Element(normal("span", vec![], vec![text("world")])),
                    RSXChild::CodeBlock(block(
                        r#"
                                if foo {
                                    /* rsx:0 */
                                } else {
                                    /* rsx:1 */
                                }
                            "#,
                        vec![
                            (
                                RSXElementPlaceholder::dummy(),
                                normal(
                                    "first",
                                    vec![],
                                    vec![
                                        text("lorem"),
                                        RSXChild::CodeBlock(block(" 1 + 2 ", vec![])),
                                        text("ipsum"),
                                    ]
                                )
                            ),
                            (
                                RSXElementPlaceholder::dummy(),
                                normal(
                                    "second",
                                    vec![],
                                    vec![
                                        text("dolor"),
                                        RSXChild::CodeBlock(block(" 3 + 4 ", vec![])),
                                        text("sit"),
                                    ]
                                )
                            ),
                        ]
                    )),
                    RSXChild::Element(normal(
                        "ul",
                        vec![],
                        vec![
                            RSXChild::Element(normal("li", vec![], vec![text("First")])),
                            RSXChild::Element(normal("li", vec![], vec![text("Second")])),
                            RSXChild::Element(normal("li", vec![], vec![text("Third")])),
                        ]
                    )),
                    RSXChild::Element(RSXElement::SelfClosing(RSXSelfClosingElement(
                        name("void"),
                        RSXAttributes(vec![])
                    ))),
                ]
            ),
            ""
        )
    );
}

#[test]
fn test_rsx_example() {
    let mut g = PlaceholderGenerator::new();
    let code = |t: &str| RSXAttributeValue::CodeBlock(block(t, vec![]));
    assert_eq!(
        rsx_element_ignoring_ws(
            r#"
                        <Dropdown show={props.visible}>
                            A dropdown list
                            <Menu
                                icon={props.menu.icon}
                                onHide={|e| println!("{:?}", e)}
                                onShow={|e| println!("{:?}", e)}
                            >
                                <MenuItem>Do Something</MenuItem>
                                {
                                    if should_do_something_fun() {
                                        <MenuItem>Do Something Fun!</MenuItem>
                                    } else {
                                        <MenuItem>Do Something Else</MenuItem>
                                    }
                                }
                            </Menu>
                        </Dropdown>
                "#,
            &mut g
        )
        .unwrap(),
        (
            normal(
                "Dropdown",
                vec![named("show", code("props.visible"))],
                vec![
                    text("A dropdown list"),
                    RSXChild::Element(normal(
                        "Menu",
                        vec![
                            named("icon", code("props.menu.icon")),
                            named("onHide", code("|e| println!(\"{:?}\", e)")),
                            named("onShow", code("|e| println!(\"{:?}\", e)")),
                        ],
                        vec![
                            RSXChild::Element(normal("MenuItem", vec![], vec![text("Do Something")])),
                            RSXChild::CodeBlock(block(
                                r#"
                                    if should_do_something_fun() {
                                        /* rsx:0 */
                                    } else {
                                        /* rsx:1 */
                                    }
                                "#,
                                vec![
                                    (
                                        RSXElementPlaceholder::dummy(),
                                        normal("MenuItem", vec![], vec![text("Do Something Fun!")])
                                    ),
                                    (
                                        RSXElementPlaceholder::dummy(),
                                        normal("MenuItem", vec![], vec![text("Do Something Else")])
                                    ),
                                ]
                            )),
                        ]
                    )),
                ]
            ),
            ""
        )
    );
}
