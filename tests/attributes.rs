use rsx_parser::{
    rsx_attribute, rsx_attribute_complex_name, rsx_attribute_value, rsx_attributes,
    rsx_bracketed_string_characters, rsx_string_characters, JSDoubleStringCharacters,
    JSSingleStringCharacters, PlaceholderGenerator, RSXAttribute, RSXAttributeName,
    RSXAttributeString, RSXAttributeValue, RSXAttributes, RSXIdentifier,
};

fn id(s: &str) -> RSXIdentifier {
    RSXIdentifier(s.to_string())
}

fn key(k: &str) -> RSXAttributeName {
    RSXAttributeName::Name(id(k))
}

fn ns_key(a: &str, b: &str) -> RSXAttributeName {
    RSXAttributeName::NamedspacedName(id(a), id(b))
}

fn single_str(v: &str) -> RSXAttributeString {
    RSXAttributeString::SingleQuoted(JSSingleStringCharacters(v.to_string()))
}

fn double_str(v: &str) -> RSXAttributeString {
    RSXAttributeString::DoubleQuoted(JSDoubleStringCharacters(v.to_string()))
}

fn flag(k: &str) -> RSXAttribute {
    RSXAttribute::Named(key(k), RSXAttributeValue::Default)
}

fn single(k: &str, v: &str) -> RSXAttribute {
    RSXAttribute::Named(key(k), RSXAttributeValue::Str(single_str(v)))
}

/// Number literals in generated source, rewritten as `{value}f64` for comparison.
fn normalize_numbers(source: &str) -> String {
    source
        .split(' ')
        .map(|token| match token.strip_suffix("f64") {
            Some(literal) => match literal.parse::<f64>() {
                Ok(v) => format!("{}f64", v),
                Err(_) => token.to_string(),
            },
            None => token.to_string(),
        })
        .collect::<Vec<_>>()
        .join(" ")
}

fn same_tokens(a: &str, b: &str) -> bool {
    let x: String = a.chars().filter(|c| !c.is_whitespace()).collect();
    let y: String = b.chars().filter(|c| !c.is_whitespace()).collect();
    x == y
}

#[test]
fn test_rsx_attributes_tokenize() {
    let mut g = PlaceholderGenerator::new();
    let value = rsx_attributes(
        r#"attribute

                   attribute='c'
                   attribute="s"

                   attribute='bar'
                   attribute="bar"

                   attribute='bar"baz'
                   attribute='bar\"baz'
                   attribute='bar\'baz'
                   attribute='bar\nbaz'

                   attribute="bar'baz"
                   attribute="bar\'baz"
                   attribute="bar\"baz"
                   attribute="bar\nbaz"

                   attribute={'c'}
                   attribute={"s"}

                   attribute={"bar"}
                   attribute={'bar'}

                   attribute=true
                   attribute=false

                   attribute={true}
                   attribute={false}

                   attribute=1
                   attribute=1.2
                   attribute=1.2e3
                   attribute=1.2e-3
                   attribute=1e3
                   attribute=1e-3

                   attribute=-1
                   attribute=-1.2
                   attribute=-1.2e3
                   attribute=-1.2e-3
                   attribute=-1e3
                   attribute=-1e-3

                   attribute={1}
                   attribute={1.2}
                   attribute={1.2e3}
                   attribute={1.2e-3}
                   attribute={1e3}
                   attribute={1e-3}

                   attribute={-1}
                   attribute={-1.2}
                   attribute={-1.2e3}
                   attribute={-1.2e-3}
                   attribute={-1e3}
                   attribute={-1e-3}

                   attribute=<bar/>
                   attribute={<bar/>}

                   attribute={{'c'}}
                   attribute={{"s"}}

                   attribute={1+2+3}
                   attribute={{1+{2+{3}}}}

                   foo-bar="baz"
                   foo:bar="baz"
                   foo-a:bar-b="baz"
                "#,
        &mut g,
    )
    .unwrap()
    .0;
    let named = |v: &str| {
        format!(
            "DOMAttribute::from((DOMAttributeName::from(\"attribute\"), DOMAttributeValue::from({}))),",
            v
        )
    };
    let mut expected = String::from("vec![");
    for v in [
        "true", "\"c\"", "\"s\"", "\"bar\"", "\"bar\"", "\"bar\\\"baz\"", "\"bar\\\"baz\"",
        "\"bar'baz\"", "\"bar\\nbaz\"", "\"bar'baz\"", "\"bar'baz\"", "\"bar\\\"baz\"",
        "\"bar\\nbaz\"", "\"c\"", "\"s\"", "\"bar\"", "\"bar\"", "true", "false", "true", "false",
        "1f64", "1.2f64", "1200f64", "0.0012f64", "1000f64", "0.001f64", "-1f64", "-1.2f64",
        "-1200f64", "-0.0012f64", "-1000f64", "-0.001f64", "1f64", "1.2f64", "1200f64",
        "0.0012f64", "1000f64", "0.001f64", "-1f64", "-1.2f64", "-1200f64", "-0.0012f64",
        "-1000f64", "-0.001f64", "DOMNode::from(DOMTagName::from(\"bar\"))",
        "{ DOMNode::from(DOMTagName::from(\"bar\")) }", "{ { 'c' } }", "{ { \"s\" } }",
        "{ 1 + 2 + 3 }", "{ { 1 + { 2 + { 3 } } } }",
    ] {
        expected.push_str(&named(v));
    }
    expected.push_str(
        "DOMAttribute::from((DOMAttributeName::from(\"foo-bar\"), DOMAttributeValue::from(\"baz\"))),",
    );
    expected.push_str(
        "DOMAttribute::from((DOMAttributeName::from((\"foo\", \"bar\")), DOMAttributeValue::from(\"baz\"))),",
    );
    expected.push_str(
        "DOMAttribute::from((DOMAttributeName::from((\"foo-a\", \"bar-b\")), DOMAttributeValue::from(\"baz\"))),",
    );
    expected.push_str("]");
    let source = normalize_numbers(&value.to_source());
    println!("{}", source);
    assert!(same_tokens(&source, &expected));
}

#[test]
fn test_rsx_attributes() {
    let mut g = PlaceholderGenerator::new();
    assert_eq!(rsx_attributes("", &mut g).is_err(), true);
    assert_eq!(rsx_attributes(" ", &mut g).is_err(), true);
    assert_eq!(rsx_attributes("foo", &mut g).unwrap(), (RSXAttributes(vec![flag("foo")]), ""));
    assert_eq!(
        rsx_attributes("foo bar", &mut g).unwrap(),
        (RSXAttributes(vec![flag("foo"), flag("bar")]), "")
    );
    assert_eq!(
        rsx_attributes("foo = 'bar'", &mut g).unwrap(),
        (RSXAttributes(vec![single("foo", "bar")]), "")
    );
    assert_eq!(
        rsx_attributes("foo='bar' baz", &mut g).unwrap(),
        (RSXAttributes(vec![single("foo", "bar"), flag("baz")]), "")
    );
    assert_eq!(
        rsx_attributes("foo = 'bar' baz", &mut g).unwrap(),
        (RSXAttributes(vec![single("foo", "bar"), flag("baz")]), "")
    );
    assert_eq!(
        rsx_attributes("foo='bar' bar='baz'", &mut g).unwrap(),
        (RSXAttributes(vec![single("foo", "bar"), single("bar", "baz")]), "")
    );
    assert_eq!(
        rsx_attributes("foo = 'bar' bar='baz'", &mut g).unwrap(),
        (RSXAttributes(vec![single("foo", "bar"), single("bar", "baz")]), "")
    );
}

#[test]
fn test_rsx_attribute() {
    let mut g = PlaceholderGenerator::new();
    let ns_single = |a: &str, b: &str, v: &str| {
        RSXAttribute::Named(ns_key(a, b), RSXAttributeValue::Str(single_str(v)))
    };
    assert_eq!(rsx_attribute("", &mut g).is_err(), true);
    assert_eq!(rsx_attribute(" ", &mut g).is_err(), true);
    assert_eq!(rsx_attribute("foo", &mut g).unwrap(), (flag("foo"), ""));
    assert_eq!(rsx_attribute("foo='bar'", &mut g).unwrap(), (single("foo", "bar"), ""));
    assert_eq!(rsx_attribute("foo = 'bar'", &mut g).unwrap(), (single("foo", "bar"), ""));
    assert_eq!(rsx_attribute("foo-bar='baz'", &mut g).unwrap(), (single("foo-bar", "baz"), ""));
    assert_eq!(rsx_attribute("foo-bar = 'baz'", &mut g).unwrap(), (single("foo-bar", "baz"), ""));
    assert_eq!(rsx_attribute("foo:bar='baz'", &mut g).unwrap(), (ns_single("foo", "bar", "baz"), ""));
    assert_eq!(
        rsx_attribute("foo:bar = 'baz'", &mut g).unwrap(),
        (ns_single("foo", "bar", "baz"), "")
    );
    assert_eq!(rsx_attribute("foo.bar='baz'", &mut g).unwrap(), (flag("foo"), ".bar='baz'"));
    assert_eq!(rsx_attribute("foo.bar = 'baz'", &mut g).unwrap(), (flag("foo"), ".bar = 'baz'"));
}

#[test]
fn test_rsx_attribute_name() {
    assert_eq!(rsx_attribute_complex_name("").is_err(), true);
    assert_eq!(rsx_attribute_complex_name(" ").is_err(), true);
    assert_eq!(rsx_attribute_complex_name("foo").unwrap(), (key("foo"), ""));
    assert_eq!(rsx_attribute_complex_name("foo-bar").unwrap(), (key("foo-bar"), ""));
    assert_eq!(rsx_attribute_complex_name("foo:bar").unwrap(), (ns_key("foo", "bar"), ""));
    assert_eq!(rsx_attribute_complex_name("foo.bar").unwrap(), (key("foo"), ".bar"));
}

#[test]
fn test_rsx_attribute_value() {
    let mut g = PlaceholderGenerator::new();
    let str_value = |s: RSXAttributeString| RSXAttributeValue::Str(s);
    assert_eq!(rsx_attribute_value("", &mut g).is_err(), true);
    assert_eq!(rsx_attribute_value(" ", &mut g).is_err(), true);
    assert_eq!(rsx_attribute_value(r#""""#, &mut g).unwrap(), (str_value(double_str("")), ""));
    assert_eq!(rsx_attribute_value(r#"" ""#, &mut g).unwrap(), (str_value(double_str(" ")), ""));
    assert_eq!(
        rsx_attribute_value(r#""foo""#, &mut g).unwrap(),
        (str_value(double_str("foo")), "")
    );
    assert_eq!(
        rsx_attribute_value(r#"'bar'"#, &mut g).unwrap(),
        (str_value(single_str("bar")), "")
    );
}

#[test]
fn test_rsx_string_characters() {
    assert_eq!(rsx_string_characters("").is_err(), true);
    assert_eq!(rsx_string_characters(" ").is_err(), true);
    assert_eq!(rsx_string_characters(r#""""#).unwrap(), (double_str(""), ""));
    assert_eq!(rsx_string_characters(r#"" ""#).unwrap(), (double_str(" "), ""));
    assert_eq!(rsx_string_characters(r#""foo""#).unwrap(), (double_str("foo"), ""));
    assert_eq!(rsx_string_characters(r#"'bar'"#).unwrap(), (single_str("bar"), ""));
    assert_eq!(rsx_string_characters(r#""foo'bar""#).unwrap(), (double_str("foo'bar"), ""));
    assert_eq!(rsx_string_characters(r#"'foo"bar'"#).unwrap(), (single_str(r#"foo"bar"#), ""));
    assert_eq!(rsx_string_characters(r#""foo\'bar""#).unwrap(), (double_str("foo'bar"), ""));
    assert_eq!(rsx_string_characters(r#"'foo\"bar'"#).unwrap(), (single_str(r#"foo"bar"#), ""));
    assert_eq!(rsx_string_characters(r#""foo\"bar""#).unwrap(), (double_str(r#"foo"bar"#), ""));
    assert_eq!(rsx_string_characters(r#"'foo\'bar'"#).unwrap(), (single_str("foo'bar"), ""));
    assert_eq!(rsx_string_characters(r#""foo"bar""#).unwrap(), (double_str("foo"), "bar\""));
    assert_eq!(rsx_string_characters(r#"'foo'bar'"#).unwrap(), (single_str("foo"), "bar\'"));
}

#[test]
fn test_rsx_bracketed_string_characters() {
    assert_eq!(rsx_bracketed_string_characters("").is_err(), true);
    assert_eq!(rsx_bracketed_string_characters(" ").is_err(), true);
    assert_eq!(rsx_bracketed_string_characters(r#"{""}"#).unwrap(), (double_str(""), ""));
    assert_eq!(rsx_bracketed_string_characters(r#"{" "}"#).unwrap(), (double_str(" "), ""));
    assert_eq!(
        rsx_bracketed_string_characters(r#"{"{{{}}}"}"#).unwrap(),
        (double_str("{{{}}}"), "")
    );
    assert_eq!(rsx_bracketed_string_characters(r#"{"foo"}"#).unwrap(), (double_str("foo"), ""));
    assert_eq!(rsx_bracketed_string_characters(r#"{'bar'}"#).unwrap(), (single_str("bar"), ""));
    assert_eq!(
        rsx_bracketed_string_characters(r#"{"foo'bar"}"#).unwrap(),
        (double_str("foo'bar"), "")
    );
    assert_eq!(
        rsx_bracketed_string_characters(r#"{'foo"bar'}"#).unwrap(),
        (single_str(r#"foo"bar"#), "")
    );
    assert_eq!(
        rsx_bracketed_string_characters(r#"{"foo\'bar"}"#).unwrap(),
        (double_str("foo'bar"), "")
    );
    assert_eq!(
        rsx_bracketed_string_characters(r#"{'foo\"bar'}"#).unwrap(),
        (single_str(r#"foo"bar"#), "")
    );
    assert_eq!(
        rsx_bracketed_string_characters(r#"{"foo\"bar"}"#).unwrap(),
        (double_str(r#"foo"bar"#), "")
    );
    assert_eq!(
        rsx_bracketed_string_characters(r#"{'foo\'bar'}"#).unwrap(),
        (single_str("foo'bar"), "")
    );
    assert_eq!(rsx_bracketed_string_characters(r#"{"foo"bar"}"#).is_err(), true);
    assert_eq!(rsx_bracketed_string_characters(r#"{'foo'bar'}"#).is_err(), true);
}
