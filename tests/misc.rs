use rsx_parser::{
    close_tag, closing_element_open_tag, escaped_character, exp, float_exp, float_simple, frac,
    identifier_non_alpha_numeric, integer, open_tag, rs_char, rs_comment, rs_string,
    rs_whitespace, self_closing_element_close_tag, sign, JSNumber,
};

fn value_of(n: &JSNumber) -> f64 {
    n.0.parse::<f64>().unwrap()
}

#[test]
fn test_open_tag() {
    assert_eq!(open_tag("").is_err(), true);
    assert_eq!(open_tag("foo").is_err(), true);
    assert_eq!(open_tag("<").unwrap(), ((), ""));
    assert_eq!(open_tag("foo<").is_err(), true);
}

#[test]
fn test_close_tag() {
    assert_eq!(close_tag("").is_err(), true);
    assert_eq!(close_tag("foo").is_err(), true);
    assert_eq!(close_tag(">").unwrap(), ((), ""));
    assert_eq!(close_tag("foo>").is_err(), true);
}

#[test]
fn test_closing_element_open_tag() {
    assert_eq!(closing_element_open_tag("").is_err(), true);
    assert_eq!(closing_element_open_tag("foo").is_err(), true);
    assert_eq!(closing_element_open_tag("</").unwrap(), ((), ""));
    assert_eq!(closing_element_open_tag("foo</").is_err(), true);
}

#[test]
fn test_self_closing_element_close_tag() {
    assert_eq!(self_closing_element_close_tag("").is_err(), true);
    assert_eq!(self_closing_element_close_tag("foo").is_err(), true);
    assert_eq!(self_closing_element_close_tag("/>").unwrap(), ((), ""));
    assert_eq!(self_closing_element_close_tag("foo/>").is_err(), true);
}

#[test]
fn test_sign() {
    assert_eq!(sign("").is_err(), true);
    assert_eq!(sign(" ").is_err(), true);
    assert_eq!(sign("+").unwrap(), ('+', ""));
    assert_eq!(sign("-").unwrap(), ('-', ""));
    assert_eq!(sign("a").is_err(), true);
}

#[test]
fn test_frac() {
    assert_eq!(frac("").is_err(), true);
    assert_eq!(frac(" ").is_err(), true);
    assert_eq!(frac("1234").is_err(), true);
    assert_eq!(frac(".1234").unwrap(), (1234, ""));
    assert_eq!(frac("a").is_err(), true);
}

#[test]
fn test_exp() {
    assert_eq!(exp("").is_err(), true);
    assert_eq!(exp(" ").is_err(), true);
    assert_eq!(exp("1234").is_err(), true);
    assert_eq!(exp("e1234").unwrap(), (1234, ""));
    assert_eq!(exp("e+1234").unwrap(), (1234, ""));
    assert_eq!(exp("e-1234").unwrap(), (-1234, ""));
    assert_eq!(exp("a").is_err(), true);
}

#[test]
fn test_integer() {
    assert_eq!(integer("").is_err(), true);
    assert_eq!(integer(" ").is_err(), true);
    assert_eq!(integer("1").unwrap(), (1i64, ""));
    assert_eq!(integer("1.2").unwrap(), (1i64, ".2"));
    assert_eq!(integer("1e3").unwrap(), (1i64, "e3"));
    assert_eq!(integer("1.2e3").unwrap(), (1i64, ".2e3"));
    assert_eq!(integer("+1").unwrap(), (1i64, ""));
    assert_eq!(integer("-1").unwrap(), (-1i64, ""));
}

#[test]
fn test_float_simple() {
    assert_eq!(float_simple("").is_err(), true);
    assert_eq!(float_simple(" ").is_err(), true);
    assert_eq!(float_simple("1").is_err(), true);
    let (n, rest) = float_simple("1.2").unwrap();
    assert_eq!((value_of(&n), rest), (1.2f64, ""));
    assert_eq!(float_simple("1e3").is_err(), true);
    let (n, rest) = float_simple("1.2e3").unwrap();
    assert_eq!((value_of(&n), rest), (1.2f64, "e3"));
    let (n, rest) = float_simple("+1.2").unwrap();
    assert_eq!((value_of(&n), rest), (1.2f64, ""));
    let (n, rest) = float_simple("-1.2").unwrap();
    assert_eq!((value_of(&n), rest), (-1.2f64, ""));
}

#[test]
fn test_float_exp() {
    assert_eq!(float_exp("").is_err(), true);
    assert_eq!(float_exp(" ").is_err(), true);
    assert_eq!(float_exp("1").is_err(), true);
    assert_eq!(float_exp("1.2").is_err(), true);
    let (n, rest) = float_exp("1e3").unwrap();
    assert_eq!((value_of(&n), rest), (1e3f64, ""));
    let (n, rest) = float_exp("1.2e3").unwrap();
    assert_eq!((value_of(&n), rest), (1.2e3f64, ""));
    let (n, rest) = float_exp("+1.2e3").unwrap();
    assert_eq!((value_of(&n), rest), (1.2e3f64, ""));
    let (n, rest) = float_exp("-1.2e3").unwrap();
    assert_eq!((value_of(&n), rest), (-1.2e3f64, ""));
}

#[test]
fn test_identifier_non_alpha_numeric() {
    assert_eq!(identifier_non_alpha_numeric("").is_err(), true);
    assert_eq!(identifier_non_alpha_numeric(" ").is_err(), true);
    assert_eq!(identifier_non_alpha_numeric("_").unwrap(), ('_', ""));
    assert_eq!(identifier_non_alpha_numeric("$").unwrap(), ('$', ""));
    assert_eq!(identifier_non_alpha_numeric("a").is_err(), true);
    assert_eq!(identifier_non_alpha_numeric("0").is_err(), true);
}

#[test]
fn test_escaped_character() {
    assert_eq!(escaped_character("").is_err(), true);
    assert_eq!(escaped_character(" ").is_err(), true);
    assert_eq!(escaped_character(r#"\""#).unwrap(), ('"', ""));
    assert_eq!(escaped_character(r#"\'"#).unwrap(), ('\'', ""));
    assert_eq!(escaped_character(r#"""#).is_err(), true);
    assert_eq!(escaped_character(r#"'"#).is_err(), true);
}

#[test]
fn escapes_map_to_control_characters() {
    assert_eq!(escaped_character("\\n").unwrap(), ('\n', ""));
    assert_eq!(escaped_character("\\t").unwrap(), ('\t', ""));
    assert_eq!(escaped_character("\\v").unwrap(), ('\u{b}', ""));
    assert_eq!(escaped_character("\\0rest").unwrap(), ('\0', "rest"));
    assert_eq!(escaped_character("\\q").is_err(), true);
}

#[test]
fn integer_too_large_is_an_error() {
    assert_eq!(integer("9223372036854775807").unwrap(), (i64::MAX, ""));
    assert_eq!(integer("9223372036854775808").is_err(), true);
    assert_eq!(integer("-9223372036854775808").unwrap(), (i64::MIN, ""));
    assert_eq!(integer("-9223372036854775809").is_err(), true);
    assert_eq!(exp("e-9223372036854775808").unwrap(), (i64::MIN, ""));
}

#[test]
fn host_literals_and_comments() {
    assert_eq!(rs_char("'a'x").unwrap(), ('a', "x"));
    assert_eq!(rs_char("'\\n'").unwrap(), ('\n', ""));
    assert_eq!(rs_char("'ab'").is_err(), true);
    assert_eq!(rs_string("\"a\\\"b\" c").unwrap(), ("a\"b".to_string(), " c"));
    assert_eq!(rs_string("\"open").is_err(), true);
    assert_eq!(rs_comment("/* a */b").unwrap(), ((), "b"));
    assert_eq!(rs_comment("// a\nb").unwrap(), ((), "\nb"));
    assert_eq!(rs_comment("/* open").is_err(), true);
    assert_eq!(rs_whitespace("  /* c */ // d\n x").unwrap(), ((), "x"));
    assert_eq!(rs_whitespace("x").unwrap(), ((), "x"));
}
