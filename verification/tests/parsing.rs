use style_property::{
    parse_style_propery_value, ElementsError, Number, StyleProperty, StylePropertyMethods,
    StylePropertyToken,
};

fn show(n: Number) -> String {
    format!("{}", f32::from_le_bytes(n.0))
}

fn percent(n: Number) -> Number {
    Number((f32::from_le_bytes(n.0) * 100.0).to_le_bytes())
}

fn num(x: f32) -> Number {
    Number(x.to_le_bytes())
}

fn ident(s: &str) -> StylePropertyToken {
    StylePropertyToken::Identifier(String::from(s))
}

fn parse(text: &str) -> Result<StyleProperty, ElementsError> {
    parse_style_propery_value(text, &percent)
}

fn tokens(text: &str) -> Vec<StylePropertyToken> {
    parse(text).unwrap().as_slice().to_vec()
}

fn message(text: &str) -> String {
    match parse(text) {
        Ok(_) => panic!("parsed"),
        Err(ElementsError::InvalidPropertyValue(m)) => m,
    }
}

#[test]
fn parse_dimension() {
    assert_eq!(tokens("10px"), vec![StylePropertyToken::Dimension(num(10.0))]);
}

#[test]
fn parse_percentage() {
    assert_eq!(tokens("50%"), vec![StylePropertyToken::Percentage(num(50.0))]);
    assert_eq!(tokens("100%"), vec![StylePropertyToken::Percentage(num(100.0))]);
    assert_eq!(tokens("25%"), vec![StylePropertyToken::Percentage(num(25.0))]);
    assert_eq!(
        tokens("73.23%"),
        vec![StylePropertyToken::Percentage(num((73.23f64 / 100.0) as f32 * 100.0))]
    );
}

#[test]
fn parse_number() {
    assert_eq!(tokens("3"), vec![StylePropertyToken::Number(num(3.0))]);
    assert_eq!(tokens("31.1"), vec![StylePropertyToken::Number(num(31.1))]);
    assert_eq!(tokens("-4"), vec![StylePropertyToken::Number(num(-4.0))]);
    assert_eq!(tokens("1.5e2"), vec![StylePropertyToken::Number(num(150.0))]);
}

#[test]
fn parse_units_are_not_kept() {
    assert_eq!(tokens("35em"), vec![StylePropertyToken::Dimension(num(35.0))]);
    assert_eq!(tokens("-1.5rem"), vec![StylePropertyToken::Dimension(num(-1.5))]);
    assert_eq!(tokens("35em"), tokens("35px"));
}

#[test]
fn parse_identifier() {
    assert_eq!(tokens("none"), vec![ident("none")]);
    assert_eq!(tokens("sans-serif"), vec![ident("sans-serif")]);
}

#[test]
fn parse_hash() {
    assert_eq!(tokens("#FF0000"), vec![StylePropertyToken::Hash(String::from("FF0000"))]);
    assert_eq!(tokens("#001122"), vec![StylePropertyToken::Hash(String::from("001122"))]);
}

#[test]
fn parse_quoted_string() {
    assert_eq!(
        tokens("\"some value\""),
        vec![StylePropertyToken::String(String::from("some value"))]
    );
    assert_eq!(tokens("'x'"), vec![StylePropertyToken::String(String::from("x"))]);
}

#[test]
fn parse_delimiters() {
    assert_eq!(
        tokens("a,b,c"),
        vec![
            ident("a"),
            StylePropertyToken::Comma,
            ident("b"),
            StylePropertyToken::Comma,
            ident("c"),
        ]
    );
    assert_eq!(
        tokens("10px/1.4 sans"),
        vec![
            StylePropertyToken::Dimension(num(10.0)),
            StylePropertyToken::Slash,
            StylePropertyToken::Number(num(1.4)),
            ident("sans"),
        ]
    );
}

#[test]
fn parse_keeps_the_order() {
    assert_eq!(
        tokens("10px 2px 0 auto"),
        vec![
            StylePropertyToken::Dimension(num(10.0)),
            StylePropertyToken::Dimension(num(2.0)),
            StylePropertyToken::Number(num(0.0)),
            ident("auto"),
        ]
    );
    assert_eq!(
        tokens("1px 1px"),
        vec![StylePropertyToken::Dimension(num(1.0)), StylePropertyToken::Dimension(num(1.0))]
    );
}

#[test]
fn parse_skips_white_space_and_comments() {
    assert_eq!(tokens(""), vec![]);
    assert_eq!(tokens("   "), vec![]);
    assert_eq!(tokens("/* nothing */"), vec![]);
    assert_eq!(
        tokens("  1px /* gap */ 2px\n"),
        vec![StylePropertyToken::Dimension(num(1.0)), StylePropertyToken::Dimension(num(2.0))]
    );
}

#[test]
fn parse_rejects_a_single_character_that_is_no_slash() {
    assert_eq!(
        message("10px ! 3"),
        "Can't parse `10px ! 3` (invalid token `Delim('!')`: \"Invalid token: Delim('!')\""
    );
}

#[test]
fn parse_rejects_other_tokens() {
    assert_eq!(
        message("a:b"),
        "Can't parse `a:b` (invalid token `Colon`: \"Invalid token: Colon\""
    );
    assert_eq!(
        message("rgb(1, 2, 3)"),
        "Can't parse `rgb(1, 2, 3)` (invalid token `Function(\"rgb\")`: \"Invalid token: Function(\\\"rgb\\\")\""
    );
    assert_eq!(
        message("1px;"),
        "Can't parse `1px;` (invalid token `Semicolon`: \"Invalid token: Semicolon\""
    );
    assert_eq!(
        message(")"),
        "Can't parse `)` (invalid token `CloseParenthesis`: \"Invalid token: CloseParenthesis\""
    );
}

#[test]
fn parse_stops_at_the_first_token_it_rejects() {
    assert_eq!(
        message("a : ; !"),
        "Can't parse `a : ; !` (invalid token `Colon`: \"Invalid token: Colon\""
    );
}

#[test]
fn parsed_property_copies_and_compares() {
    let a = parse("1px solid").unwrap();
    let b = a.clone();
    assert_eq!(a, b);
    assert_eq!(b.as_slice(), &[StylePropertyToken::Dimension(num(1.0)), ident("solid")]);
    assert_ne!(a, parse("1px").unwrap());
    assert_eq!(StyleProperty::default(), parse("").unwrap());
    assert_eq!(StyleProperty::default().as_slice().len(), 0);
}

#[test]
fn long_values_are_kept_whole() {
    let p = parse("1 2 3 4 5 6 7 8 9 10 11 12").unwrap();
    assert_eq!(p.as_slice().len(), 12);
    for (i, token) in p.as_slice().iter().enumerate() {
        assert_eq!(*token, StylePropertyToken::Number(num((i + 1) as f32)));
    }
    assert_eq!(p.tokens().len(), 12);
}

#[test]
fn text_of_a_parsed_value_parses_to_the_same_tokens() {
    for text in ["10px", "50%", "3.5", "-0.25", "auto", "#FF0000", "\"hi there\"", "/", ","] {
        let first = parse(text).unwrap();
        let again = parse(&first.to_string(&show)).unwrap();
        assert_eq!(first, again);
    }
}

#[test]
fn text_runs_neighbours_together() {
    let first = parse("1px 2px").unwrap();
    assert_eq!(first.as_slice().len(), 2);
    assert_eq!(first.to_string(&show), "1px2px");
    let again = parse("1px2px").unwrap();
    assert_eq!(again.as_slice(), &[StylePropertyToken::Dimension(num(1.0))]);
}

#[test]
fn text_of_a_parsed_value() {
    assert_eq!(parse("10em").unwrap().to_string(&show), "10px");
    assert_eq!(parse("1.50").unwrap().to_string(&show), "1.5");
    assert_eq!(parse("a , b").unwrap().to_string(&show), "a,b");
    assert_eq!(parse("10px/1.4 sans").unwrap().to_string(&show), "10px/1.4sans");
    assert_eq!(parse("").unwrap().to_string(&show), "");
}
