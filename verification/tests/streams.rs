use style_property::{
    parse_style_propery_value, Number, StyleProperty, StylePropertyToken,
};

fn percent(n: Number) -> Number {
    Number((f32::from_le_bytes(n.0) * 100.0).to_le_bytes())
}

fn num(x: f32) -> Number {
    Number(x.to_le_bytes())
}

fn ident(s: &str) -> StylePropertyToken {
    StylePropertyToken::Identifier(String::from(s))
}

fn parse(text: &str) -> StyleProperty {
    parse_style_propery_value(text, &percent).unwrap()
}

#[test]
fn single_passes_over_commas() {
    let p = parse("a,b,c");
    let mut s = p.as_stream();
    assert_eq!(s.single(), Some(&[ident("a")][..]));
    assert_eq!(s.single(), Some(&[ident("b")][..]));
    assert_eq!(s.single(), Some(&[ident("c")][..]));
    assert_eq!(s.single(), None);
    assert_eq!(s.single(), None);
}

#[test]
fn single_without_delimiters() {
    let p = parse("1px 2px");
    let mut s = p.as_stream();
    assert_eq!(s.single(), Some(&[StylePropertyToken::Dimension(num(1.0))][..]));
    assert_eq!(s.single(), Some(&[StylePropertyToken::Dimension(num(2.0))][..]));
    assert_eq!(s.single(), None);
}

#[test]
fn single_passes_over_one_delimiter_only() {
    let p = parse("a,,b");
    let mut s = p.as_stream();
    assert_eq!(s.single(), Some(&[ident("a")][..]));
    assert_eq!(s.single(), Some(&[StylePropertyToken::Comma][..]));
    assert_eq!(s.single(), Some(&[ident("b")][..]));
    assert_eq!(s.single(), None);
}

#[test]
fn single_hands_out_a_leading_delimiter() {
    let p = parse(",a");
    let mut s = p.as_stream();
    assert_eq!(s.single(), Some(&[StylePropertyToken::Comma][..]));
    assert_eq!(s.single(), Some(&[ident("a")][..]));
    assert_eq!(s.single(), None);
}

#[test]
fn single_passes_over_a_trailing_delimiter() {
    let p = parse("a,");
    let mut s = p.as_stream();
    assert_eq!(s.single(), Some(&[ident("a")][..]));
    assert_eq!(s.single(), None);
}

#[test]
fn compound_splits_at_the_slash() {
    let p = parse("10px/1.4 sans");
    let mut s = p.as_stream();
    assert_eq!(s.compound(), Some(&[StylePropertyToken::Dimension(num(10.0))][..]));
    assert_eq!(
        s.compound(),
        Some(&[StylePropertyToken::Number(num(1.4)), ident("sans")][..])
    );
    assert_eq!(s.compound(), None);
    assert_eq!(s.compound(), None);
}

#[test]
fn compound_without_delimiter_takes_all() {
    let p = parse("1px 2px 3px");
    let mut s = p.as_stream();
    assert_eq!(
        s.compound(),
        Some(
            &[
                StylePropertyToken::Dimension(num(1.0)),
                StylePropertyToken::Dimension(num(2.0)),
                StylePropertyToken::Dimension(num(3.0)),
            ][..]
        )
    );
    assert_eq!(s.compound(), None);
}

#[test]
fn compound_groups_between_commas() {
    let p = parse("a b, c, d e f");
    let mut s = p.as_stream();
    assert_eq!(s.compound(), Some(&[ident("a"), ident("b")][..]));
    assert_eq!(s.compound(), Some(&[ident("c")][..]));
    assert_eq!(s.compound(), Some(&[ident("d"), ident("e"), ident("f")][..]));
    assert_eq!(s.compound(), None);
}

#[test]
fn compound_keeps_a_delimiter_at_the_cursor() {
    let p = parse(", a");
    let mut s = p.as_stream();
    assert_eq!(s.compound(), Some(&[StylePropertyToken::Comma, ident("a")][..]));
    assert_eq!(s.compound(), None);

    let q = parse("a,,b");
    let mut t = q.as_stream();
    assert_eq!(t.compound(), Some(&[ident("a")][..]));
    assert_eq!(t.compound(), Some(&[StylePropertyToken::Comma, ident("b")][..]));
    assert_eq!(t.compound(), None);
}

#[test]
fn compound_passes_over_a_trailing_delimiter() {
    let p = parse("a b /");
    let mut s = p.as_stream();
    assert_eq!(s.compound(), Some(&[ident("a"), ident("b")][..]));
    assert_eq!(s.compound(), None);
}

#[test]
fn single_and_compound_share_the_cursor() {
    let p = parse("a, b c / d");
    let mut s = p.as_stream();
    assert_eq!(s.single(), Some(&[ident("a")][..]));
    assert_eq!(s.compound(), Some(&[ident("b"), ident("c")][..]));
    assert_eq!(s.single(), Some(&[ident("d")][..]));
    assert_eq!(s.compound(), None);
    assert_eq!(s.single(), None);
}

#[test]
fn empty_stream() {
    let p = parse("");
    let mut s = p.as_stream();
    assert_eq!(s.single(), None);
    assert_eq!(s.compound(), None);
}

#[test]
fn a_new_stream_starts_over() {
    let p = parse("a,b");
    let mut s = p.as_stream();
    assert_eq!(s.single(), Some(&[ident("a")][..]));
    let mut t = p.as_stream();
    assert_eq!(t.single(), Some(&[ident("a")][..]));
    assert_eq!(s.single(), Some(&[ident("b")][..]));
}
