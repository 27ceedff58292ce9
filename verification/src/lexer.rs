//! The tokenizer: `cssparser`, reached through a handful of functions whose
//! contracts are taken on trust, and the lexemes that it hands out.

use vstd::prelude::*;
use cssparser::{BasicParseErrorKind, Parser, ParserInput, Token};
use crate::number::Number;

verus! {

/// One token as the tokenizer hands it out, in plain values.
#[derive(Debug, PartialEq, Eq)]
pub enum Lexeme {
    /// An identifier.
    Ident(String),
    /// What follows a `#`, where that is no valid identifier.
    Hash(String),
    /// What follows a `#`, where that is a valid identifier.
    IdHash(String),
    /// The inside of a quoted string.
    QuotedString(String),
    /// A bare number.
    Number(Number),
    /// A percentage; the number is the fraction, `0.5` for `50%`.
    Percentage(Number),
    /// A number with a unit; the unit is not kept.
    Dimension(Number),
    /// A comma.
    Comma,
    /// A single character that is no token of its own.
    Delim(char),
    /// Any other token, as the tokenizer prints it for debugging.
    Other(String),
}

impl Lexeme {
    /// Whether a token of a property value can be made of the lexeme: of
    /// every kind but `Other`, and of a `Delim` only where it is a slash.
    pub open spec fn supported(self) -> bool {
        match self {
            Lexeme::Other(_) => false,
            Lexeme::Delim(c) => c == '/',
            _ => true,
        }
    }

    /// The form in which a lexeme that no token can be made of is named in a
    /// message: as the tokenizer prints it for debugging. Empty for a lexeme
    /// that a token can be made of.
    pub open spec fn printed(self) -> Seq<char> {
        match self {
            Lexeme::Other(text) => text@,
            Lexeme::Delim(c) => if c == '/' {
                Seq::empty()
            } else {
                delim_debug(c)
            },
            _ => Seq::empty(),
        }
    }

    /// The form in which the lexeme is named in a message, if no token can be
    /// made of it; the empty string if one can.
    pub fn print(&self) -> (out: String)
        ensures
            out@ == self.printed(),
    {
        match self {
            Lexeme::Other(text) => text.clone(),
            Lexeme::Delim(c) => {
                if *c == '/' {
                    String::new()
                } else {
                    print_delim(*c)
                }
            },
            _ => String::new(),
        }
    }
}

impl Clone for Lexeme {
    fn clone(&self) -> (copy: Lexeme)
        ensures
            copy == *self,
    {
        match self {
            Lexeme::Ident(text) => Lexeme::Ident(text.clone()),
            Lexeme::Hash(text) => Lexeme::Hash(text.clone()),
            Lexeme::IdHash(text) => Lexeme::IdHash(text.clone()),
            Lexeme::QuotedString(text) => Lexeme::QuotedString(text.clone()),
            Lexeme::Number(value) => Lexeme::Number(*value),
            Lexeme::Percentage(unit) => Lexeme::Percentage(*unit),
            Lexeme::Dimension(value) => Lexeme::Dimension(*value),
            Lexeme::Comma => Lexeme::Comma,
            Lexeme::Delim(c) => Lexeme::Delim(*c),
            Lexeme::Other(text) => Lexeme::Other(text.clone()),
        }
    }
}

/// Why the tokenizer hands out no further token.
#[derive(Debug, PartialEq, Eq)]
pub enum LexEnd {
    /// The text is used up.
    EndOfInput,
    /// The tokenizer gave up; the text is its error, printed for debugging.
    Failure(String),
}

/// The tokens that the tokenizer finds, in their order, and how the run ends:
/// with `None` at the end of the text, or with a failure's printed form.
pub struct LexRun {
    pub lexemes: Seq<Lexeme>,
    pub failure: Option<Seq<char>>,
}

/// `cssparser::ParserInput`: the text that a parser works on. Nothing of what
/// is inside is seen here.
#[verifier::external_type_specification]
#[verifier::external_body]
pub struct ExParserInput<'i>(ParserInput<'i>);

/// `cssparser::Parser`: the tokenizer at some place in its text. Nothing of
/// what is inside is seen here.
#[verifier::external_type_specification]
#[verifier::external_body]
pub struct ExParser<'i, 't>(Parser<'i, 't>);

/// `cssparser::Token`: one token of the tokenizer. Nothing of what is inside
/// is seen here; `lexeme_of` takes it apart.
#[verifier::external_type_specification]
#[verifier::external_body]
pub struct ExToken<'a>(Token<'a>);

/// What `cssparser::Parser::next` returns, call after call, on a parser newly
/// made over `text`: the tokens between white space and comments, each as a
/// lexeme, up to the end of the text or to the tokenizer's failure.
pub uninterp spec fn lexed(text: Seq<char>) -> LexRun;

/// The text that a `cssparser::ParserInput` still holds: all of the text it
/// was made of while no parser has taken a token from it, and from then on
/// what follows the place up to which its text has been read.
pub uninterp spec fn input_rest(input: ParserInput) -> Seq<char>;

/// What `cssparser::Parser::next` is still to return on this parser, call
/// after call.
pub uninterp spec fn pending(parser: Parser) -> LexRun;

/// What a `cssparser::Token` holds, as a lexeme: the same kind and the same
/// text, character or number; for a kind that `Lexeme` does not have, the
/// form in which the token is printed for debugging.
pub uninterp spec fn token_lexeme(token: Token) -> Lexeme;

/// How `cssparser::Token::Delim(c)` is printed for debugging.
pub uninterp spec fn delim_debug(c: char) -> Seq<char>;

/// How std prints a string for debugging: between double quotes, with
/// escapes.
pub uninterp spec fn str_debug(text: Seq<char>) -> Seq<char>;

/// `cssparser::ParserInput::new`. Taken on trust: the new input holds all of
/// the text it was made of.
#[verifier::external_body]
pub(crate) fn new_input<'i>(text: &'i str) -> (input: ParserInput<'i>)
    ensures
        input_rest(input) == text@,
{
    ParserInput::new(text)
}

/// `cssparser::Parser::new`. Taken on trust: the parser stands where the input
/// stands, so that what is pending on it is what the text that the input
/// still holds is broken into.
#[verifier::external_body]
pub(crate) fn new_parser<'i, 't>(input: &'t mut ParserInput<'i>) -> (parser: Parser<'i, 't>)
    ensures
        pending(parser) == lexed(input_rest(*old(input))),
{
    Parser::new(input)
}

/// `cssparser::Parser::next`. Taken on trust: it returns the first pending
/// token, which is then no longer pending while the rest of the run stays as
/// it was; it fails only when no token is pending, and then with the way the
/// run ends. The error is handed on as an `LexEnd`: the end of the input as
/// such, any other error in the form in which `Debug` prints it.
#[verifier::external_body]
pub(crate) fn advance<'i, 't>(parser: &mut Parser<'i, 't>) -> (step: Result<Token<'i>, LexEnd>)
    ensures
        step is Ok ==> pending(*old(parser)).lexemes.len() > 0,
        step is Ok ==> token_lexeme(step->Ok_0) == pending(*old(parser)).lexemes[0],
        step is Ok ==> pending(*final(parser)).lexemes == pending(*old(parser)).lexemes.skip(1),
        step is Ok ==> pending(*final(parser)).failure == pending(*old(parser)).failure,
        step is Err ==> pending(*old(parser)).lexemes.len() == 0,
        step is Err ==> pending(*old(parser)).failure == ending(step->Err_0),
{
    match parser.next() {
        Ok(token) => Ok(token.clone()),
        Err(e) if e.kind == BasicParseErrorKind::EndOfInput => Err(LexEnd::EndOfInput),
        Err(e) => Err(LexEnd::Failure(format!("{:?}", e))),
    }
}

/// `cssparser::Token`, taken apart into a lexeme: variant for variant, each
/// text, character and number as it is, a number by the bytes of its bit
/// pattern. Of a token that `Lexeme` has no variant for, only the form in
/// which `Debug` prints it is kept. Taken on trust: the lexeme is what the
/// token holds.
#[verifier::external_body]
pub(crate) fn lexeme_of(token: &Token) -> (lexeme: Lexeme)
    ensures
        lexeme == token_lexeme(*token),
{
    match token {
        Token::Ident(v) => Lexeme::Ident(v.to_string()),
        Token::Hash(v) => Lexeme::Hash(v.to_string()),
        Token::IDHash(v) => Lexeme::IdHash(v.to_string()),
        Token::QuotedString(v) => Lexeme::QuotedString(v.to_string()),
        Token::Number { value, .. } => Lexeme::Number(Number(value.to_le_bytes())),
        Token::Percentage { unit_value, .. } => Lexeme::Percentage(Number(unit_value.to_le_bytes())),
        Token::Dimension { value, .. } => Lexeme::Dimension(Number(value.to_le_bytes())),
        Token::Comma => Lexeme::Comma,
        Token::Delim(c) => Lexeme::Delim(*c),
        other => Lexeme::Other(format!("{:?}", other)),
    }
}

/// The failure that an end stands for in a run.
pub open spec fn ending(end: LexEnd) -> Option<Seq<char>> {
    match end {
        LexEnd::EndOfInput => None,
        LexEnd::Failure(text) => Some(text@),
    }
}

/// `Debug` of `cssparser::Token`, for `Token::Delim(c)`. Taken on trust: the
/// text depends on `c` alone.
#[verifier::external_body]
pub(crate) fn print_delim(c: char) -> (out: String)
    ensures
        out@ == delim_debug(c),
{
    format!("{:?}", Token::Delim(c))
}

/// `Debug` of `str`. Taken on trust: the text depends on the characters
/// alone.
#[verifier::external_body]
pub(crate) fn print_str(text: &str) -> (out: String)
    ensures
        out@ == str_debug(text@),
{
    format!("{:?}", text)
}

} // verus!
