//! Tokens: what they are made of, how they are printed, what they stand for.

use vstd::prelude::*;
use vstd::utf8::{encode_utf8, encode_utf8_decode_utf8};
use crate::error::ElementsError;
use crate::length::Length;
use crate::lexer::Lexeme;
use crate::number::Number;

verus! {

/// One token of a property value.
#[derive(Debug, PartialEq, PartialOrd, Eq, Hash)]
pub enum StylePropertyToken {
    /// A percentage such as `100%` or `73.23%`; the value is the number as
    /// written, not the fraction.
    Percentage(Number),
    /// A number with a unit, such as `10px` or `35em`. The unit is not kept.
    Dimension(Number),
    /// A bare number, such as `31.1` or `43`.
    Number(Number),
    /// A plain identifier, such as `none` or `center`.
    Identifier(String),
    /// What follows a `#`, such as `001122` in `#001122`.
    Hash(String),
    /// The inside of a quoted string.
    String(String),
    /// The delimiter `/`.
    Slash,
    /// The delimiter `,`.
    Comma,
}

/// The word `auto`.
pub open spec fn word_auto() -> Seq<char> {
    seq!['a', 'u', 't', 'o']
}

/// The word `undefined`.
pub open spec fn word_undefined() -> Seq<char> {
    seq!['u', 'n', 'd', 'e', 'f', 'i', 'n', 'e', 'd']
}

/// The word `none`.
pub open spec fn word_none() -> Seq<char> {
    seq!['n', 'o', 'n', 'e']
}

/// Whether `text` reads `word`: whether the two hold the same characters.
pub fn reads(text: &str, word: &str) -> (r: bool)
    ensures
        r == (text@ == word@),
{
    let a = text.as_bytes();
    let b = word.as_bytes();
    proof {
        encode_utf8_decode_utf8(text@);
        encode_utf8_decode_utf8(word@);
    }
    if a.len() != b.len() {
        return false;
    }
    let mut i: usize = 0;
    while i < a.len()
        invariant
            i <= a.len(),
            a.len() == b.len(),
            a@ == encode_utf8(text@),
            b@ == encode_utf8(word@),
            forall|k: int| 0 <= k < i ==> a@[k] == b@[k],
        decreases a.len() - i,
    {
        if a[i] != b[i] {
            return false;
        }
        i = i + 1;
    }
    assert(a@ =~= b@);
    true
}

impl Clone for StylePropertyToken {
    fn clone(&self) -> (copy: StylePropertyToken)
        ensures
            copy == *self,
    {
        match self {
            StylePropertyToken::Percentage(v) => StylePropertyToken::Percentage(*v),
            StylePropertyToken::Dimension(v) => StylePropertyToken::Dimension(*v),
            StylePropertyToken::Number(v) => StylePropertyToken::Number(*v),
            StylePropertyToken::Identifier(text) => StylePropertyToken::Identifier(text.clone()),
            StylePropertyToken::Hash(text) => StylePropertyToken::Hash(text.clone()),
            StylePropertyToken::String(text) => StylePropertyToken::String(text.clone()),
            StylePropertyToken::Slash => StylePropertyToken::Slash,
            StylePropertyToken::Comma => StylePropertyToken::Comma,
        }
    }
}

impl StylePropertyToken {
    /// Whether the token separates groups of values.
    pub open spec fn delimiter(self) -> bool {
        self is Slash || self is Comma
    }

    /// Whether the token separates groups of values: true of a slash and of a
    /// comma.
    pub fn is_delimiter(&self) -> (r: bool)
        ensures
            r == self.delimiter(),
    {
        match self {
            StylePropertyToken::Slash | StylePropertyToken::Comma => true,
            _ => false,
        }
    }

    /// The number that the token carries, if it is a percentage, a dimension
    /// or a bare number.
    pub open spec fn value(self) -> Option<Number> {
        match self {
            StylePropertyToken::Percentage(v) => Some(v),
            StylePropertyToken::Dimension(v) => Some(v),
            StylePropertyToken::Number(v) => Some(v),
            _ => None,
        }
    }

    /// The text of the token, where `digits` is the text of the number it
    /// carries: a percentage ends in `%`, a dimension in `px`, a hash starts
    /// with `#`, a string stands between double quotes.
    pub open spec fn text_with(self, digits: Seq<char>) -> Seq<char> {
        match self {
            StylePropertyToken::Percentage(_) => digits + seq!['%'],
            StylePropertyToken::Dimension(_) => digits + seq!['p', 'x'],
            StylePropertyToken::Number(_) => digits,
            StylePropertyToken::Identifier(s) => s@,
            StylePropertyToken::Hash(s) => seq!['#'] + s@,
            StylePropertyToken::String(s) => seq!['"'] + s@ + seq!['"'],
            StylePropertyToken::Slash => seq!['/'],
            StylePropertyToken::Comma => seq![','],
        }
    }

    /// Whether `out` is a text of the token when numbers are printed by
    /// `show`: the text built on some output of `show` for the token's number,
    /// or, for a token without a number, its one text.
    pub open spec fn renders<S: Fn(Number) -> String>(self, show: &S, out: Seq<char>) -> bool {
        match self.value() {
            Some(v) => exists|d: String| #[trigger] call_ensures(show, (v,), d) && out == self.text_with(d@),
            None => out == self.text_with(Seq::empty()),
        }
    }

    /// The text of the token around the already printed `digits` of its
    /// number. A token without a number ignores `digits`.
    pub fn text_of(&self, digits: &str) -> (out: String)
        ensures
            out@ == self.text_with(digits@),
    {
        proof {
            reveal_strlit("%");
            reveal_strlit("px");
            reveal_strlit("#");
            reveal_strlit("\"");
            reveal_strlit("/");
            reveal_strlit(",");
        }
        match self {
            StylePropertyToken::Percentage(_) => {
                let mut out = String::from_str(digits);
                out.append("%");
                assert(out@ =~= digits@ + seq!['%']);
                out
            },
            StylePropertyToken::Dimension(_) => {
                let mut out = String::from_str(digits);
                out.append("px");
                assert(out@ =~= digits@ + seq!['p', 'x']);
                out
            },
            StylePropertyToken::Number(_) => String::from_str(digits),
            StylePropertyToken::Identifier(s) => s.clone(),
            StylePropertyToken::Hash(s) => {
                let mut out = String::from_str("#");
                out.append(s.as_str());
                assert(out@ =~= seq!['#'] + s@);
                out
            },
            StylePropertyToken::String(s) => {
                let mut out = String::from_str("\"");
                out.append(s.as_str());
                out.append("\"");
                assert(out@ =~= seq!['"'] + s@ + seq!['"']);
                out
            },
            StylePropertyToken::Slash => {
                let out = String::from_str("/");
                assert(out@ =~= seq!['/']);
                out
            },
            StylePropertyToken::Comma => {
                let out = String::from_str(",");
                assert(out@ =~= seq![',']);
                out
            },
        }
    }

    /// The text of the token, with its number printed by `show`.
    pub fn to_string<S: Fn(Number) -> String>(&self, show: &S) -> (out: String)
        requires
            forall|n: Number| call_requires(show, (n,)),
        ensures
            self.renders(show, out@),
    {
        match self {
            StylePropertyToken::Percentage(v) => self.numeric_text(*v, show),
            StylePropertyToken::Dimension(v) => self.numeric_text(*v, show),
            StylePropertyToken::Number(v) => self.numeric_text(*v, show),
            _ => self.text_of(""),
        }
    }

    /// The length that the token stands for: a percentage for so many
    /// hundredths, a dimension for so many pixels, the identifiers `auto` and
    /// `undefined` for the lengths of these names. No other token is a length.
    pub open spec fn length(self) -> Option<Length> {
        match self {
            StylePropertyToken::Percentage(p) => Some(Length::Percent(p)),
            StylePropertyToken::Dimension(d) => Some(Length::Px(d)),
            StylePropertyToken::Identifier(i) => if i@ == word_auto() {
                Some(Length::Auto)
            } else if i@ == word_undefined() {
                Some(Length::Undefined)
            } else {
                None
            },
            _ => None,
        }
    }

    /// The length that the token stands for, or an error that names the
    /// token.
    pub fn val<S: Fn(Number) -> String>(&self, show: &S) -> (r: Result<Length, ElementsError>)
        requires
            forall|n: Number| call_requires(show, (n,)),
        ensures
            match self.length() {
                Some(length) => r == Ok::<Length, ElementsError>(length),
                None => r is Err && r->Err_0.quotes("Can't treat `"@, *self, "` as size value"@, show),
            },
    {
        proof {
            reveal_strlit("auto");
            reveal_strlit("undefined");
            assert("auto"@ =~= word_auto());
            assert("undefined"@ =~= word_undefined());
        }
        match self {
            StylePropertyToken::Percentage(p) => Ok(Length::Percent(*p)),
            StylePropertyToken::Dimension(d) => Ok(Length::Px(*d)),
            StylePropertyToken::Identifier(i) => {
                if reads(i.as_str(), "auto") {
                    Ok(Length::Auto)
                } else if reads(i.as_str(), "undefined") {
                    Ok(Length::Undefined)
                } else {
                    Err(ElementsError::quoting("Can't treat `", self, "` as size value", show))
                }
            },
            _ => Err(ElementsError::quoting("Can't treat `", self, "` as size value", show)),
        }
    }

    /// Whether the token is one that is made of `lexeme`, where `scale`
    /// turns the fraction of a percentage into the number as written. Both
    /// kinds of hash give a hash, a slash gives the slash; of another single
    /// character, and of a lexeme of another kind, no token is made.
    pub open spec fn made_of<P: Fn(Number) -> Number>(self, lexeme: Lexeme, scale: &P) -> bool {
        match lexeme {
            Lexeme::Ident(text) => self == StylePropertyToken::Identifier(text),
            Lexeme::Hash(text) => self == StylePropertyToken::Hash(text),
            Lexeme::IdHash(text) => self == StylePropertyToken::Hash(text),
            Lexeme::QuotedString(text) => self == StylePropertyToken::String(text),
            Lexeme::Number(value) => self == StylePropertyToken::Number(value),
            Lexeme::Percentage(unit) => exists|value: Number| #[trigger]
                call_ensures(scale, (unit,), value) && self == StylePropertyToken::Percentage(value),
            Lexeme::Dimension(value) => self == StylePropertyToken::Dimension(value),
            Lexeme::Comma => self == StylePropertyToken::Comma,
            Lexeme::Delim(c) => c == '/' && self == StylePropertyToken::Slash,
            Lexeme::Other(_) => false,
        }
    }

    /// The token made of `lexeme`, or a message that names the lexeme where
    /// no token is made of it.
    pub fn try_from<P: Fn(Number) -> Number>(lexeme: Lexeme, scale: &P) -> (r: Result<
        StylePropertyToken,
        String,
    >)
        requires
            forall|n: Number| call_requires(scale, (n,)),
        ensures
            match r {
                Ok(token) => lexeme.supported() && token.made_of(lexeme, scale),
                Err(e) => !lexeme.supported() && e@ == "Invalid token: "@ + lexeme.printed(),
            },
    {
        match lexeme {
            Lexeme::Ident(text) => Ok(StylePropertyToken::Identifier(text)),
            Lexeme::Hash(text) => Ok(StylePropertyToken::Hash(text)),
            Lexeme::IdHash(text) => Ok(StylePropertyToken::Hash(text)),
            Lexeme::QuotedString(text) => Ok(StylePropertyToken::String(text)),
            Lexeme::Number(value) => Ok(StylePropertyToken::Number(value)),
            Lexeme::Percentage(unit) => {
                let value = scale(unit);
                assert(call_ensures(scale, (unit,), value));
                Ok(StylePropertyToken::Percentage(value))
            },
            Lexeme::Dimension(value) => Ok(StylePropertyToken::Dimension(value)),
            Lexeme::Comma => Ok(StylePropertyToken::Comma),
            Lexeme::Delim(c) => {
                if c == '/' {
                    Ok(StylePropertyToken::Slash)
                } else {
                    Err(Self::invalid(&lexeme))
                }
            },
            Lexeme::Other(_) => Err(Self::invalid(&lexeme)),
        }
    }

    fn invalid(lexeme: &Lexeme) -> (e: String)
        ensures
            e@ == "Invalid token: "@ + lexeme.printed(),
    {
        let mut message = String::from_str("Invalid token: ");
        let printed = lexeme.print();
        message.append(printed.as_str());
        message
    }

    fn numeric_text<S: Fn(Number) -> String>(&self, v: Number, show: &S) -> (out: String)
        requires
            self.value() == Some(v),
            call_requires(show, (v,)),
        ensures
            self.renders(show, out@),
    {
        let digits = show(v);
        assert(call_ensures(show, (self.value()->Some_0,), digits));
        self.text_of(digits.as_str())
    }
}

/// Where `show` prints a number in one way only, a token has one text only:
/// the text around those digits.
pub proof fn lemma_one_text<S: Fn(Number) -> String>(
    token: StylePropertyToken,
    show: &S,
    digits: Seq<char>,
    out: Seq<char>,
)
    requires
        token.value() is Some ==> forall|d: String| #[trigger]
            call_ensures(show, (token.value()->Some_0,), d) ==> d@ == digits,
        token.renders(show, out),
    ensures
        out == token.text_with(digits),
{
}

} // verus!
