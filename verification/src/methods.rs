//! Reading a run of tokens as a string, a rectangle, a colour, an identifier,
//! a length or a number.

use vstd::prelude::*;
use crate::error::ElementsError;
use crate::length::{Length, Rect};
use crate::number::Number;
use crate::property::StyleProperty;
use crate::rect_map::{RectMap, ToRectMap};
use crate::token::{reads, word_none, StylePropertyToken};

verus! {

/// Whether `out` is a text of `tokens` when numbers are printed by `show`:
/// one text for each token, one after the other with nothing in between.
pub open spec fn renders_all<S: Fn(Number) -> String>(
    tokens: Seq<StylePropertyToken>,
    show: &S,
    out: Seq<char>,
) -> bool {
    exists|parts: Seq<Seq<char>>|
        {
            &&& parts.len() == tokens.len()
            &&& forall|i: int| 0 <= i < parts.len() ==> tokens[i].renders(show, #[trigger] parts[i])
            &&& out == #[trigger] parts.flatten()
        }
}

/// The rectangle that a run of tokens stands for, where it stands for one.
///
/// One length is the length of all four edges. Of two, the first is top and
/// bottom, the second left and right. Of three, the first is the top, the
/// second left and right, the third the bottom. Four are top, right, bottom
/// and left, in this order. No other number of tokens makes a rectangle, and
/// none does where one of the tokens is no length.
pub open spec fn rect_of(tokens: Seq<StylePropertyToken>) -> Option<Rect> {
    if !(1 <= tokens.len() <= 4) || !all_lengths(tokens, tokens.len() as int) {
        None
    } else if tokens.len() == 1 {
        let all = tokens[0].length()->Some_0;
        Some(Rect { left: all, right: all, top: all, bottom: all })
    } else if tokens.len() == 2 {
        let top_bottom = tokens[0].length()->Some_0;
        let left_right = tokens[1].length()->Some_0;
        Some(Rect { left: left_right, right: left_right, top: top_bottom, bottom: top_bottom })
    } else if tokens.len() == 3 {
        let top = tokens[0].length()->Some_0;
        let left_right = tokens[1].length()->Some_0;
        let bottom = tokens[2].length()->Some_0;
        Some(Rect { left: left_right, right: left_right, top, bottom })
    } else {
        let top = tokens[0].length()->Some_0;
        let right = tokens[1].length()->Some_0;
        let bottom = tokens[2].length()->Some_0;
        let left = tokens[3].length()->Some_0;
        Some(Rect { left, right, top, bottom })
    }
}

/// Whether each of the first `upto` tokens is a length.
pub open spec fn all_lengths(tokens: Seq<StylePropertyToken>, upto: int) -> bool {
    forall|j: int| 0 <= j < upto ==> (#[trigger] tokens[j]).length() is Some
}

/// Whether `e` is the error for a run of tokens that stands for no
/// rectangle: where the number of tokens is wrong, the message holds the text
/// of them all; else it names the first token that is no length.
pub open spec fn rect_error<S: Fn(Number) -> String>(
    tokens: Seq<StylePropertyToken>,
    show: &S,
    e: ElementsError,
) -> bool {
    if 1 <= tokens.len() <= 4 {
        exists|i: int|
            {
                &&& 0 <= i < tokens.len()
                &&& all_lengths(tokens, i)
                &&& (#[trigger] tokens[i]).length() is None
                &&& e.quotes("Can't treat `"@, tokens[i], "` as size value"@, show)
            }
    } else {
        exists|text: Seq<char>| #[trigger]
            renders_all(tokens, show, text) && e.message() == "Can't extract rect from `"@ + text
                + "`"@
    }
}

/// What a token gives where a number or `none` is expected: its number, or
/// nothing for the identifier `none`. No other token is taken.
pub open spec fn optional_number(token: StylePropertyToken) -> Option<Option<Number>> {
    match token {
        StylePropertyToken::Percentage(v) => Some(Some(v)),
        StylePropertyToken::Dimension(v) => Some(Some(v)),
        StylePropertyToken::Number(v) => Some(Some(v)),
        StylePropertyToken::Identifier(word) => if word@ == word_none() {
            Some(None)
        } else {
            None
        },
        _ => None,
    }
}

/// Whether the token is an identifier that is not empty.
pub open spec fn names(token: StylePropertyToken) -> bool {
    token is Identifier && token->Identifier_0@.len() > 0
}

/// The message for a colour name that the lookup does not know.
pub open spec fn unknown_color_message(name: Seq<char>) -> Seq<char> {
    "Unknown color name '"@ + name + "'"@
}

/// The colour under `name`, given what the lookup `found` for it; an error
/// that names the colour where it found none.
pub fn named_color<C>(name: &String, found: Option<C>) -> (r: Result<C, ElementsError>)
    ensures
        match found {
            Some(color) => r == Ok::<C, ElementsError>(color),
            None => r is Err && r->Err_0.message() == unknown_color_message(name@),
        },
{
    match found {
        Some(color) => Ok(color),
        None => {
            let mut message = String::from_str("Unknown color name '");
            message.append(name.as_str());
            message.append("'");
            Err(ElementsError::InvalidPropertyValue(message))
        },
    }
}

/// The operations that read a run of tokens as a typed value.
pub trait StylePropertyMethods {
    /// The tokens that are read.
    spec fn token_seq(&self) -> Seq<StylePropertyToken>;

    /// The tokens that are read.
    fn tokens(&self) -> (r: &[StylePropertyToken])
        ensures
            r@ == self.token_seq(),
    ;

    /// The texts of all the tokens, one after the other.
    fn to_string<S: Fn(Number) -> String>(&self, show: &S) -> (out: String)
        requires
            forall|n: Number| call_requires(show, (n,)),
        ensures
            renders_all(self.token_seq(), show, out@),
    {
        let tokens = self.tokens();
        let mut result = String::new();
        let ghost mut parts: Seq<Seq<char>> = Seq::empty();
        let mut i: usize = 0;
        while i < tokens.len()
            invariant
                i <= tokens.len(),
                forall|n: Number| call_requires(show, (n,)),
                parts.len() == i,
                forall|k: int| 0 <= k < parts.len() ==> tokens@[k].renders(show, #[trigger] parts[k]),
                result@ == parts.flatten(),
            decreases tokens.len() - i,
        {
            let piece = tokens[i].to_string(show);
            result.append(piece.as_str());
            proof {
                parts.lemma_flatten_push(piece@);
                parts = parts.push(piece@);
            }
            i = i + 1;
        }
        result
    }

    /// The text of a quoted string, where the first token is one.
    fn string<S: Fn(Number) -> String>(&self, show: &S) -> (r: Result<String, ElementsError>)
        requires
            forall|n: Number| call_requires(show, (n,)),
        ensures
            if self.token_seq().len() == 0 {
                r is Err && r->Err_0.message() == "Expected string literal, got nothing"@
            } else {
                match self.token_seq()[0] {
                    StylePropertyToken::String(text) => r == Ok::<String, ElementsError>(text),
                    other => r is Err && r->Err_0.quotes(
                        "Expected string literal, got "@,
                        other,
                        Seq::empty(),
                        show,
                    ),
                }
            },
    {
        let tokens = self.tokens();
        if tokens.len() == 0 {
            return Err(ElementsError::saying("Expected string literal, got nothing"));
        }
        proof {
            reveal_strlit("");
            assert(""@ =~= Seq::<char>::empty());
        }
        match &tokens[0] {
            StylePropertyToken::String(id) => Ok(id.clone()),
            e => Err(ElementsError::quoting("Expected string literal, got ", e, "", show)),
        }
    }

    /// The rectangle that the tokens stand for: see [`rect_of`].
    fn rect<S: Fn(Number) -> String>(&self, show: &S) -> (r: Result<Rect, ElementsError>)
        requires
            forall|n: Number| call_requires(show, (n,)),
        ensures
            match rect_of(self.token_seq()) {
                Some(rect) => r == Ok::<Rect, ElementsError>(rect),
                None => r is Err && rect_error(self.token_seq(), show, r->Err_0),
            },
    {
        let props = self.tokens();
        let n = props.len();
        if n == 1 {
            match props[0].val(show) {
                Ok(all) => Ok(Rect::all(all)),
                Err(e) => Err(e),
            }
        } else if n == 2 {
            let top_bottom = match props[0].val(show) {
                Ok(v) => v,
                Err(e) => { return Err(e); },
            };
            let left_right = match props[1].val(show) {
                Ok(v) => v,
                Err(e) => { return Err(e); },
            };
            Ok(Rect::new(left_right, left_right, top_bottom, top_bottom))
        } else if n == 3 {
            let top = match props[0].val(show) {
                Ok(v) => v,
                Err(e) => { return Err(e); },
            };
            let left_right = match props[1].val(show) {
                Ok(v) => v,
                Err(e) => { return Err(e); },
            };
            let bottom = match props[2].val(show) {
                Ok(v) => v,
                Err(e) => { return Err(e); },
            };
            Ok(Rect::new(left_right, left_right, top, bottom))
        } else if n == 4 {
            let top = match props[0].val(show) {
                Ok(v) => v,
                Err(e) => { return Err(e); },
            };
            let right = match props[1].val(show) {
                Ok(v) => v,
                Err(e) => { return Err(e); },
            };
            let bottom = match props[2].val(show) {
                Ok(v) => v,
                Err(e) => { return Err(e); },
            };
            let left = match props[3].val(show) {
                Ok(v) => v,
                Err(e) => { return Err(e); },
            };
            Ok(Rect::new(left, right, top, bottom))
        } else {
            let text = self.to_string(show);
            let mut message = String::from_str("Can't extract rect from `");
            message.append(text.as_str());
            message.append("`");
            Err(ElementsError::InvalidPropertyValue(message))
        }
    }

    /// The edges of the rectangle that the tokens stand for, each under its
    /// name: `<prefix>-left`, `<prefix>-right`, `<prefix>-top`,
    /// `<prefix>-bottom`.
    fn rect_map<S: Fn(Number) -> String>(&self, prefix: &str, show: &S) -> (r: Result<
        RectMap,
        ElementsError,
    >)
        requires
            forall|n: Number| call_requires(show, (n,)),
        ensures
            match rect_of(self.token_seq()) {
                Some(rect) => r is Ok && r->Ok_0@ == crate::length::named_edges(prefix@, rect),
                None => r is Err && rect_error(self.token_seq(), show, r->Err_0),
            },
    {
        match self.rect(show) {
            Ok(rect) => Ok(rect.to_rect_map(prefix)),
            Err(e) => Err(e),
        }
    }

    /// The colour that the first token stands for: an identifier is looked
    /// up by `named`, a hash is decoded by `hex`; what these return is the
    /// result, but that a name which `named` does not know is an error that
    /// says so. Another token, or none, is an error.
    fn color<C, N, H, S>(&self, named: &N, hex: &H, show: &S) -> (r: Result<C, ElementsError>) where
        N: Fn(&String) -> Option<C>,
        H: Fn(&String) -> Result<C, ElementsError>,
        S: Fn(Number) -> String,

        requires
            forall|name: &String| call_requires(named, (name,)),
            forall|digits: &String| call_requires(hex, (digits,)),
            forall|n: Number| call_requires(show, (n,)),
        ensures
            if self.token_seq().len() == 0 {
                r is Err && r->Err_0.message() == "Expected color, got nothing"@
            } else {
                match self.token_seq()[0] {
                    StylePropertyToken::Identifier(name) => match r {
                        Ok(color) => call_ensures(named, (&name,), Some(color)),
                        Err(e) => call_ensures(named, (&name,), None::<C>) && e.message()
                            == unknown_color_message(name@),
                    },
                    StylePropertyToken::Hash(digits) => call_ensures(hex, (&digits,), r),
                    other => r is Err && r->Err_0.quotes(
                        "Can't parse color from "@,
                        other,
                        Seq::empty(),
                        show,
                    ),
                }
            },
    {
        let props = self.tokens();
        if props.len() == 0 {
            return Err(ElementsError::saying("Expected color, got nothing"));
        }
        proof {
            reveal_strlit("");
            assert(""@ =~= Seq::<char>::empty());
        }
        match &props[0] {
            StylePropertyToken::Identifier(name) => {
                let found = named(name);
                named_color(name, found)
            },
            StylePropertyToken::Hash(hash) => hex(hash),
            prop => Err(ElementsError::quoting("Can't parse color from ", prop, "", show)),
        }
    }

    /// The text of the first identifier that is not empty, if there is one.
    fn identifier(&self) -> (r: Option<&str>)
        ensures
            match r {
                Some(id) => exists|i: int|
                    {
                        &&& 0 <= i < self.token_seq().len()
                        &&& names(#[trigger] self.token_seq()[i])
                        &&& forall|j: int| 0 <= j < i ==> !names(#[trigger] self.token_seq()[j])
                        &&& id@ == self.token_seq()[i]->Identifier_0@
                    },
                None => forall|j: int|
                    0 <= j < self.token_seq().len() ==> !names(#[trigger] self.token_seq()[j]),
            },
    {
        let tokens = self.tokens();
        let mut i: usize = 0;
        while i < tokens.len()
            invariant
                i <= tokens.len(),
                tokens@ == self.token_seq(),
                forall|j: int| 0 <= j < i ==> !names(#[trigger] tokens@[j]),
            decreases tokens.len() - i,
        {
            match &tokens[i] {
                StylePropertyToken::Identifier(id) => {
                    if !id.as_str().is_empty() {
                        return Some(id.as_str());
                    }
                },
                _ => {},
            }
            i = i + 1;
        }
        None
    }

    /// The length that the first token stands for.
    fn val<S: Fn(Number) -> String>(&self, show: &S) -> (r: Result<Length, ElementsError>)
        requires
            forall|n: Number| call_requires(show, (n,)),
        ensures
            if self.token_seq().len() == 0 {
                r is Err && r->Err_0.message() == "Expected Val, found none"@
            } else {
                match self.token_seq()[0].length() {
                    Some(length) => r == Ok::<Length, ElementsError>(length),
                    None => r is Err && r->Err_0.quotes(
                        "Can't parrse Val from '"@,
                        self.token_seq()[0],
                        "'"@,
                        show,
                    ),
                }
            },
    {
        let tokens = self.tokens();
        if tokens.len() == 0 {
            return Err(ElementsError::saying("Expected Val, found none"));
        }
        let prop = &tokens[0];
        match prop.val(show) {
            Ok(length) => Ok(length),
            Err(_) => Err(ElementsError::quoting("Can't parrse Val from '", prop, "'", show)),
        }
    }

    /// The number that the first token carries.
    fn number<S: Fn(Number) -> String>(&self, show: &S) -> (r: Result<Number, ElementsError>)
        requires
            forall|n: Number| call_requires(show, (n,)),
        ensures
            if self.token_seq().len() == 0 {
                r is Err && r->Err_0.message() == "Expected f32, found none"@
            } else {
                match self.token_seq()[0].value() {
                    Some(value) => r == Ok::<Number, ElementsError>(value),
                    None => r is Err && r->Err_0.quotes(
                        "Can't parse f32 from '"@,
                        self.token_seq()[0],
                        "'"@,
                        show,
                    ),
                }
            },
    {
        let tokens = self.tokens();
        if tokens.len() == 0 {
            return Err(ElementsError::saying("Expected f32, found none"));
        }
        match &tokens[0] {
            StylePropertyToken::Percentage(val) => Ok(*val),
            StylePropertyToken::Dimension(val) => Ok(*val),
            StylePropertyToken::Number(val) => Ok(*val),
            p => Err(ElementsError::quoting("Can't parse f32 from '", p, "'", show)),
        }
    }

    /// The number that the first token carries, or nothing where the first
    /// token is the identifier `none`.
    fn option_number<S: Fn(Number) -> String>(&self, show: &S) -> (r: Result<
        Option<Number>,
        ElementsError,
    >)
        requires
            forall|n: Number| call_requires(show, (n,)),
        ensures
            if self.token_seq().len() == 0 {
                r is Err && r->Err_0.message() == "Expected Option<f32>, found none"@
            } else {
                match optional_number(self.token_seq()[0]) {
                    Some(value) => r == Ok::<Option<Number>, ElementsError>(value),
                    None => r is Err && r->Err_0.quotes(
                        "Can't parse Option<f32> from "@,
                        self.token_seq()[0],
                        Seq::empty(),
                        show,
                    ),
                }
            },
    {
        let tokens = self.tokens();
        if tokens.len() == 0 {
            return Err(ElementsError::saying("Expected Option<f32>, found none"));
        }
        proof {
            reveal_strlit("");
            reveal_strlit("none");
            assert(""@ =~= Seq::<char>::empty());
            assert("none"@ =~= word_none());
        }
        match &tokens[0] {
            StylePropertyToken::Percentage(val) => Ok(Some(*val)),
            StylePropertyToken::Dimension(val) => Ok(Some(*val)),
            StylePropertyToken::Number(val) => Ok(Some(*val)),
            StylePropertyToken::Identifier(ident) => {
                if reads(ident.as_str(), "none") {
                    Ok(None)
                } else {
                    Err(ElementsError::quoting("Can't parse Option<f32> from ", &tokens[0], "", show))
                }
            },
            e => Err(ElementsError::quoting("Can't parse Option<f32> from ", e, "", show)),
        }
    }
}

impl<'a> StylePropertyMethods for &'a [StylePropertyToken] {
    open spec fn token_seq(&self) -> Seq<StylePropertyToken> {
        (*self)@
    }

    fn tokens(&self) -> (r: &[StylePropertyToken]) {
        self
    }
}

impl StylePropertyMethods for StyleProperty {
    open spec fn token_seq(&self) -> Seq<StylePropertyToken> {
        self@
    }

    fn tokens(&self) -> (r: &[StylePropertyToken]) {
        self.as_slice()
    }
}

} // verus!
