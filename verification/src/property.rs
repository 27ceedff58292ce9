//! The tokens of one property value, and how a text is broken into them.

use vstd::prelude::*;
use crate::error::ElementsError;
use crate::lexer::{
    advance, lexed, lexeme_of, new_input, new_parser, pending, print_str, str_debug, LexEnd, Lexeme,
};
use crate::number::Number;
use crate::token::StylePropertyToken;

verus! {

/// The tokens of one property value, in the order in which they stand in the
/// text.
///
/// The tokens are kept in a `smallvec::SmallVec`, which is hidden from the
/// verifier; [`held`] stands for what it holds.
#[verifier::external_body]
#[derive(Debug, PartialEq, Eq, Hash)]
pub struct StyleProperty {
    inner: smallvec::SmallVec<[StylePropertyToken; 8]>,
}

/// The tokens that the property holds, first to last.
pub uninterp spec fn held(property: StyleProperty) -> Seq<StylePropertyToken>;

impl View for StyleProperty {
    type V = Seq<StylePropertyToken>;

    open spec fn view(&self) -> Seq<StylePropertyToken> {
        held(*self)
    }
}

impl StyleProperty {
    /// `smallvec::SmallVec::new`. Taken on trust: the vector holds nothing.
    #[verifier::external_body]
    fn empty() -> (made: StyleProperty)
        ensures
            held(made) == Seq::<StylePropertyToken>::empty(),
    {
        StyleProperty { inner: smallvec::SmallVec::new() }
    }

    /// `smallvec::SmallVec::push`. Taken on trust: the token goes to the end,
    /// behind what was held, which stays as it was. Like `Vec::push` it ends
    /// the program where no memory is left for one more token.
    #[verifier::external_body]
    fn push(&mut self, token: StylePropertyToken)
        ensures
            held(*final(self)) == held(*old(self)).push(token),
    {
        self.inner.push(token)
    }

    /// `smallvec::SmallVec::as_slice`. Taken on trust: the slice is what is
    /// held, first to last.
    #[verifier::external_body]
    fn slice(&self) -> (tokens: &[StylePropertyToken])
        ensures
            tokens@ == held(*self),
    {
        self.inner.as_slice()
    }

    /// The tokens, first to last.
    pub fn as_slice(&self) -> (tokens: &[StylePropertyToken])
        ensures
            tokens@ == self@,
    {
        self.slice()
    }
}

impl Clone for StyleProperty {
    /// `Clone` of `smallvec::SmallVec`. Taken on trust: the copy holds the
    /// same tokens in the same order.
    #[verifier::external_body]
    fn clone(&self) -> (copy: StyleProperty)
        ensures
            held(copy) == held(*self),
    {
        StyleProperty { inner: self.inner.clone() }
    }
}

impl Default for StyleProperty {
    /// A property without tokens.
    fn default() -> (made: StyleProperty)
        ensures
            made@ == Seq::<StylePropertyToken>::empty(),
    {
        StyleProperty::empty()
    }
}

/// The message for a text in which the tokenizer found `lexeme`, of which no
/// token is made.
pub open spec fn invalid_token_message(text: Seq<char>, lexeme: Lexeme) -> Seq<char> {
    "Can't parse `"@ + text + "` (invalid token `"@ + lexeme.printed() + "`: "@ + str_debug(
        "Invalid token: "@ + lexeme.printed(),
    )
}

/// The message for a text on which the tokenizer gave up with `detail`.
pub open spec fn failure_message(text: Seq<char>, detail: Seq<char>) -> Seq<char> {
    "Can't parse `"@ + text + "`: "@ + detail
}

/// Whether every lexeme before the `upto`-th is one that a token is made of.
pub open spec fn all_supported(lexemes: Seq<Lexeme>, upto: int) -> bool {
    forall|j: int| 0 <= j < upto ==> (#[trigger] lexemes[j]).supported()
}

/// Whether `tokens` are made of `lexemes`, one of each, in the same order.
pub open spec fn all_made_of<P: Fn(Number) -> Number>(
    tokens: Seq<StylePropertyToken>,
    lexemes: Seq<Lexeme>,
    scale: &P,
) -> bool {
    tokens.len() == lexemes.len() && forall|i: int|
        0 <= i < tokens.len() ==> (#[trigger] tokens[i]).made_of(lexemes[i], scale)
}

/// Breaks the text of a property value into tokens.
///
/// The tokenizer is asked for one token after the other. A token is made of
/// each; the first of which none is made ends the work with an error that
/// names it. When the tokenizer has no more, the tokens so far are the
/// result, unless it gave up on the text, which is an error too. `scale`
/// turns the fraction that the tokenizer gives for a percentage into the
/// number as written, a hundred times the fraction.
pub fn parse_style_propery_value<P: Fn(Number) -> Number>(value: &str, scale: &P) -> (r: Result<
    StyleProperty,
    ElementsError,
>)
    requires
        forall|n: Number| call_requires(scale, (n,)),
    ensures
        r is Ok <==> lexed(value@).failure is None && all_supported(
            lexed(value@).lexemes,
            lexed(value@).lexemes.len() as int,
        ),
        match r {
            Ok(property) => all_made_of(property@, lexed(value@).lexemes, scale),
            Err(e) => {
                ||| exists|i: int|
                    {
                        &&& 0 <= i < lexed(value@).lexemes.len()
                        &&& all_supported(lexed(value@).lexemes, i)
                        &&& !(#[trigger] lexed(value@).lexemes[i]).supported()
                        &&& e.message() == invalid_token_message(value@, lexed(value@).lexemes[i])
                    }
                ||| {
                    &&& all_supported(lexed(value@).lexemes, lexed(value@).lexemes.len() as int)
                    &&& lexed(value@).failure is Some
                    &&& e.message() == failure_message(value@, lexed(value@).failure->Some_0)
                }
            },
        },
{
    let ghost run = lexed(value@);
    let mut input = new_input(value);
    let mut parser = new_parser(&mut input);
    let mut values = StyleProperty::empty();
    loop
        invariant_except_break
            pending(parser).lexemes == run.lexemes.skip(values@.len() as int),
            pending(parser).failure == run.failure,
        invariant
            forall|n: Number| call_requires(scale, (n,)),
            run == lexed(value@),
            values@.len() <= run.lexemes.len(),
            all_made_of(values@, run.lexemes.take(values@.len() as int), scale),
        ensures
            run.failure is None,
            all_made_of(values@, run.lexemes, scale),
        decreases pending(parser).lexemes.len(),
    {
        let ghost done = values@.len() as int;
        match advance(&mut parser) {
            Ok(token) => {
                let lexeme = lexeme_of(&token);
                let printed = lexeme.print();
                match StylePropertyToken::try_from(lexeme, scale) {
                    Ok(token) => {
                        values.push(token);
                        proof {
                            assert(run.lexemes.skip(done).skip(1) =~= run.lexemes.skip(done + 1));
                            assert forall|i: int| 0 <= i < values@.len() implies (#[trigger] values@[i]).made_of(
                                run.lexemes.take(done + 1)[i],
                                scale,
                            ) by {
                                if i < done {
                                    assert(run.lexemes.take(done)[i] == run.lexemes[i]);
                                }
                            }
                        }
                    },
                    Err(reason) => {
                        proof {
                            assert forall|j: int| 0 <= j < done implies (#[trigger] run.lexemes[j]).supported() by {
                                assert(values@[j].made_of(run.lexemes.take(done)[j], scale));
                            }
                        }
                        return Err(invalid_token(value, printed, reason));
                    },
                }
            },
            Err(LexEnd::EndOfInput) => {
                proof {
                    assert(run.lexemes.take(done) =~= run.lexemes);
                }
                break ;
            },
            Err(LexEnd::Failure(detail)) => {
                proof {
                    assert(run.lexemes.take(done) =~= run.lexemes);
                    assert forall|j: int| 0 <= j < done implies (#[trigger] run.lexemes[j]).supported() by {
                        assert(values@[j].made_of(run.lexemes[j], scale));
                    }
                }
                return Err(gave_up(value, detail));
            },
        }
    }
    proof {
        assert forall|j: int| 0 <= j < run.lexemes.len() implies (#[trigger] run.lexemes[j]).supported() by {
            assert(values@[j].made_of(run.lexemes[j], scale));
        }
    }
    Ok(values)
}

fn invalid_token(value: &str, printed: String, reason: String) -> (e: ElementsError)
    ensures
        e.message() == "Can't parse `"@ + value@ + "` (invalid token `"@ + printed@ + "`: "@
            + str_debug(reason@),
{
    let mut message = String::from_str("Can't parse `");
    message.append(value);
    message.append("` (invalid token `");
    message.append(printed.as_str());
    message.append("`: ");
    let quoted = print_str(reason.as_str());
    message.append(quoted.as_str());
    ElementsError::InvalidPropertyValue(message)
}

fn gave_up(value: &str, detail: String) -> (e: ElementsError)
    ensures
        e.message() == failure_message(value@, detail@),
{
    let mut message = String::from_str("Can't parse `");
    message.append(value);
    message.append("`: ");
    message.append(detail.as_str());
    ElementsError::InvalidPropertyValue(message)
}

} // verus!
