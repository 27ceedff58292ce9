//! The one error of the library, and how its messages are put together.

use vstd::prelude::*;
use crate::number::Number;
use crate::token::StylePropertyToken;

verus! {

/// What goes wrong when a property value is parsed or read.
#[derive(Debug, PartialEq, Eq)]
pub enum ElementsError {
    /// The text, or the tokens found in it, cannot be taken as the value asked
    /// for. The message says what was expected and what was found.
    InvalidPropertyValue(String),
}

impl Clone for ElementsError {
    fn clone(&self) -> (copy: ElementsError)
        ensures
            copy == *self,
    {
        match self {
            ElementsError::InvalidPropertyValue(m) => ElementsError::InvalidPropertyValue(m.clone()),
        }
    }
}

impl ElementsError {
    /// The message of the error.
    pub open spec fn message(self) -> Seq<char> {
        match self {
            ElementsError::InvalidPropertyValue(m) => m@,
        }
    }

    /// The message of the error.
    pub fn to_string(&self) -> (out: String)
        ensures
            out@ == self.message(),
    {
        match self {
            ElementsError::InvalidPropertyValue(m) => m.clone(),
        }
    }

    /// Whether the message is `before`, then a text of `token` with its
    /// number printed by `show`, then `after`.
    pub open spec fn quotes<S: Fn(Number) -> String>(
        self,
        before: Seq<char>,
        token: StylePropertyToken,
        after: Seq<char>,
        show: &S,
    ) -> bool {
        exists|text: Seq<char>| #[trigger]
            token.renders(show, text) && self.message() == before + text + after
    }

    /// The error whose message is `text`.
    pub fn saying(text: &str) -> (e: ElementsError)
        ensures
            e.message() == text@,
    {
        ElementsError::InvalidPropertyValue(String::from_str(text))
    }

    /// The error whose message is `before`, the text of `token` and `after`.
    pub fn quoting<S: Fn(Number) -> String>(
        before: &str,
        token: &StylePropertyToken,
        after: &str,
        show: &S,
    ) -> (e: ElementsError)
        requires
            forall|n: Number| call_requires(show, (n,)),
        ensures
            e.quotes(before@, *token, after@, show),
    {
        let text = token.to_string(show);
        let mut message = String::from_str(before);
        message.append(text.as_str());
        message.append(after);
        ElementsError::InvalidPropertyValue(message)
    }
}

} // verus!
