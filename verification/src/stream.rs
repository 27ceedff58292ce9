//! Walking over the tokens of a property in groups.

use vstd::prelude::*;
use vstd::slice::slice_subrange;
use crate::property::StyleProperty;
use crate::token::StylePropertyToken;

verus! {

/// A cursor that walks once over the tokens of a property and hands them out
/// in groups. It only moves forward; to walk again, make a new one.
pub struct StylePropertyTokenStream<'a> {
    offset: usize,
    tokens: &'a StyleProperty,
}

/// Where the group that starts at `from` ends: at the first delimiter behind
/// `from`, or at the end of the tokens where none follows. The token at
/// `from` itself belongs to the group whatever it is.
pub open spec fn group_end(tokens: Seq<StylePropertyToken>, from: int) -> int
    recommends
        0 <= from < tokens.len(),
    decreases tokens.len() - from,
{
    if from + 1 >= tokens.len() {
        tokens.len() as int
    } else if tokens[from + 1].delimiter() {
        from + 1
    } else {
        group_end(tokens, from + 1)
    }
}

/// The end of a group lies behind its start and within the tokens; no token
/// of the group but the first is a delimiter; and the group ends at the end
/// of the tokens or in front of a delimiter.
pub proof fn lemma_group_end(tokens: Seq<StylePropertyToken>, from: int)
    requires
        0 <= from < tokens.len(),
    ensures
        from < group_end(tokens, from) <= tokens.len(),
        forall|k: int| from < k < group_end(tokens, from) ==> !(#[trigger] tokens[k]).delimiter(),
        group_end(tokens, from) < tokens.len() ==> tokens[group_end(tokens, from)].delimiter(),
    decreases tokens.len() - from,
{
    if from + 1 < tokens.len() && !tokens[from + 1].delimiter() {
        lemma_group_end(tokens, from + 1);
    }
}

/// Where the cursor stands after a group that ended at `end`: behind the
/// delimiter that follows the group, if one does.
pub open spec fn after_group(tokens: Seq<StylePropertyToken>, end: int) -> int {
    if end < tokens.len() && tokens[end].delimiter() {
        end + 1
    } else {
        end
    }
}

impl StyleProperty {
    /// A cursor at the first token.
    pub fn as_stream(&self) -> (stream: StylePropertyTokenStream<'_>)
        ensures
            stream.offset() == 0,
            stream.tokens() == self@,
    {
        StylePropertyTokenStream { offset: 0, tokens: self }
    }
}

impl<'a> StylePropertyTokenStream<'a> {
    /// The cursor never stands behind the end of the tokens.
    #[verifier::type_invariant]
    spec fn within(self) -> bool {
        self.offset <= self.tokens@.len()
    }

    /// How many tokens the cursor has left behind.
    pub closed spec fn offset(&self) -> int {
        self.offset as int
    }

    /// The tokens that the cursor walks over.
    pub closed spec fn tokens(&self) -> Seq<StylePropertyToken> {
        self.tokens@
    }

    /// The next token as a group of its own; the delimiter that follows it, if
    /// one does, is passed over. Nothing once the tokens are used up.
    pub fn single(&mut self) -> (r: Option<&'a [StylePropertyToken]>)
        ensures
            final(self).tokens() == old(self).tokens(),
            old(self).offset() <= final(self).offset() <= old(self).tokens().len(),
            old(self).offset() == old(self).tokens().len() ==> r is None && final(self).offset()
                == old(self).offset(),
            old(self).offset() < old(self).tokens().len() ==> r is Some && r->Some_0@
                == old(self).tokens().subrange(old(self).offset(), old(self).offset() + 1)
                && final(self).offset() == after_group(old(self).tokens(), old(self).offset() + 1),
    {
        proof {
            use_type_invariant(&*self);
        }
        let tokens = self.tokens.as_slice();
        if self.offset >= tokens.len() {
            None
        } else {
            let start = self.offset;
            let end = self.offset + 1;
            self.offset += 1;
            if self.offset < tokens.len() && tokens[self.offset].is_delimiter() {
                self.offset += 1;
            }
            Some(slice_subrange(tokens, start, end))
        }
    }

    /// The tokens from the cursor up to the next delimiter, which is passed
    /// over, or up to the end where no delimiter follows. The token at the
    /// cursor belongs to the group even if it is a delimiter. Nothing once the
    /// tokens are used up.
    pub fn compound(&mut self) -> (r: Option<&'a [StylePropertyToken]>)
        ensures
            final(self).tokens() == old(self).tokens(),
            old(self).offset() <= final(self).offset() <= old(self).tokens().len(),
            old(self).offset() == old(self).tokens().len() ==> r is None && final(self).offset()
                == old(self).offset(),
            old(self).offset() < old(self).tokens().len() ==> r is Some && r->Some_0@
                == old(self).tokens().subrange(
                old(self).offset(),
                group_end(old(self).tokens(), old(self).offset()),
            ) && final(self).offset() == after_group(
                old(self).tokens(),
                group_end(old(self).tokens(), old(self).offset()),
            ),
    {
        proof {
            use_type_invariant(&*self);
        }
        let tokens = self.tokens.as_slice();
        if self.offset >= tokens.len() {
            return None;
        }
        let start = self.offset;
        let mut end = self.offset;
        proof {
            lemma_group_end(tokens@, start as int);
        }
        while self.offset < tokens.len()
            invariant_except_break
                start <= self.offset < tokens.len() || (self.offset == tokens.len() && start < self.offset),
                end == self.offset,
                self.offset < tokens.len() ==> group_end(tokens@, self.offset as int) == group_end(
                    tokens@,
                    start as int,
                ),
                self.offset == tokens.len() ==> group_end(tokens@, start as int) == tokens.len(),
            invariant
                tokens@ == self.tokens@,
                self.tokens == old(self).tokens,
                start == old(self).offset,
                start < tokens.len(),
            ensures
                end == group_end(tokens@, start as int),
                self.offset == after_group(tokens@, end as int),
            decreases tokens.len() - self.offset,
        {
            self.offset += 1;
            end = self.offset;
            if self.offset < tokens.len() && tokens[self.offset].is_delimiter() {
                self.offset += 1;
                break ;
            }
        }
        Some(slice_subrange(tokens, start, end))
    }
}

} // verus!
