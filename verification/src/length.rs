//! Lengths, rectangles of four lengths, and the names of a rectangle's edges.

use vstd::prelude::*;
use crate::number::Number;

verus! {

/// A length along one axis.
#[derive(Debug, Clone, Copy, PartialEq, Eq, Hash)]
pub enum Length {
    /// No length was given.
    Undefined,
    /// The length is worked out from the layout.
    Auto,
    /// So many pixels.
    Px(Number),
    /// So many hundredths of the parent's length.
    Percent(Number),
}

/// Four lengths, one for each edge of a box.
#[derive(Debug, Clone, Copy, PartialEq, Eq, Hash)]
pub struct Rect {
    pub left: Length,
    pub right: Length,
    pub top: Length,
    pub bottom: Length,
}

impl Rect {
    /// The rectangle with the given edges.
    pub fn new(left: Length, right: Length, top: Length, bottom: Length) -> (r: Rect)
        ensures
            r == (Rect { left, right, top, bottom }),
    {
        Rect { left, right, top, bottom }
    }

    /// The rectangle whose four edges are all `value`.
    pub fn all(value: Length) -> (r: Rect)
        ensures
            r == (Rect { left: value, right: value, top: value, bottom: value }),
    {
        Rect { left: value, right: value, top: value, bottom: value }
    }
}

/// The name of an edge: the prefix, a hyphen and the edge's own word.
pub open spec fn left_name(prefix: Seq<char>) -> Seq<char> {
    prefix + seq!['-', 'l', 'e', 'f', 't']
}

pub open spec fn right_name(prefix: Seq<char>) -> Seq<char> {
    prefix + seq!['-', 'r', 'i', 'g', 'h', 't']
}

pub open spec fn top_name(prefix: Seq<char>) -> Seq<char> {
    prefix + seq!['-', 't', 'o', 'p']
}

pub open spec fn bottom_name(prefix: Seq<char>) -> Seq<char> {
    prefix + seq!['-', 'b', 'o', 't', 't', 'o', 'm']
}

/// The four edges of `rect` under their names: `<prefix>-left`,
/// `<prefix>-right`, `<prefix>-top` and `<prefix>-bottom`.
pub open spec fn named_edges(prefix: Seq<char>, rect: Rect) -> Map<Seq<char>, Length> {
    Map::empty().insert(left_name(prefix), rect.left).insert(right_name(prefix), rect.right).insert(
        top_name(prefix),
        rect.top,
    ).insert(bottom_name(prefix), rect.bottom)
}

/// The four names differ from one another whatever the prefix, so the map of
/// the named edges has four entries, and each name leads to its own edge.
pub proof fn lemma_named_edges(prefix: Seq<char>, rect: Rect)
    ensures
        named_edges(prefix, rect).dom() =~= set![
            left_name(prefix),
            right_name(prefix),
            top_name(prefix),
            bottom_name(prefix),
        ],
        named_edges(prefix, rect).dom().len() == 4,
        named_edges(prefix, rect)[left_name(prefix)] == rect.left,
        named_edges(prefix, rect)[right_name(prefix)] == rect.right,
        named_edges(prefix, rect)[top_name(prefix)] == rect.top,
        named_edges(prefix, rect)[bottom_name(prefix)] == rect.bottom,
{
    assert(left_name(prefix).len() == prefix.len() + 5);
    assert(right_name(prefix).len() == prefix.len() + 6);
    assert(top_name(prefix).len() == prefix.len() + 4);
    assert(bottom_name(prefix).len() == prefix.len() + 7);
    let names = set![left_name(prefix), right_name(prefix), top_name(prefix), bottom_name(prefix)];
    assert(named_edges(prefix, rect).dom() =~= names);
    let s0 = Set::<Seq<char>>::empty();
    let s1 = s0.insert(left_name(prefix));
    let s2 = s1.insert(right_name(prefix));
    let s3 = s2.insert(top_name(prefix));
    let s4 = s3.insert(bottom_name(prefix));
    assert(s4 =~= names);
    assert(s1.len() == 1);
    assert(s2.len() == 2);
    assert(s3.len() == 3);
    assert(s4.len() == 4);
}

} // verus!
