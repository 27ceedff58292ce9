//! A rectangle taken apart into named lengths.

use vstd::prelude::*;
use crate::length::{bottom_name, left_name, named_edges, right_name, top_name, Length, Rect};

verus! {

/// Lengths under names: what a rectangle becomes when each of its edges is
/// handed on as a property of its own.
///
/// The lengths are kept in a `bevy::utils::HashMap`, which is hidden from the
/// verifier; [`entries`] stands for what the map holds.
#[verifier::external_body]
#[derive(Debug)]
pub struct RectMap {
    inner: bevy::utils::HashMap<String, Length>,
}

/// What the map holds: for each name that is in it, the length under that
/// name.
pub uninterp spec fn entries(map: RectMap) -> Map<Seq<char>, Length>;

impl View for RectMap {
    type V = Map<Seq<char>, Length>;

    open spec fn view(&self) -> Map<Seq<char>, Length> {
        entries(*self)
    }
}

impl RectMap {
    /// `Default` of `bevy::utils::HashMap`. Taken on trust: the map holds
    /// nothing.
    #[verifier::external_body]
    fn empty() -> (made: RectMap)
        ensures
            entries(made).dom() == Set::<Seq<char>>::empty(),
    {
        RectMap { inner: bevy::utils::HashMap::default() }
    }

    /// `insert` of `bevy::utils::HashMap`. Taken on trust: afterwards `name`
    /// leads to `value`, whether or not the name was in the map before, and
    /// every other name leads to what it led to. It ends the program where no
    /// memory is left for one more entry.
    #[verifier::external_body]
    fn put(&mut self, name: String, value: Length)
        ensures
            entries(*final(self)) == entries(*old(self)).insert(name@, value),
    {
        self.inner.insert(name, value);
    }

    /// `get` of `bevy::utils::HashMap`. Taken on trust: it finds the length
    /// under `name` exactly if the name is in the map.
    #[verifier::external_body]
    fn find(&self, name: &str) -> (found: Option<Length>)
        ensures
            found == (if entries(*self).dom().contains(name@) {
                Some(entries(*self)[name@])
            } else {
                None
            }),
    {
        self.inner.get(name).copied()
    }

    /// The length under `name`, if there is one.
    pub fn get(&self, name: &str) -> (found: Option<Length>)
        ensures
            found == (if self@.dom().contains(name@) {
                Some(self@[name@])
            } else {
                None
            }),
    {
        self.find(name)
    }
}

/// A rectangle taken apart into four lengths with a name each.
pub trait ToRectMap {
    /// The rectangle that is taken apart.
    spec fn edges(&self) -> Rect;

    /// The four edges under the names `<prefix>-left`, `<prefix>-right`,
    /// `<prefix>-top` and `<prefix>-bottom`.
    fn to_rect_map(&self, prefix: &str) -> (out: RectMap)
        ensures
            out@ == named_edges(prefix@, self.edges()),
    ;
}

fn named(prefix: &str, suffix: &str) -> (name: String)
    ensures
        name@ == prefix@ + suffix@,
{
    let mut name = String::from_str(prefix);
    name.append(suffix);
    name
}

impl ToRectMap for Rect {
    open spec fn edges(&self) -> Rect {
        *self
    }

    fn to_rect_map(&self, prefix: &str) -> (out: RectMap) {
        proof {
            reveal_strlit("-left");
            reveal_strlit("-right");
            reveal_strlit("-top");
            reveal_strlit("-bottom");
            assert(prefix@ + "-left"@ =~= left_name(prefix@));
            assert(prefix@ + "-right"@ =~= right_name(prefix@));
            assert(prefix@ + "-top"@ =~= top_name(prefix@));
            assert(prefix@ + "-bottom"@ =~= bottom_name(prefix@));
        }
        let mut props = RectMap::empty();
        assert(props@ =~= Map::empty());
        props.put(named(prefix, "-left"), self.left);
        props.put(named(prefix, "-right"), self.right);
        props.put(named(prefix, "-top"), self.top);
        props.put(named(prefix, "-bottom"), self.bottom);
        assert(self.edges() == *self);
        assert(props@ =~= named_edges(prefix@, *self));
        props
    }
}

} // verus!
