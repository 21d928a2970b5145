//! Filesystem locations as plain values: an anchor and the names below it.
//!
//! A location is what a path denotes once it is split into components. The
//! anchor is the text of whatever the path starts from (a drive prefix, a root
//! separator, both, or nothing for a relative path); the names are the
//! components that follow, outermost first. Ascending to a parent drops the
//! last name and is impossible once no name is left.

use vstd::prelude::*;

verus! {

/// The mathematical value of a [`Location`].
pub struct LocationView {
    /// Text of the prefix and root; empty for a relative location.
    pub anchor: Seq<char>,
    /// The component names below the anchor, outermost first.
    pub names: Seq<Seq<char>>,
}

impl LocationView {
    /// The directory that contains this location, if there is one.
    pub open spec fn parent(self) -> Option<LocationView> {
        if self.names.len() == 0 {
            None
        } else {
            Some(LocationView { anchor: self.anchor, names: self.names.drop_last() })
        }
    }

    /// The result of ascending to the parent `n` times in a row.
    pub open spec fn ancestor(self, n: nat) -> Option<LocationView>
        decreases n,
    {
        if n == 0 {
            Some(self)
        } else {
            match self.parent() {
                Some(p) => p.ancestor((n - 1) as nat),
                None => None,
            }
        }
    }

    /// This location extended by one more name.
    pub open spec fn join(self, name: Seq<char>) -> LocationView {
        LocationView { anchor: self.anchor, names: self.names.push(name) }
    }

    /// This location cut down to its first `keep` names.
    pub open spec fn truncated(self, keep: int) -> LocationView {
        LocationView { anchor: self.anchor, names: self.names.take(keep) }
    }
}

/// The texts of a sequence of strings, element by element.
pub open spec fn texts(names: Seq<String>) -> Seq<Seq<char>> {
    Seq::new(names.len(), |i: int| names[i]@)
}

/// The value of an optional location.
pub open spec fn view_of(location: Option<Location>) -> Option<LocationView> {
    match location {
        Some(l) => Some(l@),
        None => None,
    }
}

/// A filesystem location held as an anchor and the component names below it.
#[derive(Clone, Debug, PartialEq, Eq)]
pub struct Location {
    /// Text of the prefix and root; empty for a relative location.
    pub anchor: String,
    /// The component names below the anchor, outermost first.
    pub names: Vec<String>,
}

impl View for Location {
    type V = LocationView;

    open spec fn view(&self) -> LocationView {
        LocationView { anchor: self.anchor@, names: texts(self.names@) }
    }
}

/// Ascending `n` times keeps the anchor and all but the last `n` names, and
/// fails exactly when fewer than `n` names are present.
pub proof fn lemma_ancestor_drops_names(v: LocationView, n: nat)
    ensures
        n <= v.names.len() ==> v.ancestor(n) == Some(v.truncated(v.names.len() - n)),
        n > v.names.len() ==> v.ancestor(n) is None,
    decreases n,
{
    if n == 0 {
        assert(v.names.take(v.names.len() as int) =~= v.names);
    } else if v.names.len() > 0 {
        let p = v.parent().unwrap();
        lemma_ancestor_drops_names(p, (n - 1) as nat);
        if n <= v.names.len() {
            assert(p.names.take(p.names.len() - (n - 1)) =~= v.names.take(v.names.len() - n));
        }
    }
}

/// Ascending `m` times and then `n` times is ascending `m + n` times.
pub proof fn lemma_ancestor_composes(v: LocationView, m: nat, n: nat)
    ensures
        v.ancestor(m + n) == match v.ancestor(m) {
            Some(a) => a.ancestor(n),
            None => None,
        },
    decreases m,
{
    if m > 0 {
        match v.parent() {
            Some(p) => {
                lemma_ancestor_composes(p, (m - 1) as nat, n);
                assert(v.ancestor(m + n) == p.ancestor((m + n - 1) as nat));
            },
            None => {},
        }
    }
}

impl Location {
    /// Makes a location from its anchor and names.
    pub fn new(anchor: String, names: Vec<String>) -> (location: Location)
        ensures
            location.anchor == anchor,
            location.names == names,
    {
        Location { anchor, names }
    }

    /// The number of names below the anchor.
    pub fn depth(&self) -> (n: usize)
        ensures
            n == self@.names.len(),
    {
        self.names.len()
    }

    /// The first `keep` names under the same anchor.
    fn prefix(&self, keep: usize) -> (location: Location)
        requires
            keep <= self.names.len(),
        ensures
            location@ == self@.truncated(keep as int),
    {
        let mut names: Vec<String> = Vec::new();
        let mut i: usize = 0;
        while i < keep
            invariant
                i <= keep <= self.names.len(),
                names.len() == i,
                forall|j: int| 0 <= j < i ==> names[j] == self.names[j],
            decreases keep - i,
        {
            names.push(self.names[i].clone());
            i += 1;
        }
        let location = Location { anchor: self.anchor.clone(), names };
        assert(location@.names =~= self@.names.take(keep as int));
        location
    }

    /// The directory that contains this location, or `None` when no name is
    /// left to drop.
    pub fn parent(&self) -> (result: Option<Location>)
        ensures
            view_of(result) == self@.parent(),
    {
        proof {
            reveal_with_fuel(LocationView::ancestor, 2);
        }
        self.ancestor(1)
    }

    /// Ascends to the parent `n` times; `None` as soon as one ascent fails.
    pub fn ancestor(&self, n: usize) -> (result: Option<Location>)
        ensures
            view_of(result) == self@.ancestor(n as nat),
            result is Some <==> n <= self@.names.len(),
    {
        proof {
            lemma_ancestor_drops_names(self@, n as nat);
        }
        if n > self.names.len() {
            None
        } else {
            Some(self.prefix(self.names.len() - n))
        }
    }

    /// This location extended by one more name.
    pub fn join(&self, name: &str) -> (location: Location)
        ensures
            location@ == self@.join(name@),
    {
        let mut location = self.prefix(self.names.len());
        assert(self@.names.take(self.names.len() as int) =~= self@.names);
        location.names.push(String::from_str(name));
        assert(location@.names =~= self@.names.push(name@));
        location
    }
}

} // verus!
