//! Places in a file tree, held as their components rather than as text.

use vstd::prelude::*;
use vstd::string::StringExecFns;

verus! {

/// A place in a file tree: the names that lead to it, from the top down.
///
/// The view is the sequence of those names, each as its characters.
#[derive(Debug, PartialEq, Eq)]
pub struct Location {
    pub components: Vec<String>,
}

impl View for Location {
    type V = Seq<Seq<char>>;

    open spec fn view(&self) -> Seq<Seq<char>> {
        self.components.deep_view()
    }
}

impl Clone for Location {
    fn clone(&self) -> (copy: Self)
        ensures
            copy@ == self@,
    {
        let mut components: Vec<String> = Vec::new();
        let mut i: usize = 0;
        while i < self.components.len()
            invariant
                i <= self.components.len(),
                components.len() == i,
                forall|j: int| 0 <= j < i ==> components@[j]@ == self.components@[j]@,
            decreases self.components.len() - i,
        {
            components.push(self.components[i].clone());
            i = i + 1;
        }
        assert(components.deep_view() =~= self@);
        Location { components }
    }
}

impl Location {
    /// The view, component by component.
    proof fn lemma_view(&self)
        ensures
            self@.len() == self.components@.len(),
            forall|j: int| 0 <= j < self@.len() ==> self@[j] == self.components@[j]@,
    {
    }

    /// The top of the tree: no components.
    pub fn new() -> (top: Location)
        ensures
            top@ == Seq::<Seq<char>>::empty(),
    {
        let top = Location { components: Vec::new() };
        assert(top@ =~= Seq::<Seq<char>>::empty());
        top
    }

    /// The place one step below this one, under `name`.
    pub fn child(&self, name: &str) -> (below: Location)
        ensures
            below@ == self@.push(name@),
    {
        let mut below = self.clone();
        below.components.push(String::from_str(name));
        assert(below@ =~= self@.push(name@));
        below
    }

    /// The place reached by following `rest` from this one.
    pub fn join(&self, rest: &Location) -> (joined: Location)
        ensures
            joined@ == self@ + rest@,
    {
        let mut joined = self.clone();
        proof {
            joined.lemma_view();
            self.lemma_view();
            assert forall|j: int| 0 <= j < self.components.len() implies joined.components@[j]@
                == self.components@[j]@ by {
                assert(joined@[j] == self@[j]);
            }
        }
        let mut i: usize = 0;
        while i < rest.components.len()
            invariant
                i <= rest.components.len(),
                joined.components.len() == self.components.len() + i,
                forall|j: int|
                    0 <= j < self.components.len() ==> joined.components@[j]@
                        == self.components@[j]@,
                forall|j: int|
                    0 <= j < i ==> joined.components@[self.components.len() + j]@
                        == rest.components@[j]@,
            decreases rest.components.len() - i,
        {
            joined.components.push(rest.components[i].clone());
            i = i + 1;
        }
        assert(joined@ =~= self@ + rest@);
        joined
    }

    /// Whether this place is `base` itself or lies below it.
    pub fn starts_with(&self, base: &Location) -> (within: bool)
        ensures
            within == base@.is_prefix_of(self@),
    {
        if base.components.len() > self.components.len() {
            return false;
        }
        let mut i: usize = 0;
        while i < base.components.len()
            invariant
                i <= base.components.len() <= self.components.len(),
                forall|j: int| 0 <= j < i ==> self@[j] == base@[j],
            decreases base.components.len() - i,
        {
            if !(self.components[i] == base.components[i]) {
                assert(self@[i as int] != base@[i as int]);
                return false;
            }
            i = i + 1;
        }
        assert(base@ =~= self@.subrange(0, base@.len() as int));
        true
    }
}

/// A place lies below itself joined with anything.
pub proof fn lemma_join_starts_with(base: Seq<Seq<char>>, rest: Seq<Seq<char>>)
    ensures
        base.is_prefix_of(base + rest),
{
    assert(base =~= (base + rest).subrange(0, base.len() as int));
}

} // verus!
