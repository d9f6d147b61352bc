use vstd::prelude::*;

verus! {

/// The set of names a `NameSet` holds.
pub uninterp spec fn name_set_elems(s: NameSet) -> Set<u32>;

/// A persistent ordered set of interned names, backed by rpds'
/// red-black tree set. The scope normalizer snapshots and restores
/// these sets cheaply, which is why a persistent structure is used.
#[verifier::external_body]
#[derive(Debug)]
pub struct NameSet {
    inner: rpds::RedBlackTreeSet<u32>,
}

impl Clone for NameSet {
    /// Relies on `RedBlackTreeSet::clone`: a clone holds the same
    /// elements.
    #[verifier::external_body]
    fn clone(&self) -> (r: NameSet)
        ensures
            name_set_elems(r) == name_set_elems(*self),
    {
        NameSet { inner: self.inner.clone() }
    }
}

impl NameSet {
    /// Relies on `RedBlackTreeSet::new`: a new set is empty.
    #[verifier::external_body]
    pub fn new() -> (r: NameSet)
        ensures
            name_set_elems(r) == Set::<u32>::empty(),
    {
        NameSet { inner: rpds::RedBlackTreeSet::new() }
    }

    /// Relies on `RedBlackTreeSet::insert_mut`: inserting adds exactly
    /// the given element.
    #[verifier::external_body]
    pub fn insert_mut(&mut self, v: u32)
        ensures
            name_set_elems(*final(self)) == name_set_elems(*old(self)).insert(v),
    {
        self.inner.insert_mut(v);
    }

    /// Relies on `RedBlackTreeSet::remove_mut`: removing takes out
    /// exactly the given element and reports whether it was present.
    #[verifier::external_body]
    pub fn remove_mut(&mut self, v: u32) -> (r: bool)
        ensures
            name_set_elems(*final(self)) == name_set_elems(*old(self)).remove(v),
            r == name_set_elems(*old(self)).contains(v),
    {
        self.inner.remove_mut(&v)
    }

    /// Relies on `RedBlackTreeSet::contains`.
    #[verifier::external_body]
    pub fn contains(&self, v: u32) -> (r: bool)
        ensures
            r == name_set_elems(*self).contains(v),
    {
        self.inner.contains(&v)
    }

    /// Relies on `RedBlackTreeSet::is_empty`: the size is zero exactly
    /// when the set holds no element.
    #[verifier::external_body]
    pub fn is_empty(&self) -> (r: bool)
        ensures
            r <==> (name_set_elems(*self) =~= Set::<u32>::empty()),
    {
        self.inner.is_empty()
    }

    /// Relies on `RedBlackTreeSet::iter`: iteration visits each held
    /// element exactly once, in ascending order.
    #[verifier::external_body]
    pub fn to_sorted_vec(&self) -> (r: Vec<u32>)
        ensures
            forall|i: int, j: int| 0 <= i < j < r@.len() ==> r@[i] < r@[j],
            forall|x: u32| #[trigger] r@.contains(x) <==> name_set_elems(*self).contains(x),
    {
        let mut out: Vec<u32> = Vec::new();
        for x in self.inner.iter() {
            out.push(*x);
        }
        out
    }
}

} // verus!
