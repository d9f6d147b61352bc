use vstd::prelude::*;
use crate::nameset::{name_set_elems, NameSet};

verus! {

broadcast use vstd::std_specs::vec::group_vec_axioms, vstd::seq::group_seq_axioms;

/// Tracks which source names are known to be bound during scope
/// normalization. `ks` is the set of names bound in the current body;
/// `base` stacks a snapshot of `ks` taken at the start of each group
/// of sibling bodies that share bindings; `prev_ks` stacks, per group,
/// the bindings contributed by the siblings processed so far. The
/// stacks let a closure body see only the names that were bound before
/// its enclosing group started.
#[derive(Debug)]
pub struct Known {
    pub base: Vec<NameSet>,
    pub ks: NameSet,
    pub prev_ks: Vec<NameSet>,
}

/// The sequence of name sets a stack of snapshots denotes.
pub open spec fn set_views(v: Seq<NameSet>) -> Seq<Set<u32>> {
    v.map_values(|s: NameSet| name_set_elems(s))
}

/// Deep-copies a stack of snapshots; the copy denotes the same
/// sequence of sets.
#[verifier::loop_isolation(false)]
pub fn clone_sets(v: &Vec<NameSet>) -> (r: Vec<NameSet>)
    ensures
        set_views(r@) == set_views(v@),
        r@.len() == v@.len(),
{
    let mut out: Vec<NameSet> = Vec::new();
    let n = v.len();
    let mut i: usize = 0;
    while i < n
        invariant
            i <= n,
            out@.len() == i,
            forall|j: int| #![auto]
                0 <= j < i ==> name_set_elems(out@[j]) == name_set_elems(v@[j]),
        decreases n - i,
    {
        let c = v[i].clone();
        out.push(c);
        i += 1;
    }
    proof {
        assert(set_views(out@) =~= set_views(v@));
    }
    out
}

impl Known {
    /// The set of names known to be bound in the current body.
    pub open spec fn ks_elems(&self) -> Set<u32> {
        name_set_elems(self.ks)
    }

    /// The stacked group-start snapshots, innermost last.
    pub open spec fn base_views(&self) -> Seq<Set<u32>> {
        set_views(self.base@)
    }

    /// The stacked per-group sibling contributions, innermost last.
    pub open spec fn prev_views(&self) -> Seq<Set<u32>> {
        set_views(self.prev_ks@)
    }

    /// Creates an empty known set with no open group.
    pub fn new() -> (k: Known)
        ensures
            k.ks_elems() == Set::<u32>::empty(),
            k.base_views().len() == 0,
            k.prev_views().len() == 0,
    {
        let k = Known { base: Vec::new(), ks: NameSet::new(), prev_ks: Vec::new() };
        proof {
            assert(k.base_views() =~= Seq::<Set<u32>>::empty());
            assert(k.prev_views() =~= Seq::<Set<u32>>::empty());
        }
        k
    }

    /// Copies the known set; the copy denotes the same sets.
    pub fn duplicate(&self) -> (r: Known)
        ensures
            r.ks_elems() == self.ks_elems(),
            r.base_views() == self.base_views(),
            r.prev_views() == self.prev_views(),
    {
        let base = clone_sets(&self.base);
        let prev_ks = clone_sets(&self.prev_ks);
        let ks = self.ks.clone();
        Known { base, ks, prev_ks }
    }

    /// The currently known names.
    pub fn get(&self) -> (r: &NameSet)
        ensures
            name_set_elems(*r) == self.ks_elems(),
    {
        &self.ks
    }

    /// Whether the name is known in the current scope.
    pub fn contains(&self, id: u32) -> (r: bool)
        ensures
            r == self.ks_elems().contains(id),
    {
        self.ks.contains(id)
    }

    /// Whether no name is known.
    pub fn is_empty(&self) -> (r: bool)
        ensures
            r <==> (self.ks_elems() =~= Set::<u32>::empty()),
    {
        self.ks.is_empty()
    }

    /// Opens a group of sibling bodies that share bindings: pushes an
    /// empty contribution set and snapshots the current known set.
    pub fn start_group(&mut self)
        ensures
            final(self).ks_elems() == old(self).ks_elems(),
            final(self).base_views() == old(self).base_views().push(old(self).ks_elems()),
            final(self).prev_views() == old(self).prev_views().push(Set::<u32>::empty()),
    {
        self.prev_ks.push(NameSet::new());
        let snap = self.ks.clone();
        self.base.push(snap);
        proof {
            assert(final(self).base_views() =~= old(self).base_views().push(
                old(self).ks_elems(),
            ));
            assert(final(self).prev_views() =~= old(self).prev_views().push(
                Set::<u32>::empty(),
            ));
        }
    }

    /// Ends one sibling body: records the bindings it contributed by
    /// replacing the top contribution set with the current known set.
    pub fn end_body(&mut self)
        ensures
            final(self).ks_elems() == old(self).ks_elems(),
            final(self).base_views() == old(self).base_views(),
            old(self).prev_views().len() > 0 ==> final(self).prev_views() == old(
                self,
            ).prev_views().drop_last().push(old(self).ks_elems()),
            old(self).prev_views().len() == 0 ==> final(self).prev_views() == old(
                self,
            ).prev_views().push(old(self).ks_elems()),
    {
        if self.prev_ks.len() > 0 {
            self.prev_ks.pop();
        }
        let snap = self.ks.clone();
        self.prev_ks.push(snap);
        proof {
            if old(self).prev_views().len() > 0 {
                assert(final(self).prev_views() =~= old(self).prev_views().drop_last().push(
                    old(self).ks_elems(),
                ));
            } else {
                assert(final(self).prev_views() =~= old(self).prev_views().push(
                    old(self).ks_elems(),
                ));
            }
        }
    }

    /// Closes a group after its last body: pops both stacks.
    pub fn end_group(&mut self)
        ensures
            final(self).ks_elems() == old(self).ks_elems(),
            old(self).base_views().len() > 0 ==> final(self).base_views() == old(
                self,
            ).base_views().drop_last(),
            old(self).base_views().len() == 0 ==> final(self).base_views() == old(
                self,
            ).base_views(),
            old(self).prev_views().len() > 0 ==> final(self).prev_views() == old(
                self,
            ).prev_views().drop_last(),
            old(self).prev_views().len() == 0 ==> final(self).prev_views() == old(
                self,
            ).prev_views(),
    {
        if self.base.len() > 0 {
            self.base.pop();
        }
        if self.prev_ks.len() > 0 {
            self.prev_ks.pop();
        }
        proof {
            if old(self).base_views().len() > 0 {
                assert(final(self).base_views() =~= old(self).base_views().drop_last());
            } else {
                assert(final(self).base_views() =~= old(self).base_views());
            }
            if old(self).prev_views().len() > 0 {
                assert(final(self).prev_views() =~= old(self).prev_views().drop_last());
            } else {
                assert(final(self).prev_views() =~= old(self).prev_views());
            }
        }
    }

    /// Returns this known set extended with the given names.
    #[verifier::loop_isolation(false)]
    pub fn union(&self, vars: &NameSet) -> (r: Known)
        ensures
            r.ks_elems() == self.ks_elems().union(name_set_elems(*vars)),
            r.base_views() == self.base_views(),
            r.prev_views() == self.prev_views(),
    {
        let mut ks = self.ks.clone();
        let vs = vars.to_sorted_vec();
        let n = vs.len();
        let mut i: usize = 0;
        while i < n
            invariant
                i <= n,
                forall|x: u32| #![auto]
                    name_set_elems(ks).contains(x) <==> (self.ks_elems().contains(x) || (
                    exists|j: int| 0 <= j < i && vs@[j] == x)),
            decreases n - i,
        {
            ks.insert_mut(vs[i]);
            i += 1;
        }
        proof {
            assert forall|x: u32|
                name_set_elems(ks).contains(x) <==> self.ks_elems().union(
                name_set_elems(*vars),
            ).contains(x) by {
                if exists|j: int| 0 <= j < n && vs@[j] == x {
                    let j = choose|j: int| 0 <= j < n && vs@[j] == x;
                    assert(vs@.contains(x));
                }
                if name_set_elems(*vars).contains(x) {
                    assert(vs@.contains(x));
                    let j = choose|j: int| 0 <= j < vs@.len() && vs@[j] == x;
                    assert(0 <= j < n && vs@[j] == x);
                }
            }
            assert(name_set_elems(ks) =~= self.ks_elems().union(name_set_elems(*vars)));
        }
        let base = clone_sets(&self.base);
        let prev_ks = clone_sets(&self.prev_ks);
        Known { base, ks, prev_ks }
    }

    /// Returns this known set with the given names marked as already
    /// established in the current body: they are removed from the top
    /// contribution set. With no open group this is a plain copy.
    #[verifier::loop_isolation(false)]
    pub fn bind(&self, vars: &NameSet) -> (r: Known)
        ensures
            r.ks_elems() == self.ks_elems(),
            r.base_views() == self.base_views(),
            self.prev_views().len() == 0 ==> r.prev_views() == self.prev_views(),
            self.prev_views().len() > 0 ==> r.prev_views() == self.prev_views().drop_last().push(
                self.prev_views().last().difference(name_set_elems(*vars)),
            ),
    {
        let ks = self.ks.clone();
        let base = clone_sets(&self.base);
        let mut prev_ks = clone_sets(&self.prev_ks);
        if prev_ks.len() == 0 {
            return Known { base, ks, prev_ks };
        }
        let mut last = match prev_ks.pop() {
            Some(s) => s,
            None => vstd::pervasive::unreached(),
        };
        let vs = vars.to_sorted_vec();
        let n = vs.len();
        let mut i: usize = 0;
        while i < n
            invariant
                i <= n,
                forall|x: u32| #![auto]
                    name_set_elems(last).contains(x) <==> (self.prev_views().last().contains(x)
                        && !(exists|j: int| 0 <= j < i && vs@[j] == x)),
            decreases n - i,
        {
            last.remove_mut(vs[i]);
            i += 1;
        }
        proof {
            assert forall|x: u32|
                name_set_elems(last).contains(x) <==> self.prev_views().last().difference(
                name_set_elems(*vars),
            ).contains(x) by {
                if exists|j: int| 0 <= j < n && vs@[j] == x {
                    let j = choose|j: int| 0 <= j < n && vs@[j] == x;
                    assert(vs@.contains(x));
                }
                if name_set_elems(*vars).contains(x) {
                    assert(vs@.contains(x));
                    let j = choose|j: int| 0 <= j < vs@.len() && vs@[j] == x;
                    assert(0 <= j < n && vs@[j] == x);
                }
            }
            assert(name_set_elems(last) =~= self.prev_views().last().difference(
                name_set_elems(*vars),
            ));
        }
        prev_ks.push(last);
        let r = Known { base, ks, prev_ks };
        proof {
            assert(r.prev_views() =~= self.prev_views().drop_last().push(
                self.prev_views().last().difference(name_set_elems(*vars)),
            ));
        }
        r
    }

    /// The names visible when entering a closure body: the names bound
    /// before the enclosing group started, plus the current names not
    /// contributed by sibling bodies of that group. With no open group
    /// the whole known set is visible.
    pub open spec fn enter_fun_elems(&self) -> Set<u32> {
        if self.base_views().len() == 0 || self.prev_views().len() == 0 {
            self.ks_elems()
        } else {
            self.ks_elems().difference(self.prev_views().last()).union(self.base_views().last())
        }
    }

    /// Restricts the known set to what a closure body may see (and
    /// closes all groups, since the closure body starts fresh).
    #[verifier::loop_isolation(false)]
    pub fn known_in_fun(&self) -> (r: Known)
        ensures
            r.ks_elems() == self.enter_fun_elems(),
            r.base_views().len() == 0,
            r.prev_views().len() == 0,
    {
        if self.base.len() == 0 || self.prev_ks.len() == 0 {
            let ks = self.ks.clone();
            let r = Known { base: Vec::new(), ks, prev_ks: Vec::new() };
            proof {
                assert(r.base_views() =~= Seq::<Set<u32>>::empty());
                assert(r.prev_views() =~= Seq::<Set<u32>>::empty());
            }
            return r;
        }
        let mut ks = self.ks.clone();
        let prev_last = &self.prev_ks[self.prev_ks.len() - 1];
        let base_last = &self.base[self.base.len() - 1];
        let ghost pl = self.prev_views().last();
        let ghost bl = self.base_views().last();
        proof {
            assert(name_set_elems(self.prev_ks@[self.prev_ks@.len() - 1]) == pl);
            assert(name_set_elems(self.base@[self.base@.len() - 1]) == bl);
        }
        let pv = prev_last.to_sorted_vec();
        let n = pv.len();
        let mut i: usize = 0;
        while i < n
            invariant
                i <= n,
                forall|x: u32| #![auto]
                    name_set_elems(ks).contains(x) ==> self.ks_elems().contains(x),
                forall|j: int| #![auto] 0 <= j < i ==> !name_set_elems(ks).contains(pv@[j]),
                forall|x: u32| #![auto]
                    self.ks_elems().contains(x) && !pv@.contains(x) ==> name_set_elems(
                        ks,
                    ).contains(x),
            decreases n - i,
        {
            ks.remove_mut(pv[i]);
            i += 1;
        }
        let ghost mid = name_set_elems(ks);
        proof {
            assert forall|x: u32| mid.contains(x) <==> (self.ks_elems().contains(x)
                && !pl.contains(x)) by {
                if pl.contains(x) {
                    assert(pv@.contains(x));
                    let j = choose|j: int| 0 <= j < pv@.len() && pv@[j] == x;
                    assert(!name_set_elems(ks).contains(pv@[j]));
                }
                if pv@.contains(x) {
                    assert(pl.contains(x));
                }
            }
        }
        let bv = base_last.to_sorted_vec();
        let m = bv.len();
        let mut k2: usize = 0;
        while k2 < m
            invariant
                k2 <= m,
                forall|x: u32| #![auto] mid.contains(x) ==> name_set_elems(ks).contains(x),
                forall|j: int| #![auto] 0 <= j < k2 ==> name_set_elems(ks).contains(bv@[j]),
                forall|x: u32| #![auto]
                    name_set_elems(ks).contains(x) ==> mid.contains(x) || bv@.contains(x),
            decreases m - k2,
        {
            proof {
                assert(bv@.contains(bv@[k2 as int]));
            }
            ks.insert_mut(bv[k2]);
            k2 += 1;
        }
        proof {
            assert forall|x: u32|
                name_set_elems(ks).contains(x) <==> self.ks_elems().difference(pl).union(
                bl,
            ).contains(x) by {
                if bl.contains(x) {
                    assert(bv@.contains(x));
                    let j = choose|j: int| 0 <= j < bv@.len() && bv@[j] == x;
                    assert(name_set_elems(ks).contains(bv@[j]));
                }
                if bv@.contains(x) {
                    assert(bl.contains(x));
                }
            }
            assert(name_set_elems(ks) =~= self.ks_elems().difference(pl).union(bl));
        }
        let r = Known { base: Vec::new(), ks, prev_ks: Vec::new() };
        proof {
            assert(r.base_views() =~= Seq::<Set<u32>>::empty());
            assert(r.prev_views() =~= Seq::<Set<u32>>::empty());
        }
        r
    }
}

} // verus!
