use vstd::prelude::*;
use crate::context::FunctionContext;
use crate::cst::{
    binders_fresh, expr_eq_spec, expr_seq_eq_spec, seq_binders_fresh, seq_source_binds,
    seq_source_uses, source_binds, source_uses, Expr, Name,
};
use crate::known::Known;
use crate::nameset::{name_set_elems, NameSet};

verus! {

broadcast use vstd::std_specs::vec::group_vec_axioms, vstd::seq::group_seq_axioms;

/// Why normalization of an expression failed.
#[derive(Clone, Copy, Debug, PartialEq, Eq, Structural)]
pub enum NormError {
    /// A name was used that is not bound in the scope of the use.
    UnboundVar(u32),
    /// The fresh-name counter was exhausted.
    TooManyVars,
}

/// The source names a substitution has an entry for.
pub open spec fn sub_dom(s: Seq<(u32, Name)>) -> Set<u32> {
    Set::new(|x: u32| exists|i: int| 0 <= i < s.len() && s[i].0 == x)
}

/// Every substitution entry maps to a fresh name.
pub open spec fn sub_ok(s: Seq<(u32, Name)>) -> bool {
    forall|i: int| 0 <= i < s.len() ==> s[i].1 is Fresh
}

/// The known set is consistent with the normalization state: every
/// name it knows, and every name in its group-start snapshots, was
/// either bound before normalization started (`pre`) or bound during
/// it (and therefore has a substitution entry).
pub open spec fn known_ok(k: Known, pre: Set<u32>, dom: Set<u32>) -> bool {
    &&& k.ks_elems().subset_of(pre.union(dom))
    &&& forall|i: int| #![auto]
        0 <= i < k.base_views().len() ==> k.base_views()[i].subset_of(pre.union(dom))
}

/// The alias a substitution gives a source name: the alias of its
/// last entry for the name, or the name itself when it has none.
pub open spec fn lookup_spec(s: Seq<(u32, Name)>, x: u32) -> Name
    decreases s.len(),
{
    if s.len() == 0 {
        Name::Source(x)
    } else if s.last().0 == x {
        s.last().1
    } else {
        lookup_spec(s.drop_last(), x)
    }
}

/// `seq_source_binds` distributes over `push`.
pub proof fn lemma_seq_binds_push(s: Seq<Expr>, e: Expr)
    ensures
        seq_source_binds(s.push(e)) == seq_source_binds(s).union(source_binds(e)),
    decreases s.len(),
{
    reveal_with_fuel(seq_source_binds, 2);
    if s.len() == 0 {
        assert(s.push(e)[0] == e);
        assert(s.push(e).subrange(1, 1) =~= Seq::<Expr>::empty());
        assert(seq_source_binds(s.push(e)) == source_binds(e).union(
            seq_source_binds(s.push(e).subrange(1, 1)),
        ));
        assert(seq_source_binds(Seq::<Expr>::empty()) == Set::<u32>::empty());
        assert(seq_source_binds(s.push(e)) =~= seq_source_binds(s).union(source_binds(e)));
    } else {
        assert(s.push(e)[0] == s[0]);
        assert(s.push(e).subrange(1, s.push(e).len() as int) =~= s.subrange(
            1,
            s.len() as int,
        ).push(e));
        lemma_seq_binds_push(s.subrange(1, s.len() as int), e);
        assert(seq_source_binds(s.push(e)) =~= seq_source_binds(s).union(source_binds(e)));
    }
}

/// Looks a source name up in the substitution: the alias of its last
/// entry, or the name itself when it has none.
#[verifier::loop_isolation(false)]
pub fn lookup(sub: &Vec<(u32, Name)>, x: u32) -> (n: Name)
    requires
        sub_ok(sub@),
    ensures
        n == lookup_spec(sub@, x),
        sub_dom(sub@).contains(x) ==> n is Fresh,
        !sub_dom(sub@).contains(x) ==> n == Name::Source(x),
{
    proof {
        assert(sub@.subrange(0, sub@.len() as int) =~= sub@);
    }
    let mut i = sub.len();
    while i > 0
        invariant
            i <= sub@.len(),
            forall|j: int| i <= j < sub@.len() ==> sub@[j].0 != x,
            lookup_spec(sub@, x) == lookup_spec(sub@.subrange(0, i as int), x),
        decreases i,
    {
        i = i - 1;
        if sub[i].0 == x {
            proof {
                assert(sub@.subrange(0, i + 1).last() == sub@[i as int]);
            }
            return sub[i].1;
        }
        proof {
            assert(sub@.subrange(0, i + 1).last() == sub@[i as int]);
            assert(sub@.subrange(0, i + 1).drop_last() =~= sub@.subrange(0, i as int));
        }
    }
    proof {
        assert(!sub_dom(sub@).contains(x)) by {
            if sub_dom(sub@).contains(x) {
                let j = choose|j: int| 0 <= j < sub@.len() && sub@[j].0 == x;
            }
        }
    }
    Name::Source(x)
}

/// Copies a substitution.
#[verifier::loop_isolation(false)]
pub fn copy_sub(sub: &Vec<(u32, Name)>) -> (r: Vec<(u32, Name)>)
    ensures
        r@ == sub@,
{
    let mut out: Vec<(u32, Name)> = Vec::new();
    let n = sub.len();
    let mut i: usize = 0;
    while i < n
        invariant
            i <= n,
            out@ == sub@.subrange(0, i as int),
        decreases n - i,
    {
        out.push(sub[i]);
        i += 1;
    }
    proof {
        assert(out@ =~= sub@);
    }
    out
}

/// Unites two name sets.
#[verifier::loop_isolation(false)]
pub fn ns_union(a: NameSet, b: &NameSet) -> (r: NameSet)
    ensures
        name_set_elems(r) == name_set_elems(a).union(name_set_elems(*b)),
{
    let mut out = a;
    let ghost a0 = name_set_elems(out);
    let bs = b.to_sorted_vec();
    let n = bs.len();
    let mut i: usize = 0;
    while i < n
        invariant
            i <= n,
            forall|x: u32| #![auto] a0.contains(x) ==> name_set_elems(out).contains(x),
            forall|j: int| #![auto] 0 <= j < i ==> name_set_elems(out).contains(bs@[j]),
            forall|x: u32| #![auto]
                name_set_elems(out).contains(x) ==> a0.contains(x) || bs@.contains(x),
        decreases n - i,
    {
        proof {
            assert(bs@.contains(bs@[i as int]));
        }
        out.insert_mut(bs[i]);
        i += 1;
    }
    proof {
        assert forall|x: u32|
            name_set_elems(out).contains(x) <==> a0.union(name_set_elems(*b)).contains(x) by {
            if name_set_elems(*b).contains(x) {
                assert(bs@.contains(x));
                let j = choose|j: int| 0 <= j < bs@.len() && bs@[j] == x;
                assert(name_set_elems(out).contains(bs@[j]));
            }
            if bs@.contains(x) {
                assert(name_set_elems(*b).contains(x));
            }
        }
        assert(name_set_elems(out) =~= a0.union(name_set_elems(*b)));
    }
    out
}

/// Removes the second set's names from the first.
#[verifier::loop_isolation(false)]
pub fn ns_subtract(a: NameSet, b: &NameSet) -> (r: NameSet)
    ensures
        name_set_elems(r) == name_set_elems(a).difference(name_set_elems(*b)),
{
    let mut out = a;
    let ghost a0 = name_set_elems(out);
    let bs = b.to_sorted_vec();
    let n = bs.len();
    let mut i: usize = 0;
    while i < n
        invariant
            i <= n,
            forall|x: u32| #![auto] name_set_elems(out).contains(x) ==> a0.contains(x),
            forall|j: int| #![auto] 0 <= j < i ==> !name_set_elems(out).contains(bs@[j]),
            forall|x: u32| #![auto]
                a0.contains(x) && !bs@.contains(x) ==> name_set_elems(out).contains(x),
        decreases n - i,
    {
        proof {
            assert(bs@.contains(bs@[i as int]));
        }
        out.remove_mut(bs[i]);
        i += 1;
    }
    proof {
        assert forall|x: u32|
            name_set_elems(out).contains(x) <==> a0.difference(name_set_elems(*b)).contains(
            x,
        ) by {
            if name_set_elems(*b).contains(x) {
                assert(bs@.contains(x));
                let j = choose|j: int| 0 <= j < bs@.len() && bs@[j] == x;
                assert(!name_set_elems(out).contains(bs@[j]));
            }
            if bs@.contains(x) {
                assert(name_set_elems(*b).contains(x));
            }
        }
        assert(name_set_elems(out) =~= a0.difference(name_set_elems(*b)));
    }
    out
}

/// Keeps only the names present in both sets.
#[verifier::loop_isolation(false)]
pub fn ns_intersection(a: &NameSet, b: &NameSet) -> (r: NameSet)
    ensures
        name_set_elems(r) == name_set_elems(*a).intersect(name_set_elems(*b)),
{
    let mut out = NameSet::new();
    let vs = a.to_sorted_vec();
    let n = vs.len();
    let mut i: usize = 0;
    while i < n
        invariant
            i <= n,
            forall|x: u32| #![auto]
                name_set_elems(out).contains(x) ==> name_set_elems(*a).contains(x)
                    && name_set_elems(*b).contains(x),
            forall|j: int| #![auto]
                0 <= j < i && name_set_elems(*b).contains(vs@[j]) ==> name_set_elems(
                    out,
                ).contains(vs@[j]),
        decreases n - i,
    {
        proof {
            assert(vs@.contains(vs@[i as int]));
        }
        if b.contains(vs[i]) {
            out.insert_mut(vs[i]);
        }
        i += 1;
    }
    proof {
        assert forall|x: u32|
            name_set_elems(out).contains(x) <==> name_set_elems(*a).intersect(
            name_set_elems(*b),
        ).contains(x) by {
            if name_set_elems(*a).contains(x) {
                assert(vs@.contains(x));
                let j = choose|j: int| 0 <= j < vs@.len() && vs@[j] == x;
                if name_set_elems(*b).contains(x) {
                    assert(name_set_elems(out).contains(vs@[j]));
                }
            }
            if vs@.contains(x) {
                assert(name_set_elems(*a).contains(x));
            }
        }
        assert(name_set_elems(out) =~= name_set_elems(*a).intersect(name_set_elems(*b)));
    }
    out
}

/// `seq_source_uses` distributes over `push`.
pub proof fn lemma_seq_uses_push(s: Seq<Expr>, e: Expr)
    ensures
        seq_source_uses(s.push(e)) == seq_source_uses(s).union(source_uses(e)),
    decreases s.len(),
{
    reveal_with_fuel(seq_source_uses, 2);
    if s.len() == 0 {
        assert(s.push(e)[0] == e);
        assert(s.push(e).subrange(1, 1) =~= Seq::<Expr>::empty());
        assert(seq_source_uses(s.push(e)) == source_uses(e).union(
            seq_source_uses(s.push(e).subrange(1, 1)),
        ));
        assert(seq_source_uses(Seq::<Expr>::empty()) == Set::<u32>::empty());
        assert(seq_source_uses(s.push(e)) =~= seq_source_uses(s).union(source_uses(e)));
    } else {
        assert(s.push(e)[0] == s[0]);
        assert(s.push(e).subrange(1, s.push(e).len() as int) =~= s.subrange(
            1,
            s.len() as int,
        ).push(e));
        lemma_seq_uses_push(s.subrange(1, s.len() as int), e);
        assert(seq_source_uses(s.push(e)) =~= seq_source_uses(s).union(source_uses(e)));
    }
}

/// Each element's uses are among the sequence's uses.
pub proof fn lemma_seq_uses_element(s: Seq<Expr>, k: int)
    requires
        0 <= k < s.len(),
    ensures
        source_uses(s[k]).subset_of(seq_source_uses(s)),
    decreases s.len(),
{
    if k == 0 {
    } else {
        lemma_seq_uses_element(s.subrange(1, s.len() as int), k - 1);
        assert(s.subrange(1, s.len() as int)[k - 1] == s[k]);
    }
}

/// The result of normalizing one expression: the rewritten expression
/// and the set of source names it binds for what follows it.
pub type NormResult = Result<(Expr, NameSet), NormError>;

/// Rewrites an expression so that every binder is a fresh name and
/// every repeated binding of a source name becomes an explicit
/// strict-equality check against the earlier binding, failing with a
/// badmatch carrying the later value. `known` is the set of names
/// bound at this point, `sub` maps each source name bound during
/// normalization to its current fresh alias, and `pre` is the set of
/// names that were bound before normalization began.
#[verifier::loop_isolation(false)]
pub fn norm_expr(
    ctx: &mut FunctionContext,
    known: &Known,
    sub: &mut Vec<(u32, Name)>,
    e: Expr,
    pre: Ghost<Set<u32>>,
) -> (r: NormResult)
    requires
        sub_ok(old(sub)@),
        known_ok(*known, pre@, sub_dom(old(sub)@)),
    ensures
        sub_ok(final(sub)@),
        sub_dom(old(sub)@).subset_of(sub_dom(final(sub)@)),
        old(ctx).var_counter <= final(ctx).var_counter,
        match r {
            Err(NormError::UnboundVar(x)) => source_uses(e).contains(x),
            Err(NormError::TooManyVars) => final(ctx).var_counter == u32::MAX,
            Ok(_) => true,
        },
        match r {
            Ok((out, new)) => {
                &&& binders_fresh(out)
                &&& source_uses(out).subset_of(pre@.difference(sub_dom(old(sub)@)))
                &&& name_set_elems(new).subset_of(sub_dom(final(sub)@))
            },
            Err(_) => true,
        },
        old(sub)@.len() == 0 && binders_fresh(e) ==> final(sub)@.len() == 0,
        old(sub)@.len() == 0 && binders_fresh(e) ==> match r {
            Ok((out, _new)) => expr_eq_spec(out, e),
            Err(_) => true,
        },
        match r {
            Ok((_out, new)) => name_set_elems(new) == source_binds(e),
            Err(_) => true,
        },
        (match e {
            Expr::Match(p0, rhs0) => match p0 {
                Name::Source(x) => match r {
                    Ok((out, _new)) => {
                        let subf = final(sub)@;
                        let prior = lookup_spec(subf.drop_last(), x);
                        &&& subf.len() > 0
                        &&& subf.last().0 == x
                        &&& subf.last().1 is Fresh
                        &&& if known.ks_elems().contains(x) || source_binds(*rhs0).contains(x) {
                            match out {
                                Expr::Body(bs) => {
                                    &&& bs@.len() == 2
                                    &&& (match bs@[0] {
                                        Expr::Match(pf, _) => pf == subf.last().1,
                                        _ => false,
                                    })
                                    &&& bs@[1] == Expr::EqGuard(subf.last().1, prior)
                                },
                                _ => false,
                            }
                        } else {
                            match out {
                                Expr::Match(pf, _) => pf == subf.last().1,
                                _ => false,
                            }
                        }
                    },
                    Err(_) => true,
                },
                _ => true,
            },
            _ => true,
        }),
    decreases e, 0int,
{
    match e {
        Expr::Var(n) => {
            match n {
                Name::Fresh(f) => Ok((Expr::Var(Name::Fresh(f)), NameSet::new())),
                Name::Source(x) => {
                    if !known.contains(x) {
                        return Err(NormError::UnboundVar(x));
                    }
                    let alias = lookup(sub, x);
                    Ok((Expr::Var(alias), NameSet::new()))
                },
            }
        },
        Expr::Lit(l) => Ok((Expr::Lit(l), NameSet::new())),
        Expr::EqGuard(a, b) => {
            let a2 = match a {
                Name::Fresh(f) => Name::Fresh(f),
                Name::Source(x) => {
                    if !known.contains(x) {
                        return Err(NormError::UnboundVar(x));
                    }
                    lookup(sub, x)
                },
            };
            let b2 = match b {
                Name::Fresh(f) => Name::Fresh(f),
                Name::Source(x) => {
                    if !known.contains(x) {
                        return Err(NormError::UnboundVar(x));
                    }
                    lookup(sub, x)
                },
            };
            Ok((Expr::EqGuard(a2, b2), NameSet::new()))
        },
        Expr::Match(p, rhs) => {
            proof {
                assert(decreases_to!(e => *rhs));
            }
            let (r2, new_r) = match norm_expr(ctx, known, sub, *rhs, pre) {
                Ok(v) => v,
                Err(err) => {
                    return Err(err);
                },
            };
            match p {
                Name::Fresh(f) => {
                    Ok((Expr::Match(Name::Fresh(f), Box::new(r2)), new_r))
                },
                Name::Source(x) => {
                    if ctx.var_counter == u32::MAX {
                        return Err(NormError::TooManyVars);
                    }
                    let fresh = ctx.next_var();
                    let was_known = known.contains(x) || new_r.contains(x);
                    let prior = lookup(sub, x);
                    let ghost sub1 = sub@;
                    sub.push((x, fresh));
                    proof {
                        assert(sub@.drop_last() =~= sub1);
                        assert(sub@.last() == (x, fresh));
                    }
                    proof {
                        assert forall|y: u32|
                            sub_dom(sub1).insert(x).contains(y) implies sub_dom(
                            sub@,
                        ).contains(y) by {
                            if y == x {
                                assert(sub@[sub@.len() - 1].0 == x);
                            } else {
                                let j = choose|j: int| 0 <= j < sub1.len() && sub1[j].0 == y;
                                assert(sub@[j].0 == y);
                            }
                        }
                        assert forall|j: int| 0 <= j < sub@.len() implies sub@[j].1 is Fresh by {
                            if j < sub@.len() - 1 {
                                assert(sub1[j].1 is Fresh);
                            }
                        }
                        assert(sub_dom(sub@).contains(x)) by {
                            assert(sub@[sub@.len() - 1].0 == x);
                        }
                    }
                    let mut new = new_r;
                    new.insert_mut(x);
                    let m = Expr::Match(fresh, Box::new(r2));
                    if was_known {
                        let g = Expr::EqGuard(fresh, prior);
                        let mut body: Vec<Expr> = Vec::new();
                        body.push(m);
                        body.push(g);
                        proof {
                            assert(seq_binders_fresh(body@));
                            lemma_seq_uses_push(body@.subrange(0, 1), g);
                            assert(body@.subrange(0, 1).push(g) =~= body@);
                            lemma_seq_uses_push(Seq::<Expr>::empty(), m);
                            assert(Seq::<Expr>::empty().push(m) =~= body@.subrange(0, 1));
                            assert(seq_source_uses(Seq::<Expr>::empty()) =~= Set::<u32>::empty());
                        }
                        Ok((Expr::Body(body), new))
                    } else {
                        Ok((m, new))
                    }
                },
            }
        },
        Expr::Body(es) => {
            let ghost esv = es;
            proof {
                assert(decreases_to!(e => esv));
            }
            let mut rest = es;
            let mut rev: Vec<Expr> = Vec::new();
            while rest.len() > 0
                invariant
                    rev@.len() + rest@.len() == esv@.len(),
                    rest@ == esv@.subrange(0, rest@.len() as int),
                    forall|j: int| #![auto]
                        0 <= j < rev@.len() ==> rev@[j] == esv@[esv@.len() - 1 - j],
                decreases rest@.len(),
            {
                let x = match rest.pop() {
                    Some(x) => x,
                    None => vstd::pervasive::unreached(),
                };
                rev.push(x);
            }
            let mut k = known.duplicate();
            let mut out: Vec<Expr> = Vec::new();
            let mut new_acc = NameSet::new();
            while rev.len() > 0
                invariant
                    out@.len() + rev@.len() == esv@.len(),
                    forall|j: int| #![auto]
                        0 <= j < rev@.len() ==> rev@[j] == esv@[esv@.len() - 1 - j],
                    sub_ok(sub@),
                    sub_dom(old(sub)@).subset_of(sub_dom(sub@)),
                    known_ok(k, pre@, sub_dom(sub@)),
                    old(ctx).var_counter <= ctx.var_counter,
                    seq_binders_fresh(out@),
                    seq_source_uses(out@).subset_of(pre@.difference(sub_dom(old(sub)@))),
                    name_set_elems(new_acc).subset_of(sub_dom(sub@)),
                    name_set_elems(new_acc) == seq_source_binds(
                        esv@.subrange(0, out@.len() as int),
                    ),
                    old(sub)@.len() == 0 && binders_fresh(e) ==> sub@.len() == 0 && (forall|
                        j: int,
                    |
                        0 <= j < out@.len() ==> expr_eq_spec(out@[j], esv@[j])),
                decreases rev@.len(),
            {
                let x = match rev.pop() {
                    Some(x) => x,
                    None => vstd::pervasive::unreached(),
                };
                proof {
                    assert(decreases_to!(esv@ => x));
                    assert(decreases_to!(esv => esv@));
                    assert(x == esv@[out@.len() as int]);
                    if old(sub)@.len() == 0 && binders_fresh(e) {
                        assert(seq_binders_fresh(esv@));
                        assert(binders_fresh(x));
                    }
                }
                let ghost prefix = esv@.subrange(0, out@.len() as int);
                proof {
                    lemma_seq_uses_element(esv@, out@.len() as int);
                }
                let (x2, new_x) = match norm_expr(ctx, &k, sub, x, pre) {
                    Ok(v) => v,
                    Err(err) => {
                        return Err(err);
                    },
                };
                proof {
                    lemma_seq_uses_push(out@, x2);
                    lemma_seq_binds_push(prefix, x);
                    assert(prefix.push(x) =~= esv@.subrange(0, out@.len() as int + 1));
                }
                out.push(x2);
                k = k.union(&new_x);
                new_acc = ns_union(new_acc, &new_x);
                proof {
                    assert(name_set_elems(new_acc) =~= seq_source_binds(
                        esv@.subrange(0, out@.len() as int),
                    ));
                }
            }
            proof {
                assert(esv@.subrange(0, out@.len() as int) =~= esv@);
                if old(sub)@.len() == 0 && binders_fresh(e) {
                    assert(expr_seq_eq_spec(out@, esv@));
                }
            }
            Ok((Expr::Body(out), new_acc))
        },
        Expr::CallOp(op, l, r) => {
            proof {
                assert(decreases_to!(e => *l));
                assert(decreases_to!(e => *r));
            }
            let mut k = known.duplicate();
            k.start_group();
            let (l2, new_l) = match norm_expr(ctx, &k, sub, *l, pre) {
                Ok(v) => v,
                Err(err) => {
                    return Err(err);
                },
            };
            let mut k2 = k.union(&new_l);
            k2.end_body();
            let (r2, new_r) = match norm_expr(ctx, &k2, sub, *r, pre) {
                Ok(v) => v,
                Err(err) => {
                    return Err(err);
                },
            };
            let new = ns_union(new_l, &new_r);
            Ok((Expr::CallOp(op, Box::new(l2), Box::new(r2)), new))
        },
        Expr::TupleExpr(es) => {
            let ghost esv = es;
            proof {
                assert(decreases_to!(e => esv));
            }
            let mut rest = es;
            let mut rev: Vec<Expr> = Vec::new();
            while rest.len() > 0
                invariant
                    rev@.len() + rest@.len() == esv@.len(),
                    rest@ == esv@.subrange(0, rest@.len() as int),
                    forall|j: int| #![auto]
                        0 <= j < rev@.len() ==> rev@[j] == esv@[esv@.len() - 1 - j],
                decreases rest@.len(),
            {
                let x = match rest.pop() {
                    Some(x) => x,
                    None => vstd::pervasive::unreached(),
                };
                rev.push(x);
            }
            let mut k = known.duplicate();
            k.start_group();
            let mut out: Vec<Expr> = Vec::new();
            let mut new_acc = NameSet::new();
            while rev.len() > 0
                invariant
                    out@.len() + rev@.len() == esv@.len(),
                    forall|j: int| #![auto]
                        0 <= j < rev@.len() ==> rev@[j] == esv@[esv@.len() - 1 - j],
                    sub_ok(sub@),
                    sub_dom(old(sub)@).subset_of(sub_dom(sub@)),
                    known_ok(k, pre@, sub_dom(sub@)),
                    old(ctx).var_counter <= ctx.var_counter,
                    seq_binders_fresh(out@),
                    seq_source_uses(out@).subset_of(pre@.difference(sub_dom(old(sub)@))),
                    name_set_elems(new_acc).subset_of(sub_dom(sub@)),
                    name_set_elems(new_acc) == seq_source_binds(
                        esv@.subrange(0, out@.len() as int),
                    ),
                    old(sub)@.len() == 0 && binders_fresh(e) ==> sub@.len() == 0 && (forall|
                        j: int,
                    |
                        0 <= j < out@.len() ==> expr_eq_spec(out@[j], esv@[j])),
                decreases rev@.len(),
            {
                let x = match rev.pop() {
                    Some(x) => x,
                    None => vstd::pervasive::unreached(),
                };
                proof {
                    assert(decreases_to!(esv@ => x));
                    assert(decreases_to!(esv => esv@));
                    assert(x == esv@[out@.len() as int]);
                    if old(sub)@.len() == 0 && binders_fresh(e) {
                        assert(seq_binders_fresh(esv@));
                        assert(binders_fresh(x));
                    }
                }
                let ghost prefix = esv@.subrange(0, out@.len() as int);
                proof {
                    lemma_seq_uses_element(esv@, out@.len() as int);
                }
                let (x2, new_x) = match norm_expr(ctx, &k, sub, x, pre) {
                    Ok(v) => v,
                    Err(err) => {
                        return Err(err);
                    },
                };
                proof {
                    lemma_seq_uses_push(out@, x2);
                    lemma_seq_binds_push(prefix, x);
                    assert(prefix.push(x) =~= esv@.subrange(0, out@.len() as int + 1));
                }
                out.push(x2);
                k = k.union(&new_x);
                k.end_body();
                new_acc = ns_union(new_acc, &new_x);
                proof {
                    assert(name_set_elems(new_acc) =~= seq_source_binds(
                        esv@.subrange(0, out@.len() as int),
                    ));
                }
            }
            proof {
                assert(esv@.subrange(0, out@.len() as int) =~= esv@);
                if old(sub)@.len() == 0 && binders_fresh(e) {
                    assert(expr_seq_eq_spec(out@, esv@));
                }
            }
            Ok((Expr::TupleExpr(out), new_acc))
        },
        Expr::Fun(b) => {
            proof {
                assert(decreases_to!(e => *b));
            }
            let b2 = match norm_fun(ctx, known, sub, *b, pre) {
                Ok(v) => v,
                Err(err) => {
                    return Err(err);
                },
            };
            Ok((Expr::Fun(Box::new(b2)), NameSet::new()))
        },
        Expr::ReceiveExpr { pat, body, timeout, after } => {
            proof {
                assert(decreases_to!(e => *body));
                assert(decreases_to!(e => *after));
            }
            let pat2 = match pat {
                Name::Fresh(f) => Name::Fresh(f),
                Name::Source(x) => {
                    if ctx.var_counter == u32::MAX {
                        return Err(NormError::TooManyVars);
                    }
                    let fresh = ctx.next_var();
                    sub.push((x, fresh));
                    proof {
                        assert forall|j: int| 0 <= j < sub@.len() implies sub@[j].1 is Fresh by {
                            if j < sub@.len() - 1 {
                                assert(old(sub)@[j].1 is Fresh);
                            }
                        }
                        assert forall|y: u32|
                            sub_dom(old(sub)@).contains(y) implies sub_dom(sub@).contains(y) by {
                            let j = choose|j: int|
                                0 <= j < old(sub)@.len() && old(sub)@[j].0 == y;
                            assert(sub@[j].0 == y);
                        }
                    }
                    fresh
                },
            };
            let mut bound = NameSet::new();
            match pat {
                Name::Source(x) => {
                    bound.insert_mut(x);
                    proof {
                        assert(sub@[sub@.len() - 1].0 == x);
                        assert(sub_dom(sub@).contains(x));
                    }
                },
                Name::Fresh(_) => {},
            }
            let kb = known.union(&bound);
            let (b2, _newb) = match norm_expr(ctx, &kb, sub, *body, pre) {
                Ok(v) => v,
                Err(err) => {
                    return Err(err);
                },
            };
            let (a2, _newa) = match norm_expr(ctx, known, sub, *after, pre) {
                Ok(v) => v,
                Err(err) => {
                    return Err(err);
                },
            };
            Ok(
                (
                    Expr::ReceiveExpr {
                        pat: pat2,
                        body: Box::new(b2),
                        timeout,
                        after: Box::new(a2),
                    },
                    NameSet::new(),
                ),
            )
        },
    }
}

/// Normalizes one expression from the top of a function body, where
/// no group is open: every binder is renamed to a fresh name, every
/// rebinding of a known name becomes an explicit equality check, and
/// the names the rewritten expression still uses by their source name
/// are the ones that were known on entry. Normalization reaches a
/// fixpoint after one pass: its output has only fresh binders, and on
/// such a tree normalization returns a structurally equal tree.
pub fn normalize_expr(
    ctx: &mut FunctionContext,
    known: &Known,
    e: Expr,
) -> (r: NormResult)
    requires
        known.base_views().len() == 0,
        known.prev_views().len() == 0,
    ensures
        old(ctx).var_counter <= final(ctx).var_counter,
        match r {
            Err(NormError::UnboundVar(x)) => source_uses(e).contains(x),
            Err(NormError::TooManyVars) => final(ctx).var_counter == u32::MAX,
            Ok(_) => true,
        },
        match r {
            Ok((out, _new)) => {
                &&& binders_fresh(out)
                &&& source_uses(out).subset_of(known.ks_elems())
            },
            Err(_) => true,
        },
        binders_fresh(e) ==> match r {
            Ok((out, _new)) => expr_eq_spec(out, e),
            Err(_) => true,
        },
{
    let mut sub: Vec<(u32, Name)> = Vec::new();
    proof {
        assert(sub_dom(sub@) =~= Set::<u32>::empty());
        assert(known_ok(*known, known.ks_elems(), sub_dom(sub@)));
    }
    norm_expr(ctx, known, &mut sub, e, Ghost(known.ks_elems()))
}

/// Normalizes a closure body. The names it may use are restricted to
/// what is visible when entering the closure: the names bound before
/// the enclosing group started, plus the current names not introduced
/// by sibling bodies of that group. The returned body's remaining
/// source-name uses are a subset of exactly that set.
#[verifier::loop_isolation(false)]
pub fn norm_fun(
    ctx: &mut FunctionContext,
    known: &Known,
    sub: &Vec<(u32, Name)>,
    body: Expr,
    pre: Ghost<Set<u32>>,
) -> (r: Result<Expr, NormError>)
    requires
        sub_ok(sub@),
        known_ok(*known, pre@, sub_dom(sub@)),
    ensures
        old(ctx).var_counter <= final(ctx).var_counter,
        match r {
            Err(NormError::UnboundVar(x)) => source_uses(body).contains(x),
            Err(NormError::TooManyVars) => final(ctx).var_counter == u32::MAX,
            Ok(_) => true,
        },
        match r {
            Ok(out) => {
                &&& binders_fresh(out)
                &&& source_uses(out).subset_of(known.enter_fun_elems())
                &&& source_uses(out).subset_of(pre@.difference(sub_dom(sub@)))
            },
            Err(_) => true,
        },
        sub@.len() == 0 && binders_fresh(body) ==> match r {
            Ok(out) => expr_eq_spec(out, body),
            Err(_) => true,
        },
        (match body {
            Expr::Match(p0, rhs0) => match p0 {
                Name::Source(x) => match r {
                    Ok(out) => !(known.enter_fun_elems().contains(x) || source_binds(
                        *rhs0,
                    ).contains(x)) ==> (match out {
                        Expr::Match(pf, _) => pf is Fresh,
                        _ => false,
                    }),
                    Err(_) => true,
                },
                _ => true,
            },
            _ => true,
        }),
    decreases body, 1int,
{
    let fk = known.known_in_fun();
    let mut inner_sub = copy_sub(sub);
    let ghost fpre = fk.ks_elems();
    proof {
        assert(known_ok(fk, fpre, sub_dom(inner_sub@)));
    }
    let (b2, _newb) = match norm_expr(ctx, &fk, &mut inner_sub, body, Ghost(fpre)) {
        Ok(v) => v,
        Err(err) => {
            return Err(err);
        },
    };
    proof {
        assert(fk.ks_elems() == known.enter_fun_elems());
        assert forall|x: u32| source_uses(b2).contains(x) implies pre@.difference(
            sub_dom(sub@),
        ).contains(x) by {
            assert(fpre.contains(x) && !sub_dom(sub@).contains(x));
            assert(known.enter_fun_elems().subset_of(pre@.union(sub_dom(sub@))));
        }
    }
    Ok(b2)
}

} // verus!
