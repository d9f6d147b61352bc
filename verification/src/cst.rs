use vstd::prelude::*;

verus! {

broadcast use vstd::std_specs::vec::group_vec_axioms, vstd::seq::group_seq_axioms;

/// A variable name of the core tree: a source-language name, or a
/// fresh name allocated by the normalizer. Fresh names live in their
/// own namespace, so a fresh name can never collide with a source
/// name.
#[derive(Clone, Copy, Debug, PartialEq, Eq, Structural)]
pub enum Name {
    Source(u32),
    Fresh(u32),
}

/// A literal of the core tree.
#[derive(Clone, Copy, Debug, PartialEq, Eq, Structural)]
pub enum Literal {
    Int(i64),
    Atom(u32),
    Nil,
}

/// The binary operators the core tree calls through the runtime.
#[derive(Clone, Copy, Debug, PartialEq, Eq, Structural)]
pub enum BinOpKind {
    OpAdd,
    OpSub,
    OpMul,
    OpEq,
}

/// The core expression tree the scope normalizer works on. A `Match`
/// binds its name to the value of its argument; an `EqGuard` is a
/// synthesized strict-equality assertion that raises a badmatch error
/// carrying its first name's value when the two values differ. The
/// operands of an operator and the elements of a tuple form a group
/// of sibling bodies that may be evaluated in any order.
#[derive(Debug, PartialEq, Eq)]
pub enum Expr {
    Var(Name),
    Lit(Literal),
    Match(Name, Box<Expr>),
    EqGuard(Name, Name),
    Body(Vec<Expr>),
    CallOp(BinOpKind, Box<Expr>, Box<Expr>),
    TupleExpr(Vec<Expr>),
    Fun(Box<Expr>),
    ReceiveExpr { pat: Name, body: Box<Expr>, timeout: i64, after: Box<Expr> },
}

/// The source name a name carries, if it is a source name.
pub open spec fn source_of(n: Name) -> Set<u32> {
    match n {
        Name::Source(x) => Set::empty().insert(x),
        Name::Fresh(_) => Set::empty(),
    }
}

/// All source names used (not bound) anywhere in an expression. The
/// normalizer renames every binder to a fresh name and substitutes its
/// uses, so the source names remaining in its output are exactly the
/// uses of names that were bound before the expression.
pub open spec fn source_uses(e: Expr) -> Set<u32>
    decreases e,
{
    match e {
        Expr::Var(n) => source_of(n),
        Expr::Lit(_) => Set::empty(),
        Expr::Match(_, r) => source_uses(*r),
        Expr::EqGuard(a, b) => source_of(a).union(source_of(b)),
        Expr::Body(es) => seq_source_uses(es@),
        Expr::CallOp(_, l, r) => source_uses(*l).union(source_uses(*r)),
        Expr::TupleExpr(es) => seq_source_uses(es@),
        Expr::Fun(b) => source_uses(*b),
        Expr::ReceiveExpr { pat: _, body, timeout: _, after } => source_uses(*body).union(
            source_uses(*after),
        ),
    }
}

/// All source names used anywhere in a sequence of expressions.
pub open spec fn seq_source_uses(s: Seq<Expr>) -> Set<u32>
    decreases s,
{
    if s.len() == 0 {
        Set::empty()
    } else {
        source_uses(s[0]).union(seq_source_uses(s.subrange(1, s.len() as int)))
    }
}

/// Every binder of the expression is a fresh name: the shape the
/// normalizer's output is in, and the shape it leaves unchanged.
pub open spec fn binders_fresh(e: Expr) -> bool
    decreases e,
{
    match e {
        Expr::Var(_) => true,
        Expr::Lit(_) => true,
        Expr::Match(p, r) => (p is Fresh) && binders_fresh(*r),
        Expr::EqGuard(_, _) => true,
        Expr::Body(es) => seq_binders_fresh(es@),
        Expr::CallOp(_, l, r) => binders_fresh(*l) && binders_fresh(*r),
        Expr::TupleExpr(es) => seq_binders_fresh(es@),
        Expr::Fun(b) => binders_fresh(*b),
        Expr::ReceiveExpr { pat, body, timeout: _, after } => (pat is Fresh) && binders_fresh(
            *body,
        ) && binders_fresh(*after),
    }
}

/// Every binder of every expression in the sequence is fresh.
pub open spec fn seq_binders_fresh(s: Seq<Expr>) -> bool
    decreases s,
{
    forall|i: int| 0 <= i < s.len() ==> binders_fresh(s[i])
}


/// All source names an expression binds for the code that follows it:
/// the source-named binders of its matches, at any depth outside
/// closures and receives (closure-body bindings do not escape, and a
/// receive's binding is local to its own body).
pub open spec fn source_binds(e: Expr) -> Set<u32>
    decreases e,
{
    match e {
        Expr::Var(_) => Set::empty(),
        Expr::Lit(_) => Set::empty(),
        Expr::Match(p, r) => source_binds(*r).union(source_of(p)),
        Expr::EqGuard(_, _) => Set::empty(),
        Expr::Body(es) => seq_source_binds(es@),
        Expr::CallOp(_, l, r) => source_binds(*l).union(source_binds(*r)),
        Expr::TupleExpr(es) => seq_source_binds(es@),
        Expr::Fun(_) => Set::empty(),
        Expr::ReceiveExpr { .. } => Set::empty(),
    }
}

/// All source names a sequence of expressions binds.
pub open spec fn seq_source_binds(s: Seq<Expr>) -> Set<u32>
    decreases s,
{
    if s.len() == 0 {
        Set::empty()
    } else {
        source_binds(s[0]).union(seq_source_binds(s.subrange(1, s.len() as int)))
    }
}

/// Structural equality of core expressions.
pub open spec fn expr_eq_spec(a: Expr, b: Expr) -> bool
    decreases a,
{
    match (a, b) {
        (Expr::Var(x), Expr::Var(y)) => x == y,
        (Expr::Lit(x), Expr::Lit(y)) => x == y,
        (Expr::Match(p, r), Expr::Match(q, s)) => p == q && expr_eq_spec(*r, *s),
        (Expr::EqGuard(x1, y1), Expr::EqGuard(x2, y2)) => x1 == x2 && y1 == y2,
        (Expr::Body(xs), Expr::Body(ys)) => expr_seq_eq_spec(xs@, ys@),
        (Expr::CallOp(o1, l1, r1), Expr::CallOp(o2, l2, r2)) => o1 == o2 && expr_eq_spec(*l1, *l2)
            && expr_eq_spec(*r1, *r2),
        (Expr::TupleExpr(xs), Expr::TupleExpr(ys)) => expr_seq_eq_spec(xs@, ys@),
        (Expr::Fun(x), Expr::Fun(y)) => expr_eq_spec(*x, *y),
        (
            Expr::ReceiveExpr { pat: p1, body: b1, timeout: t1, after: a1 },
            Expr::ReceiveExpr { pat: p2, body: b2, timeout: t2, after: a2 },
        ) => p1 == p2 && t1 == t2 && expr_eq_spec(*b1, *b2) && expr_eq_spec(*a1, *a2),
        _ => false,
    }
}

/// Elementwise structural equality of two sequences of expressions.
pub open spec fn expr_seq_eq_spec(s1: Seq<Expr>, s2: Seq<Expr>) -> bool
    decreases s1,
{
    s1.len() == s2.len() && (forall|i: int| 0 <= i < s1.len() ==> expr_eq_spec(s1[i], s2[i]))
}

} // verus!
