use ssa_ir::context::FunctionContext;
use ssa_ir::cst::{BinOpKind, Expr, Literal, Name};
use ssa_ir::known::Known;
use ssa_ir::normalize::{normalize_expr, NormError};
use ssa_ir::span::SourceSpan;

const X: u32 = 10;
const A: u32 = 20;
const B: u32 = 21;

fn ctx() -> FunctionContext {
    FunctionContext::new(SourceSpan::unknown(), 1, 0)
}

fn known_with(names: &[u32]) -> Known {
    let mut s = ssa_ir::nameset::NameSet::new();
    for n in names {
        s.insert_mut(*n);
    }
    Known::new().union(&s)
}

fn norm(c: &mut FunctionContext, known: &Known, e: Expr) -> Result<Expr, NormError> {
    normalize_expr(c, known, e).map(|(out, _)| out)
}

/// `X = 1, X = 2` becomes two let-bindings to fresh names plus a
/// strict-equality test whose failure raises badmatch of the second
/// binding's value.
#[test]
fn repeated_binding_becomes_fresh_names_and_equality_test() {
    let e = Expr::Body(vec![
        Expr::Match(Name::Source(X), Box::new(Expr::Lit(Literal::Int(1)))),
        Expr::Match(Name::Source(X), Box::new(Expr::Lit(Literal::Int(2)))),
    ]);
    let mut c = ctx();
    let out = norm(&mut c, &Known::new(), e).unwrap();

    let expected = Expr::Body(vec![
        Expr::Match(Name::Fresh(0), Box::new(Expr::Lit(Literal::Int(1)))),
        Expr::Body(vec![
            Expr::Match(Name::Fresh(1), Box::new(Expr::Lit(Literal::Int(2)))),
            Expr::EqGuard(Name::Fresh(1), Name::Fresh(0)),
        ]),
    ]);
    assert_eq!(out, expected);
}

/// `(X=A) + (X=B)` becomes `X0=A; X1=B; assert X1 =:= X0;
/// call +(X0, X1)` with two distinct fresh values.
#[test]
fn rebinding_across_operands_asserts_equality() {
    let e = Expr::CallOp(
        BinOpKind::OpAdd,
        Box::new(Expr::Match(Name::Source(X), Box::new(Expr::Var(Name::Source(A))))),
        Box::new(Expr::Match(Name::Source(X), Box::new(Expr::Var(Name::Source(B))))),
    );
    let mut c = ctx();
    let out = norm(&mut c, &known_with(&[A, B]), e).unwrap();

    let expected = Expr::CallOp(
        BinOpKind::OpAdd,
        Box::new(Expr::Match(Name::Fresh(0), Box::new(Expr::Var(Name::Source(A))))),
        Box::new(Expr::Body(vec![
            Expr::Match(Name::Fresh(1), Box::new(Expr::Var(Name::Source(B)))),
            Expr::EqGuard(Name::Fresh(1), Name::Fresh(0)),
        ])),
    );
    assert_eq!(out, expected);
    // the two bindings are distinct fresh names
    assert_ne!(Name::Fresh(0), Name::Fresh(1));
}

/// Inside `{X = 2, F()}` a closure body `X = 99` allocates a fresh
/// name without any equality test against the sibling's `X`: the
/// sibling's binding is not visible inside the closure.
#[test]
fn closure_does_not_see_sibling_bindings() {
    let e = Expr::TupleExpr(vec![
        Expr::Match(Name::Source(X), Box::new(Expr::Lit(Literal::Int(2)))),
        Expr::Fun(Box::new(Expr::Match(
            Name::Source(X),
            Box::new(Expr::Lit(Literal::Int(99))),
        ))),
    ]);
    let mut c = ctx();
    let out = norm(&mut c, &Known::new(), e).unwrap();

    let expected = Expr::TupleExpr(vec![
        Expr::Match(Name::Fresh(0), Box::new(Expr::Lit(Literal::Int(2)))),
        // inside the closure the binder is fresh and no EqGuard is
        // emitted, because the sibling's X is not known there
        Expr::Fun(Box::new(Expr::Match(
            Name::Fresh(1),
            Box::new(Expr::Lit(Literal::Int(99))),
        ))),
    ]);
    assert_eq!(out, expected);
}

/// A name bound before the group started stays visible inside the
/// closure: rebinding it there still gets the equality test.
#[test]
fn closure_sees_bindings_from_before_the_group() {
    // A = 1, {X = 2, fun() -> A = 7 end}
    let e = Expr::Body(vec![
        Expr::Match(Name::Source(A), Box::new(Expr::Lit(Literal::Int(1)))),
        Expr::TupleExpr(vec![
            Expr::Match(Name::Source(X), Box::new(Expr::Lit(Literal::Int(2)))),
            Expr::Fun(Box::new(Expr::Match(
                Name::Source(A),
                Box::new(Expr::Lit(Literal::Int(7))),
            ))),
        ]),
    ]);
    let mut c = ctx();
    let out = norm(&mut c, &Known::new(), e).unwrap();

    match out {
        Expr::Body(items) => match &items[1] {
            Expr::TupleExpr(elems) => match &elems[1] {
                Expr::Fun(body) => match body.as_ref() {
                    // A is known inside the fun, so the rebinding gets
                    // a guard against A's outer alias
                    Expr::Body(parts) => {
                        assert!(matches!(parts[0], Expr::Match(Name::Fresh(_), _)));
                        assert!(matches!(parts[1], Expr::EqGuard(Name::Fresh(_), Name::Fresh(0))));
                    }
                    other => panic!("expected a guarded rebind, got {:?}", other),
                },
                other => panic!("expected a closure, got {:?}", other),
            },
            other => panic!("expected a tuple, got {:?}", other),
        },
        other => panic!("expected a body, got {:?}", other),
    }
}

/// Re-running the normalizer on its own output changes nothing: the
/// rewrite reaches a fixpoint after one pass.
#[test]
fn normalizer_is_idempotent_on_its_output() {
    let programs = vec![
        Expr::Body(vec![
            Expr::Match(Name::Source(X), Box::new(Expr::Lit(Literal::Int(1)))),
            Expr::Match(Name::Source(X), Box::new(Expr::Lit(Literal::Int(2)))),
        ]),
        Expr::CallOp(
            BinOpKind::OpAdd,
            Box::new(Expr::Match(Name::Source(X), Box::new(Expr::Var(Name::Source(A))))),
            Box::new(Expr::Match(Name::Source(X), Box::new(Expr::Var(Name::Source(B))))),
        ),
        Expr::TupleExpr(vec![
            Expr::Match(Name::Source(X), Box::new(Expr::Lit(Literal::Int(2)))),
            Expr::Fun(Box::new(Expr::Match(
                Name::Source(X),
                Box::new(Expr::Lit(Literal::Int(99))),
            ))),
        ]),
    ];
    for e in programs {
        let mut c1 = ctx();
        let known = known_with(&[A, B]);
        let once = norm(&mut c1, &known, e).unwrap();
        let again = {
            let mut c2 = ctx();
            // re-normalize the already rewritten tree from a fresh
            // context: nothing is renamed again
            let copy = norm(&mut c2, &known, clone_expr(&once)).unwrap();
            copy
        };
        assert_eq!(again, once);
    }
}

/// A use of a name that is not bound is rejected with the offending
/// name.
#[test]
fn unbound_use_is_rejected() {
    let e = Expr::Var(Name::Source(X));
    let mut c = ctx();
    let r = norm(&mut c, &Known::new(), e);
    assert_eq!(r.unwrap_err(), NormError::UnboundVar(X));
}

/// Receive patterns are renamed like any other binder, and the body
/// sees the binding.
#[test]
fn receive_pattern_is_renamed_and_visible_in_body() {
    let e = Expr::ReceiveExpr {
        pat: Name::Source(X),
        body: Box::new(Expr::Var(Name::Source(X))),
        timeout: 100,
        after: Box::new(Expr::Lit(Literal::Atom(3))),
    };
    let mut c = ctx();
    let out = norm(&mut c, &Known::new(), e).unwrap();
    let expected = Expr::ReceiveExpr {
        pat: Name::Fresh(0),
        body: Box::new(Expr::Var(Name::Fresh(0))),
        timeout: 100,
        after: Box::new(Expr::Lit(Literal::Atom(3))),
    };
    assert_eq!(out, expected);
}

/// When the fresh-name counter is exhausted, renaming a binder is
/// rejected rather than wrapping around.
#[test]
fn exhausted_name_counter_is_rejected() {
    let mut c = FunctionContext::new(SourceSpan::unknown(), 1, 0);
    c.var_counter = u32::MAX;
    let e = Expr::Match(Name::Source(X), Box::new(Expr::Lit(Literal::Int(1))));
    let r = norm(&mut c, &Known::new(), e);
    assert_eq!(r.unwrap_err(), NormError::TooManyVars);
}

fn clone_expr(e: &Expr) -> Expr {
    match e {
        Expr::Var(n) => Expr::Var(*n),
        Expr::Lit(l) => Expr::Lit(*l),
        Expr::Match(p, r) => Expr::Match(*p, Box::new(clone_expr(r))),
        Expr::EqGuard(a, b) => Expr::EqGuard(*a, *b),
        Expr::Body(es) => Expr::Body(es.iter().map(clone_expr).collect()),
        Expr::CallOp(op, l, r) => {
            Expr::CallOp(*op, Box::new(clone_expr(l)), Box::new(clone_expr(r)))
        }
        Expr::TupleExpr(es) => Expr::TupleExpr(es.iter().map(clone_expr).collect()),
        Expr::Fun(b) => Expr::Fun(Box::new(clone_expr(b))),
        Expr::ReceiveExpr { pat, body, timeout, after } => Expr::ReceiveExpr {
            pat: *pat,
            body: Box::new(clone_expr(body)),
            timeout: *timeout,
            after: Box::new(clone_expr(after)),
        },
    }
}
