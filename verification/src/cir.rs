use vstd::prelude::*;
use crate::span::Symbol;

verus! {

broadcast use vstd::std_specs::vec::group_vec_axioms, vstd::seq::group_seq_axioms;

/// Types of the typed operation dialect the lowerer emits into:
/// machine integer types, the dialect's tagged term types, and the
/// compound pointer, box, struct, array, tuple and function types.
#[derive(Debug, PartialEq, Eq)]
pub enum CirType {
    NoneTy,
    I1,
    I8,
    I16,
    I32,
    I64,
    Index,
    F64,
    TermBool,
    TermAtom,
    TermIsize,
    TermFloat,
    TermNone,
    TermNil,
    Term,
    TermInteger,
    TermNumber,
    TermBits,
    TermCons,
    TermMap,
    TermReference,
    TermPort,
    TermPid,
    Trace,
    RecvCtx,
    Exception,
    Ptr(Box<CirType>),
    Boxed(Box<CirType>),
    StructTy(Vec<CirType>),
    ArrayTy(Box<CirType>, usize),
    TupleTy(Vec<CirType>),
    FunctionTy(Vec<CirType>, Vec<CirType>),
}

/// Structural equality of dialect types.
pub open spec fn cir_eq_spec(a: CirType, b: CirType) -> bool
    decreases a,
{
    match (a, b) {
        (CirType::NoneTy, CirType::NoneTy) => true,
        (CirType::I1, CirType::I1) => true,
        (CirType::I8, CirType::I8) => true,
        (CirType::I16, CirType::I16) => true,
        (CirType::I32, CirType::I32) => true,
        (CirType::I64, CirType::I64) => true,
        (CirType::Index, CirType::Index) => true,
        (CirType::F64, CirType::F64) => true,
        (CirType::TermBool, CirType::TermBool) => true,
        (CirType::TermAtom, CirType::TermAtom) => true,
        (CirType::TermIsize, CirType::TermIsize) => true,
        (CirType::TermFloat, CirType::TermFloat) => true,
        (CirType::TermNone, CirType::TermNone) => true,
        (CirType::TermNil, CirType::TermNil) => true,
        (CirType::Term, CirType::Term) => true,
        (CirType::TermInteger, CirType::TermInteger) => true,
        (CirType::TermNumber, CirType::TermNumber) => true,
        (CirType::TermBits, CirType::TermBits) => true,
        (CirType::TermCons, CirType::TermCons) => true,
        (CirType::TermMap, CirType::TermMap) => true,
        (CirType::TermReference, CirType::TermReference) => true,
        (CirType::TermPort, CirType::TermPort) => true,
        (CirType::TermPid, CirType::TermPid) => true,
        (CirType::Trace, CirType::Trace) => true,
        (CirType::RecvCtx, CirType::RecvCtx) => true,
        (CirType::Exception, CirType::Exception) => true,
        (CirType::Ptr(x), CirType::Ptr(y)) => cir_eq_spec(*x, *y),
        (CirType::Boxed(x), CirType::Boxed(y)) => cir_eq_spec(*x, *y),
        (CirType::StructTy(xs), CirType::StructTy(ys)) => cir_seq_eq_spec(xs@, ys@),
        (CirType::ArrayTy(x, nx), CirType::ArrayTy(y, ny)) => cir_eq_spec(*x, *y) && nx == ny,
        (CirType::TupleTy(xs), CirType::TupleTy(ys)) => cir_seq_eq_spec(xs@, ys@),
        (CirType::FunctionTy(xs, rs), CirType::FunctionTy(ys, ss)) => cir_seq_eq_spec(xs@, ys@)
            && cir_seq_eq_spec(rs@, ss@),
        _ => false,
    }
}

/// Elementwise structural equality of two sequences of dialect types.
pub open spec fn cir_seq_eq_spec(s1: Seq<CirType>, s2: Seq<CirType>) -> bool
    decreases s1,
{
    s1.len() == s2.len() && (forall|i: int| 0 <= i < s1.len() ==> cir_eq_spec(s1[i], s2[i]))
}

/// Decides structural equality of two dialect types.
#[verifier::loop_isolation(false)]
pub fn cir_eq(a: &CirType, b: &CirType) -> (r: bool)
    ensures
        r == cir_eq_spec(*a, *b),
    decreases *a,
{
    match (a, b) {
        (CirType::NoneTy, CirType::NoneTy) => true,
        (CirType::I1, CirType::I1) => true,
        (CirType::I8, CirType::I8) => true,
        (CirType::I16, CirType::I16) => true,
        (CirType::I32, CirType::I32) => true,
        (CirType::I64, CirType::I64) => true,
        (CirType::Index, CirType::Index) => true,
        (CirType::F64, CirType::F64) => true,
        (CirType::TermBool, CirType::TermBool) => true,
        (CirType::TermAtom, CirType::TermAtom) => true,
        (CirType::TermIsize, CirType::TermIsize) => true,
        (CirType::TermFloat, CirType::TermFloat) => true,
        (CirType::TermNone, CirType::TermNone) => true,
        (CirType::TermNil, CirType::TermNil) => true,
        (CirType::Term, CirType::Term) => true,
        (CirType::TermInteger, CirType::TermInteger) => true,
        (CirType::TermNumber, CirType::TermNumber) => true,
        (CirType::TermBits, CirType::TermBits) => true,
        (CirType::TermCons, CirType::TermCons) => true,
        (CirType::TermMap, CirType::TermMap) => true,
        (CirType::TermReference, CirType::TermReference) => true,
        (CirType::TermPort, CirType::TermPort) => true,
        (CirType::TermPid, CirType::TermPid) => true,
        (CirType::Trace, CirType::Trace) => true,
        (CirType::RecvCtx, CirType::RecvCtx) => true,
        (CirType::Exception, CirType::Exception) => true,
        (CirType::Ptr(x), CirType::Ptr(y)) => cir_eq(x, y),
        (CirType::Boxed(x), CirType::Boxed(y)) => cir_eq(x, y),
        (CirType::StructTy(xs), CirType::StructTy(ys)) => cir_slice_eq(xs, ys),
        (CirType::ArrayTy(x, nx), CirType::ArrayTy(y, ny)) => nx == ny && cir_eq(x, y),
        (CirType::TupleTy(xs), CirType::TupleTy(ys)) => cir_slice_eq(xs, ys),
        (CirType::FunctionTy(xs, rs), CirType::FunctionTy(ys, ss)) => cir_slice_eq(xs, ys)
            && cir_slice_eq(rs, ss),
        _ => false,
    }
}

/// Decides elementwise structural equality of two vectors of dialect
/// types.
#[verifier::loop_isolation(false)]
pub fn cir_slice_eq(xs: &Vec<CirType>, ys: &Vec<CirType>) -> (r: bool)
    ensures
        r == cir_seq_eq_spec(xs@, ys@),
    decreases xs@,
{
    if xs.len() != ys.len() {
        return false;
    }
    let n = xs.len();
    let mut i: usize = 0;
    while i < n
        invariant
            i <= n,
            forall|j: int| 0 <= j < i ==> cir_eq_spec(xs@[j], ys@[j]),
        decreases n - i,
    {
        if !cir_eq(&xs[i], &ys[i]) {
            return false;
        }
        i += 1;
    }
    true
}

/// Deep-copies a dialect type; the copy is structurally equal to the
/// original.
#[verifier::loop_isolation(false)]
pub fn cir_clone(t: &CirType) -> (r: CirType)
    ensures
        cir_eq_spec(r, *t),
    decreases *t,
{
    match t {
        CirType::NoneTy => CirType::NoneTy,
        CirType::I1 => CirType::I1,
        CirType::I8 => CirType::I8,
        CirType::I16 => CirType::I16,
        CirType::I32 => CirType::I32,
        CirType::I64 => CirType::I64,
        CirType::Index => CirType::Index,
        CirType::F64 => CirType::F64,
        CirType::TermBool => CirType::TermBool,
        CirType::TermAtom => CirType::TermAtom,
        CirType::TermIsize => CirType::TermIsize,
        CirType::TermFloat => CirType::TermFloat,
        CirType::TermNone => CirType::TermNone,
        CirType::TermNil => CirType::TermNil,
        CirType::Term => CirType::Term,
        CirType::TermInteger => CirType::TermInteger,
        CirType::TermNumber => CirType::TermNumber,
        CirType::TermBits => CirType::TermBits,
        CirType::TermCons => CirType::TermCons,
        CirType::TermMap => CirType::TermMap,
        CirType::TermReference => CirType::TermReference,
        CirType::TermPort => CirType::TermPort,
        CirType::TermPid => CirType::TermPid,
        CirType::Trace => CirType::Trace,
        CirType::RecvCtx => CirType::RecvCtx,
        CirType::Exception => CirType::Exception,
        CirType::Ptr(x) => CirType::Ptr(Box::new(cir_clone(x))),
        CirType::Boxed(x) => CirType::Boxed(Box::new(cir_clone(x))),
        CirType::StructTy(xs) => CirType::StructTy(cir_clone_slice(xs)),
        CirType::ArrayTy(x, nx) => CirType::ArrayTy(Box::new(cir_clone(x)), *nx),
        CirType::TupleTy(xs) => CirType::TupleTy(cir_clone_slice(xs)),
        CirType::FunctionTy(xs, rs) => CirType::FunctionTy(
            cir_clone_slice(xs),
            cir_clone_slice(rs),
        ),
    }
}

/// Deep-copies a vector of dialect types elementwise.
#[verifier::loop_isolation(false)]
pub fn cir_clone_slice(xs: &Vec<CirType>) -> (r: Vec<CirType>)
    ensures
        cir_seq_eq_spec(r@, xs@),
    decreases xs@,
{
    let mut out: Vec<CirType> = Vec::new();
    let n = xs.len();
    let mut i: usize = 0;
    while i < n
        invariant
            i <= n,
            out@.len() == i,
            forall|j: int| 0 <= j < i ==> cir_eq_spec(out@[j], xs@[j]),
        decreases n - i,
    {
        let c = cir_clone(&xs[i]);
        out.push(c);
        i += 1;
    }
    out
}

/// Structural equality of dialect types is symmetric.
pub proof fn lemma_cir_eq_symmetric(a: CirType, b: CirType)
    ensures
        cir_eq_spec(a, b) == cir_eq_spec(b, a),
    decreases a,
{
    match (a, b) {
        (CirType::Ptr(x), CirType::Ptr(y)) => {
            lemma_cir_eq_symmetric(*x, *y);
        },
        (CirType::Boxed(x), CirType::Boxed(y)) => {
            lemma_cir_eq_symmetric(*x, *y);
        },
        (CirType::ArrayTy(x, _), CirType::ArrayTy(y, _)) => {
            lemma_cir_eq_symmetric(*x, *y);
        },
        (CirType::StructTy(xs), CirType::StructTy(ys)) => {
            lemma_cir_seq_eq_symmetric(xs@, ys@);
        },
        (CirType::TupleTy(xs), CirType::TupleTy(ys)) => {
            lemma_cir_seq_eq_symmetric(xs@, ys@);
        },
        (CirType::FunctionTy(xs, rs), CirType::FunctionTy(ys, ss)) => {
            lemma_cir_seq_eq_symmetric(xs@, ys@);
            lemma_cir_seq_eq_symmetric(rs@, ss@);
        },
        _ => {},
    }
}

/// Elementwise structural equality of dialect type sequences is
/// symmetric.
pub proof fn lemma_cir_seq_eq_symmetric(s1: Seq<CirType>, s2: Seq<CirType>)
    ensures
        cir_seq_eq_spec(s1, s2) == cir_seq_eq_spec(s2, s1),
    decreases s1,
{
    assert forall|i: int| 0 <= i < s1.len() && 0 <= i < s2.len() implies cir_eq_spec(s1[i], s2[i])
        == cir_eq_spec(s2[i], s1[i]) by {
        lemma_cir_eq_symmetric(s1[i], s2[i]);
    }
}

/// Structural equality of dialect types is transitive.
pub proof fn lemma_cir_eq_transitive(a: CirType, b: CirType, c: CirType)
    requires
        cir_eq_spec(a, b),
        cir_eq_spec(b, c),
    ensures
        cir_eq_spec(a, c),
    decreases a,
{
    match (a, b, c) {
        (CirType::Ptr(x), CirType::Ptr(y), CirType::Ptr(z)) => {
            lemma_cir_eq_transitive(*x, *y, *z);
        },
        (CirType::Boxed(x), CirType::Boxed(y), CirType::Boxed(z)) => {
            lemma_cir_eq_transitive(*x, *y, *z);
        },
        (CirType::ArrayTy(x, _), CirType::ArrayTy(y, _), CirType::ArrayTy(z, _)) => {
            lemma_cir_eq_transitive(*x, *y, *z);
        },
        (CirType::StructTy(xs), CirType::StructTy(ys), CirType::StructTy(zs)) => {
            lemma_cir_seq_eq_transitive(xs@, ys@, zs@);
        },
        (CirType::TupleTy(xs), CirType::TupleTy(ys), CirType::TupleTy(zs)) => {
            lemma_cir_seq_eq_transitive(xs@, ys@, zs@);
        },
        (
            CirType::FunctionTy(xs, rs),
            CirType::FunctionTy(ys, ss),
            CirType::FunctionTy(zs, ts),
        ) => {
            lemma_cir_seq_eq_transitive(xs@, ys@, zs@);
            lemma_cir_seq_eq_transitive(rs@, ss@, ts@);
        },
        _ => {},
    }
}

/// Elementwise structural equality of dialect type sequences is
/// transitive.
pub proof fn lemma_cir_seq_eq_transitive(s1: Seq<CirType>, s2: Seq<CirType>, s3: Seq<CirType>)
    requires
        cir_seq_eq_spec(s1, s2),
        cir_seq_eq_spec(s2, s3),
    ensures
        cir_seq_eq_spec(s1, s3),
    decreases s1,
{
    assert forall|i: int| 0 <= i < s1.len() implies cir_eq_spec(s1[i], s3[i]) by {
        lemma_cir_eq_transitive(s1[i], s2[i], s3[i]);
    }
}

/// A runtime built-in invoked by canonical symbol during lowering.
#[derive(Clone, Copy, Debug, PartialEq, Eq, Structural)]
pub enum RuntimeFn {
    Add2,
    Sub2,
    Mul2,
    Fdiv2,
    Div2,
    Rem2,
    Band2,
    Bor2,
    Bxor2,
    Bsl2,
    Bsr2,
    Eq2,
    EqExact2,
    Neq2,
    NeqExact2,
    Lt2,
    Lte2,
    Gt2,
    Gte2,
    Concat2,
    Subtract2,
    Bnot1,
    Neg1,
}

impl RuntimeFn {
    /// The canonical `module:function/arity` symbol of the built-in.
    pub fn symbol_name(&self) -> (r: &'static str)
        ensures
            match self {
                RuntimeFn::Add2 => r@ == "erlang:+/2"@,
                RuntimeFn::Sub2 => r@ == "erlang:-/2"@,
                RuntimeFn::Mul2 => r@ == "erlang:*/2"@,
                RuntimeFn::Fdiv2 => r@ == "erlang:fdiv/2"@,
                RuntimeFn::Div2 => r@ == "erlang:div/2"@,
                RuntimeFn::Rem2 => r@ == "erlang:rem/2"@,
                RuntimeFn::Band2 => r@ == "erlang:band/2"@,
                RuntimeFn::Bor2 => r@ == "erlang:bor/2"@,
                RuntimeFn::Bxor2 => r@ == "erlang:bxor/2"@,
                RuntimeFn::Bsl2 => r@ == "erlang:bsl/2"@,
                RuntimeFn::Bsr2 => r@ == "erlang:bsr/2"@,
                RuntimeFn::Eq2 => r@ == "erlang:==/2"@,
                RuntimeFn::EqExact2 => r@ == "erlang:=:=/2"@,
                RuntimeFn::Neq2 => r@ == "erlang:/=/2"@,
                RuntimeFn::NeqExact2 => r@ == "erlang:=/=/2"@,
                RuntimeFn::Lt2 => r@ == "erlang:</2"@,
                RuntimeFn::Lte2 => r@ == "erlang:=</2"@,
                RuntimeFn::Gt2 => r@ == "erlang:>/2"@,
                RuntimeFn::Gte2 => r@ == "erlang:>=/2"@,
                RuntimeFn::Concat2 => r@ == "erlang:++/2"@,
                RuntimeFn::Subtract2 => r@ == "erlang:--/2"@,
                RuntimeFn::Bnot1 => r@ == "erlang:bnot/1"@,
                RuntimeFn::Neg1 => r@ == "erlang:-/1"@,
            },
    {
        match self {
            RuntimeFn::Add2 => "erlang:+/2",
            RuntimeFn::Sub2 => "erlang:-/2",
            RuntimeFn::Mul2 => "erlang:*/2",
            RuntimeFn::Fdiv2 => "erlang:fdiv/2",
            RuntimeFn::Div2 => "erlang:div/2",
            RuntimeFn::Rem2 => "erlang:rem/2",
            RuntimeFn::Band2 => "erlang:band/2",
            RuntimeFn::Bor2 => "erlang:bor/2",
            RuntimeFn::Bxor2 => "erlang:bxor/2",
            RuntimeFn::Bsl2 => "erlang:bsl/2",
            RuntimeFn::Bsr2 => "erlang:bsr/2",
            RuntimeFn::Eq2 => "erlang:==/2",
            RuntimeFn::EqExact2 => "erlang:=:=/2",
            RuntimeFn::Neq2 => "erlang:/=/2",
            RuntimeFn::NeqExact2 => "erlang:=/=/2",
            RuntimeFn::Lt2 => "erlang:</2",
            RuntimeFn::Lte2 => "erlang:=</2",
            RuntimeFn::Gt2 => "erlang:>/2",
            RuntimeFn::Gte2 => "erlang:>=/2",
            RuntimeFn::Concat2 => "erlang:++/2",
            RuntimeFn::Subtract2 => "erlang:--/2",
            RuntimeFn::Bnot1 => "erlang:bnot/1",
            RuntimeFn::Neg1 => "erlang:-/1",
        }
    }
}

/// A callee symbol the dialect refers to: a fully qualified user
/// function or a canonical runtime built-in.
#[derive(Clone, Copy, Debug, PartialEq, Eq, Structural)]
pub enum FuncSymbol {
    Mfa(Symbol, Symbol, u8),
    Runtime(RuntimeFn),
}

} // verus!
