use vstd::prelude::*;
use crate::cir::CirType;
use crate::function::Signature;
use crate::types::{PrimitiveType, TermType, Type};

verus! {

broadcast use vstd::std_specs::vec::group_vec_axioms, vstd::seq::group_seq_axioms;

/// The dialect type a primitive type translates to.
pub open spec fn prim_tx(a: PrimitiveType, c: CirType) -> bool
    decreases a,
{
    match (a, c) {
        (PrimitiveType::Void, CirType::NoneTy) => true,
        (PrimitiveType::I1, CirType::I1) => true,
        (PrimitiveType::I8, CirType::I8) => true,
        (PrimitiveType::I16, CirType::I16) => true,
        (PrimitiveType::I32, CirType::I32) => true,
        (PrimitiveType::I64, CirType::I64) => true,
        (PrimitiveType::Isize, CirType::Index) => true,
        (PrimitiveType::F64, CirType::F64) => true,
        (PrimitiveType::Ptr(x), CirType::Ptr(y)) => prim_tx(*x, *y),
        (PrimitiveType::Struct(xs), CirType::StructTy(ys)) => prim_seq_tx(xs@, ys@),
        (PrimitiveType::Array(x, nx), CirType::ArrayTy(y, ny)) => prim_tx(*x, *y) && nx == ny,
        _ => false,
    }
}

/// Elementwise translation of a sequence of primitive types.
pub open spec fn prim_seq_tx(s: Seq<PrimitiveType>, cs: Seq<CirType>) -> bool
    decreases s,
{
    s.len() == cs.len() && (forall|i: int| 0 <= i < s.len() ==> prim_tx(s[i], cs[i]))
}

/// The dialect type a term type translates to when function types are
/// not expanded: fun terms stay opaque terms.
pub open spec fn term_tx_shallow(nanboxed: bool, a: TermType, c: CirType) -> bool
    decreases a,
{
    match (a, c) {
        (TermType::Any, CirType::Term) => true,
        (TermType::Bool, CirType::TermBool) => true,
        (TermType::Integer, CirType::TermInteger) => true,
        (TermType::Float, CirType::TermFloat) => nanboxed,
        (TermType::Float, CirType::Boxed(inner)) => !nanboxed && *inner == CirType::TermFloat,
        (TermType::Number, CirType::TermNumber) => true,
        (TermType::Atom, CirType::TermAtom) => true,
        (TermType::Bitstring, CirType::Boxed(inner)) => *inner == CirType::TermBits,
        (TermType::Binary, CirType::Boxed(inner)) => *inner == CirType::TermBits,
        (TermType::Nil, CirType::TermNil) => true,
        (TermType::Cons, CirType::Boxed(inner)) => *inner == CirType::TermCons,
        (TermType::List(_), CirType::Boxed(inner)) => *inner == CirType::TermCons,
        (TermType::MaybeImproperList, CirType::Boxed(inner)) => *inner == CirType::TermCons,
        (TermType::Tuple(None), CirType::Boxed(inner)) => {
            match *inner {
                CirType::TupleTy(ys) => ys@.len() == 0,
                _ => false,
            }
        },
        (TermType::Tuple(Some(xs)), CirType::Boxed(inner)) => {
            match *inner {
                CirType::TupleTy(ys) => term_seq_tx_shallow(nanboxed, xs@, ys@),
                _ => false,
            }
        },
        (TermType::MapTerm, CirType::Boxed(inner)) => *inner == CirType::TermMap,
        (TermType::Reference, CirType::TermReference) => true,
        (TermType::Port, CirType::TermPort) => true,
        (TermType::Pid, CirType::TermPid) => true,
        (TermType::Fun(_), CirType::Term) => true,
        _ => false,
    }
}

/// Elementwise shallow translation of a sequence of term types.
pub open spec fn term_seq_tx_shallow(nanboxed: bool, s: Seq<TermType>, cs: Seq<CirType>) -> bool
    decreases s,
{
    s.len() == cs.len() && (forall|i: int|
        0 <= i < s.len() ==> term_tx_shallow(nanboxed, s[i], cs[i]))
}

/// The dialect type a type translates to when function types are not
/// expanded.
pub open spec fn type_tx_shallow(nanboxed: bool, a: Type, c: CirType) -> bool {
    match (a, c) {
        (Type::Invalid, CirType::NoneTy) => true,
        (Type::NoReturn, CirType::NoneTy) => true,
        (Type::Primitive(x), _) => prim_tx(x, c),
        (Type::Term(x), _) => term_tx_shallow(nanboxed, x, c),
        (Type::Exception, CirType::Ptr(inner)) => *inner == CirType::Exception,
        (Type::ExceptionTrace, CirType::Trace) => true,
        (Type::RecvContext, CirType::RecvCtx) => true,
        (Type::RecvState, CirType::I8) => true,
        (Type::MatchContext, CirType::Term) => true,
        _ => false,
    }
}

/// Elementwise shallow translation of a sequence of types.
pub open spec fn type_seq_tx_shallow(nanboxed: bool, s: Seq<Type>, cs: Seq<CirType>) -> bool {
    s.len() == cs.len() && (forall|i: int|
        0 <= i < s.len() ==> type_tx_shallow(nanboxed, s[i], cs[i]))
}

/// The dialect function type a signature translates to.
pub open spec fn sig_tx(nanboxed: bool, sig: Signature, c: CirType) -> bool {
    match c {
        CirType::FunctionTy(ps, rs) => type_seq_tx_shallow(nanboxed, sig.params@, ps@)
            && type_seq_tx_shallow(nanboxed, sig.results@, rs@),
        _ => false,
    }
}

/// The dialect type a term type translates to; a fun term whose
/// signature is known becomes the signature's function type.
pub open spec fn term_tx(nanboxed: bool, sigs: Seq<Signature>, a: TermType, c: CirType) -> bool {
    match a {
        TermType::Fun(Some(f)) => {
            if f.0 < sigs.len() {
                sig_tx(nanboxed, sigs[f.0 as int], c)
            } else {
                term_tx_shallow(nanboxed, a, c)
            }
        },
        _ => term_tx_shallow(nanboxed, a, c),
    }
}

/// The dialect type a type translates to.
pub open spec fn type_tx(nanboxed: bool, sigs: Seq<Signature>, a: Type, c: CirType) -> bool {
    match a {
        Type::Term(x) => term_tx(nanboxed, sigs, x, c),
        _ => type_tx_shallow(nanboxed, a, c),
    }
}

/// Translates a primitive type to its dialect type.
#[verifier::loop_isolation(false)]
pub fn translate_primitive_ir_type(ty: &PrimitiveType) -> (r: CirType)
    ensures
        prim_tx(*ty, r),
    decreases *ty,
{
    match ty {
        PrimitiveType::Void => CirType::NoneTy,
        PrimitiveType::I1 => CirType::I1,
        PrimitiveType::I8 => CirType::I8,
        PrimitiveType::I16 => CirType::I16,
        PrimitiveType::I32 => CirType::I32,
        PrimitiveType::I64 => CirType::I64,
        PrimitiveType::Isize => CirType::Index,
        PrimitiveType::F64 => CirType::F64,
        PrimitiveType::Ptr(inner) => CirType::Ptr(Box::new(translate_primitive_ir_type(inner))),
        PrimitiveType::Struct(fields) => {
            let mut out: Vec<CirType> = Vec::new();
            let n = fields.len();
            let mut i: usize = 0;
            while i < n
                invariant
                    i <= n,
                    out@.len() == i,
                    forall|j: int| 0 <= j < i ==> prim_tx(fields@[j], out@[j]),
                decreases n - i,
            {
                let c = translate_primitive_ir_type(&fields[i]);
                out.push(c);
                i += 1;
            }
            proof {
                assert(prim_seq_tx(fields@, out@));
            }
            CirType::StructTy(out)
        },
        PrimitiveType::Array(inner, arity) => CirType::ArrayTy(
            Box::new(translate_primitive_ir_type(inner)),
            *arity,
        ),
    }
}

/// Translates a term type to its dialect type without expanding fun
/// signatures.
#[verifier::loop_isolation(false)]
pub fn translate_term_ir_type_shallow(nanboxed: bool, ty: &TermType) -> (r: CirType)
    ensures
        term_tx_shallow(nanboxed, *ty, r),
    decreases *ty,
{
    match ty {
        TermType::Any => CirType::Term,
        TermType::Bool => CirType::TermBool,
        TermType::Integer => CirType::TermInteger,
        TermType::Float => {
            if nanboxed {
                CirType::TermFloat
            } else {
                CirType::Boxed(Box::new(CirType::TermFloat))
            }
        },
        TermType::Number => CirType::TermNumber,
        TermType::Atom => CirType::TermAtom,
        TermType::Bitstring => CirType::Boxed(Box::new(CirType::TermBits)),
        TermType::Binary => CirType::Boxed(Box::new(CirType::TermBits)),
        TermType::Nil => CirType::TermNil,
        TermType::Cons => CirType::Boxed(Box::new(CirType::TermCons)),
        TermType::List(_) => CirType::Boxed(Box::new(CirType::TermCons)),
        TermType::MaybeImproperList => CirType::Boxed(Box::new(CirType::TermCons)),
        TermType::Tuple(None) => CirType::Boxed(Box::new(CirType::TupleTy(Vec::new()))),
        TermType::Tuple(Some(elems)) => {
            let mut out: Vec<CirType> = Vec::new();
            let n = elems.len();
            let mut i: usize = 0;
            while i < n
                invariant
                    i <= n,
                    out@.len() == i,
                    forall|j: int| 0 <= j < i ==> term_tx_shallow(nanboxed, elems@[j], out@[j]),
                decreases n - i,
            {
                let c = translate_term_ir_type_shallow(nanboxed, &elems[i]);
                out.push(c);
                i += 1;
            }
            proof {
                assert(term_seq_tx_shallow(nanboxed, elems@, out@));
            }
            CirType::Boxed(Box::new(CirType::TupleTy(out)))
        },
        TermType::MapTerm => CirType::Boxed(Box::new(CirType::TermMap)),
        TermType::Reference => CirType::TermReference,
        TermType::Port => CirType::TermPort,
        TermType::Pid => CirType::TermPid,
        TermType::Fun(_) => CirType::Term,
    }
}

/// Translates a type to its dialect type without expanding fun
/// signatures.
pub fn translate_ir_type_shallow(nanboxed: bool, ty: &Type) -> (r: CirType)
    ensures
        type_tx_shallow(nanboxed, *ty, r),
{
    match ty {
        Type::Invalid => CirType::NoneTy,
        Type::NoReturn => CirType::NoneTy,
        Type::Primitive(p) => translate_primitive_ir_type(p),
        Type::Term(t) => translate_term_ir_type_shallow(nanboxed, t),
        Type::Exception => CirType::Ptr(Box::new(CirType::Exception)),
        Type::ExceptionTrace => CirType::Trace,
        Type::RecvContext => CirType::RecvCtx,
        Type::RecvState => CirType::I8,
        Type::MatchContext => CirType::Term,
    }
}

/// Translates a signature to the dialect function type over its
/// parameter and result types.
#[verifier::loop_isolation(false)]
pub fn signature_to_fn_type(nanboxed: bool, sig: &Signature) -> (r: CirType)
    ensures
        sig_tx(nanboxed, *sig, r),
{
    let mut ps: Vec<CirType> = Vec::new();
    let n = sig.params.len();
    let mut i: usize = 0;
    while i < n
        invariant
            i <= n,
            ps@.len() == i,
            forall|j: int| 0 <= j < i ==> type_tx_shallow(nanboxed, sig.params@[j], ps@[j]),
        decreases n - i,
    {
        let c = translate_ir_type_shallow(nanboxed, &sig.params[i]);
        ps.push(c);
        i += 1;
    }
    let mut rs: Vec<CirType> = Vec::new();
    let m = sig.results.len();
    let mut k: usize = 0;
    while k < m
        invariant
            k <= m,
            rs@.len() == k,
            forall|j: int| 0 <= j < k ==> type_tx_shallow(nanboxed, sig.results@[j], rs@[j]),
        decreases m - k,
    {
        let c = translate_ir_type_shallow(nanboxed, &sig.results[k]);
        rs.push(c);
        k += 1;
    }
    proof {
        assert(type_seq_tx_shallow(nanboxed, sig.params@, ps@));
        assert(type_seq_tx_shallow(nanboxed, sig.results@, rs@));
    }
    CirType::FunctionTy(ps, rs)
}

/// Translates a type to its dialect type; a fun term whose signature
/// is declared becomes that signature's function type.
pub fn translate_ir_type(nanboxed: bool, sigs: &Vec<Signature>, ty: &Type) -> (r: CirType)
    ensures
        type_tx(nanboxed, sigs@, *ty, r),
{
    match ty {
        Type::Term(TermType::Fun(Some(f))) => {
            if (f.0 as usize) < sigs.len() {
                signature_to_fn_type(nanboxed, &sigs[f.0 as usize])
            } else {
                CirType::Term
            }
        },
        _ => translate_ir_type_shallow(nanboxed, ty),
    }
}

} // verus!
