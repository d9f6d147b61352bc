use vstd::prelude::*;

verus! {

broadcast use vstd::std_specs::vec::group_vec_axioms, vstd::seq::group_seq_axioms;

/// Handle of a function signature within a module.
#[derive(Clone, Copy, Debug, PartialEq, Eq, Structural)]
pub struct FuncRef(pub u32);

/// Machine-level primitive types. `F64` is the tag of the target's
/// 64-bit float type; the core never computes with floats, it only
/// names the type.
#[derive(Debug, PartialEq, Eq)]
pub enum PrimitiveType {
    Void,
    I1,
    I8,
    I16,
    I32,
    I64,
    Isize,
    F64,
    Ptr(Box<PrimitiveType>),
    Struct(Vec<PrimitiveType>),
    Array(Box<PrimitiveType>, usize),
}

/// Types of the source language's universal term values.
#[derive(Debug, PartialEq, Eq)]
pub enum TermType {
    Any,
    Bool,
    Integer,
    Float,
    Number,
    Atom,
    Bitstring,
    Binary,
    Nil,
    Cons,
    List(Option<Box<TermType>>),
    MaybeImproperList,
    Tuple(Option<Vec<TermType>>),
    MapTerm,
    Reference,
    Port,
    Pid,
    Fun(Option<FuncRef>),
}

/// The full type algebra of the intermediate representation: primitive
/// machine types, term types, and a handful of opaque auxiliary types.
/// `Invalid` is the type of instructions that produce no value.
#[derive(Debug, PartialEq, Eq)]
pub enum Type {
    Invalid,
    NoReturn,
    Primitive(PrimitiveType),
    Term(TermType),
    Exception,
    ExceptionTrace,
    RecvContext,
    RecvState,
    MatchContext,
}

impl TermType {
    /// Whether the type is one of the numeric term types.
    pub open spec fn is_numeric_spec(&self) -> bool {
        match self {
            TermType::Integer => true,
            TermType::Float => true,
            TermType::Number => true,
            _ => false,
        }
    }

    #[verifier::when_used_as_spec(is_numeric_spec)]
    pub fn is_numeric(&self) -> (r: bool)
        ensures
            r == self.is_numeric_spec(),
    {
        match self {
            TermType::Integer => true,
            TermType::Float => true,
            TermType::Number => true,
            _ => false,
        }
    }

    /// The numeric type a term of this type is coerced to when used as
    /// an arithmetic operand: numeric types stand, everything else
    /// widens to the integer-or-float union.
    pub open spec fn coerce_to_numeric_spec(&self) -> TermType {
        match self {
            TermType::Integer => TermType::Integer,
            TermType::Float => TermType::Float,
            _ => TermType::Number,
        }
    }

    #[verifier::when_used_as_spec(coerce_to_numeric_spec)]
    pub fn coerce_to_numeric(&self) -> (r: TermType)
        ensures
            r == self.coerce_to_numeric_spec(),
    {
        match self {
            TermType::Integer => TermType::Integer,
            TermType::Float => TermType::Float,
            _ => TermType::Number,
        }
    }

    /// The numeric join of two term operand types: integer when both
    /// operands are integers, float otherwise.
    pub open spec fn numeric_join_spec(&self, other: &TermType) -> TermType {
        match (self, other) {
            (TermType::Integer, TermType::Integer) => TermType::Integer,
            _ => TermType::Float,
        }
    }

    #[verifier::when_used_as_spec(numeric_join_spec)]
    pub fn numeric_join(&self, other: &TermType) -> (r: TermType)
        ensures
            r == self.numeric_join_spec(other),
    {
        match (self, other) {
            (TermType::Integer, TermType::Integer) => TermType::Integer,
            _ => TermType::Float,
        }
    }
}

impl Type {
    /// The term type inside a `Type::Term`, if any.
    pub open spec fn as_term_spec(&self) -> Option<TermType> {
        match self {
            Type::Term(t) => Some(*t),
            _ => None::<TermType>,
        }
    }

    pub open spec fn is_term(&self) -> bool {
        match self {
            Type::Term(_) => true,
            _ => false,
        }
    }
}

/// The term type inside a `Type::Term`; meaningful only when the type
/// is a term type.
pub open spec fn term_of(t: Type) -> TermType {
    match t {
        Type::Term(tt) => tt,
        _ => TermType::Any,
    }
}


/// Structural equality of primitive types.
pub open spec fn prim_eq_spec(a: PrimitiveType, b: PrimitiveType) -> bool
    decreases a,
{
    match (a, b) {
        (PrimitiveType::Void, PrimitiveType::Void) => true,
        (PrimitiveType::I1, PrimitiveType::I1) => true,
        (PrimitiveType::I8, PrimitiveType::I8) => true,
        (PrimitiveType::I16, PrimitiveType::I16) => true,
        (PrimitiveType::I32, PrimitiveType::I32) => true,
        (PrimitiveType::I64, PrimitiveType::I64) => true,
        (PrimitiveType::Isize, PrimitiveType::Isize) => true,
        (PrimitiveType::F64, PrimitiveType::F64) => true,
        (PrimitiveType::Ptr(x), PrimitiveType::Ptr(y)) => prim_eq_spec(*x, *y),
        (PrimitiveType::Struct(xs), PrimitiveType::Struct(ys)) => prim_seq_eq_spec(xs@, ys@),
        (PrimitiveType::Array(x, nx), PrimitiveType::Array(y, ny)) => prim_eq_spec(*x, *y)
            && nx == ny,
        _ => false,
    }
}

/// Elementwise structural equality of two sequences of primitive
/// types.
pub open spec fn prim_seq_eq_spec(s1: Seq<PrimitiveType>, s2: Seq<PrimitiveType>) -> bool
    decreases s1,
{
    s1.len() == s2.len() && (forall|i: int| 0 <= i < s1.len() ==> prim_eq_spec(s1[i], s2[i]))
}

/// Structural equality of term types.
pub open spec fn term_eq_spec(a: TermType, b: TermType) -> bool
    decreases a,
{
    match (a, b) {
        (TermType::Any, TermType::Any) => true,
        (TermType::Bool, TermType::Bool) => true,
        (TermType::Integer, TermType::Integer) => true,
        (TermType::Float, TermType::Float) => true,
        (TermType::Number, TermType::Number) => true,
        (TermType::Atom, TermType::Atom) => true,
        (TermType::Bitstring, TermType::Bitstring) => true,
        (TermType::Binary, TermType::Binary) => true,
        (TermType::Nil, TermType::Nil) => true,
        (TermType::Cons, TermType::Cons) => true,
        (TermType::List(x), TermType::List(y)) => {
            match (x, y) {
                (None, None) => true,
                (Some(xe), Some(ye)) => term_eq_spec(*xe, *ye),
                _ => false,
            }
        },
        (TermType::MaybeImproperList, TermType::MaybeImproperList) => true,
        (TermType::Tuple(x), TermType::Tuple(y)) => {
            match (x, y) {
                (None, None) => true,
                (Some(xs), Some(ys)) => term_seq_eq_spec(xs@, ys@),
                _ => false,
            }
        },
        (TermType::MapTerm, TermType::MapTerm) => true,
        (TermType::Reference, TermType::Reference) => true,
        (TermType::Port, TermType::Port) => true,
        (TermType::Pid, TermType::Pid) => true,
        (TermType::Fun(x), TermType::Fun(y)) => x == y,
        _ => false,
    }
}

/// Elementwise structural equality of two sequences of term types.
pub open spec fn term_seq_eq_spec(s1: Seq<TermType>, s2: Seq<TermType>) -> bool
    decreases s1,
{
    s1.len() == s2.len() && (forall|i: int| 0 <= i < s1.len() ==> term_eq_spec(s1[i], s2[i]))
}

/// Structural equality of types.
pub open spec fn type_eq_spec(a: Type, b: Type) -> bool {
    match (a, b) {
        (Type::Invalid, Type::Invalid) => true,
        (Type::NoReturn, Type::NoReturn) => true,
        (Type::Primitive(x), Type::Primitive(y)) => prim_eq_spec(x, y),
        (Type::Term(x), Type::Term(y)) => term_eq_spec(x, y),
        (Type::Exception, Type::Exception) => true,
        (Type::ExceptionTrace, Type::ExceptionTrace) => true,
        (Type::RecvContext, Type::RecvContext) => true,
        (Type::RecvState, Type::RecvState) => true,
        (Type::MatchContext, Type::MatchContext) => true,
        _ => false,
    }
}

/// Elementwise structural equality of two sequences of types.
pub open spec fn type_seq_eq_spec(s1: Seq<Type>, s2: Seq<Type>) -> bool {
    s1.len() == s2.len() && (forall|i: int| 0 <= i < s1.len() ==> type_eq_spec(s1[i], s2[i]))
}

/// Decides structural equality of two primitive types.
#[verifier::loop_isolation(false)]
pub fn prim_eq(a: &PrimitiveType, b: &PrimitiveType) -> (r: bool)
    ensures
        r == prim_eq_spec(*a, *b),
    decreases *a,
{
    match (a, b) {
        (PrimitiveType::Void, PrimitiveType::Void) => true,
        (PrimitiveType::I1, PrimitiveType::I1) => true,
        (PrimitiveType::I8, PrimitiveType::I8) => true,
        (PrimitiveType::I16, PrimitiveType::I16) => true,
        (PrimitiveType::I32, PrimitiveType::I32) => true,
        (PrimitiveType::I64, PrimitiveType::I64) => true,
        (PrimitiveType::Isize, PrimitiveType::Isize) => true,
        (PrimitiveType::F64, PrimitiveType::F64) => true,
        (PrimitiveType::Ptr(x), PrimitiveType::Ptr(y)) => prim_eq(x, y),
        (PrimitiveType::Struct(xs), PrimitiveType::Struct(ys)) => prim_slice_eq(xs, ys),
        (PrimitiveType::Array(x, nx), PrimitiveType::Array(y, ny)) => nx == ny && prim_eq(x, y),
        _ => false,
    }
}

/// Decides elementwise structural equality of two vectors of primitive
/// types.
#[verifier::loop_isolation(false)]
pub fn prim_slice_eq(xs: &Vec<PrimitiveType>, ys: &Vec<PrimitiveType>) -> (r: bool)
    ensures
        r == prim_seq_eq_spec(xs@, ys@),
    decreases xs@,
{
    if xs.len() != ys.len() {
        return false;
    }
    let n = xs.len();
    let mut i: usize = 0;
    while i < n
        invariant
            i <= n,
            forall|j: int| 0 <= j < i ==> prim_eq_spec(xs@[j], ys@[j]),
        decreases n - i,
    {
        if !prim_eq(&xs[i], &ys[i]) {
            return false;
        }
        i += 1;
    }
    true
}

/// Decides structural equality of two term types.
#[verifier::loop_isolation(false)]
pub fn term_eq(a: &TermType, b: &TermType) -> (r: bool)
    ensures
        r == term_eq_spec(*a, *b),
    decreases *a,
{
    match (a, b) {
        (TermType::Any, TermType::Any) => true,
        (TermType::Bool, TermType::Bool) => true,
        (TermType::Integer, TermType::Integer) => true,
        (TermType::Float, TermType::Float) => true,
        (TermType::Number, TermType::Number) => true,
        (TermType::Atom, TermType::Atom) => true,
        (TermType::Bitstring, TermType::Bitstring) => true,
        (TermType::Binary, TermType::Binary) => true,
        (TermType::Nil, TermType::Nil) => true,
        (TermType::Cons, TermType::Cons) => true,
        (TermType::List(x), TermType::List(y)) => {
            match (x, y) {
                (None, None) => true,
                (Some(xe), Some(ye)) => term_eq(xe, ye),
                _ => false,
            }
        },
        (TermType::MaybeImproperList, TermType::MaybeImproperList) => true,
        (TermType::Tuple(x), TermType::Tuple(y)) => {
            match (x, y) {
                (None, None) => true,
                (Some(xs), Some(ys)) => term_slice_eq(xs, ys),
                _ => false,
            }
        },
        (TermType::MapTerm, TermType::MapTerm) => true,
        (TermType::Reference, TermType::Reference) => true,
        (TermType::Port, TermType::Port) => true,
        (TermType::Pid, TermType::Pid) => true,
        (TermType::Fun(x), TermType::Fun(y)) => {
            match (x, y) {
                (None, None) => true,
                (Some(xf), Some(yf)) => xf.0 == yf.0,
                _ => false,
            }
        },
        _ => false,
    }
}

/// Decides elementwise structural equality of two vectors of term
/// types.
#[verifier::loop_isolation(false)]
pub fn term_slice_eq(xs: &Vec<TermType>, ys: &Vec<TermType>) -> (r: bool)
    ensures
        r == term_seq_eq_spec(xs@, ys@),
    decreases xs@,
{
    if xs.len() != ys.len() {
        return false;
    }
    let n = xs.len();
    let mut i: usize = 0;
    while i < n
        invariant
            i <= n,
            forall|j: int| 0 <= j < i ==> term_eq_spec(xs@[j], ys@[j]),
        decreases n - i,
    {
        if !term_eq(&xs[i], &ys[i]) {
            return false;
        }
        i += 1;
    }
    true
}

/// Decides structural equality of two types.
pub fn type_eq(a: &Type, b: &Type) -> (r: bool)
    ensures
        r == type_eq_spec(*a, *b),
{
    match (a, b) {
        (Type::Invalid, Type::Invalid) => true,
        (Type::NoReturn, Type::NoReturn) => true,
        (Type::Primitive(x), Type::Primitive(y)) => prim_eq(x, y),
        (Type::Term(x), Type::Term(y)) => term_eq(x, y),
        (Type::Exception, Type::Exception) => true,
        (Type::ExceptionTrace, Type::ExceptionTrace) => true,
        (Type::RecvContext, Type::RecvContext) => true,
        (Type::RecvState, Type::RecvState) => true,
        (Type::MatchContext, Type::MatchContext) => true,
        _ => false,
    }
}

/// Decides elementwise structural equality of two vectors of types.
#[verifier::loop_isolation(false)]
pub fn type_slice_eq(xs: &Vec<Type>, ys: &Vec<Type>) -> (r: bool)
    ensures
        r == type_seq_eq_spec(xs@, ys@),
{
    if xs.len() != ys.len() {
        return false;
    }
    let n = xs.len();
    let mut i: usize = 0;
    while i < n
        invariant
            i <= n,
            forall|j: int| 0 <= j < i ==> type_eq_spec(xs@[j], ys@[j]),
        decreases n - i,
    {
        if !type_eq(&xs[i], &ys[i]) {
            return false;
        }
        i += 1;
    }
    true
}


/// Structural equality of primitive types is reflexive.
pub proof fn lemma_prim_eq_reflexive(a: PrimitiveType)
    ensures
        prim_eq_spec(a, a),
    decreases a,
{
    match a {
        PrimitiveType::Ptr(x) => {
            lemma_prim_eq_reflexive(*x);
        },
        PrimitiveType::Struct(xs) => {
            assert forall|i: int| 0 <= i < xs@.len() implies prim_eq_spec(xs@[i], xs@[i]) by {
                lemma_prim_eq_reflexive(xs@[i]);
            }
            assert(prim_seq_eq_spec(xs@, xs@));
        },
        PrimitiveType::Array(x, _) => {
            lemma_prim_eq_reflexive(*x);
        },
        _ => {},
    }
}

/// Structural equality of term types is reflexive.
pub proof fn lemma_term_eq_reflexive(a: TermType)
    ensures
        term_eq_spec(a, a),
    decreases a,
{
    match a {
        TermType::List(x) => {
            match x {
                Some(xe) => {
                    lemma_term_eq_reflexive(*xe);
                },
                None => {},
            }
        },
        TermType::Tuple(x) => {
            match x {
                Some(xs) => {
                    assert forall|i: int| 0 <= i < xs@.len() implies term_eq_spec(
                        xs@[i],
                        xs@[i],
                    ) by {
                        lemma_term_eq_reflexive(xs@[i]);
                    }
                    assert(term_seq_eq_spec(xs@, xs@));
                },
                None => {},
            }
        },
        _ => {},
    }
}

/// Structural equality of types is reflexive.
pub proof fn lemma_type_eq_reflexive(a: Type)
    ensures
        type_eq_spec(a, a),
{
    match a {
        Type::Primitive(x) => {
            lemma_prim_eq_reflexive(x);
        },
        Type::Term(x) => {
            lemma_term_eq_reflexive(x);
        },
        _ => {},
    }
}

/// Elementwise structural equality of a sequence of types with itself.
pub proof fn lemma_type_seq_eq_reflexive(s: Seq<Type>)
    ensures
        type_seq_eq_spec(s, s),
{
    assert forall|i: int| 0 <= i < s.len() implies type_eq_spec(s[i], s[i]) by {
        lemma_type_eq_reflexive(s[i]);
    }
}

} // verus!
