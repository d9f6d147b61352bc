use vstd::prelude::*;
use crate::span::Symbol;
use crate::types::{PrimitiveType, TermType, Type};

verus! {

/// Term-level values small enough to be stored inline in an
/// instruction. A float immediate is carried as the raw bits of its
/// IEEE-754 encoding; the core never computes with it.
#[derive(Clone, Copy, Debug, PartialEq, Eq, Structural)]
pub enum ImmediateTerm {
    Bool(bool),
    Integer(i64),
    Float(u64),
    Atom(Symbol),
    Nil,
    NoneVal,
}

/// Values storable inline in an instruction: fixed-width machine
/// integers, a float (as its raw bits), or a small term.
#[derive(Clone, Copy, Debug, PartialEq, Eq, Structural)]
pub enum Immediate {
    I1(bool),
    I8(i8),
    I16(i16),
    I32(i32),
    I64(i64),
    Isize(isize),
    F64(u64),
    Term(ImmediateTerm),
}

impl ImmediateTerm {
    /// The term type of the immediate.
    pub open spec fn ty_spec(&self) -> TermType {
        match self {
            ImmediateTerm::Bool(_) => TermType::Bool,
            ImmediateTerm::Integer(_) => TermType::Integer,
            ImmediateTerm::Float(_) => TermType::Float,
            ImmediateTerm::Atom(_) => TermType::Atom,
            ImmediateTerm::Nil => TermType::Nil,
            ImmediateTerm::NoneVal => TermType::Any,
        }
    }

    #[verifier::when_used_as_spec(ty_spec)]
    pub fn ty(&self) -> (r: TermType)
        ensures
            r == self.ty_spec(),
    {
        match self {
            ImmediateTerm::Bool(_) => TermType::Bool,
            ImmediateTerm::Integer(_) => TermType::Integer,
            ImmediateTerm::Float(_) => TermType::Float,
            ImmediateTerm::Atom(_) => TermType::Atom,
            ImmediateTerm::Nil => TermType::Nil,
            ImmediateTerm::NoneVal => TermType::Any,
        }
    }

    /// Whether the immediate is of a numeric term type.
    pub open spec fn is_numeric_spec(&self) -> bool {
        match self {
            ImmediateTerm::Integer(_) => true,
            ImmediateTerm::Float(_) => true,
            _ => false,
        }
    }

    #[verifier::when_used_as_spec(is_numeric_spec)]
    pub fn is_numeric(&self) -> (r: bool)
        ensures
            r == self.is_numeric_spec(),
    {
        match self {
            ImmediateTerm::Integer(_) => true,
            ImmediateTerm::Float(_) => true,
            _ => false,
        }
    }
}

impl Immediate {
    /// The type of the immediate.
    pub open spec fn ty_spec(&self) -> Type {
        match self {
            Immediate::I1(_) => Type::Primitive(PrimitiveType::I1),
            Immediate::I8(_) => Type::Primitive(PrimitiveType::I8),
            Immediate::I16(_) => Type::Primitive(PrimitiveType::I16),
            Immediate::I32(_) => Type::Primitive(PrimitiveType::I32),
            Immediate::I64(_) => Type::Primitive(PrimitiveType::I64),
            Immediate::Isize(_) => Type::Primitive(PrimitiveType::Isize),
            Immediate::F64(_) => Type::Primitive(PrimitiveType::F64),
            Immediate::Term(t) => Type::Term(t.ty_spec()),
        }
    }

    #[verifier::when_used_as_spec(ty_spec)]
    pub fn ty(&self) -> (r: Type)
        ensures
            r == self.ty_spec(),
    {
        match self {
            Immediate::I1(_) => Type::Primitive(PrimitiveType::I1),
            Immediate::I8(_) => Type::Primitive(PrimitiveType::I8),
            Immediate::I16(_) => Type::Primitive(PrimitiveType::I16),
            Immediate::I32(_) => Type::Primitive(PrimitiveType::I32),
            Immediate::I64(_) => Type::Primitive(PrimitiveType::I64),
            Immediate::Isize(_) => Type::Primitive(PrimitiveType::Isize),
            Immediate::F64(_) => Type::Primitive(PrimitiveType::F64),
            Immediate::Term(t) => Type::Term(t.ty()),
        }
    }
}

} // verus!
