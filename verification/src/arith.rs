use vstd::prelude::*;
use crate::builder::FunctionBuilder;
use crate::immediate::{Immediate, ImmediateTerm};
use crate::insts::{BinaryOp, BinaryOpImm, InstData, Opcode, UnaryOp, UnaryOpImm, Value};
use crate::ops::{imm_is_numeric_term, imm_term_ty};
use crate::span::SourceSpan;
use crate::types::{term_of, PrimitiveType, TermType, Type};

verus! {

broadcast use vstd::std_specs::vec::group_vec_axioms, vstd::seq::group_seq_axioms;

impl FunctionBuilder {
    /// Integer equality comparison; yields an i1.
    pub fn icmp_eq(&mut self, lhs: Value, rhs: Value, span: SourceSpan) -> (r: Value)
        requires
            old(self).ready(),
            old(self).dfg.valid_value(lhs),
            old(self).dfg.valid_value(rhs),
        ensures
            final(self).ready(),
            final(self).grows_from(*old(self)),
            final(self).appended_inst(
                *old(self),
                InstData::BinaryOp(BinaryOp { op: Opcode::IcmpEq, args: (lhs, rhs) }),
                span,
            ),
            final(self).one_result(*old(self), r, Type::Primitive(PrimitiveType::I1)),
    {
        self.binary_value(Opcode::IcmpEq, Type::Primitive(PrimitiveType::I1), lhs, rhs, span)
    }

    /// Integer equality comparison; yields an i1.
    pub fn icmp_eq_imm(&mut self, lhs: Value, imm: Immediate, span: SourceSpan) -> (r: Value)
        requires
            old(self).ready(),
            old(self).dfg.valid_value(lhs),
        ensures
            final(self).ready(),
            final(self).grows_from(*old(self)),
            final(self).appended_inst(
                *old(self),
                InstData::BinaryOpImm(BinaryOpImm {
                    op: Opcode::IcmpEq,
                    arg: lhs,
                    imm: imm,
                }),
                span,
            ),
            final(self).one_result(*old(self), r, Type::Primitive(PrimitiveType::I1)),
    {
        self.binary_imm_value(Opcode::IcmpEq, Type::Primitive(PrimitiveType::I1), lhs, imm, span)
    }

    /// Integer inequality comparison; yields an i1.
    pub fn icmp_neq(&mut self, lhs: Value, rhs: Value, span: SourceSpan) -> (r: Value)
        requires
            old(self).ready(),
            old(self).dfg.valid_value(lhs),
            old(self).dfg.valid_value(rhs),
        ensures
            final(self).ready(),
            final(self).grows_from(*old(self)),
            final(self).appended_inst(
                *old(self),
                InstData::BinaryOp(BinaryOp { op: Opcode::IcmpNeq, args: (lhs, rhs) }),
                span,
            ),
            final(self).one_result(*old(self), r, Type::Primitive(PrimitiveType::I1)),
    {
        self.binary_value(Opcode::IcmpNeq, Type::Primitive(PrimitiveType::I1), lhs, rhs, span)
    }

    /// Integer inequality comparison; yields an i1.
    pub fn icmp_neq_imm(&mut self, lhs: Value, imm: Immediate, span: SourceSpan) -> (r: Value)
        requires
            old(self).ready(),
            old(self).dfg.valid_value(lhs),
        ensures
            final(self).ready(),
            final(self).grows_from(*old(self)),
            final(self).appended_inst(
                *old(self),
                InstData::BinaryOpImm(BinaryOpImm {
                    op: Opcode::IcmpNeq,
                    arg: lhs,
                    imm: imm,
                }),
                span,
            ),
            final(self).one_result(*old(self), r, Type::Primitive(PrimitiveType::I1)),
    {
        self.binary_imm_value(Opcode::IcmpNeq, Type::Primitive(PrimitiveType::I1), lhs, imm, span)
    }

    /// Integer greater-than comparison; yields an i1.
    pub fn icmp_gt(&mut self, lhs: Value, rhs: Value, span: SourceSpan) -> (r: Value)
        requires
            old(self).ready(),
            old(self).dfg.valid_value(lhs),
            old(self).dfg.valid_value(rhs),
        ensures
            final(self).ready(),
            final(self).grows_from(*old(self)),
            final(self).appended_inst(
                *old(self),
                InstData::BinaryOp(BinaryOp { op: Opcode::IcmpGt, args: (lhs, rhs) }),
                span,
            ),
            final(self).one_result(*old(self), r, Type::Primitive(PrimitiveType::I1)),
    {
        self.binary_value(Opcode::IcmpGt, Type::Primitive(PrimitiveType::I1), lhs, rhs, span)
    }

    /// Integer greater-than comparison; yields an i1.
    pub fn icmp_gt_imm(&mut self, lhs: Value, imm: Immediate, span: SourceSpan) -> (r: Value)
        requires
            old(self).ready(),
            old(self).dfg.valid_value(lhs),
        ensures
            final(self).ready(),
            final(self).grows_from(*old(self)),
            final(self).appended_inst(
                *old(self),
                InstData::BinaryOpImm(BinaryOpImm {
                    op: Opcode::IcmpGt,
                    arg: lhs,
                    imm: imm,
                }),
                span,
            ),
            final(self).one_result(*old(self), r, Type::Primitive(PrimitiveType::I1)),
    {
        self.binary_imm_value(Opcode::IcmpGt, Type::Primitive(PrimitiveType::I1), lhs, imm, span)
    }

    /// Integer greater-or-equal comparison; yields an i1.
    pub fn icmp_gte(&mut self, lhs: Value, rhs: Value, span: SourceSpan) -> (r: Value)
        requires
            old(self).ready(),
            old(self).dfg.valid_value(lhs),
            old(self).dfg.valid_value(rhs),
        ensures
            final(self).ready(),
            final(self).grows_from(*old(self)),
            final(self).appended_inst(
                *old(self),
                InstData::BinaryOp(BinaryOp { op: Opcode::IcmpGte, args: (lhs, rhs) }),
                span,
            ),
            final(self).one_result(*old(self), r, Type::Primitive(PrimitiveType::I1)),
    {
        self.binary_value(Opcode::IcmpGte, Type::Primitive(PrimitiveType::I1), lhs, rhs, span)
    }

    /// Integer greater-or-equal comparison; yields an i1.
    pub fn icmp_gte_imm(&mut self, lhs: Value, imm: Immediate, span: SourceSpan) -> (r: Value)
        requires
            old(self).ready(),
            old(self).dfg.valid_value(lhs),
        ensures
            final(self).ready(),
            final(self).grows_from(*old(self)),
            final(self).appended_inst(
                *old(self),
                InstData::BinaryOpImm(BinaryOpImm {
                    op: Opcode::IcmpGte,
                    arg: lhs,
                    imm: imm,
                }),
                span,
            ),
            final(self).one_result(*old(self), r, Type::Primitive(PrimitiveType::I1)),
    {
        self.binary_imm_value(Opcode::IcmpGte, Type::Primitive(PrimitiveType::I1), lhs, imm, span)
    }

    /// Integer less-than comparison; yields an i1.
    pub fn icmp_lt(&mut self, lhs: Value, rhs: Value, span: SourceSpan) -> (r: Value)
        requires
            old(self).ready(),
            old(self).dfg.valid_value(lhs),
            old(self).dfg.valid_value(rhs),
        ensures
            final(self).ready(),
            final(self).grows_from(*old(self)),
            final(self).appended_inst(
                *old(self),
                InstData::BinaryOp(BinaryOp { op: Opcode::IcmpLt, args: (lhs, rhs) }),
                span,
            ),
            final(self).one_result(*old(self), r, Type::Primitive(PrimitiveType::I1)),
    {
        self.binary_value(Opcode::IcmpLt, Type::Primitive(PrimitiveType::I1), lhs, rhs, span)
    }

    /// Integer less-than comparison; yields an i1.
    pub fn icmp_lt_imm(&mut self, lhs: Value, imm: Immediate, span: SourceSpan) -> (r: Value)
        requires
            old(self).ready(),
            old(self).dfg.valid_value(lhs),
        ensures
            final(self).ready(),
            final(self).grows_from(*old(self)),
            final(self).appended_inst(
                *old(self),
                InstData::BinaryOpImm(BinaryOpImm {
                    op: Opcode::IcmpLt,
                    arg: lhs,
                    imm: imm,
                }),
                span,
            ),
            final(self).one_result(*old(self), r, Type::Primitive(PrimitiveType::I1)),
    {
        self.binary_imm_value(Opcode::IcmpLt, Type::Primitive(PrimitiveType::I1), lhs, imm, span)
    }

    /// Integer less-or-equal comparison; yields an i1.
    pub fn icmp_lte(&mut self, lhs: Value, rhs: Value, span: SourceSpan) -> (r: Value)
        requires
            old(self).ready(),
            old(self).dfg.valid_value(lhs),
            old(self).dfg.valid_value(rhs),
        ensures
            final(self).ready(),
            final(self).grows_from(*old(self)),
            final(self).appended_inst(
                *old(self),
                InstData::BinaryOp(BinaryOp { op: Opcode::IcmpLte, args: (lhs, rhs) }),
                span,
            ),
            final(self).one_result(*old(self), r, Type::Primitive(PrimitiveType::I1)),
    {
        self.binary_value(Opcode::IcmpLte, Type::Primitive(PrimitiveType::I1), lhs, rhs, span)
    }

    /// Integer less-or-equal comparison; yields an i1.
    pub fn icmp_lte_imm(&mut self, lhs: Value, imm: Immediate, span: SourceSpan) -> (r: Value)
        requires
            old(self).ready(),
            old(self).dfg.valid_value(lhs),
        ensures
            final(self).ready(),
            final(self).grows_from(*old(self)),
            final(self).appended_inst(
                *old(self),
                InstData::BinaryOpImm(BinaryOpImm {
                    op: Opcode::IcmpLte,
                    arg: lhs,
                    imm: imm,
                }),
                span,
            ),
            final(self).one_result(*old(self), r, Type::Primitive(PrimitiveType::I1)),
    {
        self.binary_imm_value(Opcode::IcmpLte, Type::Primitive(PrimitiveType::I1), lhs, imm, span)
    }

    /// Term equality comparison; yields an i1.
    pub fn eq(&mut self, lhs: Value, rhs: Value, span: SourceSpan) -> (r: Value)
        requires
            old(self).ready(),
            old(self).dfg.valid_value(lhs),
            old(self).dfg.valid_value(rhs),
        ensures
            final(self).ready(),
            final(self).grows_from(*old(self)),
            final(self).appended_inst(
                *old(self),
                InstData::BinaryOp(BinaryOp { op: Opcode::Eq, args: (lhs, rhs) }),
                span,
            ),
            final(self).one_result(*old(self), r, Type::Primitive(PrimitiveType::I1)),
    {
        self.binary_value(Opcode::Eq, Type::Primitive(PrimitiveType::I1), lhs, rhs, span)
    }

    /// Term equality comparison; yields an i1.
    pub fn eq_imm(&mut self, lhs: Value, imm: Immediate, span: SourceSpan) -> (r: Value)
        requires
            old(self).ready(),
            old(self).dfg.valid_value(lhs),
        ensures
            final(self).ready(),
            final(self).grows_from(*old(self)),
            final(self).appended_inst(
                *old(self),
                InstData::BinaryOpImm(BinaryOpImm {
                    op: Opcode::Eq,
                    arg: lhs,
                    imm: imm,
                }),
                span,
            ),
            final(self).one_result(*old(self), r, Type::Primitive(PrimitiveType::I1)),
    {
        self.binary_imm_value(Opcode::Eq, Type::Primitive(PrimitiveType::I1), lhs, imm, span)
    }

    /// Strict term equality comparison; yields an i1.
    pub fn eq_exact(&mut self, lhs: Value, rhs: Value, span: SourceSpan) -> (r: Value)
        requires
            old(self).ready(),
            old(self).dfg.valid_value(lhs),
            old(self).dfg.valid_value(rhs),
        ensures
            final(self).ready(),
            final(self).grows_from(*old(self)),
            final(self).appended_inst(
                *old(self),
                InstData::BinaryOp(BinaryOp { op: Opcode::EqExact, args: (lhs, rhs) }),
                span,
            ),
            final(self).one_result(*old(self), r, Type::Primitive(PrimitiveType::I1)),
    {
        self.binary_value(Opcode::EqExact, Type::Primitive(PrimitiveType::I1), lhs, rhs, span)
    }

    /// Strict term equality comparison; yields an i1.
    pub fn eq_exact_imm(&mut self, lhs: Value, imm: Immediate, span: SourceSpan) -> (r: Value)
        requires
            old(self).ready(),
            old(self).dfg.valid_value(lhs),
        ensures
            final(self).ready(),
            final(self).grows_from(*old(self)),
            final(self).appended_inst(
                *old(self),
                InstData::BinaryOpImm(BinaryOpImm {
                    op: Opcode::EqExact,
                    arg: lhs,
                    imm: imm,
                }),
                span,
            ),
            final(self).one_result(*old(self), r, Type::Primitive(PrimitiveType::I1)),
    {
        self.binary_imm_value(Opcode::EqExact, Type::Primitive(PrimitiveType::I1), lhs, imm, span)
    }

    /// Term inequality comparison; yields an i1.
    pub fn neq(&mut self, lhs: Value, rhs: Value, span: SourceSpan) -> (r: Value)
        requires
            old(self).ready(),
            old(self).dfg.valid_value(lhs),
            old(self).dfg.valid_value(rhs),
        ensures
            final(self).ready(),
            final(self).grows_from(*old(self)),
            final(self).appended_inst(
                *old(self),
                InstData::BinaryOp(BinaryOp { op: Opcode::Neq, args: (lhs, rhs) }),
                span,
            ),
            final(self).one_result(*old(self), r, Type::Primitive(PrimitiveType::I1)),
    {
        self.binary_value(Opcode::Neq, Type::Primitive(PrimitiveType::I1), lhs, rhs, span)
    }

    /// Term inequality comparison; yields an i1.
    pub fn neq_imm(&mut self, lhs: Value, imm: Immediate, span: SourceSpan) -> (r: Value)
        requires
            old(self).ready(),
            old(self).dfg.valid_value(lhs),
        ensures
            final(self).ready(),
            final(self).grows_from(*old(self)),
            final(self).appended_inst(
                *old(self),
                InstData::BinaryOpImm(BinaryOpImm {
                    op: Opcode::Neq,
                    arg: lhs,
                    imm: imm,
                }),
                span,
            ),
            final(self).one_result(*old(self), r, Type::Primitive(PrimitiveType::I1)),
    {
        self.binary_imm_value(Opcode::Neq, Type::Primitive(PrimitiveType::I1), lhs, imm, span)
    }

    /// Strict term inequality comparison; yields an i1.
    pub fn neq_exact(&mut self, lhs: Value, rhs: Value, span: SourceSpan) -> (r: Value)
        requires
            old(self).ready(),
            old(self).dfg.valid_value(lhs),
            old(self).dfg.valid_value(rhs),
        ensures
            final(self).ready(),
            final(self).grows_from(*old(self)),
            final(self).appended_inst(
                *old(self),
                InstData::BinaryOp(BinaryOp { op: Opcode::NeqExact, args: (lhs, rhs) }),
                span,
            ),
            final(self).one_result(*old(self), r, Type::Primitive(PrimitiveType::I1)),
    {
        self.binary_value(Opcode::NeqExact, Type::Primitive(PrimitiveType::I1), lhs, rhs, span)
    }

    /// Strict term inequality comparison; yields an i1.
    pub fn neq_exact_imm(&mut self, lhs: Value, imm: Immediate, span: SourceSpan) -> (r: Value)
        requires
            old(self).ready(),
            old(self).dfg.valid_value(lhs),
        ensures
            final(self).ready(),
            final(self).grows_from(*old(self)),
            final(self).appended_inst(
                *old(self),
                InstData::BinaryOpImm(BinaryOpImm {
                    op: Opcode::NeqExact,
                    arg: lhs,
                    imm: imm,
                }),
                span,
            ),
            final(self).one_result(*old(self), r, Type::Primitive(PrimitiveType::I1)),
    {
        self.binary_imm_value(Opcode::NeqExact, Type::Primitive(PrimitiveType::I1), lhs, imm, span)
    }

    /// Term greater-than comparison; yields an i1.
    pub fn gt(&mut self, lhs: Value, rhs: Value, span: SourceSpan) -> (r: Value)
        requires
            old(self).ready(),
            old(self).dfg.valid_value(lhs),
            old(self).dfg.valid_value(rhs),
        ensures
            final(self).ready(),
            final(self).grows_from(*old(self)),
            final(self).appended_inst(
                *old(self),
                InstData::BinaryOp(BinaryOp { op: Opcode::Gt, args: (lhs, rhs) }),
                span,
            ),
            final(self).one_result(*old(self), r, Type::Primitive(PrimitiveType::I1)),
    {
        self.binary_value(Opcode::Gt, Type::Primitive(PrimitiveType::I1), lhs, rhs, span)
    }

    /// Term greater-than comparison; yields an i1.
    pub fn gt_imm(&mut self, lhs: Value, imm: Immediate, span: SourceSpan) -> (r: Value)
        requires
            old(self).ready(),
            old(self).dfg.valid_value(lhs),
        ensures
            final(self).ready(),
            final(self).grows_from(*old(self)),
            final(self).appended_inst(
                *old(self),
                InstData::BinaryOpImm(BinaryOpImm {
                    op: Opcode::Gt,
                    arg: lhs,
                    imm: imm,
                }),
                span,
            ),
            final(self).one_result(*old(self), r, Type::Primitive(PrimitiveType::I1)),
    {
        self.binary_imm_value(Opcode::Gt, Type::Primitive(PrimitiveType::I1), lhs, imm, span)
    }

    /// Term greater-or-equal comparison; yields an i1.
    pub fn gte(&mut self, lhs: Value, rhs: Value, span: SourceSpan) -> (r: Value)
        requires
            old(self).ready(),
            old(self).dfg.valid_value(lhs),
            old(self).dfg.valid_value(rhs),
        ensures
            final(self).ready(),
            final(self).grows_from(*old(self)),
            final(self).appended_inst(
                *old(self),
                InstData::BinaryOp(BinaryOp { op: Opcode::Gte, args: (lhs, rhs) }),
                span,
            ),
            final(self).one_result(*old(self), r, Type::Primitive(PrimitiveType::I1)),
    {
        self.binary_value(Opcode::Gte, Type::Primitive(PrimitiveType::I1), lhs, rhs, span)
    }

    /// Term greater-or-equal comparison; yields an i1.
    pub fn gte_imm(&mut self, lhs: Value, imm: Immediate, span: SourceSpan) -> (r: Value)
        requires
            old(self).ready(),
            old(self).dfg.valid_value(lhs),
        ensures
            final(self).ready(),
            final(self).grows_from(*old(self)),
            final(self).appended_inst(
                *old(self),
                InstData::BinaryOpImm(BinaryOpImm {
                    op: Opcode::Gte,
                    arg: lhs,
                    imm: imm,
                }),
                span,
            ),
            final(self).one_result(*old(self), r, Type::Primitive(PrimitiveType::I1)),
    {
        self.binary_imm_value(Opcode::Gte, Type::Primitive(PrimitiveType::I1), lhs, imm, span)
    }

    /// Term less-than comparison; yields an i1.
    pub fn lt(&mut self, lhs: Value, rhs: Value, span: SourceSpan) -> (r: Value)
        requires
            old(self).ready(),
            old(self).dfg.valid_value(lhs),
            old(self).dfg.valid_value(rhs),
        ensures
            final(self).ready(),
            final(self).grows_from(*old(self)),
            final(self).appended_inst(
                *old(self),
                InstData::BinaryOp(BinaryOp { op: Opcode::Lt, args: (lhs, rhs) }),
                span,
            ),
            final(self).one_result(*old(self), r, Type::Primitive(PrimitiveType::I1)),
    {
        self.binary_value(Opcode::Lt, Type::Primitive(PrimitiveType::I1), lhs, rhs, span)
    }

    /// Term less-than comparison; yields an i1.
    pub fn lt_imm(&mut self, lhs: Value, imm: Immediate, span: SourceSpan) -> (r: Value)
        requires
            old(self).ready(),
            old(self).dfg.valid_value(lhs),
        ensures
            final(self).ready(),
            final(self).grows_from(*old(self)),
            final(self).appended_inst(
                *old(self),
                InstData::BinaryOpImm(BinaryOpImm {
                    op: Opcode::Lt,
                    arg: lhs,
                    imm: imm,
                }),
                span,
            ),
            final(self).one_result(*old(self), r, Type::Primitive(PrimitiveType::I1)),
    {
        self.binary_imm_value(Opcode::Lt, Type::Primitive(PrimitiveType::I1), lhs, imm, span)
    }

    /// Term less-or-equal comparison; yields an i1.
    pub fn lte(&mut self, lhs: Value, rhs: Value, span: SourceSpan) -> (r: Value)
        requires
            old(self).ready(),
            old(self).dfg.valid_value(lhs),
            old(self).dfg.valid_value(rhs),
        ensures
            final(self).ready(),
            final(self).grows_from(*old(self)),
            final(self).appended_inst(
                *old(self),
                InstData::BinaryOp(BinaryOp { op: Opcode::Lte, args: (lhs, rhs) }),
                span,
            ),
            final(self).one_result(*old(self), r, Type::Primitive(PrimitiveType::I1)),
    {
        self.binary_value(Opcode::Lte, Type::Primitive(PrimitiveType::I1), lhs, rhs, span)
    }

    /// Term less-or-equal comparison; yields an i1.
    pub fn lte_imm(&mut self, lhs: Value, imm: Immediate, span: SourceSpan) -> (r: Value)
        requires
            old(self).ready(),
            old(self).dfg.valid_value(lhs),
        ensures
            final(self).ready(),
            final(self).grows_from(*old(self)),
            final(self).appended_inst(
                *old(self),
                InstData::BinaryOpImm(BinaryOpImm {
                    op: Opcode::Lte,
                    arg: lhs,
                    imm: imm,
                }),
                span,
            ),
            final(self).one_result(*old(self), r, Type::Primitive(PrimitiveType::I1)),
    {
        self.binary_imm_value(Opcode::Lte, Type::Primitive(PrimitiveType::I1), lhs, imm, span)
    }

    /// Tests whether a value is a tuple whose first element is a given tag; yields an i1.
    pub fn is_tagged_tuple(&mut self, lhs: Value, rhs: Value, span: SourceSpan) -> (r: Value)
        requires
            old(self).ready(),
            old(self).dfg.valid_value(lhs),
            old(self).dfg.valid_value(rhs),
        ensures
            final(self).ready(),
            final(self).grows_from(*old(self)),
            final(self).appended_inst(
                *old(self),
                InstData::BinaryOp(BinaryOp { op: Opcode::IsTaggedTuple, args: (lhs, rhs) }),
                span,
            ),
            final(self).one_result(*old(self), r, Type::Primitive(PrimitiveType::I1)),
    {
        self.binary_value(Opcode::IsTaggedTuple, Type::Primitive(PrimitiveType::I1), lhs, rhs, span)
    }

    /// Tests whether a value is a tuple whose first element is a given tag; yields an i1.
    pub fn is_tagged_tuple_imm(&mut self, lhs: Value, imm: Immediate, span: SourceSpan) -> (r: Value)
        requires
            old(self).ready(),
            old(self).dfg.valid_value(lhs),
        ensures
            final(self).ready(),
            final(self).grows_from(*old(self)),
            final(self).appended_inst(
                *old(self),
                InstData::BinaryOpImm(BinaryOpImm {
                    op: Opcode::IsTaggedTuple,
                    arg: lhs,
                    imm: imm,
                }),
                span,
            ),
            final(self).one_result(*old(self), r, Type::Primitive(PrimitiveType::I1)),
    {
        self.binary_imm_value(Opcode::IsTaggedTuple, Type::Primitive(PrimitiveType::I1), lhs, imm, span)
    }

    /// Strict boolean conjunction; yields a boolean.
    pub fn and(&mut self, lhs: Value, rhs: Value, span: SourceSpan) -> (r: Value)
        requires
            old(self).ready(),
            old(self).dfg.valid_value(lhs),
            old(self).dfg.valid_value(rhs),
        ensures
            final(self).ready(),
            final(self).grows_from(*old(self)),
            final(self).appended_inst(
                *old(self),
                InstData::BinaryOp(BinaryOp { op: Opcode::And, args: (lhs, rhs) }),
                span,
            ),
            final(self).one_result(*old(self), r, Type::Term(TermType::Bool)),
    {
        self.binary_value(Opcode::And, Type::Term(TermType::Bool), lhs, rhs, span)
    }

    /// Strict boolean conjunction; yields a boolean.
    pub fn and_imm(&mut self, lhs: Value, rhs: bool, span: SourceSpan) -> (r: Value)
        requires
            old(self).ready(),
            old(self).dfg.valid_value(lhs),
        ensures
            final(self).ready(),
            final(self).grows_from(*old(self)),
            final(self).appended_inst(
                *old(self),
                InstData::BinaryOpImm(BinaryOpImm {
                    op: Opcode::And,
                    arg: lhs,
                    imm: Immediate::Term(ImmediateTerm::Bool(rhs)),
                }),
                span,
            ),
            final(self).one_result(*old(self), r, Type::Term(TermType::Bool)),
    {
        self.binary_imm_value(
            Opcode::And,
            Type::Term(TermType::Bool),
            lhs,
            Immediate::Term(ImmediateTerm::Bool(rhs)),
            span,
        )
    }

    /// Short-circuit conjunction; yields a boolean.
    pub fn andalso(&mut self, lhs: Value, rhs: Value, span: SourceSpan) -> (r: Value)
        requires
            old(self).ready(),
            old(self).dfg.valid_value(lhs),
            old(self).dfg.valid_value(rhs),
        ensures
            final(self).ready(),
            final(self).grows_from(*old(self)),
            final(self).appended_inst(
                *old(self),
                InstData::BinaryOp(BinaryOp { op: Opcode::AndAlso, args: (lhs, rhs) }),
                span,
            ),
            final(self).one_result(*old(self), r, Type::Term(TermType::Bool)),
    {
        self.binary_value(Opcode::AndAlso, Type::Term(TermType::Bool), lhs, rhs, span)
    }

    /// Short-circuit conjunction; yields a boolean.
    pub fn andalso_imm(&mut self, lhs: Value, rhs: bool, span: SourceSpan) -> (r: Value)
        requires
            old(self).ready(),
            old(self).dfg.valid_value(lhs),
        ensures
            final(self).ready(),
            final(self).grows_from(*old(self)),
            final(self).appended_inst(
                *old(self),
                InstData::BinaryOpImm(BinaryOpImm {
                    op: Opcode::AndAlso,
                    arg: lhs,
                    imm: Immediate::Term(ImmediateTerm::Bool(rhs)),
                }),
                span,
            ),
            final(self).one_result(*old(self), r, Type::Term(TermType::Bool)),
    {
        self.binary_imm_value(
            Opcode::AndAlso,
            Type::Term(TermType::Bool),
            lhs,
            Immediate::Term(ImmediateTerm::Bool(rhs)),
            span,
        )
    }

    /// Strict boolean disjunction; yields a boolean.
    pub fn or(&mut self, lhs: Value, rhs: Value, span: SourceSpan) -> (r: Value)
        requires
            old(self).ready(),
            old(self).dfg.valid_value(lhs),
            old(self).dfg.valid_value(rhs),
        ensures
            final(self).ready(),
            final(self).grows_from(*old(self)),
            final(self).appended_inst(
                *old(self),
                InstData::BinaryOp(BinaryOp { op: Opcode::Or, args: (lhs, rhs) }),
                span,
            ),
            final(self).one_result(*old(self), r, Type::Term(TermType::Bool)),
    {
        self.binary_value(Opcode::Or, Type::Term(TermType::Bool), lhs, rhs, span)
    }

    /// Strict boolean disjunction; yields a boolean.
    pub fn or_imm(&mut self, lhs: Value, rhs: bool, span: SourceSpan) -> (r: Value)
        requires
            old(self).ready(),
            old(self).dfg.valid_value(lhs),
        ensures
            final(self).ready(),
            final(self).grows_from(*old(self)),
            final(self).appended_inst(
                *old(self),
                InstData::BinaryOpImm(BinaryOpImm {
                    op: Opcode::Or,
                    arg: lhs,
                    imm: Immediate::Term(ImmediateTerm::Bool(rhs)),
                }),
                span,
            ),
            final(self).one_result(*old(self), r, Type::Term(TermType::Bool)),
    {
        self.binary_imm_value(
            Opcode::Or,
            Type::Term(TermType::Bool),
            lhs,
            Immediate::Term(ImmediateTerm::Bool(rhs)),
            span,
        )
    }

    /// Short-circuit disjunction; yields a boolean.
    pub fn orelse(&mut self, lhs: Value, rhs: Value, span: SourceSpan) -> (r: Value)
        requires
            old(self).ready(),
            old(self).dfg.valid_value(lhs),
            old(self).dfg.valid_value(rhs),
        ensures
            final(self).ready(),
            final(self).grows_from(*old(self)),
            final(self).appended_inst(
                *old(self),
                InstData::BinaryOp(BinaryOp { op: Opcode::OrElse, args: (lhs, rhs) }),
                span,
            ),
            final(self).one_result(*old(self), r, Type::Term(TermType::Bool)),
    {
        self.binary_value(Opcode::OrElse, Type::Term(TermType::Bool), lhs, rhs, span)
    }

    /// Short-circuit disjunction; yields a boolean.
    pub fn orelse_imm(&mut self, lhs: Value, rhs: bool, span: SourceSpan) -> (r: Value)
        requires
            old(self).ready(),
            old(self).dfg.valid_value(lhs),
        ensures
            final(self).ready(),
            final(self).grows_from(*old(self)),
            final(self).appended_inst(
                *old(self),
                InstData::BinaryOpImm(BinaryOpImm {
                    op: Opcode::OrElse,
                    arg: lhs,
                    imm: Immediate::Term(ImmediateTerm::Bool(rhs)),
                }),
                span,
            ),
            final(self).one_result(*old(self), r, Type::Term(TermType::Bool)),
    {
        self.binary_imm_value(
            Opcode::OrElse,
            Type::Term(TermType::Bool),
            lhs,
            Immediate::Term(ImmediateTerm::Bool(rhs)),
            span,
        )
    }

    /// Boolean exclusive or; yields a boolean.
    pub fn xor(&mut self, lhs: Value, rhs: Value, span: SourceSpan) -> (r: Value)
        requires
            old(self).ready(),
            old(self).dfg.valid_value(lhs),
            old(self).dfg.valid_value(rhs),
        ensures
            final(self).ready(),
            final(self).grows_from(*old(self)),
            final(self).appended_inst(
                *old(self),
                InstData::BinaryOp(BinaryOp { op: Opcode::Xor, args: (lhs, rhs) }),
                span,
            ),
            final(self).one_result(*old(self), r, Type::Term(TermType::Bool)),
    {
        self.binary_value(Opcode::Xor, Type::Term(TermType::Bool), lhs, rhs, span)
    }

    /// Boolean exclusive or; yields a boolean.
    pub fn xor_imm(&mut self, lhs: Value, rhs: bool, span: SourceSpan) -> (r: Value)
        requires
            old(self).ready(),
            old(self).dfg.valid_value(lhs),
        ensures
            final(self).ready(),
            final(self).grows_from(*old(self)),
            final(self).appended_inst(
                *old(self),
                InstData::BinaryOpImm(BinaryOpImm {
                    op: Opcode::Xor,
                    arg: lhs,
                    imm: Immediate::Term(ImmediateTerm::Bool(rhs)),
                }),
                span,
            ),
            final(self).one_result(*old(self), r, Type::Term(TermType::Bool)),
    {
        self.binary_imm_value(
            Opcode::Xor,
            Type::Term(TermType::Bool),
            lhs,
            Immediate::Term(ImmediateTerm::Bool(rhs)),
            span,
        )
    }

    /// Bitwise and over term integers; yields an integer.
    pub fn band(&mut self, lhs: Value, rhs: Value, span: SourceSpan) -> (r: Value)
        requires
            old(self).ready(),
            old(self).dfg.valid_value(lhs),
            old(self).dfg.valid_value(rhs),
        ensures
            final(self).ready(),
            final(self).grows_from(*old(self)),
            final(self).appended_inst(
                *old(self),
                InstData::BinaryOp(BinaryOp { op: Opcode::Band, args: (lhs, rhs) }),
                span,
            ),
            final(self).one_result(*old(self), r, Type::Term(TermType::Integer)),
    {
        self.binary_value(Opcode::Band, Type::Term(TermType::Integer), lhs, rhs, span)
    }

    /// Bitwise and over term integers; yields an integer.
    pub fn band_imm(&mut self, lhs: Value, rhs: i64, span: SourceSpan) -> (r: Value)
        requires
            old(self).ready(),
            old(self).dfg.valid_value(lhs),
        ensures
            final(self).ready(),
            final(self).grows_from(*old(self)),
            final(self).appended_inst(
                *old(self),
                InstData::BinaryOpImm(BinaryOpImm {
                    op: Opcode::Band,
                    arg: lhs,
                    imm: Immediate::Term(ImmediateTerm::Integer(rhs)),
                }),
                span,
            ),
            final(self).one_result(*old(self), r, Type::Term(TermType::Integer)),
    {
        self.binary_imm_value(
            Opcode::Band,
            Type::Term(TermType::Integer),
            lhs,
            Immediate::Term(ImmediateTerm::Integer(rhs)),
            span,
        )
    }

    /// Bitwise or over term integers; yields an integer.
    pub fn bor(&mut self, lhs: Value, rhs: Value, span: SourceSpan) -> (r: Value)
        requires
            old(self).ready(),
            old(self).dfg.valid_value(lhs),
            old(self).dfg.valid_value(rhs),
        ensures
            final(self).ready(),
            final(self).grows_from(*old(self)),
            final(self).appended_inst(
                *old(self),
                InstData::BinaryOp(BinaryOp { op: Opcode::Bor, args: (lhs, rhs) }),
                span,
            ),
            final(self).one_result(*old(self), r, Type::Term(TermType::Integer)),
    {
        self.binary_value(Opcode::Bor, Type::Term(TermType::Integer), lhs, rhs, span)
    }

    /// Bitwise or over term integers; yields an integer.
    pub fn bor_imm(&mut self, lhs: Value, rhs: i64, span: SourceSpan) -> (r: Value)
        requires
            old(self).ready(),
            old(self).dfg.valid_value(lhs),
        ensures
            final(self).ready(),
            final(self).grows_from(*old(self)),
            final(self).appended_inst(
                *old(self),
                InstData::BinaryOpImm(BinaryOpImm {
                    op: Opcode::Bor,
                    arg: lhs,
                    imm: Immediate::Term(ImmediateTerm::Integer(rhs)),
                }),
                span,
            ),
            final(self).one_result(*old(self), r, Type::Term(TermType::Integer)),
    {
        self.binary_imm_value(
            Opcode::Bor,
            Type::Term(TermType::Integer),
            lhs,
            Immediate::Term(ImmediateTerm::Integer(rhs)),
            span,
        )
    }

    /// Bitwise exclusive or over term integers; yields an integer.
    pub fn bxor(&mut self, lhs: Value, rhs: Value, span: SourceSpan) -> (r: Value)
        requires
            old(self).ready(),
            old(self).dfg.valid_value(lhs),
            old(self).dfg.valid_value(rhs),
        ensures
            final(self).ready(),
            final(self).grows_from(*old(self)),
            final(self).appended_inst(
                *old(self),
                InstData::BinaryOp(BinaryOp { op: Opcode::Bxor, args: (lhs, rhs) }),
                span,
            ),
            final(self).one_result(*old(self), r, Type::Term(TermType::Integer)),
    {
        self.binary_value(Opcode::Bxor, Type::Term(TermType::Integer), lhs, rhs, span)
    }

    /// Bitwise exclusive or over term integers; yields an integer.
    pub fn bxor_imm(&mut self, lhs: Value, rhs: i64, span: SourceSpan) -> (r: Value)
        requires
            old(self).ready(),
            old(self).dfg.valid_value(lhs),
        ensures
            final(self).ready(),
            final(self).grows_from(*old(self)),
            final(self).appended_inst(
                *old(self),
                InstData::BinaryOpImm(BinaryOpImm {
                    op: Opcode::Bxor,
                    arg: lhs,
                    imm: Immediate::Term(ImmediateTerm::Integer(rhs)),
                }),
                span,
            ),
            final(self).one_result(*old(self), r, Type::Term(TermType::Integer)),
    {
        self.binary_imm_value(
            Opcode::Bxor,
            Type::Term(TermType::Integer),
            lhs,
            Immediate::Term(ImmediateTerm::Integer(rhs)),
            span,
        )
    }

    /// Integer division; yields an integer.
    pub fn div(&mut self, lhs: Value, rhs: Value, span: SourceSpan) -> (r: Value)
        requires
            old(self).ready(),
            old(self).dfg.valid_value(lhs),
            old(self).dfg.valid_value(rhs),
        ensures
            final(self).ready(),
            final(self).grows_from(*old(self)),
            final(self).appended_inst(
                *old(self),
                InstData::BinaryOp(BinaryOp { op: Opcode::Div, args: (lhs, rhs) }),
                span,
            ),
            final(self).one_result(*old(self), r, Type::Term(TermType::Integer)),
    {
        self.binary_value(Opcode::Div, Type::Term(TermType::Integer), lhs, rhs, span)
    }

    /// Integer division; yields an integer.
    pub fn div_imm(&mut self, lhs: Value, rhs: i64, span: SourceSpan) -> (r: Value)
        requires
            old(self).ready(),
            old(self).dfg.valid_value(lhs),
        ensures
            final(self).ready(),
            final(self).grows_from(*old(self)),
            final(self).appended_inst(
                *old(self),
                InstData::BinaryOpImm(BinaryOpImm {
                    op: Opcode::Div,
                    arg: lhs,
                    imm: Immediate::Term(ImmediateTerm::Integer(rhs)),
                }),
                span,
            ),
            final(self).one_result(*old(self), r, Type::Term(TermType::Integer)),
    {
        self.binary_imm_value(
            Opcode::Div,
            Type::Term(TermType::Integer),
            lhs,
            Immediate::Term(ImmediateTerm::Integer(rhs)),
            span,
        )
    }

    /// Integer remainder; yields an integer.
    pub fn rem(&mut self, lhs: Value, rhs: Value, span: SourceSpan) -> (r: Value)
        requires
            old(self).ready(),
            old(self).dfg.valid_value(lhs),
            old(self).dfg.valid_value(rhs),
        ensures
            final(self).ready(),
            final(self).grows_from(*old(self)),
            final(self).appended_inst(
                *old(self),
                InstData::BinaryOp(BinaryOp { op: Opcode::Rem, args: (lhs, rhs) }),
                span,
            ),
            final(self).one_result(*old(self), r, Type::Term(TermType::Integer)),
    {
        self.binary_value(Opcode::Rem, Type::Term(TermType::Integer), lhs, rhs, span)
    }

    /// Integer remainder; yields an integer.
    pub fn rem_imm(&mut self, lhs: Value, rhs: i64, span: SourceSpan) -> (r: Value)
        requires
            old(self).ready(),
            old(self).dfg.valid_value(lhs),
        ensures
            final(self).ready(),
            final(self).grows_from(*old(self)),
            final(self).appended_inst(
                *old(self),
                InstData::BinaryOpImm(BinaryOpImm {
                    op: Opcode::Rem,
                    arg: lhs,
                    imm: Immediate::Term(ImmediateTerm::Integer(rhs)),
                }),
                span,
            ),
            final(self).one_result(*old(self), r, Type::Term(TermType::Integer)),
    {
        self.binary_imm_value(
            Opcode::Rem,
            Type::Term(TermType::Integer),
            lhs,
            Immediate::Term(ImmediateTerm::Integer(rhs)),
            span,
        )
    }

    /// Bit shift left; yields an integer.
    pub fn bsl(&mut self, lhs: Value, rhs: Value, span: SourceSpan) -> (r: Value)
        requires
            old(self).ready(),
            old(self).dfg.valid_value(lhs),
            old(self).dfg.valid_value(rhs),
        ensures
            final(self).ready(),
            final(self).grows_from(*old(self)),
            final(self).appended_inst(
                *old(self),
                InstData::BinaryOp(BinaryOp { op: Opcode::Bsl, args: (lhs, rhs) }),
                span,
            ),
            final(self).one_result(*old(self), r, Type::Term(TermType::Integer)),
    {
        self.binary_value(Opcode::Bsl, Type::Term(TermType::Integer), lhs, rhs, span)
    }

    /// Bit shift left; yields an integer.
    pub fn bsl_imm(&mut self, lhs: Value, rhs: i64, span: SourceSpan) -> (r: Value)
        requires
            old(self).ready(),
            old(self).dfg.valid_value(lhs),
        ensures
            final(self).ready(),
            final(self).grows_from(*old(self)),
            final(self).appended_inst(
                *old(self),
                InstData::BinaryOpImm(BinaryOpImm {
                    op: Opcode::Bsl,
                    arg: lhs,
                    imm: Immediate::Term(ImmediateTerm::Integer(rhs)),
                }),
                span,
            ),
            final(self).one_result(*old(self), r, Type::Term(TermType::Integer)),
    {
        self.binary_imm_value(
            Opcode::Bsl,
            Type::Term(TermType::Integer),
            lhs,
            Immediate::Term(ImmediateTerm::Integer(rhs)),
            span,
        )
    }

    /// Bit shift right; yields an integer.
    pub fn bsr(&mut self, lhs: Value, rhs: Value, span: SourceSpan) -> (r: Value)
        requires
            old(self).ready(),
            old(self).dfg.valid_value(lhs),
            old(self).dfg.valid_value(rhs),
        ensures
            final(self).ready(),
            final(self).grows_from(*old(self)),
            final(self).appended_inst(
                *old(self),
                InstData::BinaryOp(BinaryOp { op: Opcode::Bsr, args: (lhs, rhs) }),
                span,
            ),
            final(self).one_result(*old(self), r, Type::Term(TermType::Integer)),
    {
        self.binary_value(Opcode::Bsr, Type::Term(TermType::Integer), lhs, rhs, span)
    }

    /// Bit shift right; yields an integer.
    pub fn bsr_imm(&mut self, lhs: Value, rhs: i64, span: SourceSpan) -> (r: Value)
        requires
            old(self).ready(),
            old(self).dfg.valid_value(lhs),
        ensures
            final(self).ready(),
            final(self).grows_from(*old(self)),
            final(self).appended_inst(
                *old(self),
                InstData::BinaryOpImm(BinaryOpImm {
                    op: Opcode::Bsr,
                    arg: lhs,
                    imm: Immediate::Term(ImmediateTerm::Integer(rhs)),
                }),
                span,
            ),
            final(self).one_result(*old(self), r, Type::Term(TermType::Integer)),
    {
        self.binary_imm_value(
            Opcode::Bsr,
            Type::Term(TermType::Integer),
            lhs,
            Immediate::Term(ImmediateTerm::Integer(rhs)),
            span,
        )
    }

    /// Term addition; the result type is the numeric join of the two
    /// operand types.
    pub fn add(&mut self, lhs: Value, rhs: Value, span: SourceSpan) -> (r: Value)
        requires
            old(self).ready(),
            old(self).dfg.valid_value(lhs),
            old(self).dfg.valid_value(rhs),
            old(self).dfg.value_ty(lhs).is_term(),
            old(self).dfg.value_ty(rhs).is_term(),
        ensures
            final(self).ready(),
            final(self).grows_from(*old(self)),
            final(self).appended_inst(
                *old(self),
                InstData::BinaryOp(BinaryOp { op: Opcode::Add, args: (lhs, rhs) }),
                span,
            ),
            final(self).one_result(
                *old(self),
                r,
                Type::Term(
                    term_of(old(self).dfg.value_ty(lhs)).numeric_join_spec(
                        &term_of(old(self).dfg.value_ty(rhs)),
                    ),
                ),
            ),
    {
        let join = match (self.dfg.value_type(lhs), self.dfg.value_type(rhs)) {
            (Type::Term(a), Type::Term(b)) => a.numeric_join(b),
            _ => vstd::pervasive::unreached(),
        };
        self.binary_value(Opcode::Add, Type::Term(join), lhs, rhs, span)
    }

    /// Term addition with an immediate right-hand side, which must be numeric;
    /// the result type is the numeric join of the two operand types.
    pub fn add_imm(&mut self, lhs: Value, imm: Immediate, span: SourceSpan) -> (r: Value)
        requires
            old(self).ready(),
            old(self).dfg.valid_value(lhs),
            old(self).dfg.value_ty(lhs).is_term(),
            imm_is_numeric_term(imm),
        ensures
            final(self).ready(),
            final(self).grows_from(*old(self)),
            final(self).appended_inst(
                *old(self),
                InstData::BinaryOpImm(BinaryOpImm { op: Opcode::Add, arg: lhs, imm }),
                span,
            ),
            final(self).one_result(
                *old(self),
                r,
                Type::Term(
                    term_of(old(self).dfg.value_ty(lhs)).numeric_join_spec(&imm_term_ty(imm)),
                ),
            ),
    {
        let join = match (self.dfg.value_type(lhs), &imm) {
            (Type::Term(a), Immediate::Term(t)) => a.numeric_join(&t.ty()),
            _ => vstd::pervasive::unreached(),
        };
        self.binary_imm_value(Opcode::Add, Type::Term(join), lhs, imm, span)
    }

    /// Term subtraction; the result type is the numeric join of the two
    /// operand types.
    pub fn sub(&mut self, lhs: Value, rhs: Value, span: SourceSpan) -> (r: Value)
        requires
            old(self).ready(),
            old(self).dfg.valid_value(lhs),
            old(self).dfg.valid_value(rhs),
            old(self).dfg.value_ty(lhs).is_term(),
            old(self).dfg.value_ty(rhs).is_term(),
        ensures
            final(self).ready(),
            final(self).grows_from(*old(self)),
            final(self).appended_inst(
                *old(self),
                InstData::BinaryOp(BinaryOp { op: Opcode::Sub, args: (lhs, rhs) }),
                span,
            ),
            final(self).one_result(
                *old(self),
                r,
                Type::Term(
                    term_of(old(self).dfg.value_ty(lhs)).numeric_join_spec(
                        &term_of(old(self).dfg.value_ty(rhs)),
                    ),
                ),
            ),
    {
        let join = match (self.dfg.value_type(lhs), self.dfg.value_type(rhs)) {
            (Type::Term(a), Type::Term(b)) => a.numeric_join(b),
            _ => vstd::pervasive::unreached(),
        };
        self.binary_value(Opcode::Sub, Type::Term(join), lhs, rhs, span)
    }

    /// Term subtraction with an immediate right-hand side, which must be numeric;
    /// the result type is the numeric join of the two operand types.
    pub fn sub_imm(&mut self, lhs: Value, imm: Immediate, span: SourceSpan) -> (r: Value)
        requires
            old(self).ready(),
            old(self).dfg.valid_value(lhs),
            old(self).dfg.value_ty(lhs).is_term(),
            imm_is_numeric_term(imm),
        ensures
            final(self).ready(),
            final(self).grows_from(*old(self)),
            final(self).appended_inst(
                *old(self),
                InstData::BinaryOpImm(BinaryOpImm { op: Opcode::Sub, arg: lhs, imm }),
                span,
            ),
            final(self).one_result(
                *old(self),
                r,
                Type::Term(
                    term_of(old(self).dfg.value_ty(lhs)).numeric_join_spec(&imm_term_ty(imm)),
                ),
            ),
    {
        let join = match (self.dfg.value_type(lhs), &imm) {
            (Type::Term(a), Immediate::Term(t)) => a.numeric_join(&t.ty()),
            _ => vstd::pervasive::unreached(),
        };
        self.binary_imm_value(Opcode::Sub, Type::Term(join), lhs, imm, span)
    }

    /// Term multiplication; the result type is the numeric join of the two
    /// operand types.
    pub fn mul(&mut self, lhs: Value, rhs: Value, span: SourceSpan) -> (r: Value)
        requires
            old(self).ready(),
            old(self).dfg.valid_value(lhs),
            old(self).dfg.valid_value(rhs),
            old(self).dfg.value_ty(lhs).is_term(),
            old(self).dfg.value_ty(rhs).is_term(),
        ensures
            final(self).ready(),
            final(self).grows_from(*old(self)),
            final(self).appended_inst(
                *old(self),
                InstData::BinaryOp(BinaryOp { op: Opcode::Mul, args: (lhs, rhs) }),
                span,
            ),
            final(self).one_result(
                *old(self),
                r,
                Type::Term(
                    term_of(old(self).dfg.value_ty(lhs)).numeric_join_spec(
                        &term_of(old(self).dfg.value_ty(rhs)),
                    ),
                ),
            ),
    {
        let join = match (self.dfg.value_type(lhs), self.dfg.value_type(rhs)) {
            (Type::Term(a), Type::Term(b)) => a.numeric_join(b),
            _ => vstd::pervasive::unreached(),
        };
        self.binary_value(Opcode::Mul, Type::Term(join), lhs, rhs, span)
    }

    /// Term multiplication with an immediate right-hand side, which must be numeric;
    /// the result type is the numeric join of the two operand types.
    pub fn mul_imm(&mut self, lhs: Value, imm: Immediate, span: SourceSpan) -> (r: Value)
        requires
            old(self).ready(),
            old(self).dfg.valid_value(lhs),
            old(self).dfg.value_ty(lhs).is_term(),
            imm_is_numeric_term(imm),
        ensures
            final(self).ready(),
            final(self).grows_from(*old(self)),
            final(self).appended_inst(
                *old(self),
                InstData::BinaryOpImm(BinaryOpImm { op: Opcode::Mul, arg: lhs, imm }),
                span,
            ),
            final(self).one_result(
                *old(self),
                r,
                Type::Term(
                    term_of(old(self).dfg.value_ty(lhs)).numeric_join_spec(&imm_term_ty(imm)),
                ),
            ),
    {
        let join = match (self.dfg.value_type(lhs), &imm) {
            (Type::Term(a), Immediate::Term(t)) => a.numeric_join(&t.ty()),
            _ => vstd::pervasive::unreached(),
        };
        self.binary_imm_value(Opcode::Mul, Type::Term(join), lhs, imm, span)
    }

    /// Term float division; the result type is the numeric join of the two
    /// operand types.
    pub fn fdiv(&mut self, lhs: Value, rhs: Value, span: SourceSpan) -> (r: Value)
        requires
            old(self).ready(),
            old(self).dfg.valid_value(lhs),
            old(self).dfg.valid_value(rhs),
            old(self).dfg.value_ty(lhs).is_term(),
            old(self).dfg.value_ty(rhs).is_term(),
        ensures
            final(self).ready(),
            final(self).grows_from(*old(self)),
            final(self).appended_inst(
                *old(self),
                InstData::BinaryOp(BinaryOp { op: Opcode::Fdiv, args: (lhs, rhs) }),
                span,
            ),
            final(self).one_result(
                *old(self),
                r,
                Type::Term(
                    term_of(old(self).dfg.value_ty(lhs)).numeric_join_spec(
                        &term_of(old(self).dfg.value_ty(rhs)),
                    ),
                ),
            ),
    {
        let join = match (self.dfg.value_type(lhs), self.dfg.value_type(rhs)) {
            (Type::Term(a), Type::Term(b)) => a.numeric_join(b),
            _ => vstd::pervasive::unreached(),
        };
        self.binary_value(Opcode::Fdiv, Type::Term(join), lhs, rhs, span)
    }

    /// Term float division with an immediate right-hand side, which must be numeric;
    /// the result type is the numeric join of the two operand types.
    pub fn fdiv_imm(&mut self, lhs: Value, imm: Immediate, span: SourceSpan) -> (r: Value)
        requires
            old(self).ready(),
            old(self).dfg.valid_value(lhs),
            old(self).dfg.value_ty(lhs).is_term(),
            imm_is_numeric_term(imm),
        ensures
            final(self).ready(),
            final(self).grows_from(*old(self)),
            final(self).appended_inst(
                *old(self),
                InstData::BinaryOpImm(BinaryOpImm { op: Opcode::Fdiv, arg: lhs, imm }),
                span,
            ),
            final(self).one_result(
                *old(self),
                r,
                Type::Term(
                    term_of(old(self).dfg.value_ty(lhs)).numeric_join_spec(&imm_term_ty(imm)),
                ),
            ),
    {
        let join = match (self.dfg.value_type(lhs), &imm) {
            (Type::Term(a), Immediate::Term(t)) => a.numeric_join(&t.ty()),
            _ => vstd::pervasive::unreached(),
        };
        self.binary_imm_value(Opcode::Fdiv, Type::Term(join), lhs, imm, span)
    }

    /// Numeric negation; the result type is the operand's numeric
    /// coercion.
    pub fn neg(&mut self, arg: Value, span: SourceSpan) -> (r: Value)
        requires
            old(self).ready(),
            old(self).dfg.valid_value(arg),
            old(self).dfg.value_ty(arg).is_term(),
        ensures
            final(self).ready(),
            final(self).grows_from(*old(self)),
            final(self).appended_inst(
                *old(self),
                InstData::UnaryOp(UnaryOp { op: Opcode::Neg, arg }),
                span,
            ),
            final(self).one_result(
                *old(self),
                r,
                Type::Term(term_of(old(self).dfg.value_ty(arg)).coerce_to_numeric_spec()),
            ),
    {
        let t = match self.dfg.value_type(arg) {
            Type::Term(a) => a.coerce_to_numeric(),
            _ => vstd::pervasive::unreached(),
        };
        self.unary_value(Opcode::Neg, Type::Term(t), arg, span)
    }

    /// Numeric negation of an immediate, which must be numeric.
    pub fn neg_imm(&mut self, imm: Immediate, span: SourceSpan) -> (r: Value)
        requires
            old(self).ready(),
            imm_is_numeric_term(imm),
        ensures
            final(self).ready(),
            final(self).grows_from(*old(self)),
            final(self).appended_inst(
                *old(self),
                InstData::UnaryOpImm(UnaryOpImm { op: Opcode::Neg, imm }),
                span,
            ),
            final(self).one_result(*old(self), r, Type::Term(imm_term_ty(imm))),
    {
        let t = match &imm {
            Immediate::Term(t) => t.ty(),
            _ => vstd::pervasive::unreached(),
        };
        self.unary_imm_value(Opcode::Neg, Type::Term(t), imm, span)
    }

    /// Boolean negation; yields a boolean.
    pub fn not(&mut self, arg: Value, span: SourceSpan) -> (r: Value)
        requires
            old(self).ready(),
            old(self).dfg.valid_value(arg),
        ensures
            final(self).ready(),
            final(self).grows_from(*old(self)),
            final(self).appended_inst(
                *old(self),
                InstData::UnaryOp(UnaryOp { op: Opcode::Not, arg }),
                span,
            ),
            final(self).one_result(*old(self), r, Type::Term(TermType::Bool)),
    {
        self.unary_value(Opcode::Not, Type::Term(TermType::Bool), arg, span)
    }

    /// Boolean negation of an immediate; yields a boolean.
    pub fn not_imm(&mut self, imm: bool, span: SourceSpan) -> (r: Value)
        requires
            old(self).ready(),
        ensures
            final(self).ready(),
            final(self).grows_from(*old(self)),
            final(self).appended_inst(
                *old(self),
                InstData::UnaryOpImm(UnaryOpImm { op: Opcode::Not, imm: Immediate::Term(ImmediateTerm::Bool(imm)) }),
                span,
            ),
            final(self).one_result(*old(self), r, Type::Term(TermType::Bool)),
    {
        self.unary_imm_value(
            Opcode::Not,
            Type::Term(TermType::Bool),
            Immediate::Term(ImmediateTerm::Bool(imm)),
            span,
        )
    }

    /// Bitwise complement; yields an integer.
    pub fn bnot(&mut self, arg: Value, span: SourceSpan) -> (r: Value)
        requires
            old(self).ready(),
            old(self).dfg.valid_value(arg),
        ensures
            final(self).ready(),
            final(self).grows_from(*old(self)),
            final(self).one_result(*old(self), r, Type::Term(TermType::Integer)),
    {
        self.unary_value(Opcode::Bnot, Type::Term(TermType::Integer), arg, span)
    }

    /// Bitwise complement of an immediate; yields an integer.
    pub fn bnot_imm(&mut self, imm: i64, span: SourceSpan) -> (r: Value)
        requires
            old(self).ready(),
        ensures
            final(self).ready(),
            final(self).grows_from(*old(self)),
            final(self).appended_inst(
                *old(self),
                InstData::UnaryOpImm(UnaryOpImm { op: Opcode::Bnot, imm: Immediate::Term(ImmediateTerm::Integer(imm)) }),
                span,
            ),
            final(self).one_result(*old(self), r, Type::Term(TermType::Integer)),
    {
        self.unary_imm_value(
            Opcode::Bnot,
            Type::Term(TermType::Integer),
            Immediate::Term(ImmediateTerm::Integer(imm)),
            span,
        )
    }
}

} // verus!
