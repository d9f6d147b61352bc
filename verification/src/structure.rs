use vstd::prelude::*;
use crate::builder::FunctionBuilder;
use crate::dfg::InstNode;
use crate::immediate::Immediate;
use crate::insts::{
    BinaryOp, BinaryOpImm, InstData, Inst, IsTypeData, MakeFun, Opcode, SetElement,
    SetElementImm, UnaryOp, Value,
};
use crate::ops::copy_values;
use crate::span::SourceSpan;
use crate::types::{FuncRef, TermType, Type};

verus! {

broadcast use vstd::std_specs::vec::group_vec_axioms, vstd::seq::group_seq_axioms;

/// The instruction materializes a closure over the given callee and
/// environment.
pub open spec fn inst_is_make_fun(nd: InstNode, callee: FuncRef, env: Seq<Value>) -> bool {
    match nd.data {
        InstData::MakeFun(d) => d.callee == callee && d.env@ == env,
        _ => false,
    }
}

impl FunctionBuilder {
    /// Builds a cons cell from head and tail; yields a cons.
    pub fn cons(&mut self, head: Value, tail: Value, span: SourceSpan) -> (r: Value)
        requires
            old(self).ready(),
            old(self).dfg.valid_value(head),
            old(self).dfg.valid_value(tail),
        ensures
            final(self).ready(),
            final(self).grows_from(*old(self)),
            final(self).appended_inst(
                *old(self),
                InstData::BinaryOp(BinaryOp { op: Opcode::Cons, args: (head, tail) }),
                span,
            ),
            final(self).one_result(*old(self), r, Type::Term(TermType::Cons)),
    {
        self.binary_value(Opcode::Cons, Type::Term(TermType::Cons), head, tail, span)
    }

    /// Builds a cons cell whose tail is an immediate; yields a cons.
    pub fn cons_imm(&mut self, head: Value, tail: Immediate, span: SourceSpan) -> (r: Value)
        requires
            old(self).ready(),
            old(self).dfg.valid_value(head),
        ensures
            final(self).ready(),
            final(self).grows_from(*old(self)),
            final(self).appended_inst(
                *old(self),
                InstData::BinaryOpImm(BinaryOpImm { op: Opcode::Cons, arg: head, imm: tail }),
                span,
            ),
            final(self).one_result(*old(self), r, Type::Term(TermType::Cons)),
    {
        self.binary_imm_value(Opcode::Cons, Type::Term(TermType::Cons), head, tail, span)
    }

    /// Projects the head of a list; yields any term.
    pub fn head(&mut self, list: Value, span: SourceSpan) -> (r: Value)
        requires
            old(self).ready(),
            old(self).dfg.valid_value(list),
        ensures
            final(self).ready(),
            final(self).grows_from(*old(self)),
            final(self).appended_inst(
                *old(self),
                InstData::UnaryOp(UnaryOp { op: Opcode::Head, arg: list }),
                span,
            ),
            final(self).one_result(*old(self), r, Type::Term(TermType::Any)),
    {
        self.unary_value(Opcode::Head, Type::Term(TermType::Any), list, span)
    }

    /// Projects the tail of a list; yields a maybe-improper list.
    pub fn tail(&mut self, list: Value, span: SourceSpan) -> (r: Value)
        requires
            old(self).ready(),
            old(self).dfg.valid_value(list),
        ensures
            final(self).ready(),
            final(self).grows_from(*old(self)),
            final(self).appended_inst(
                *old(self),
                InstData::UnaryOp(UnaryOp { op: Opcode::Tail, arg: list }),
                span,
            ),
            final(self).one_result(*old(self), r, Type::Term(TermType::MaybeImproperList)),
    {
        self.unary_value(Opcode::Tail, Type::Term(TermType::MaybeImproperList), list, span)
    }

    /// Allocates an uninitialized tuple of the given arity; yields a
    /// tuple.
    pub fn tuple_imm(&mut self, arity: usize, span: SourceSpan) -> (r: Value)
        requires
            old(self).ready(),
            arity <= isize::MAX as usize,
        ensures
            final(self).ready(),
            final(self).grows_from(*old(self)),
            final(self).appended_inst(
                *old(self),
                InstData::UnaryOpImm(
                    crate::insts::UnaryOpImm {
                        op: Opcode::Tuple,
                        imm: Immediate::Isize(arity as isize),
                    },
                ),
                span,
            ),
            final(self).one_result(*old(self), r, Type::Term(TermType::Tuple(None))),
    {
        self.unary_imm_value(
            Opcode::Tuple,
            Type::Term(TermType::Tuple(None)),
            Immediate::Isize(arity as isize),
            span,
        )
    }

    /// Reads a tuple element at a value index; yields any term.
    pub fn get_element(&mut self, tuple: Value, index: Value, span: SourceSpan) -> (r: Value)
        requires
            old(self).ready(),
            old(self).dfg.valid_value(tuple),
            old(self).dfg.valid_value(index),
        ensures
            final(self).ready(),
            final(self).grows_from(*old(self)),
            final(self).appended_inst(
                *old(self),
                InstData::BinaryOp(BinaryOp { op: Opcode::GetElement, args: (tuple, index) }),
                span,
            ),
            final(self).one_result(*old(self), r, Type::Term(TermType::Any)),
    {
        self.binary_value(Opcode::GetElement, Type::Term(TermType::Any), tuple, index, span)
    }

    /// Reads a tuple element at an immediate index; yields any term.
    pub fn get_element_imm(&mut self, tuple: Value, index: usize, span: SourceSpan) -> (r: Value)
        requires
            old(self).ready(),
            old(self).dfg.valid_value(tuple),
            index <= isize::MAX as usize,
        ensures
            final(self).ready(),
            final(self).grows_from(*old(self)),
            final(self).appended_inst(
                *old(self),
                InstData::BinaryOpImm(
                    BinaryOpImm {
                        op: Opcode::GetElement,
                        arg: tuple,
                        imm: Immediate::Isize(index as isize),
                    },
                ),
                span,
            ),
            final(self).one_result(*old(self), r, Type::Term(TermType::Any)),
    {
        self.binary_imm_value(
            Opcode::GetElement,
            Type::Term(TermType::Any),
            tuple,
            Immediate::Isize(index as isize),
            span,
        )
    }

    /// Produces a new tuple with the element at an immediate index
    /// replaced by a value; the original tuple stays live.
    pub fn set_element(&mut self, tuple: Value, index: usize, value: Value, span: SourceSpan) -> (r:
        Value)
        requires
            old(self).ready(),
            old(self).dfg.valid_value(tuple),
            old(self).dfg.valid_value(value),
            index <= isize::MAX as usize,
        ensures
            final(self).ready(),
            final(self).grows_from(*old(self)),
            final(self).appended_inst(
                *old(self),
                InstData::SetElement(
                    SetElement {
                        op: Opcode::SetElement,
                        index: Immediate::Isize(index as isize),
                        args: (tuple, value),
                    },
                ),
                span,
            ),
            final(self).one_result(*old(self), r, Type::Term(TermType::Tuple(None))),
    {
        let inst = self.build(
            InstData::SetElement(
                SetElement {
                    op: Opcode::SetElement,
                    index: Immediate::Isize(index as isize),
                    args: (tuple, value),
                },
            ),
            Type::Term(TermType::Tuple(None)),
            span,
        );
        self.dfg.first_result(inst)
    }

    /// Like `set_element`, but permitted to update the tuple in place
    /// when the builder has proven that safe.
    pub fn set_element_mut(
        &mut self,
        tuple: Value,
        index: usize,
        value: Value,
        span: SourceSpan,
    ) -> (r: Value)
        requires
            old(self).ready(),
            old(self).dfg.valid_value(tuple),
            old(self).dfg.valid_value(value),
            index <= isize::MAX as usize,
        ensures
            final(self).ready(),
            final(self).grows_from(*old(self)),
            final(self).appended_inst(
                *old(self),
                InstData::SetElement(
                    SetElement {
                        op: Opcode::SetElementMut,
                        index: Immediate::Isize(index as isize),
                        args: (tuple, value),
                    },
                ),
                span,
            ),
            final(self).one_result(*old(self), r, Type::Term(TermType::Tuple(None))),
    {
        let inst = self.build(
            InstData::SetElement(
                SetElement {
                    op: Opcode::SetElementMut,
                    index: Immediate::Isize(index as isize),
                    args: (tuple, value),
                },
            ),
            Type::Term(TermType::Tuple(None)),
            span,
        );
        self.dfg.first_result(inst)
    }

    /// Produces a new tuple with the element at an immediate index
    /// replaced by an immediate.
    pub fn set_element_imm(
        &mut self,
        tuple: Value,
        index: usize,
        value: Immediate,
        span: SourceSpan,
    ) -> (r: Value)
        requires
            old(self).ready(),
            old(self).dfg.valid_value(tuple),
            index <= isize::MAX as usize,
        ensures
            final(self).ready(),
            final(self).grows_from(*old(self)),
            final(self).appended_inst(
                *old(self),
                InstData::SetElementImm(
                    SetElementImm {
                        op: Opcode::SetElement,
                        arg: tuple,
                        index: Immediate::Isize(index as isize),
                        value,
                    },
                ),
                span,
            ),
            final(self).one_result(*old(self), r, Type::Term(TermType::Tuple(None))),
    {
        let inst = self.build(
            InstData::SetElementImm(
                SetElementImm {
                    op: Opcode::SetElement,
                    arg: tuple,
                    index: Immediate::Isize(index as isize),
                    value,
                },
            ),
            Type::Term(TermType::Tuple(None)),
            span,
        );
        self.dfg.first_result(inst)
    }

    /// Like `set_element_imm`, but permitted to update in place.
    pub fn set_element_mut_imm(
        &mut self,
        tuple: Value,
        index: usize,
        value: Immediate,
        span: SourceSpan,
    ) -> (r: Value)
        requires
            old(self).ready(),
            old(self).dfg.valid_value(tuple),
            index <= isize::MAX as usize,
        ensures
            final(self).ready(),
            final(self).grows_from(*old(self)),
            final(self).appended_inst(
                *old(self),
                InstData::SetElementImm(
                    SetElementImm {
                        op: Opcode::SetElementMut,
                        arg: tuple,
                        index: Immediate::Isize(index as isize),
                        value,
                    },
                ),
                span,
            ),
            final(self).one_result(*old(self), r, Type::Term(TermType::Tuple(None))),
    {
        let inst = self.build(
            InstData::SetElementImm(
                SetElementImm {
                    op: Opcode::SetElementMut,
                    arg: tuple,
                    index: Immediate::Isize(index as isize),
                    value,
                },
            ),
            Type::Term(TermType::Tuple(None)),
            span,
        );
        self.dfg.first_result(inst)
    }

    /// Reads one captured value out of a closure's environment; yields
    /// any term.
    pub fn unpack_env(&mut self, fun: Value, index: usize, span: SourceSpan) -> (r: Value)
        requires
            old(self).ready(),
            old(self).dfg.valid_value(fun),
            index <= isize::MAX as usize,
        ensures
            final(self).ready(),
            final(self).grows_from(*old(self)),
            final(self).appended_inst(
                *old(self),
                InstData::BinaryOpImm(
                    BinaryOpImm {
                        op: Opcode::UnpackEnv,
                        arg: fun,
                        imm: Immediate::Isize(index as isize),
                    },
                ),
                span,
            ),
            final(self).one_result(*old(self), r, Type::Term(TermType::Any)),
    {
        self.binary_imm_value(
            Opcode::UnpackEnv,
            Type::Term(TermType::Any),
            fun,
            Immediate::Isize(index as isize),
            span,
        )
    }

    /// Materializes a closure over a known callee and its captured
    /// environment; yields a fun term.
    pub fn make_fun(&mut self, callee: FuncRef, env: &Vec<Value>, span: SourceSpan) -> (inst: Inst)
        requires
            old(self).ready(),
            old(self).dfg.valid_values(env@),
        ensures
            final(self).ready(),
            final(self).grows_from(*old(self)),
            final(self).appended_any(*old(self), span, false),
            inst_is_make_fun(
                final(self).dfg.insts@[old(self).dfg.insts@.len() as int],
                callee,
                env@,
            ),
            final(self).one_result(
                *old(self),
                final(self).dfg.insts@[inst.0 as int].results@[0],
                Type::Term(TermType::Fun(None)),
            ),
            inst.0 == old(self).dfg.insts@.len(),
    {
        let vlist = copy_values(env);
        self.build(
            InstData::MakeFun(MakeFun { callee, env: vlist }),
            Type::Term(TermType::Fun(None)),
            span,
        )
    }

    /// Tests a value against a static type; yields an i1.
    pub fn is_type(&mut self, ty: Type, value: Value, span: SourceSpan) -> (r: Value)
        requires
            old(self).ready(),
            old(self).dfg.valid_value(value),
        ensures
            final(self).ready(),
            final(self).grows_from(*old(self)),
            final(self).appended_any(*old(self), span, false),
            final(self).one_result(
                *old(self),
                r,
                Type::Primitive(crate::types::PrimitiveType::I1),
            ),
    {
        let inst = self.build(
            InstData::IsType(IsTypeData { arg: value, ty }),
            Type::Primitive(crate::types::PrimitiveType::I1),
            span,
        );
        self.dfg.first_result(inst)
    }

    /// Concatenates two lists; yields a list.
    pub fn list_concat(&mut self, lhs: Value, rhs: Value, span: SourceSpan) -> (r: Value)
        requires
            old(self).ready(),
            old(self).dfg.valid_value(lhs),
            old(self).dfg.valid_value(rhs),
        ensures
            final(self).ready(),
            final(self).grows_from(*old(self)),
            final(self).appended_inst(
                *old(self),
                InstData::BinaryOp(BinaryOp { op: Opcode::ListConcat, args: (lhs, rhs) }),
                span,
            ),
            final(self).one_result(*old(self), r, Type::Term(TermType::List(None))),
    {
        self.binary_value(Opcode::ListConcat, Type::Term(TermType::List(None)), lhs, rhs, span)
    }

    /// Subtracts the elements of one list from another; yields a list.
    pub fn list_subtract(&mut self, lhs: Value, rhs: Value, span: SourceSpan) -> (r: Value)
        requires
            old(self).ready(),
            old(self).dfg.valid_value(lhs),
            old(self).dfg.valid_value(rhs),
        ensures
            final(self).ready(),
            final(self).grows_from(*old(self)),
            final(self).appended_inst(
                *old(self),
                InstData::BinaryOp(BinaryOp { op: Opcode::ListSubtract, args: (lhs, rhs) }),
                span,
            ),
            final(self).one_result(*old(self), r, Type::Term(TermType::List(None))),
    {
        self.binary_value(Opcode::ListSubtract, Type::Term(TermType::List(None)), lhs, rhs, span)
    }
}

} // verus!
