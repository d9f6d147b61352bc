use vstd::prelude::*;
use crate::builder::FunctionBuilder;
use crate::constant::{Constant, ConstantItem, Integer};
use crate::dfg::intern_post;
use crate::dfg::InstNode;
use crate::immediate::{Immediate, ImmediateTerm};
use crate::insts::{
    BinaryOp, BinaryOpConst, BinaryOpImm, Block, Inst, InstData, Opcode, PrimOp, UnaryOp,
    UnaryOpConst, UnaryOpImm, Value,
};
use crate::span::{SourceSpan, Symbol};
use crate::types::{term_of, PrimitiveType, TermType, Type};

verus! {

broadcast use vstd::std_specs::vec::group_vec_axioms, vstd::seq::group_seq_axioms;

/// The instruction is a primitive operation with the given opcode and
/// arguments.
pub open spec fn inst_is_primop(nd: InstNode, op: Opcode, args: Seq<Value>) -> bool {
    match nd.data {
        InstData::PrimOp(d) => d.op == op && d.args@ == args,
        _ => false,
    }
}

/// An immediate is a numeric term value.
pub open spec fn imm_is_numeric_term(imm: Immediate) -> bool {
    match imm {
        Immediate::Term(t) => t.is_numeric_spec(),
        _ => false,
    }
}

/// The term type an immediate term carries.
pub open spec fn imm_term_ty(imm: Immediate) -> TermType {
    match imm {
        Immediate::Term(t) => t.ty_spec(),
        _ => TermType::Any,
    }
}

/// Copies a vector of value handles.
#[verifier::loop_isolation(false)]
pub fn copy_values(args: &Vec<Value>) -> (r: Vec<Value>)
    ensures
        r@ == args@,
{
    let mut out: Vec<Value> = Vec::new();
    let n = args.len();
    let mut i: usize = 0;
    while i < n
        invariant
            i <= n,
            out@ == args@.subrange(0, i as int),
        decreases n - i,
    {
        out.push(args[i]);
        i += 1;
    }
    assert(out@ =~= args@);
    out
}

impl FunctionBuilder {
    /// Appends an operation over one value producing one result of the
    /// given type.
    pub fn unary_value(&mut self, op: Opcode, ty: Type, arg: Value, span: SourceSpan) -> (r: Value)
        requires
            old(self).ready(),
            old(self).dfg.valid_value(arg),
            ty != Type::Invalid,
            !(InstData::UnaryOp(UnaryOp { op, arg }).is_terminator_spec()),
        ensures
            final(self).ready(),
            final(self).grows_from(*old(self)),
            final(self).appended_inst(*old(self), InstData::UnaryOp(UnaryOp { op, arg }), span),
            final(self).one_result(*old(self), r, ty),
            final(self).dfg.constants@ == old(self).dfg.constants@,
    {
        let inst = self.build(InstData::UnaryOp(UnaryOp { op, arg }), ty, span);
        self.dfg.first_result(inst)
    }

    /// Appends an operation over one immediate producing one result of
    /// the given type.
    pub fn unary_imm_value(
        &mut self,
        op: Opcode,
        ty: Type,
        imm: Immediate,
        span: SourceSpan,
    ) -> (r: Value)
        requires
            old(self).ready(),
            ty != Type::Invalid,
        ensures
            final(self).ready(),
            final(self).grows_from(*old(self)),
            final(self).appended_inst(
                *old(self),
                InstData::UnaryOpImm(UnaryOpImm { op, imm }),
                span,
            ),
            final(self).one_result(*old(self), r, ty),
            final(self).dfg.constants@ == old(self).dfg.constants@,
    {
        let inst = self.build(InstData::UnaryOpImm(UnaryOpImm { op, imm }), ty, span);
        self.dfg.first_result(inst)
    }

    /// Appends an operation over one pooled constant producing one
    /// result of the given type.
    pub fn unary_const_value(
        &mut self,
        op: Opcode,
        ty: Type,
        imm: Constant,
        span: SourceSpan,
    ) -> (r: Value)
        requires
            old(self).ready(),
            old(self).dfg.valid_constant(imm),
            ty != Type::Invalid,
        ensures
            final(self).ready(),
            final(self).grows_from(*old(self)),
            final(self).appended_inst(
                *old(self),
                InstData::UnaryOpConst(UnaryOpConst { op, imm }),
                span,
            ),
            final(self).one_result(*old(self), r, ty),
            final(self).dfg.constants@ == old(self).dfg.constants@,
    {
        let inst = self.build(InstData::UnaryOpConst(UnaryOpConst { op, imm }), ty, span);
        self.dfg.first_result(inst)
    }

    /// Appends an operation over two values producing one result of
    /// the given type.
    pub fn binary_value(
        &mut self,
        op: Opcode,
        ty: Type,
        lhs: Value,
        rhs: Value,
        span: SourceSpan,
    ) -> (r: Value)
        requires
            old(self).ready(),
            old(self).dfg.valid_value(lhs),
            old(self).dfg.valid_value(rhs),
            ty != Type::Invalid,
        ensures
            final(self).ready(),
            final(self).grows_from(*old(self)),
            final(self).appended_inst(
                *old(self),
                InstData::BinaryOp(BinaryOp { op, args: (lhs, rhs) }),
                span,
            ),
            final(self).one_result(*old(self), r, ty),
            final(self).dfg.constants@ == old(self).dfg.constants@,
    {
        let inst = self.build(InstData::BinaryOp(BinaryOp { op, args: (lhs, rhs) }), ty, span);
        self.dfg.first_result(inst)
    }

    /// Appends an operation over one value and an immediate producing
    /// one result of the given type.
    pub fn binary_imm_value(
        &mut self,
        op: Opcode,
        ty: Type,
        arg: Value,
        imm: Immediate,
        span: SourceSpan,
    ) -> (r: Value)
        requires
            old(self).ready(),
            old(self).dfg.valid_value(arg),
            ty != Type::Invalid,
        ensures
            final(self).ready(),
            final(self).grows_from(*old(self)),
            final(self).appended_inst(
                *old(self),
                InstData::BinaryOpImm(BinaryOpImm { op, arg, imm }),
                span,
            ),
            final(self).one_result(*old(self), r, ty),
            final(self).dfg.constants@ == old(self).dfg.constants@,
    {
        let inst = self.build(InstData::BinaryOpImm(BinaryOpImm { op, arg, imm }), ty, span);
        self.dfg.first_result(inst)
    }

    /// Appends an operation over one value and a pooled constant
    /// producing one result of the given type.
    pub fn binary_const_value(
        &mut self,
        op: Opcode,
        ty: Type,
        arg: Value,
        imm: Constant,
        span: SourceSpan,
    ) -> (r: Value)
        requires
            old(self).ready(),
            old(self).dfg.valid_value(arg),
            old(self).dfg.valid_constant(imm),
            ty != Type::Invalid,
        ensures
            final(self).ready(),
            final(self).grows_from(*old(self)),
            final(self).appended_inst(
                *old(self),
                InstData::BinaryOpConst(BinaryOpConst { op, arg, imm }),
                span,
            ),
            final(self).one_result(*old(self), r, ty),
            final(self).dfg.constants@ == old(self).dfg.constants@,
    {
        let inst = self.build(InstData::BinaryOpConst(BinaryOpConst { op, arg, imm }), ty, span);
        self.dfg.first_result(inst)
    }

    /// Appends a primitive operation producing one result of the given
    /// type.
    pub fn primop_value(
        &mut self,
        op: Opcode,
        ty: Type,
        args: &Vec<Value>,
        span: SourceSpan,
    ) -> (r: Value)
        requires
            old(self).ready(),
            old(self).dfg.valid_values(args@),
            ty != Type::Invalid,
            op != Opcode::Raise,
            op != Opcode::MatchFail,
        ensures
            final(self).ready(),
            final(self).grows_from(*old(self)),
            final(self).appended_any(*old(self), span, false),
            inst_is_primop(
                final(self).dfg.insts@[old(self).dfg.insts@.len() as int],
                op,
                args@,
            ),
            final(self).one_result(*old(self), r, ty),
    {
        let vlist = copy_values(args);
        let inst = self.build(InstData::PrimOp(PrimOp { op, args: vlist }), ty, span);
        self.dfg.first_result(inst)
    }

    /// Appends a primitive operation producing no result.
    pub fn primop_noresult(&mut self, op: Opcode, args: &Vec<Value>, span: SourceSpan) -> (inst:
        Inst)
        requires
            old(self).ready(),
            old(self).dfg.valid_values(args@),
            op != Opcode::Raise,
            op != Opcode::MatchFail,
        ensures
            final(self).ready(),
            final(self).grows_from(*old(self)),
            final(self).appended_any(*old(self), span, false),
            inst_is_primop(
                final(self).dfg.insts@[old(self).dfg.insts@.len() as int],
                op,
                args@,
            ),
            final(self).no_result(*old(self)),
            inst.0 == old(self).dfg.insts@.len(),
    {
        let vlist = copy_values(args);
        self.build(InstData::PrimOp(PrimOp { op, args: vlist }), Type::Invalid, span)
    }

    /// Materializes an i1 immediate.
    pub fn i1(&mut self, i: bool, span: SourceSpan) -> (r: Value)
        requires
            old(self).ready(),
        ensures
            final(self).ready(),
            final(self).grows_from(*old(self)),
            final(self).appended_inst(
                *old(self),
                InstData::UnaryOpImm(
                    UnaryOpImm { op: Opcode::ImmInt, imm: Immediate::I1(i) },
                ),
                span,
            ),
            final(self).one_result(*old(self), r, Type::Primitive(PrimitiveType::I1)),
    {
        self.unary_imm_value(
            Opcode::ImmInt,
            Type::Primitive(PrimitiveType::I1),
            Immediate::I1(i),
            span,
        )
    }

    /// Materializes an i8 immediate.
    pub fn i8(&mut self, i: i8, span: SourceSpan) -> (r: Value)
        requires
            old(self).ready(),
        ensures
            final(self).ready(),
            final(self).grows_from(*old(self)),
            final(self).appended_inst(
                *old(self),
                InstData::UnaryOpImm(UnaryOpImm { op: Opcode::ImmInt, imm: Immediate::I8(i) }),
                span,
            ),
            final(self).one_result(*old(self), r, Type::Primitive(PrimitiveType::I8)),
    {
        self.unary_imm_value(
            Opcode::ImmInt,
            Type::Primitive(PrimitiveType::I8),
            Immediate::I8(i),
            span,
        )
    }

    /// Materializes an i16 immediate.
    pub fn i16(&mut self, i: i16, span: SourceSpan) -> (r: Value)
        requires
            old(self).ready(),
        ensures
            final(self).ready(),
            final(self).grows_from(*old(self)),
            final(self).appended_inst(
                *old(self),
                InstData::UnaryOpImm(UnaryOpImm { op: Opcode::ImmInt, imm: Immediate::I16(i) }),
                span,
            ),
            final(self).one_result(*old(self), r, Type::Primitive(PrimitiveType::I16)),
    {
        self.unary_imm_value(
            Opcode::ImmInt,
            Type::Primitive(PrimitiveType::I16),
            Immediate::I16(i),
            span,
        )
    }

    /// Materializes an i32 immediate.
    pub fn i32(&mut self, i: i32, span: SourceSpan) -> (r: Value)
        requires
            old(self).ready(),
        ensures
            final(self).ready(),
            final(self).grows_from(*old(self)),
            final(self).appended_inst(
                *old(self),
                InstData::UnaryOpImm(UnaryOpImm { op: Opcode::ImmInt, imm: Immediate::I32(i) }),
                span,
            ),
            final(self).one_result(*old(self), r, Type::Primitive(PrimitiveType::I32)),
    {
        self.unary_imm_value(
            Opcode::ImmInt,
            Type::Primitive(PrimitiveType::I32),
            Immediate::I32(i),
            span,
        )
    }

    /// Materializes an i64 immediate.
    pub fn i64(&mut self, i: i64, span: SourceSpan) -> (r: Value)
        requires
            old(self).ready(),
        ensures
            final(self).ready(),
            final(self).grows_from(*old(self)),
            final(self).appended_inst(
                *old(self),
                InstData::UnaryOpImm(UnaryOpImm { op: Opcode::ImmInt, imm: Immediate::I64(i) }),
                span,
            ),
            final(self).one_result(*old(self), r, Type::Primitive(PrimitiveType::I64)),
    {
        self.unary_imm_value(
            Opcode::ImmInt,
            Type::Primitive(PrimitiveType::I64),
            Immediate::I64(i),
            span,
        )
    }

    /// Materializes an isize immediate.
    pub fn isize(&mut self, i: isize, span: SourceSpan) -> (r: Value)
        requires
            old(self).ready(),
        ensures
            final(self).ready(),
            final(self).grows_from(*old(self)),
            final(self).appended_inst(
                *old(self),
                InstData::UnaryOpImm(UnaryOpImm { op: Opcode::ImmInt, imm: Immediate::Isize(i) }),
                span,
            ),
            final(self).one_result(*old(self), r, Type::Primitive(PrimitiveType::Isize)),
    {
        self.unary_imm_value(
            Opcode::ImmInt,
            Type::Primitive(PrimitiveType::Isize),
            Immediate::Isize(i),
            span,
        )
    }

    /// Materializes an f64 immediate from the raw bits of its IEEE-754
    /// encoding.
    pub fn f64_bits(&mut self, bits: u64, span: SourceSpan) -> (r: Value)
        requires
            old(self).ready(),
        ensures
            final(self).ready(),
            final(self).grows_from(*old(self)),
            final(self).appended_inst(
                *old(self),
                InstData::UnaryOpImm(UnaryOpImm { op: Opcode::ImmFloat, imm: Immediate::F64(bits) }),
                span,
            ),
            final(self).one_result(*old(self), r, Type::Primitive(PrimitiveType::F64)),
    {
        self.unary_imm_value(
            Opcode::ImmFloat,
            Type::Primitive(PrimitiveType::F64),
            Immediate::F64(bits),
            span,
        )
    }

    /// Materializes a term integer immediate.
    pub fn integer(&mut self, i: i64, span: SourceSpan) -> (r: Value)
        requires
            old(self).ready(),
        ensures
            final(self).ready(),
            final(self).grows_from(*old(self)),
            final(self).appended_inst(
                *old(self),
                InstData::UnaryOpImm(
                    UnaryOpImm {
                        op: Opcode::ImmInt,
                        imm: Immediate::Term(ImmediateTerm::Integer(i)),
                    },
                ),
                span,
            ),
            final(self).one_result(*old(self), r, Type::Term(TermType::Integer)),
    {
        self.unary_imm_value(
            Opcode::ImmInt,
            Type::Term(TermType::Integer),
            Immediate::Term(ImmediateTerm::Integer(i)),
            span,
        )
    }

    /// Materializes a term integer immediate from a character's scalar
    /// value.
    pub fn character(&mut self, c: char, span: SourceSpan) -> (r: Value)
        requires
            old(self).ready(),
        ensures
            final(self).ready(),
            final(self).grows_from(*old(self)),
            final(self).appended_inst(
                *old(self),
                InstData::UnaryOpImm(
                    UnaryOpImm {
                        op: Opcode::ImmInt,
                        imm: Immediate::Term(ImmediateTerm::Integer(c as u32 as i64)),
                    },
                ),
                span,
            ),
            final(self).one_result(*old(self), r, Type::Term(TermType::Integer)),
    {
        let i = c as u32;
        self.unary_imm_value(
            Opcode::ImmInt,
            Type::Term(TermType::Integer),
            Immediate::Term(ImmediateTerm::Integer(i as i64)),
            span,
        )
    }

    /// Materializes a term float immediate from the raw bits of its
    /// IEEE-754 encoding.
    pub fn float_bits(&mut self, bits: u64, span: SourceSpan) -> (r: Value)
        requires
            old(self).ready(),
        ensures
            final(self).ready(),
            final(self).grows_from(*old(self)),
            final(self).appended_inst(
                *old(self),
                InstData::UnaryOpImm(UnaryOpImm { op: Opcode::ImmFloat, imm: Immediate::Term(ImmediateTerm::Float(bits)) }),
                span,
            ),
            final(self).one_result(*old(self), r, Type::Term(TermType::Float)),
    {
        self.unary_imm_value(
            Opcode::ImmFloat,
            Type::Term(TermType::Float),
            Immediate::Term(ImmediateTerm::Float(bits)),
            span,
        )
    }

    /// Materializes a term boolean immediate.
    pub fn bool(&mut self, b: bool, span: SourceSpan) -> (r: Value)
        requires
            old(self).ready(),
        ensures
            final(self).ready(),
            final(self).grows_from(*old(self)),
            final(self).appended_inst(
                *old(self),
                InstData::UnaryOpImm(UnaryOpImm { op: Opcode::ImmBool, imm: Immediate::Term(ImmediateTerm::Bool(b)) }),
                span,
            ),
            final(self).one_result(*old(self), r, Type::Term(TermType::Bool)),
    {
        self.unary_imm_value(
            Opcode::ImmBool,
            Type::Term(TermType::Bool),
            Immediate::Term(ImmediateTerm::Bool(b)),
            span,
        )
    }

    /// Materializes an atom immediate.
    pub fn atom(&mut self, a: Symbol, span: SourceSpan) -> (r: Value)
        requires
            old(self).ready(),
        ensures
            final(self).ready(),
            final(self).grows_from(*old(self)),
            final(self).appended_inst(
                *old(self),
                InstData::UnaryOpImm(
                    UnaryOpImm {
                        op: Opcode::ImmAtom,
                        imm: Immediate::Term(ImmediateTerm::Atom(a)),
                    },
                ),
                span,
            ),
            final(self).one_result(*old(self), r, Type::Term(TermType::Atom)),
    {
        self.unary_imm_value(
            Opcode::ImmAtom,
            Type::Term(TermType::Atom),
            Immediate::Term(ImmediateTerm::Atom(a)),
            span,
        )
    }

    /// Materializes the empty-list immediate.
    pub fn nil(&mut self, span: SourceSpan) -> (r: Value)
        requires
            old(self).ready(),
        ensures
            final(self).ready(),
            final(self).grows_from(*old(self)),
            final(self).appended_inst(
                *old(self),
                InstData::UnaryOpImm(UnaryOpImm { op: Opcode::ImmNil, imm: Immediate::Term(ImmediateTerm::Nil) }),
                span,
            ),
            final(self).one_result(*old(self), r, Type::Term(TermType::Nil)),
    {
        self.unary_imm_value(
            Opcode::ImmNil,
            Type::Term(TermType::Nil),
            Immediate::Term(ImmediateTerm::Nil),
            span,
        )
    }

    /// Materializes the none immediate.
    pub fn none(&mut self, span: SourceSpan) -> (r: Value)
        requires
            old(self).ready(),
        ensures
            final(self).ready(),
            final(self).grows_from(*old(self)),
            final(self).appended_inst(
                *old(self),
                InstData::UnaryOpImm(UnaryOpImm { op: Opcode::ImmNone, imm: Immediate::Term(ImmediateTerm::NoneVal) }),
                span,
            ),
            final(self).one_result(*old(self), r, Type::Term(TermType::Any)),
    {
        self.unary_imm_value(
            Opcode::ImmNone,
            Type::Term(TermType::Any),
            Immediate::Term(ImmediateTerm::NoneVal),
            span,
        )
    }

    /// Materializes a typed null value.
    pub fn null(&mut self, ty: Type, span: SourceSpan) -> (r: Value)
        requires
            old(self).ready(),
            ty != Type::Invalid,
        ensures
            final(self).ready(),
            final(self).grows_from(*old(self)),
            final(self).appended_inst(
                *old(self),
                InstData::UnaryOpImm(UnaryOpImm { op: Opcode::ImmNull, imm: Immediate::Term(ImmediateTerm::NoneVal) }),
                span,
            ),
            final(self).one_result(*old(self), r, ty),
    {
        self.unary_imm_value(Opcode::ImmNull, ty, Immediate::Term(ImmediateTerm::NoneVal), span)
    }

    /// Interns an arbitrary-precision integer and materializes it.
    pub fn bigint(&mut self, sign: bool, digits: Vec<u32>, span: SourceSpan) -> (r: Value)
        requires
            old(self).ready(),
        ensures
            final(self).ready(),
            final(self).grows_from(*old(self)),
            final(self).one_result(*old(self), r, Type::Term(TermType::Integer)),
            exists|c: Constant| #![auto] {
                &&& intern_post(
                    old(self).dfg.constants@,
                    ConstantItem::Integer(Integer::Big(sign, digits)),
                    final(self).dfg.constants@,
                    c.0 as int,
                )
                &&& final(self).appended_inst(
                    *old(self),
                    InstData::UnaryOpConst(
                        UnaryOpConst { op: Opcode::ConstBigInt, imm: c },
                    ),
                    span,
                )
            },
    {
        let constant = self.dfg.make_constant(
            ConstantItem::Integer(Integer::Big(sign, digits)),
        );
        let r = self.unary_const_value(
            Opcode::ConstBigInt,
            Type::Term(TermType::Integer),
            constant,
            span,
        );
        proof {
            assert(exists|c: Constant| #![auto] {
                &&& intern_post(
                    old(self).dfg.constants@,
                    ConstantItem::Integer(Integer::Big(sign, digits)),
                    final(self).dfg.constants@,
                    c.0 as int,
                )
                &&& final(self).appended_inst(
                    *old(self),
                    InstData::UnaryOpConst(
                        UnaryOpConst { op: Opcode::ConstBigInt, imm: c },
                    ),
                    span,
                )
            }) by {
                assert(intern_post(
                    old(self).dfg.constants@,
                    ConstantItem::Integer(Integer::Big(sign, digits)),
                    self.dfg.constants@,
                    constant.0 as int,
                ));
            }
        }
        r
    }

    /// Interns an interned-string binary constant and materializes it.
    pub fn binary_from_ident(&mut self, id: Symbol, span: SourceSpan) -> (r: Value)
        requires
            old(self).ready(),
        ensures
            final(self).ready(),
            final(self).grows_from(*old(self)),
            final(self).one_result(*old(self), r, Type::Term(TermType::Binary)),
            exists|c: Constant| #![auto] {
                &&& intern_post(
                    old(self).dfg.constants@,
                    ConstantItem::InternedStr(id),
                    final(self).dfg.constants@,
                    c.0 as int,
                )
                &&& final(self).appended_inst(
                    *old(self),
                    InstData::UnaryOpConst(UnaryOpConst { op: Opcode::ConstBinary, imm: c }),
                    span,
                )
            },
    {
        let constant = self.dfg.make_constant(ConstantItem::InternedStr(id));
        let r = self.unary_const_value(Opcode::ConstBinary, Type::Term(TermType::Binary), constant, span);
        proof {
            assert(intern_post(
                old(self).dfg.constants@,
                ConstantItem::InternedStr(id),
                self.dfg.constants@,
                constant.0 as int,
            ));
        }
        r
    }

    /// Interns a string binary constant and materializes it.
    pub fn binary_from_string(&mut self, s: String, span: SourceSpan) -> (r: Value)
        requires
            old(self).ready(),
        ensures
            final(self).ready(),
            final(self).grows_from(*old(self)),
            final(self).one_result(*old(self), r, Type::Term(TermType::Binary)),
            exists|c: Constant| #![auto] {
                &&& intern_post(
                    old(self).dfg.constants@,
                    ConstantItem::StringLit(s),
                    final(self).dfg.constants@,
                    c.0 as int,
                )
                &&& final(self).appended_inst(
                    *old(self),
                    InstData::UnaryOpConst(UnaryOpConst { op: Opcode::ConstBinary, imm: c }),
                    span,
                )
            },
    {
        let constant = self.dfg.make_constant(ConstantItem::StringLit(s));
        let r = self.unary_const_value(Opcode::ConstBinary, Type::Term(TermType::Binary), constant, span);
        proof {
            assert(intern_post(
                old(self).dfg.constants@,
                ConstantItem::StringLit(s),
                self.dfg.constants@,
                constant.0 as int,
            ));
        }
        r
    }

    /// Interns a byte-vector binary constant and materializes it.
    pub fn binary_from_bytes(&mut self, bytes: Vec<u8>, span: SourceSpan) -> (r: Value)
        requires
            old(self).ready(),
        ensures
            final(self).ready(),
            final(self).grows_from(*old(self)),
            final(self).one_result(*old(self), r, Type::Term(TermType::Binary)),
            exists|c: Constant| #![auto] {
                &&& intern_post(
                    old(self).dfg.constants@,
                    ConstantItem::Bytes(bytes),
                    final(self).dfg.constants@,
                    c.0 as int,
                )
                &&& final(self).appended_inst(
                    *old(self),
                    InstData::UnaryOpConst(UnaryOpConst { op: Opcode::ConstBinary, imm: c }),
                    span,
                )
            },
    {
        let constant = self.dfg.make_constant(ConstantItem::Bytes(bytes));
        let r = self.unary_const_value(Opcode::ConstBinary, Type::Term(TermType::Binary), constant, span);
        proof {
            assert(intern_post(
                old(self).dfg.constants@,
                ConstantItem::Bytes(bytes),
                self.dfg.constants@,
                constant.0 as int,
            ));
        }
        r
    }

    /// Interns a bitstring constant (bytes plus bit length) and
    /// materializes it.
    pub fn bitstring(&mut self, bytes: Vec<u8>, bit_len: usize, span: SourceSpan) -> (r: Value)
        requires
            old(self).ready(),
        ensures
            final(self).ready(),
            final(self).grows_from(*old(self)),
            final(self).one_result(*old(self), r, Type::Term(TermType::Binary)),
            exists|c: Constant| #![auto] {
                &&& intern_post(
                    old(self).dfg.constants@,
                    ConstantItem::Bitstring(bytes, bit_len),
                    final(self).dfg.constants@,
                    c.0 as int,
                )
                &&& final(self).appended_inst(
                    *old(self),
                    InstData::UnaryOpConst(UnaryOpConst { op: Opcode::ConstBinary, imm: c }),
                    span,
                )
            },
    {
        let constant = self.dfg.make_constant(ConstantItem::Bitstring(bytes, bit_len));
        let r = self.unary_const_value(Opcode::ConstBinary, Type::Term(TermType::Binary), constant, span);
        proof {
            assert(intern_post(
                old(self).dfg.constants@,
                ConstantItem::Bitstring(bytes, bit_len),
                self.dfg.constants@,
                constant.0 as int,
            ));
        }
        r
    }

    /// Casts a value to another type.
    pub fn cast(&mut self, arg: Value, ty: Type, span: SourceSpan) -> (r: Value)
        requires
            old(self).ready(),
            old(self).dfg.valid_value(arg),
            ty != Type::Invalid,
        ensures
            final(self).ready(),
            final(self).grows_from(*old(self)),
            final(self).appended_inst(
                *old(self),
                InstData::UnaryOp(UnaryOp { op: Opcode::Cast, arg }),
                span,
            ),
            final(self).one_result(*old(self), r, ty),
    {
        self.unary_value(Opcode::Cast, ty, arg, span)
    }

    /// Tests whether a value is null, yielding an i1.
    pub fn is_null(&mut self, arg: Value, span: SourceSpan) -> (r: Value)
        requires
            old(self).ready(),
            old(self).dfg.valid_value(arg),
        ensures
            final(self).ready(),
            final(self).grows_from(*old(self)),
            final(self).appended_inst(
                *old(self),
                InstData::UnaryOp(UnaryOp { op: Opcode::IsNull, arg }),
                span,
            ),
            final(self).one_result(*old(self), r, Type::Primitive(PrimitiveType::I1)),
    {
        self.unary_value(Opcode::IsNull, Type::Primitive(PrimitiveType::I1), arg, span)
    }

    /// Truncates a value to a narrower primitive type.
    pub fn trunc(&mut self, arg: Value, ty: PrimitiveType, span: SourceSpan) -> (r: Value)
        requires
            old(self).ready(),
            old(self).dfg.valid_value(arg),
        ensures
            final(self).ready(),
            final(self).grows_from(*old(self)),
            final(self).appended_inst(
                *old(self),
                InstData::UnaryOp(UnaryOp { op: Opcode::Trunc, arg }),
                span,
            ),
            final(self).one_result(*old(self), r, Type::Primitive(ty)),
    {
        self.unary_value(Opcode::Trunc, Type::Primitive(ty), arg, span)
    }

    /// Zero-extends a value to a wider primitive type.
    pub fn zext(&mut self, arg: Value, ty: PrimitiveType, span: SourceSpan) -> (r: Value)
        requires
            old(self).ready(),
            old(self).dfg.valid_value(arg),
        ensures
            final(self).ready(),
            final(self).grows_from(*old(self)),
            final(self).appended_inst(
                *old(self),
                InstData::UnaryOp(UnaryOp { op: Opcode::Zext, arg }),
                span,
            ),
            final(self).one_result(*old(self), r, Type::Primitive(ty)),
    {
        self.unary_value(Opcode::Zext, Type::Primitive(ty), arg, span)
    }

    /// Zero-extends an immediate to a wider primitive type.
    pub fn zext_imm(&mut self, imm: Immediate, ty: PrimitiveType, span: SourceSpan) -> (r: Value)
        requires
            old(self).ready(),
        ensures
            final(self).ready(),
            final(self).grows_from(*old(self)),
            final(self).appended_inst(
                *old(self),
                InstData::UnaryOpImm(UnaryOpImm { op: Opcode::Zext, imm }),
                span,
            ),
            final(self).one_result(*old(self), r, Type::Primitive(ty)),
    {
        self.unary_imm_value(Opcode::Zext, Type::Primitive(ty), imm, span)
    }
}

} // verus!
