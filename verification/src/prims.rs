use vstd::prelude::*;
use crate::builder::FunctionBuilder;
use crate::dfg::InstNode;
use crate::immediate::Immediate;
use crate::insts::{
    BinaryEntrySpecifier, BitsMatch, BitsMatchSkip, BitsPush, Inst, InstData, Opcode, PrimOp,
    Value,
};
use crate::ops::{copy_values, inst_is_primop};
use crate::span::SourceSpan;
use crate::types::{PrimitiveType, TermType, Type};

verus! {

broadcast use vstd::std_specs::vec::group_vec_axioms, vstd::seq::group_seq_axioms;

/// The instruction is a binary-match step with the given specifier and
/// arguments.
pub open spec fn inst_is_bits_match(
    nd: InstNode,
    spec: BinaryEntrySpecifier,
    args: Seq<Value>,
) -> bool {
    match nd.data {
        InstData::BitsMatch(d) => d.spec == spec && d.args@ == args,
        _ => false,
    }
}

/// The instruction is a binary-skip step with the given specifier,
/// arguments and expected immediate.
pub open spec fn inst_is_bits_match_skip(
    nd: InstNode,
    spec: BinaryEntrySpecifier,
    args: Seq<Value>,
    value: Immediate,
) -> bool {
    match nd.data {
        InstData::BitsMatchSkip(d) => d.spec == spec && d.args@ == args && d.value == value,
        _ => false,
    }
}

/// The instruction is a binary-push step with the given specifier and
/// arguments.
pub open spec fn inst_is_bits_push(
    nd: InstNode,
    spec: BinaryEntrySpecifier,
    args: Seq<Value>,
) -> bool {
    match nd.data {
        InstData::BitsPush(d) => d.spec == spec && d.args@ == args,
        _ => false,
    }
}

/// The term type a matched binary segment produces: integers for
/// integer and unicode segments, floats for float segments, and a
/// binary (unit 8) or bitstring otherwise.
pub open spec fn bits_match_ty_spec(spec: BinaryEntrySpecifier) -> Type {
    match spec {
        BinaryEntrySpecifier::Integer { .. } => Type::Term(TermType::Integer),
        BinaryEntrySpecifier::Float { .. } => Type::Term(TermType::Float),
        BinaryEntrySpecifier::Utf8 => Type::Term(TermType::Integer),
        BinaryEntrySpecifier::Utf16 { .. } => Type::Term(TermType::Integer),
        BinaryEntrySpecifier::Utf32 { .. } => Type::Term(TermType::Integer),
        BinaryEntrySpecifier::Binary { unit } => {
            if unit == 8 {
                Type::Term(TermType::Binary)
            } else {
                Type::Term(TermType::Bitstring)
            }
        },
    }
}

/// Computes the result type of a binary-match step.
pub fn bits_match_ty(spec: &BinaryEntrySpecifier) -> (r: Type)
    ensures
        r == bits_match_ty_spec(*spec),
{
    match spec {
        BinaryEntrySpecifier::Integer { .. } => Type::Term(TermType::Integer),
        BinaryEntrySpecifier::Float { .. } => Type::Term(TermType::Float),
        BinaryEntrySpecifier::Utf8 => Type::Term(TermType::Integer),
        BinaryEntrySpecifier::Utf16 { .. } => Type::Term(TermType::Integer),
        BinaryEntrySpecifier::Utf32 { .. } => Type::Term(TermType::Integer),
        BinaryEntrySpecifier::Binary { unit } => {
            if *unit == 8 {
                Type::Term(TermType::Binary)
            } else {
                Type::Term(TermType::Bitstring)
            }
        },
    }
}

impl FunctionBuilder {
    /// Starts a receive: allocates a receive context bound to the
    /// caller's mailbox cursor and the given timeout value.
    pub fn recv_start(&mut self, timeout: Value, span: SourceSpan) -> (r: Value)
        requires
            old(self).ready(),
            old(self).dfg.valid_value(timeout),
        ensures
            final(self).ready(),
            final(self).grows_from(*old(self)),
            final(self).appended_any(*old(self), span, false),
            inst_is_primop(
                final(self).dfg.insts@[old(self).dfg.insts@.len() as int],
                Opcode::RecvStart,
                seq![timeout],
            ),
            final(self).one_result(*old(self), r, Type::RecvContext),
    {
        let mut args: Vec<Value> = Vec::new();
        args.push(timeout);
        proof {
            assert(args@ =~= seq![timeout]);
        }
        self.primop_value(Opcode::RecvStart, Type::RecvContext, &args, span)
    }

    /// Advances the mailbox cursor; yields the receive state telling
    /// whether a message is ready, the timeout elapsed, or the caller
    /// is blocked.
    pub fn recv_next(&mut self, recv_context: Value, span: SourceSpan) -> (r: Value)
        requires
            old(self).ready(),
            old(self).dfg.valid_value(recv_context),
        ensures
            final(self).ready(),
            final(self).grows_from(*old(self)),
            final(self).appended_any(*old(self), span, false),
            inst_is_primop(
                final(self).dfg.insts@[old(self).dfg.insts@.len() as int],
                Opcode::RecvNext,
                seq![recv_context],
            ),
            final(self).one_result(*old(self), r, Type::RecvState),
    {
        let mut args: Vec<Value> = Vec::new();
        args.push(recv_context);
        proof {
            assert(args@ =~= seq![recv_context]);
        }
        self.primop_value(Opcode::RecvNext, Type::RecvState, &args, span)
    }

    /// Reads the message at the cursor without consuming it.
    pub fn recv_peek(&mut self, recv_context: Value, span: SourceSpan) -> (r: Value)
        requires
            old(self).ready(),
            old(self).dfg.valid_value(recv_context),
        ensures
            final(self).ready(),
            final(self).grows_from(*old(self)),
            final(self).appended_any(*old(self), span, false),
            inst_is_primop(
                final(self).dfg.insts@[old(self).dfg.insts@.len() as int],
                Opcode::RecvPeek,
                seq![recv_context],
            ),
            final(self).one_result(*old(self), r, Type::Term(TermType::Any)),
    {
        let mut args: Vec<Value> = Vec::new();
        args.push(recv_context);
        proof {
            assert(args@ =~= seq![recv_context]);
        }
        self.primop_value(Opcode::RecvPeek, Type::Term(TermType::Any), &args, span)
    }

    /// Consumes the message at the cursor.
    pub fn recv_pop(&mut self, recv_context: Value, span: SourceSpan) -> (inst: Inst)
        requires
            old(self).ready(),
            old(self).dfg.valid_value(recv_context),
        ensures
            final(self).ready(),
            final(self).grows_from(*old(self)),
            final(self).appended_any(*old(self), span, false),
            inst_is_primop(
                final(self).dfg.insts@[old(self).dfg.insts@.len() as int],
                Opcode::RecvPop,
                seq![recv_context],
            ),
            final(self).no_result(*old(self)),
            inst.0 == old(self).dfg.insts@.len(),
    {
        let mut args: Vec<Value> = Vec::new();
        args.push(recv_context);
        proof {
            assert(args@ =~= seq![recv_context]);
        }
        self.primop_noresult(Opcode::RecvPop, &args, span)
    }

    /// Cooperatively yields until a new message arrives or the timeout
    /// elapses.
    pub fn recv_wait(&mut self, recv_context: Value, span: SourceSpan) -> (inst: Inst)
        requires
            old(self).ready(),
            old(self).dfg.valid_value(recv_context),
        ensures
            final(self).ready(),
            final(self).grows_from(*old(self)),
            final(self).appended_any(*old(self), span, false),
            inst_is_primop(
                final(self).dfg.insts@[old(self).dfg.insts@.len() as int],
                Opcode::RecvWait,
                seq![recv_context],
            ),
            final(self).no_result(*old(self)),
            inst.0 == old(self).dfg.insts@.len(),
    {
        let mut args: Vec<Value> = Vec::new();
        args.push(recv_context);
        proof {
            assert(args@ =~= seq![recv_context]);
        }
        self.primop_noresult(Opcode::RecvWait, &args, span)
    }

    /// Tests that the remaining tail of a binary has a given size;
    /// yields an i1.
    pub fn bs_test_tail_imm(&mut self, bin: Value, size: usize, span: SourceSpan) -> (r: Value)
        requires
            old(self).ready(),
            old(self).dfg.valid_value(bin),
            size <= isize::MAX as usize,
        ensures
            final(self).ready(),
            final(self).grows_from(*old(self)),
            final(self).appended_inst(
                *old(self),
                crate::insts::InstData::BinaryOpImm(
                    crate::insts::BinaryOpImm {
                        op: Opcode::BitsTestTail,
                        arg: bin,
                        imm: Immediate::Isize(size as isize),
                    },
                ),
                span,
            ),
            final(self).one_result(*old(self), r, Type::Primitive(PrimitiveType::I1)),
    {
        self.binary_imm_value(
            Opcode::BitsTestTail,
            Type::Primitive(PrimitiveType::I1),
            bin,
            Immediate::Isize(size as isize),
            span,
        )
    }

    /// Starts matching over a binary; yields a match context.
    pub fn bs_start_match(&mut self, bin: Value, span: SourceSpan) -> (inst: Inst)
        requires
            old(self).ready(),
            old(self).dfg.valid_value(bin),
        ensures
            final(self).ready(),
            final(self).grows_from(*old(self)),
            final(self).appended_any(*old(self), span, false),
            inst_is_primop(
                final(self).dfg.insts@[old(self).dfg.insts@.len() as int],
                Opcode::BitsMatchStart,
                seq![bin],
            ),
            final(self).dfg.insts@[inst.0 as int].results@.len() == 1,
            final(self).one_result(
                *old(self),
                final(self).dfg.insts@[inst.0 as int].results@[0],
                Type::MatchContext,
            ),
            inst.0 == old(self).dfg.insts@.len(),
    {
        let mut args: Vec<Value> = Vec::new();
        args.push(bin);
        proof {
            assert(args@ =~= seq![bin]);
        }
        let vlist = copy_values(&args);
        self.build(
            InstData::PrimOp(PrimOp { op: Opcode::BitsMatchStart, args: vlist }),
            Type::MatchContext,
            span,
        )
    }

    /// Matches one segment out of a binary; the result type follows
    /// the segment specifier.
    pub fn bs_match(
        &mut self,
        spec: BinaryEntrySpecifier,
        bin: Value,
        size: Option<Value>,
        span: SourceSpan,
    ) -> (inst: Inst)
        requires
            old(self).ready(),
            old(self).dfg.valid_value(bin),
            match size {
                Some(sz) => old(self).dfg.valid_value(sz),
                None => true,
            },
        ensures
            final(self).ready(),
            final(self).grows_from(*old(self)),
            final(self).appended_any(*old(self), span, false),
            inst_is_bits_match(
                final(self).dfg.insts@[old(self).dfg.insts@.len() as int],
                spec,
                match size {
                    Some(sz) => seq![bin, sz],
                    None => seq![bin],
                },
            ),
            final(self).dfg.insts@[inst.0 as int].results@.len() == 1,
            final(self).one_result(
                *old(self),
                final(self).dfg.insts@[inst.0 as int].results@[0],
                bits_match_ty_spec(spec),
            ),
            inst.0 == old(self).dfg.insts@.len(),
    {
        let mut args: Vec<Value> = Vec::new();
        args.push(bin);
        match size {
            Some(sz) => {
                args.push(sz);
                proof {
                    assert(args@ =~= seq![bin, sz]);
                }
            },
            None => {
                proof {
                    assert(args@ =~= seq![bin]);
                }
            },
        }
        let ty = bits_match_ty(&spec);
        self.build(InstData::BitsMatch(BitsMatch { spec, args }), ty, span)
    }

    /// Skips one segment of a binary, checking it against an expected
    /// immediate.
    pub fn bs_match_skip(
        &mut self,
        spec: BinaryEntrySpecifier,
        bin: Value,
        size: Value,
        value: Immediate,
        span: SourceSpan,
    ) -> (inst: Inst)
        requires
            old(self).ready(),
            old(self).dfg.valid_value(bin),
            old(self).dfg.valid_value(size),
        ensures
            final(self).ready(),
            final(self).grows_from(*old(self)),
            final(self).appended_any(*old(self), span, false),
            inst_is_bits_match_skip(
                final(self).dfg.insts@[old(self).dfg.insts@.len() as int],
                spec,
                seq![bin, size],
                value,
            ),
            final(self).no_result(*old(self)),
            inst.0 == old(self).dfg.insts@.len(),
    {
        let mut args: Vec<Value> = Vec::new();
        args.push(bin);
        args.push(size);
        proof {
            assert(args@ =~= seq![bin, size]);
        }
        self.build(
            InstData::BitsMatchSkip(BitsMatchSkip { spec, args, value }),
            Type::Invalid,
            span,
        )
    }

    /// Appends one segment to a binary under construction.
    pub fn bs_push(
        &mut self,
        spec: BinaryEntrySpecifier,
        bin: Value,
        value: Value,
        size: Option<Value>,
        span: SourceSpan,
    ) -> (inst: Inst)
        requires
            old(self).ready(),
            old(self).dfg.valid_value(bin),
            old(self).dfg.valid_value(value),
            match size {
                Some(sz) => old(self).dfg.valid_value(sz),
                None => true,
            },
        ensures
            final(self).ready(),
            final(self).grows_from(*old(self)),
            final(self).appended_any(*old(self), span, false),
            inst_is_bits_push(
                final(self).dfg.insts@[old(self).dfg.insts@.len() as int],
                spec,
                match size {
                    Some(sz) => seq![bin, value, sz],
                    None => seq![bin, value],
                },
            ),
            final(self).dfg.insts@[inst.0 as int].results@.len() == 1,
            inst.0 == old(self).dfg.insts@.len(),
    {
        let mut args: Vec<Value> = Vec::new();
        args.push(bin);
        args.push(value);
        match size {
            Some(sz) => {
                args.push(sz);
                proof {
                    assert(args@ =~= seq![bin, value, sz]);
                }
            },
            None => {
                proof {
                    assert(args@ =~= seq![bin, value]);
                }
            },
        }
        self.build(InstData::BitsPush(BitsPush { spec, args }), Type::Term(TermType::Any), span)
    }

    /// Raises an exception with the given class, reason and trace;
    /// terminates the block.
    pub fn raise(&mut self, class: Value, error: Value, trace: Value, span: SourceSpan) -> (inst:
        Inst)
        requires
            old(self).ready(),
            old(self).dfg.valid_value(class),
            old(self).dfg.valid_value(error),
            old(self).dfg.valid_value(trace),
        ensures
            final(self).positioned(),
            final(self).grows_from(*old(self)),
            final(self).appended_any(*old(self), span, true),
            inst_is_primop(
                final(self).dfg.insts@[old(self).dfg.insts@.len() as int],
                Opcode::Raise,
                seq![class, error, trace],
            ),
            final(self).no_result(*old(self)),
            inst.0 == old(self).dfg.insts@.len(),
    {
        let mut args: Vec<Value> = Vec::new();
        args.push(class);
        args.push(error);
        args.push(trace);
        proof {
            assert(args@ =~= seq![class, error, trace]);
        }
        self.build(
            InstData::PrimOp(PrimOp { op: Opcode::Raise, args }),
            Type::Invalid,
            span,
        )
    }

    /// Raises a badmatch error carrying the offending value; the
    /// runtime composes the error class and stack trace. Terminates
    /// the block.
    pub fn match_fail(&mut self, reason: Value, span: SourceSpan) -> (inst: Inst)
        requires
            old(self).ready(),
            old(self).dfg.valid_value(reason),
        ensures
            final(self).positioned(),
            final(self).grows_from(*old(self)),
            final(self).appended_any(*old(self), span, true),
            inst_is_primop(
                final(self).dfg.insts@[old(self).dfg.insts@.len() as int],
                Opcode::MatchFail,
                seq![reason],
            ),
            final(self).no_result(*old(self)),
            inst.0 == old(self).dfg.insts@.len(),
    {
        let mut args: Vec<Value> = Vec::new();
        args.push(reason);
        proof {
            assert(args@ =~= seq![reason]);
        }
        self.build(
            InstData::PrimOp(PrimOp { op: Opcode::MatchFail, args }),
            Type::Invalid,
            span,
        )
    }

    /// Projects the class of an exception; yields an atom.
    pub fn exception_class(&mut self, exception: Value, span: SourceSpan) -> (r: Value)
        requires
            old(self).ready(),
            old(self).dfg.valid_value(exception),
        ensures
            final(self).ready(),
            final(self).grows_from(*old(self)),
            final(self).appended_any(*old(self), span, false),
            inst_is_primop(
                final(self).dfg.insts@[old(self).dfg.insts@.len() as int],
                Opcode::ExceptionClass,
                seq![exception],
            ),
            final(self).one_result(*old(self), r, Type::Term(TermType::Atom)),
    {
        let mut args: Vec<Value> = Vec::new();
        args.push(exception);
        proof {
            assert(args@ =~= seq![exception]);
        }
        self.primop_value(Opcode::ExceptionClass, Type::Term(TermType::Atom), &args, span)
    }

    /// Projects the reason of an exception; yields any term.
    pub fn exception_reason(&mut self, exception: Value, span: SourceSpan) -> (r: Value)
        requires
            old(self).ready(),
            old(self).dfg.valid_value(exception),
        ensures
            final(self).ready(),
            final(self).grows_from(*old(self)),
            final(self).appended_any(*old(self), span, false),
            inst_is_primop(
                final(self).dfg.insts@[old(self).dfg.insts@.len() as int],
                Opcode::ExceptionReason,
                seq![exception],
            ),
            final(self).one_result(*old(self), r, Type::Term(TermType::Any)),
    {
        let mut args: Vec<Value> = Vec::new();
        args.push(exception);
        proof {
            assert(args@ =~= seq![exception]);
        }
        self.primop_value(Opcode::ExceptionReason, Type::Term(TermType::Any), &args, span)
    }

    /// Projects the stack trace of an exception; yields a list.
    pub fn exception_trace(&mut self, exception: Value, span: SourceSpan) -> (r: Value)
        requires
            old(self).ready(),
            old(self).dfg.valid_value(exception),
        ensures
            final(self).ready(),
            final(self).grows_from(*old(self)),
            final(self).appended_any(*old(self), span, false),
            inst_is_primop(
                final(self).dfg.insts@[old(self).dfg.insts@.len() as int],
                Opcode::ExceptionTrace,
                seq![exception],
            ),
            final(self).one_result(*old(self), r, Type::Term(TermType::List(None))),
    {
        let mut args: Vec<Value> = Vec::new();
        args.push(exception);
        proof {
            assert(args@ =~= seq![exception]);
        }
        self.primop_value(Opcode::ExceptionTrace, Type::Term(TermType::List(None)), &args, span)
    }
}

} // verus!
