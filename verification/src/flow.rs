use vstd::prelude::*;
use crate::builder::FunctionBuilder;
use crate::dfg::InstNode;
use crate::immediate::Immediate;
use crate::insts::{
    Block, Br, Call, CallIndirect, CondBr, Inst, InstData, Opcode, Ret, RetImm, SwitchData, Value,
};
use crate::ops::copy_values;
use crate::span::SourceSpan;
use crate::types::FuncRef;

verus! {

broadcast use vstd::std_specs::vec::group_vec_axioms, vstd::seq::group_seq_axioms;

/// A structural violation detected and rejected by the builder.
#[derive(Clone, Copy, Debug, PartialEq, Eq, Structural)]
pub enum BuilderError {
    /// A branch carries a different number of arguments than its
    /// destination has parameters.
    BranchArityMismatch,
    /// Two arms of a switch carry the same key.
    DuplicateSwitchKey,
}

/// The instruction is a one-destination branch with the given opcode,
/// destination and argument list.
pub open spec fn inst_is_br(nd: InstNode, op: Opcode, dest: Block, args: Seq<Value>) -> bool {
    match nd.data {
        InstData::Br(d) => d.op == op && d.destination == dest && d.args@ == args,
        _ => false,
    }
}

/// The instruction is a two-way conditional branch with the given
/// condition, destinations and per-edge argument lists.
pub open spec fn inst_is_cond_br(
    nd: InstNode,
    cond: Value,
    then_dest: Block,
    then_args: Seq<Value>,
    else_dest: Block,
    else_args: Seq<Value>,
) -> bool {
    match nd.data {
        InstData::CondBr(d) => {
            &&& d.cond == cond
            &&& d.then_dest.0 == then_dest
            &&& d.then_dest.1@ == then_args
            &&& d.else_dest.0 == else_dest
            &&& d.else_dest.1@ == else_args
        },
        _ => false,
    }
}

/// The instruction is a switch with the given scrutinee, arms and
/// default destination.
pub open spec fn inst_is_switch(
    nd: InstNode,
    arg: Value,
    arms: Seq<(u32, Block)>,
    default: Block,
) -> bool {
    match nd.data {
        InstData::Switch(d) => d.arg == arg && d.arms@ == arms && d.default == default,
        _ => false,
    }
}

/// The instruction is a direct call with the given opcode, callee and
/// arguments.
pub open spec fn inst_is_call(nd: InstNode, op: Opcode, callee: FuncRef, args: Seq<Value>) -> bool {
    match nd.data {
        InstData::Call(d) => d.op == op && d.callee == callee && d.args@ == args,
        _ => false,
    }
}

/// The instruction is an indirect call with the given opcode, callee
/// value and arguments.
pub open spec fn inst_is_call_indirect(
    nd: InstNode,
    op: Opcode,
    callee: Value,
    args: Seq<Value>,
) -> bool {
    match nd.data {
        InstData::CallIndirect(d) => d.op == op && d.callee == callee && d.args@ == args,
        _ => false,
    }
}

impl FunctionBuilder {
    /// Appends an unconditional branch. Rejected when the argument
    /// count does not match the destination's parameter count.
    pub fn br(&mut self, block: Block, args: &Vec<Value>, span: SourceSpan) -> (res: Result<
        Inst,
        BuilderError,
    >)
        requires
            old(self).ready(),
            old(self).dfg.valid_block(block),
            old(self).dfg.valid_values(args@),
        ensures
            match res {
                Ok(inst) => {
                    &&& args@.len() == old(self).dfg.blocks@[block.0 as int].params@.len()
                    &&& final(self).positioned()
                    &&& final(self).grows_from(*old(self))
                    &&& final(self).appended_any(*old(self), span, true)
                    &&& inst_is_br(
                        final(self).dfg.insts@[old(self).dfg.insts@.len() as int],
                        Opcode::Br,
                        block,
                        args@,
                    )
                    &&& final(self).no_result(*old(self))
                    &&& inst.0 == old(self).dfg.insts@.len()
                },
                Err(e) => {
                    &&& args@.len() != old(self).dfg.blocks@[block.0 as int].params@.len()
                    &&& *final(self) == *old(self)
                    &&& e == BuilderError::BranchArityMismatch
                },
            },
    {
        if args.len() != self.dfg.num_block_params(block) {
            return Err(BuilderError::BranchArityMismatch);
        }
        let vlist = copy_values(args);
        let inst = self.build(
            InstData::Br(Br { op: Opcode::Br, destination: block, args: vlist }),
            crate::types::Type::Invalid,
            span,
        );
        Ok(inst)
    }

    /// Appends a conditional side-branch taken when the condition is
    /// true; control otherwise continues in the current block. The
    /// first carried value is the condition.
    pub fn br_if(
        &mut self,
        cond: Value,
        block: Block,
        args: &Vec<Value>,
        span: SourceSpan,
    ) -> (res: Result<Inst, BuilderError>)
        requires
            old(self).ready(),
            old(self).dfg.valid_value(cond),
            old(self).dfg.valid_block(block),
            old(self).dfg.valid_values(args@),
        ensures
            match res {
                Ok(inst) => {
                    &&& args@.len() == old(self).dfg.blocks@[block.0 as int].params@.len()
                    &&& final(self).ready()
                    &&& final(self).grows_from(*old(self))
                    &&& final(self).appended_any(*old(self), span, false)
                    &&& inst_is_br(
                        final(self).dfg.insts@[old(self).dfg.insts@.len() as int],
                        Opcode::BrIf,
                        block,
                        seq![cond] + args@,
                    )
                    &&& final(self).no_result(*old(self))
                    &&& inst.0 == old(self).dfg.insts@.len()
                },
                Err(e) => {
                    &&& args@.len() != old(self).dfg.blocks@[block.0 as int].params@.len()
                    &&& *final(self) == *old(self)
                    &&& e == BuilderError::BranchArityMismatch
                },
            },
    {
        if args.len() != self.dfg.num_block_params(block) {
            return Err(BuilderError::BranchArityMismatch);
        }
        let mut vlist: Vec<Value> = Vec::new();
        vlist.push(cond);
        let mut rest = copy_values(args);
        vlist.append(&mut rest);
        proof {
            assert(vlist@ =~= seq![cond] + args@);
        }
        let inst = self.build(
            InstData::Br(Br { op: Opcode::BrIf, destination: block, args: vlist }),
            crate::types::Type::Invalid,
            span,
        );
        Ok(inst)
    }

    /// Appends a conditional side-branch taken when the condition is
    /// false; control otherwise continues in the current block.
    pub fn br_unless(
        &mut self,
        cond: Value,
        block: Block,
        args: &Vec<Value>,
        span: SourceSpan,
    ) -> (res: Result<Inst, BuilderError>)
        requires
            old(self).ready(),
            old(self).dfg.valid_value(cond),
            old(self).dfg.valid_block(block),
            old(self).dfg.valid_values(args@),
        ensures
            match res {
                Ok(inst) => {
                    &&& args@.len() == old(self).dfg.blocks@[block.0 as int].params@.len()
                    &&& final(self).ready()
                    &&& final(self).grows_from(*old(self))
                    &&& final(self).appended_any(*old(self), span, false)
                    &&& inst_is_br(
                        final(self).dfg.insts@[old(self).dfg.insts@.len() as int],
                        Opcode::BrUnless,
                        block,
                        seq![cond] + args@,
                    )
                    &&& final(self).no_result(*old(self))
                    &&& inst.0 == old(self).dfg.insts@.len()
                },
                Err(e) => {
                    &&& args@.len() != old(self).dfg.blocks@[block.0 as int].params@.len()
                    &&& *final(self) == *old(self)
                    &&& e == BuilderError::BranchArityMismatch
                },
            },
    {
        if args.len() != self.dfg.num_block_params(block) {
            return Err(BuilderError::BranchArityMismatch);
        }
        let mut vlist: Vec<Value> = Vec::new();
        vlist.push(cond);
        let mut rest = copy_values(args);
        vlist.append(&mut rest);
        proof {
            assert(vlist@ =~= seq![cond] + args@);
        }
        let inst = self.build(
            InstData::Br(Br { op: Opcode::BrUnless, destination: block, args: vlist }),
            crate::types::Type::Invalid,
            span,
        );
        Ok(inst)
    }

    /// Appends a two-way conditional branch; each edge carries its own
    /// arguments and both arities must match their destinations.
    pub fn cond_br(
        &mut self,
        cond: Value,
        then_dest: Block,
        then_args: &Vec<Value>,
        else_dest: Block,
        else_args: &Vec<Value>,
        span: SourceSpan,
    ) -> (res: Result<Inst, BuilderError>)
        requires
            old(self).ready(),
            old(self).dfg.valid_value(cond),
            old(self).dfg.valid_block(then_dest),
            old(self).dfg.valid_values(then_args@),
            old(self).dfg.valid_block(else_dest),
            old(self).dfg.valid_values(else_args@),
        ensures
            match res {
                Ok(inst) => {
                    &&& then_args@.len() == old(
                        self,
                    ).dfg.blocks@[then_dest.0 as int].params@.len()
                    &&& else_args@.len() == old(
                        self,
                    ).dfg.blocks@[else_dest.0 as int].params@.len()
                    &&& final(self).positioned()
                    &&& final(self).grows_from(*old(self))
                    &&& final(self).appended_any(*old(self), span, true)
                    &&& inst_is_cond_br(
                        final(self).dfg.insts@[old(self).dfg.insts@.len() as int],
                        cond,
                        then_dest,
                        then_args@,
                        else_dest,
                        else_args@,
                    )
                    &&& final(self).no_result(*old(self))
                    &&& inst.0 == old(self).dfg.insts@.len()
                },
                Err(e) => {
                    &&& (then_args@.len() != old(
                        self,
                    ).dfg.blocks@[then_dest.0 as int].params@.len() || else_args@.len() != old(
                        self,
                    ).dfg.blocks@[else_dest.0 as int].params@.len())
                    &&& *final(self) == *old(self)
                    &&& e == BuilderError::BranchArityMismatch
                },
            },
    {
        if then_args.len() != self.dfg.num_block_params(then_dest) {
            return Err(BuilderError::BranchArityMismatch);
        }
        if else_args.len() != self.dfg.num_block_params(else_dest) {
            return Err(BuilderError::BranchArityMismatch);
        }
        let tl = copy_values(then_args);
        let el = copy_values(else_args);
        let inst = self.build(
            InstData::CondBr(
                CondBr { cond, then_dest: (then_dest, tl), else_dest: (else_dest, el) },
            ),
            crate::types::Type::Invalid,
            span,
        );
        Ok(inst)
    }

    /// Appends a multi-way dispatch on an integer value. Rejected when
    /// two arms share a key or a destination takes parameters.
    #[verifier::loop_isolation(false)]
    pub fn switch(
        &mut self,
        arg: Value,
        arms: Vec<(u32, Block)>,
        default: Block,
        span: SourceSpan,
    ) -> (res: Result<Inst, BuilderError>)
        requires
            old(self).ready(),
            old(self).dfg.valid_value(arg),
            old(self).dfg.valid_block(default),
            forall|i: int| #![auto]
                0 <= i < arms@.len() ==> old(self).dfg.valid_block(arms@[i].1),
        ensures
            match res {
                Ok(inst) => {
                    &&& old(self).dfg.switch_keys_unique(arms@)
                    &&& old(self).dfg.branch_target_ok(default, 0)
                    &&& forall|i: int| #![auto]
                        0 <= i < arms@.len() ==> old(self).dfg.branch_target_ok(arms@[i].1, 0)
                    &&& final(self).positioned()
                    &&& final(self).grows_from(*old(self))
                    &&& final(self).appended_any(*old(self), span, true)
                    &&& inst_is_switch(
                        final(self).dfg.insts@[old(self).dfg.insts@.len() as int],
                        arg,
                        arms@,
                        default,
                    )
                    &&& final(self).no_result(*old(self))
                    &&& inst.0 == old(self).dfg.insts@.len()
                },
                Err(e) => {
                    &&& *final(self) == *old(self)
                    &&& (e == BuilderError::DuplicateSwitchKey || e
                        == BuilderError::BranchArityMismatch)
                    &&& !(old(self).dfg.switch_keys_unique(arms@) && old(
                        self,
                    ).dfg.branch_target_ok(default, 0) && (forall|i: int| #![auto]
                        0 <= i < arms@.len() ==> old(self).dfg.branch_target_ok(arms@[i].1, 0)))
                },
            },
    {
        let n = arms.len();
        let mut i: usize = 0;
        while i < n
            invariant
                i <= n,
                forall|a: int, b: int| 0 <= a < b < i ==> arms@[a].0 != arms@[b].0,
                forall|a: int| #![auto] 0 <= a < i ==> self.dfg.branch_target_ok(arms@[a].1, 0),
            decreases n - i,
        {
            if self.dfg.num_block_params(arms[i].1) != 0 {
                return Err(BuilderError::BranchArityMismatch);
            }
            let mut j: usize = 0;
            while j < i
                invariant
                    j <= i < n,
                    forall|b: int| 0 <= b < j ==> arms@[b].0 != arms@[i as int].0,
                decreases i - j,
            {
                if arms[j].0 == arms[i].0 {
                    return Err(BuilderError::DuplicateSwitchKey);
                }
                j += 1;
            }
            i += 1;
        }
        if self.dfg.num_block_params(default) != 0 {
            return Err(BuilderError::BranchArityMismatch);
        }
        let inst = self.build(
            InstData::Switch(SwitchData { op: Opcode::Switch, arg, arms, default }),
            crate::types::Type::Invalid,
            span,
        );
        Ok(inst)
    }

    /// Appends a two-arity return of an is-error flag value and a
    /// payload value; terminates the block.
    pub fn ret(&mut self, is_err: Value, returning: Value, span: SourceSpan) -> (inst: Inst)
        requires
            old(self).ready(),
            old(self).dfg.valid_value(is_err),
            old(self).dfg.valid_value(returning),
        ensures
            final(self).positioned(),
            final(self).grows_from(*old(self)),
            final(self).appended_inst(
                *old(self),
                InstData::Ret(Ret { op: Opcode::Ret, args: (is_err, returning) }),
                span,
            ),
            final(self).no_result(*old(self)),
            inst.0 == old(self).dfg.insts@.len(),
    {
        self.build(
            InstData::Ret(Ret { op: Opcode::Ret, args: (is_err, returning) }),
            crate::types::Type::Invalid,
            span,
        )
    }

    /// Appends a return with a literal is-error flag; terminates the
    /// block.
    pub fn ret_imm(&mut self, is_err: bool, returning: Value, span: SourceSpan) -> (inst: Inst)
        requires
            old(self).ready(),
            old(self).dfg.valid_value(returning),
        ensures
            final(self).positioned(),
            final(self).grows_from(*old(self)),
            final(self).appended_inst(
                *old(self),
                InstData::RetImm(
                    RetImm { op: Opcode::Ret, imm: Immediate::I1(is_err), arg: returning },
                ),
                span,
            ),
            final(self).no_result(*old(self)),
            inst.0 == old(self).dfg.insts@.len(),
    {
        self.build(
            InstData::RetImm(
                RetImm { op: Opcode::Ret, imm: Immediate::I1(is_err), arg: returning },
            ),
            crate::types::Type::Invalid,
            span,
        )
    }

    /// Returns a non-exceptional payload: a return whose is-error flag
    /// is the literal false.
    pub fn ret_ok(&mut self, returning: Value, span: SourceSpan) -> (inst: Inst)
        requires
            old(self).ready(),
            old(self).dfg.valid_value(returning),
        ensures
            final(self).positioned(),
            final(self).grows_from(*old(self)),
            final(self).appended_inst(
                *old(self),
                InstData::RetImm(
                    RetImm { op: Opcode::Ret, imm: Immediate::I1(false), arg: returning },
                ),
                span,
            ),
            final(self).no_result(*old(self)),
            inst.0 == old(self).dfg.insts@.len(),
    {
        self.ret_imm(false, returning, span)
    }

    /// Returns an exceptional payload: a return whose is-error flag is
    /// the literal true.
    pub fn ret_err(&mut self, returning: Value, span: SourceSpan) -> (inst: Inst)
        requires
            old(self).ready(),
            old(self).dfg.valid_value(returning),
        ensures
            final(self).positioned(),
            final(self).grows_from(*old(self)),
            final(self).appended_inst(
                *old(self),
                InstData::RetImm(
                    RetImm { op: Opcode::Ret, imm: Immediate::I1(true), arg: returning },
                ),
                span,
            ),
            final(self).no_result(*old(self)),
            inst.0 == old(self).dfg.insts@.len(),
    {
        self.ret_imm(true, returning, span)
    }

    /// Appends a direct call; its two results are the callee's i1
    /// is-error flag and returned term.
    pub fn call(&mut self, callee: FuncRef, args: &Vec<Value>, span: SourceSpan) -> (inst: Inst)
        requires
            old(self).ready(),
            old(self).dfg.valid_values(args@),
        ensures
            final(self).ready(),
            final(self).grows_from(*old(self)),
            final(self).appended_any(*old(self), span, false),
            inst_is_call(
                final(self).dfg.insts@[old(self).dfg.insts@.len() as int],
                Opcode::Call,
                callee,
                args@,
            ),
            final(self).dfg.values@.len() == old(self).dfg.values@.len() + 2,
            final(self).dfg.insts@[inst.0 as int].results@.len() == 2,
            final(self).dfg.value_ty(final(self).dfg.insts@[inst.0 as int].results@[0])
                == crate::types::Type::Primitive(crate::types::PrimitiveType::I1),
            final(self).dfg.value_ty(final(self).dfg.insts@[inst.0 as int].results@[1])
                == crate::types::Type::Term(crate::types::TermType::Any),
            inst.0 == old(self).dfg.insts@.len(),
    {
        let vlist = copy_values(args);
        self.build(
            InstData::Call(Call { op: Opcode::Call, callee, args: vlist }),
            crate::types::Type::Invalid,
            span,
        )
    }

    /// Appends an indirect call through a fun value; its two results
    /// are the i1 is-error flag and returned term.
    pub fn call_indirect(&mut self, callee: Value, args: &Vec<Value>, span: SourceSpan) -> (inst:
        Inst)
        requires
            old(self).ready(),
            old(self).dfg.valid_value(callee),
            old(self).dfg.valid_values(args@),
        ensures
            final(self).ready(),
            final(self).grows_from(*old(self)),
            final(self).appended_any(*old(self), span, false),
            inst_is_call_indirect(
                final(self).dfg.insts@[old(self).dfg.insts@.len() as int],
                Opcode::CallIndirect,
                callee,
                args@,
            ),
            final(self).dfg.values@.len() == old(self).dfg.values@.len() + 2,
            final(self).dfg.insts@[inst.0 as int].results@.len() == 2,
            inst.0 == old(self).dfg.insts@.len(),
    {
        let vlist = copy_values(args);
        self.build(
            InstData::CallIndirect(CallIndirect { op: Opcode::CallIndirect, callee, args: vlist }),
            crate::types::Type::Invalid,
            span,
        )
    }

    /// Appends a tail call of a known function; terminates the block.
    pub fn enter(&mut self, callee: FuncRef, args: &Vec<Value>, span: SourceSpan) -> (inst: Inst)
        requires
            old(self).ready(),
            old(self).dfg.valid_values(args@),
        ensures
            final(self).positioned(),
            final(self).grows_from(*old(self)),
            final(self).appended_any(*old(self), span, true),
            inst_is_call(
                final(self).dfg.insts@[old(self).dfg.insts@.len() as int],
                Opcode::Enter,
                callee,
                args@,
            ),
            final(self).no_result(*old(self)),
            inst.0 == old(self).dfg.insts@.len(),
    {
        let vlist = copy_values(args);
        self.build(
            InstData::Call(Call { op: Opcode::Enter, callee, args: vlist }),
            crate::types::Type::Invalid,
            span,
        )
    }

    /// Appends an indirect tail call; terminates the block.
    pub fn enter_indirect(&mut self, callee: Value, args: &Vec<Value>, span: SourceSpan) -> (inst:
        Inst)
        requires
            old(self).ready(),
            old(self).dfg.valid_value(callee),
            old(self).dfg.valid_values(args@),
        ensures
            final(self).positioned(),
            final(self).grows_from(*old(self)),
            final(self).appended_any(*old(self), span, true),
            inst_is_call_indirect(
                final(self).dfg.insts@[old(self).dfg.insts@.len() as int],
                Opcode::EnterIndirect,
                callee,
                args@,
            ),
            final(self).no_result(*old(self)),
            inst.0 == old(self).dfg.insts@.len(),
    {
        let vlist = copy_values(args);
        self.build(
            InstData::CallIndirect(
                CallIndirect { op: Opcode::EnterIndirect, callee, args: vlist },
            ),
            crate::types::Type::Invalid,
            span,
        )
    }
}

} // verus!
