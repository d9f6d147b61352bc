use vstd::prelude::*;
use crate::builder::FunctionBuilder;
use crate::flow::BuilderError;
use crate::insts::{Block, Value};
use crate::span::SourceSpan;
use crate::types::{TermType, Type};

verus! {

broadcast use vstd::std_specs::vec::group_vec_axioms, vstd::seq::group_seq_axioms;

/// The receive-state key that reports a message ready at the cursor.
pub const RECV_READY_KEY: u32 = 0;

/// The receive-state key that reports an elapsed timeout.
pub const RECV_TIMEOUT_KEY: u32 = 1;

/// The blocks and values of one lowered receive: the protocol loop is
/// fully built; the builder is left in the timeout block, whose body
/// the caller fills before branching to the done block, and the done
/// block's parameter carries the received (or timed-out) result.
#[derive(Debug)]
pub struct ReceiveLowering {
    pub context: Value,
    pub loop_block: Block,
    pub ready_block: Block,
    pub timeout_block: Block,
    pub wait_block: Block,
    pub done_block: Block,
    pub message: Value,
}

impl FunctionBuilder {
    /// Lowers a receive with the given timeout (in milliseconds) to
    /// the four-state mailbox protocol: a context is allocated with
    /// the timeout; a loop block advances the cursor and dispatches on
    /// the receive state; when ready, the message is peeked, consumed
    /// and carried to the done block; on timeout, control reaches the
    /// timeout block, which the caller fills; when blocked, the fiber
    /// cooperatively waits and re-enters the loop.
    #[verifier::rlimit(60)]
    pub fn emit_receive(&mut self, timeout: i64, span: SourceSpan) -> (r: ReceiveLowering)
        requires
            old(self).ready(),
        ensures
            final(self).ready(),
            final(self).grows_from(*old(self)),
            final(self).position == r.timeout_block,
            final(self).dfg.valid_value(r.context),
            final(self).dfg.value_ty(r.context) == Type::RecvContext,
            final(self).dfg.valid_block(r.done_block),
            !final(self).dfg.blocks@[r.done_block.0 as int].filled,
            final(self).dfg.blocks@[r.done_block.0 as int].params@.len() == 1,
            r.message == final(self).dfg.blocks@[r.done_block.0 as int].params@[0],
            final(self).dfg.value_ty(r.message) == Type::Term(TermType::Any),
            // The entry block starts the protocol: the timeout literal
            // is materialized, the context allocated over it, and
            // control enters the loop.
            ({
                let d = final(self).dfg;
                let entry = d.blocks@[old(self).position.0 as int].insts@;
                let n0 = old(self).dfg.blocks@[old(self).position.0 as int].insts@.len() as int;
                &&& entry.len() == n0 + 3
                &&& (match d.insts@[entry[n0].0 as int].data {
                    crate::insts::InstData::UnaryOpImm(u) => u.op == crate::insts::Opcode::ImmInt
                        && u.imm == crate::immediate::Immediate::Term(
                        crate::immediate::ImmediateTerm::Integer(timeout),
                    ),
                    _ => false,
                })
                &&& crate::ops::inst_is_primop(
                    d.insts@[entry[n0 + 1].0 as int],
                    crate::insts::Opcode::RecvStart,
                    seq![d.insts@[entry[n0].0 as int].results@[0]],
                )
                &&& r.context == d.insts@[entry[n0 + 1].0 as int].results@[0]
                &&& crate::flow::inst_is_br(
                    d.insts@[entry[n0 + 2].0 as int],
                    crate::insts::Opcode::Br,
                    r.loop_block,
                    Seq::<Value>::empty(),
                )
            }),
            // The loop advances the cursor and dispatches on the
            // receive state: ready and timeout by key, blocked by
            // default.
            ({
                let d = final(self).dfg;
                let lb = d.blocks@[r.loop_block.0 as int].insts@;
                &&& lb.len() == 2
                &&& crate::ops::inst_is_primop(
                    d.insts@[lb[0].0 as int],
                    crate::insts::Opcode::RecvNext,
                    seq![r.context],
                )
                &&& d.value_ty(d.insts@[lb[0].0 as int].results@[0]) == Type::RecvState
                &&& crate::flow::inst_is_switch(
                    d.insts@[lb[1].0 as int],
                    d.insts@[lb[0].0 as int].results@[0],
                    seq![(RECV_READY_KEY, r.ready_block), (RECV_TIMEOUT_KEY, r.timeout_block)],
                    r.wait_block,
                )
            }),
            // Ready: the message is peeked, consumed, and carried to
            // the done block.
            ({
                let d = final(self).dfg;
                let rb = d.blocks@[r.ready_block.0 as int].insts@;
                &&& rb.len() == 3
                &&& crate::ops::inst_is_primop(
                    d.insts@[rb[0].0 as int],
                    crate::insts::Opcode::RecvPeek,
                    seq![r.context],
                )
                &&& crate::ops::inst_is_primop(
                    d.insts@[rb[1].0 as int],
                    crate::insts::Opcode::RecvPop,
                    seq![r.context],
                )
                &&& crate::flow::inst_is_br(
                    d.insts@[rb[2].0 as int],
                    crate::insts::Opcode::Br,
                    r.done_block,
                    seq![d.insts@[rb[0].0 as int].results@[0]],
                )
            }),
            // Blocked: the fiber cooperatively waits and re-enters the
            // loop.
            ({
                let d = final(self).dfg;
                let wb = d.blocks@[r.wait_block.0 as int].insts@;
                &&& wb.len() == 2
                &&& crate::ops::inst_is_primop(
                    d.insts@[wb[0].0 as int],
                    crate::insts::Opcode::RecvWait,
                    seq![r.context],
                )
                &&& crate::flow::inst_is_br(
                    d.insts@[wb[1].0 as int],
                    crate::insts::Opcode::Br,
                    r.loop_block,
                    Seq::<Value>::empty(),
                )
            }),
    {
        let t = self.integer(timeout, span);
        let context = self.recv_start(t, span);
        let loop_block = self.create_block(Vec::new());
        let ready_block = self.create_block(Vec::new());
        let timeout_block = self.create_block(Vec::new());
        let wait_block = self.create_block(Vec::new());
        let mut done_params: Vec<Type> = Vec::new();
        done_params.push(Type::Term(TermType::Any));
        let ghost dp = done_params@;
        let done_block = self.create_block(done_params);
        let message = self.dfg.block_param(done_block, 0);
        proof {
            assert(dp.len() == 1);
            assert(dp[0] == Type::Term(TermType::Any));
            assert(self.dfg.value_ty(self.dfg.blocks@[done_block.0 as int].params@[0]) == dp[0]);
            assert(self.dfg.value_ty(message) == Type::Term(TermType::Any));
        }

        // Close the current block by entering the protocol loop.
        let no_args: Vec<Value> = Vec::new();
        match self.br(loop_block, &no_args, span) {
            Ok(_) => {},
            Err(_) => {
                return vstd::pervasive::unreached();
            },
        }

        proof {
            let d = self.dfg;
            let entry = d.blocks@[old(self).position.0 as int].insts@;
            let n0 = old(self).dfg.blocks@[old(self).position.0 as int].insts@.len() as int;
            assert(entry.len() == n0 + 3);
            assert(crate::ops::inst_is_primop(
                d.insts@[entry[n0 + 1].0 as int],
                crate::insts::Opcode::RecvStart,
                seq![d.insts@[entry[n0].0 as int].results@[0]],
            ));
        }

        // The loop advances the cursor and dispatches on its state.
        self.switch_to_block(loop_block);
        let state = self.recv_next(context, span);
        let mut arms: Vec<(u32, Block)> = Vec::new();
        arms.push((RECV_READY_KEY, ready_block));
        arms.push((RECV_TIMEOUT_KEY, timeout_block));
        proof {
            assert(arms@ =~= seq![(RECV_READY_KEY, ready_block), (RECV_TIMEOUT_KEY, timeout_block)]);
        }
        match self.switch(state, arms, wait_block, span) {
            Ok(_) => {},
            Err(_) => {
                return vstd::pervasive::unreached();
            },
        }

        // Ready: read the message, consume it, and carry it out.
        self.switch_to_block(ready_block);
        let message_val = self.recv_peek(context, span);
        self.recv_pop(context, span);
        let mut done_args: Vec<Value> = Vec::new();
        done_args.push(message_val);
        match self.br(done_block, &done_args, span) {
            Ok(_) => {},
            Err(_) => {
                return vstd::pervasive::unreached();
            },
        }

        // Blocked: cooperatively wait, then re-enter the loop.
        self.switch_to_block(wait_block);
        self.recv_wait(context, span);
        let no_args2: Vec<Value> = Vec::new();
        match self.br(loop_block, &no_args2, span) {
            Ok(_) => {},
            Err(_) => {
                return vstd::pervasive::unreached();
            },
        }

        // Continue building in the timeout block.
        self.switch_to_block(timeout_block);
        proof {
            assert(self.dfg.value_ty(message) == Type::Term(TermType::Any));
            assert(self.dfg.blocks@[done_block.0 as int].params@.len() == 1);
            assert(message == self.dfg.blocks@[done_block.0 as int].params@[0]);
            let d = self.dfg;
            let entry = d.blocks@[old(self).position.0 as int].insts@;
            let n0 = old(self).dfg.blocks@[old(self).position.0 as int].insts@.len() as int;
            assert(entry.len() == n0 + 3);
            assert(match d.insts@[entry[n0].0 as int].data {
                crate::insts::InstData::UnaryOpImm(u) => u.op == crate::insts::Opcode::ImmInt
                    && u.imm == crate::immediate::Immediate::Term(
                    crate::immediate::ImmediateTerm::Integer(timeout),
                ),
                _ => false,
            });
            assert(crate::ops::inst_is_primop(
                d.insts@[entry[n0 + 1].0 as int],
                crate::insts::Opcode::RecvStart,
                seq![d.insts@[entry[n0].0 as int].results@[0]],
            ));
            assert(context == d.insts@[entry[n0 + 1].0 as int].results@[0]);
            assert(crate::flow::inst_is_br(
                d.insts@[entry[n0 + 2].0 as int],
                crate::insts::Opcode::Br,
                loop_block,
                Seq::<Value>::empty(),
            ));
            let lb = d.blocks@[loop_block.0 as int].insts@;
            assert(lb.len() == 2);
            assert(crate::ops::inst_is_primop(
                d.insts@[lb[0].0 as int],
                crate::insts::Opcode::RecvNext,
                seq![context],
            ));
            assert(d.value_ty(d.insts@[lb[0].0 as int].results@[0]) == Type::RecvState);
            assert(crate::flow::inst_is_switch(
                d.insts@[lb[1].0 as int],
                d.insts@[lb[0].0 as int].results@[0],
                seq![(RECV_READY_KEY, ready_block), (RECV_TIMEOUT_KEY, timeout_block)],
                wait_block,
            ));
            let rb = d.blocks@[ready_block.0 as int].insts@;
            assert(rb.len() == 3);
            assert(crate::ops::inst_is_primop(
                d.insts@[rb[0].0 as int],
                crate::insts::Opcode::RecvPeek,
                seq![context],
            ));
            assert(crate::ops::inst_is_primop(
                d.insts@[rb[1].0 as int],
                crate::insts::Opcode::RecvPop,
                seq![context],
            ));
            assert(crate::flow::inst_is_br(
                d.insts@[rb[2].0 as int],
                crate::insts::Opcode::Br,
                done_block,
                seq![d.insts@[rb[0].0 as int].results@[0]],
            ));
            let wb = d.blocks@[wait_block.0 as int].insts@;
            assert(wb.len() == 2);
            assert(crate::ops::inst_is_primop(
                d.insts@[wb[0].0 as int],
                crate::insts::Opcode::RecvWait,
                seq![context],
            ));
            assert(crate::flow::inst_is_br(
                d.insts@[wb[1].0 as int],
                crate::insts::Opcode::Br,
                loop_block,
                Seq::<Value>::empty(),
            ));
        }
        ReceiveLowering {
            context,
            loop_block,
            ready_block,
            timeout_block,
            wait_block,
            done_block,
            message,
        }
    }
}

} // verus!
