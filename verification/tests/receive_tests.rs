use ssa_ir::builder::FunctionBuilder;
use ssa_ir::insts::{InstData, Opcode};
use ssa_ir::lower::{RECV_READY_KEY, RECV_TIMEOUT_KEY};
use ssa_ir::span::SourceSpan;
use ssa_ir::types::{TermType, Type};

fn sp() -> SourceSpan {
    SourceSpan::unknown()
}

/// `receive M -> M after 100 -> timeout end` lowers to the four-state
/// protocol: a context started with the timeout, a loop that advances
/// the cursor and dispatches on the state, a ready path that peeks,
/// consumes and carries the message to the done block, a timeout path,
/// and a blocked path that waits and re-enters the loop.
#[test]
fn receive_lowers_to_the_four_state_protocol() {
    let mut fb = FunctionBuilder::new(vec![]);
    let r = fb.emit_receive(100, sp());

    // the builder continues in the timeout block; finish the function
    // so the layout is complete: after-body value joins at done
    let tmout_atom = fb.atom(9, sp());
    fb.br(r.done_block, &vec![tmout_atom], sp()).unwrap();
    fb.switch_to_block(r.done_block);
    fb.ret_ok(r.message, sp());

    let d = &fb.dfg;

    // entry: timeout literal, recv_start, then the jump into the loop
    let entry = &d.blocks[0];
    let kinds: Vec<Opcode> = entry
        .insts
        .iter()
        .map(|i| match &d.insts[i.0].data {
            InstData::UnaryOpImm(u) => u.op,
            InstData::PrimOp(p) => p.op,
            InstData::Br(b) => b.op,
            other => panic!("unexpected entry instruction {:?}", other),
        })
        .collect();
    assert_eq!(kinds, vec![Opcode::ImmInt, Opcode::RecvStart, Opcode::Br]);

    // the loop advances the cursor and dispatches ready/timeout/blocked
    let loop_insts = &d.blocks[r.loop_block.0].insts;
    assert_eq!(loop_insts.len(), 2);
    match &d.insts[loop_insts[0].0].data {
        InstData::PrimOp(p) => assert_eq!(p.op, Opcode::RecvNext),
        other => panic!("expected the cursor advance, got {:?}", other),
    }
    match &d.insts[loop_insts[1].0].data {
        InstData::Switch(s) => {
            assert_eq!(s.arms.len(), 2);
            assert_eq!(s.arms[0], (RECV_READY_KEY, r.ready_block));
            assert_eq!(s.arms[1], (RECV_TIMEOUT_KEY, r.timeout_block));
            assert_eq!(s.default, r.wait_block);
        }
        other => panic!("expected the state dispatch, got {:?}", other),
    }

    // ready: peek the message, consume it, carry it to done
    let ready_insts = &d.blocks[r.ready_block.0].insts;
    assert_eq!(ready_insts.len(), 3);
    match &d.insts[ready_insts[0].0].data {
        InstData::PrimOp(p) => assert_eq!(p.op, Opcode::RecvPeek),
        other => panic!("expected the peek, got {:?}", other),
    }
    match &d.insts[ready_insts[1].0].data {
        InstData::PrimOp(p) => assert_eq!(p.op, Opcode::RecvPop),
        other => panic!("expected the pop, got {:?}", other),
    }
    match &d.insts[ready_insts[2].0].data {
        InstData::Br(b) => {
            assert_eq!(b.op, Opcode::Br);
            assert_eq!(b.destination, r.done_block);
            // the peeked message is the carried argument
            let peeked = d.insts[ready_insts[0].0].results[0];
            assert_eq!(b.args, vec![peeked]);
        }
        other => panic!("expected the jump to done, got {:?}", other),
    }

    // blocked: cooperatively wait, then re-enter the loop
    let wait_insts = &d.blocks[r.wait_block.0].insts;
    assert_eq!(wait_insts.len(), 2);
    match &d.insts[wait_insts[0].0].data {
        InstData::PrimOp(p) => assert_eq!(p.op, Opcode::RecvWait),
        other => panic!("expected the wait, got {:?}", other),
    }
    match &d.insts[wait_insts[1].0].data {
        InstData::Br(b) => assert_eq!(b.destination, r.loop_block),
        other => panic!("expected the jump back to the loop, got {:?}", other),
    }

    // the receive context is typed as such, and the message is the
    // done block's parameter, typed as any term
    assert_eq!(*fb.dfg.value_type(r.context), Type::RecvContext);
    assert_eq!(fb.dfg.blocks[r.done_block.0].params, vec![r.message]);
    assert_eq!(*fb.dfg.value_type(r.message), Type::Term(TermType::Any));
}
