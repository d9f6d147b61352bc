use ssa_ir::builder::FunctionBuilder;
use ssa_ir::constant::{ConstantItem, Integer};
use ssa_ir::dfg::DataFlowGraph;
use ssa_ir::flow::BuilderError;
use ssa_ir::immediate::{Immediate, ImmediateTerm};
use ssa_ir::insts::{InstData, Opcode};
use ssa_ir::span::SourceSpan;
use ssa_ir::types::{PrimitiveType, TermType, Type};

fn sp() -> SourceSpan {
    SourceSpan::unknown()
}

#[test]
fn arithmetic_result_is_numeric_join_of_operands() {
    let mut fb = FunctionBuilder::new(vec![
        Type::Term(TermType::Integer),
        Type::Term(TermType::Integer),
        Type::Term(TermType::Float),
        Type::Term(TermType::Any),
    ]);
    let a = fb.dfg.blocks[0].params[0];
    let b = fb.dfg.blocks[0].params[1];
    let f = fb.dfg.blocks[0].params[2];
    let any = fb.dfg.blocks[0].params[3];

    // integer + integer stays integer
    let s1 = fb.add(a, b, sp());
    assert_eq!(*fb.dfg.value_type(s1), Type::Term(TermType::Integer));

    // integer + float widens to float
    let s2 = fb.add(a, f, sp());
    assert_eq!(*fb.dfg.value_type(s2), Type::Term(TermType::Float));

    // anything else joins to float as well
    let s3 = fb.mul(any, a, sp());
    assert_eq!(*fb.dfg.value_type(s3), Type::Term(TermType::Float));

    // the immediate form takes the join with the immediate's type
    let s4 = fb.sub_imm(a, Immediate::Term(ImmediateTerm::Integer(3)), sp());
    assert_eq!(*fb.dfg.value_type(s4), Type::Term(TermType::Integer));
}

#[test]
fn comparisons_yield_i1_and_boolean_ops_yield_boolean() {
    let mut fb = FunctionBuilder::new(vec![
        Type::Term(TermType::Any),
        Type::Term(TermType::Any),
    ]);
    let a = fb.dfg.blocks[0].params[0];
    let b = fb.dfg.blocks[0].params[1];

    let c1 = fb.icmp_eq(a, b, sp());
    assert_eq!(*fb.dfg.value_type(c1), Type::Primitive(PrimitiveType::I1));
    let c2 = fb.lt(a, b, sp());
    assert_eq!(*fb.dfg.value_type(c2), Type::Primitive(PrimitiveType::I1));
    let c3 = fb.eq_exact(a, b, sp());
    assert_eq!(*fb.dfg.value_type(c3), Type::Primitive(PrimitiveType::I1));

    let b1 = fb.and(a, b, sp());
    assert_eq!(*fb.dfg.value_type(b1), Type::Term(TermType::Bool));
    let b2 = fb.orelse(a, b, sp());
    assert_eq!(*fb.dfg.value_type(b2), Type::Term(TermType::Bool));
    let b3 = fb.not(a, sp());
    assert_eq!(*fb.dfg.value_type(b3), Type::Term(TermType::Bool));
}

#[test]
fn each_completed_block_has_exactly_one_terminator_located_last() {
    let mut fb = FunctionBuilder::new(vec![Type::Term(TermType::Integer)]);
    let p = fb.dfg.blocks[0].params[0];
    let next = fb.create_block(vec![Type::Term(TermType::Integer)]);
    let one = fb.integer(1, sp());
    let s = fb.add(p, one, sp());
    fb.br(next, &vec![s], sp()).unwrap();
    fb.switch_to_block(next);
    let q = fb.dfg.blocks[next.0].params[0];
    fb.ret_ok(q, sp());

    let d: &DataFlowGraph = &fb.dfg;
    for b in 0..d.blocks.len() {
        let insts = &d.blocks[b].insts;
        assert!(d.blocks[b].filled);
        assert!(!insts.is_empty());
        for (j, i) in insts.iter().enumerate() {
            let is_term = d.insts[i.0].data.is_terminator();
            if j + 1 == insts.len() {
                assert!(is_term, "last instruction of block {} must terminate it", b);
            } else {
                assert!(!is_term, "non-final instruction of block {} may not terminate it", b);
            }
        }
    }
}

#[test]
fn branch_with_wrong_arity_is_rejected() {
    let mut fb = FunctionBuilder::new(vec![Type::Term(TermType::Integer)]);
    let p = fb.dfg.blocks[0].params[0];
    let next = fb.create_block(vec![Type::Term(TermType::Integer)]);

    // no arguments for a one-parameter destination: rejected
    let r = fb.br(next, &vec![], sp());
    assert_eq!(r.unwrap_err(), BuilderError::BranchArityMismatch);

    // the builder state is unchanged and the right arity is accepted
    let r2 = fb.br(next, &vec![p], sp());
    assert!(r2.is_ok());
}

#[test]
fn switch_rejects_duplicate_keys_and_destinations_with_parameters() {
    let mut fb = FunctionBuilder::new(vec![Type::Term(TermType::Integer)]);
    let p = fb.dfg.blocks[0].params[0];
    let b1 = fb.create_block(vec![]);
    let b2 = fb.create_block(vec![]);
    let with_param = fb.create_block(vec![Type::Term(TermType::Any)]);

    let r = fb.switch(p, vec![(0, b1), (0, b2)], b2, sp());
    assert_eq!(r.unwrap_err(), BuilderError::DuplicateSwitchKey);

    let r2 = fb.switch(p, vec![(0, b1), (1, with_param)], b2, sp());
    assert_eq!(r2.unwrap_err(), BuilderError::BranchArityMismatch);

    let r3 = fb.switch(p, vec![(0, b1), (1, b2)], b2, sp());
    assert!(r3.is_ok());
}

#[test]
fn every_value_is_defined_exactly_once() {
    let mut fb = FunctionBuilder::new(vec![Type::Term(TermType::Integer)]);
    let p = fb.dfg.blocks[0].params[0];
    let one = fb.integer(1, sp());
    let s = fb.add(p, one, sp());
    fb.ret_ok(s, sp());

    let d = &fb.dfg;
    // collect every definition site of every value handle
    let mut def_count = vec![0usize; d.values.len()];
    for b in d.blocks.iter() {
        for v in b.params.iter() {
            def_count[v.0] += 1;
        }
    }
    for i in d.insts.iter() {
        for v in i.results.iter() {
            def_count[v.0] += 1;
        }
    }
    for (v, n) in def_count.iter().enumerate() {
        assert_eq!(*n, 1, "value {} must have exactly one definition", v);
    }
}

#[test]
fn constant_interning_is_idempotent() {
    let mut d = DataFlowGraph::new();
    let c1 = d.make_constant(ConstantItem::Integer(Integer::Small(42)));
    let c2 = d.make_constant(ConstantItem::Integer(Integer::Small(42)));
    assert_eq!(c1, c2);
    assert_eq!(d.constants.len(), 1);

    let c3 = d.make_constant(ConstantItem::Atom(7));
    assert_ne!(c1, c3);
    assert_eq!(d.constants.len(), 2);

    // structural equality reaches into compound constants
    let t1 = d.make_constant(ConstantItem::Tuple(vec![
        ConstantItem::Integer(Integer::Small(1)),
        ConstantItem::Atom(7),
    ]));
    let t2 = d.make_constant(ConstantItem::Tuple(vec![
        ConstantItem::Integer(Integer::Small(1)),
        ConstantItem::Atom(7),
    ]));
    assert_eq!(t1, t2);
    let t3 = d.make_constant(ConstantItem::Tuple(vec![
        ConstantItem::Integer(Integer::Small(2)),
        ConstantItem::Atom(7),
    ]));
    assert_ne!(t1, t3);
}

#[test]
fn string_and_byte_constants_are_deduplicated() {
    let mut fb = FunctionBuilder::new(vec![]);
    fb.binary_from_string(String::from("ab"), sp());
    fb.binary_from_string(String::from("ab"), sp());
    assert_eq!(fb.dfg.constants.len(), 1);
    fb.binary_from_string(String::from("ac"), sp());
    assert_eq!(fb.dfg.constants.len(), 2);
    fb.binary_from_bytes(vec![1, 2], sp());
    fb.binary_from_bytes(vec![1, 2], sp());
    assert_eq!(fb.dfg.constants.len(), 3);
}

#[test]
fn ret_ok_lowers_to_return_with_false_error_flag() {
    let mut fb = FunctionBuilder::new(vec![]);
    let seven = fb.integer(7, sp());
    fb.ret_ok(seven, sp());

    let d = &fb.dfg;
    let last = d.blocks[0].insts[d.blocks[0].insts.len() - 1];
    match &d.insts[last.0].data {
        InstData::RetImm(r) => {
            assert_eq!(r.op, Opcode::Ret);
            assert_eq!(r.imm, Immediate::I1(false));
            assert_eq!(r.arg, seven);
        }
        other => panic!("expected an immediate return, got {:?}", other),
    }
}
