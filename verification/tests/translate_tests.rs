use ssa_ir::builder::FunctionBuilder;
use ssa_ir::cir::{CirType, FuncSymbol, RuntimeFn};
use ssa_ir::function::{Function, Signature, Visibility};
use ssa_ir::span::SourceSpan;
use ssa_ir::translate::ModuleBuilder;
use ssa_ir::translate_fn::build_function;
use ssa_ir::translate_types::{translate_ir_type, translate_primitive_ir_type};
use ssa_ir::txir::TxOp;
use ssa_ir::translate::LowerError;
use ssa_ir::types::{PrimitiveType, TermType, Type};

fn sp() -> SourceSpan {
    SourceSpan::unknown()
}

fn sig_ret_pair(module: u32, name: u32) -> Signature {
    Signature {
        module,
        name,
        arity: 0,
        params: vec![],
        results: vec![Type::Primitive(PrimitiveType::I1), Type::Term(TermType::Any)],
        visibility: Visibility::Public,
    }
}

/// A function returning the integer 7 lowers to a two-result return:
/// the i1 false flag and the isize 7 payload, with casts inserted
/// where the types disagree with the function's result types.
#[test]
fn returning_seven_lowers_to_a_two_result_return() {
    let mut fb = FunctionBuilder::new(vec![]);
    let seven = fb.integer(7, sp());
    fb.ret_ok(seven, sp());

    let func = Function { signature: sig_ret_pair(1, 2), span: sp(), dfg: fb.dfg };
    let sigs: Vec<Signature> = vec![];
    let mut mb = ModuleBuilder::new(true);
    let f = build_function(&mut mb, &sigs, &func).unwrap();

    assert_eq!(f.symbol, FuncSymbol::Mfa(1, 2, 0));
    assert_eq!(f.result_tys, vec![CirType::I1, CirType::Term]);

    // the function was declared with its translated type, public per
    // its signature's visibility
    assert_eq!(mb.declared.len(), 1);
    assert_eq!(mb.declared[0].symbol, FuncSymbol::Mfa(1, 2, 0));
    assert!(mb.declared[0].is_public);
    assert_eq!(
        mb.declared[0].ty,
        Some(CirType::FunctionTy(vec![], vec![CirType::I1, CirType::Term]))
    );

    let ops: Vec<&TxOp> = f.blocks[0].ops.iter().map(|n| &n.op).collect();
    // the integer seven, the false flag, a cast of each operand to the
    // declared result types, and the return
    assert!(matches!(ops[0], TxOp::ConstIsize(7)));
    assert!(matches!(ops[1], TxOp::ConstBool(false)));
    match ops.last().unwrap() {
        TxOp::ReturnOp(args) => assert_eq!(args.len(), 2),
        other => panic!("expected the return, got {:?}", other),
    }
    // the block ends with exactly one terminator
    for (j, n) in f.blocks[0].ops.iter().enumerate() {
        assert_eq!(n.op.is_terminator(), j + 1 == f.blocks[0].ops.len());
    }
}

/// `setelement(T, 2, V)` with a small-integer index lowers to the
/// dialect's set-element over the tuple, the materialized index and
/// the new value; the original tuple value stays live (a new value is
/// produced, the input is not overwritten).
#[test]
fn setelement_with_small_index_lowers_to_dialect_set_element() {
    let mut fb = FunctionBuilder::new(vec![
        Type::Term(TermType::Tuple(None)),
        Type::Term(TermType::Any),
    ]);
    let t = fb.dfg.blocks[0].params[0];
    let v = fb.dfg.blocks[0].params[1];
    let out = fb.set_element(t, 2, v, sp());
    assert_ne!(out, t, "set_element produces a new tuple value");
    fb.ret_ok(out, sp());

    let func = Function { signature: sig_ret_pair(1, 3), span: sp(), dfg: fb.dfg };
    let sigs: Vec<Signature> = vec![];
    let mut mb = ModuleBuilder::new(true);
    let f = build_function(&mut mb, &sigs, &func).unwrap();

    let mut saw_set_element = false;
    for n in f.blocks[0].ops.iter() {
        if let TxOp::SetElementOp(tuple, index, _value) = &n.op {
            saw_set_element = true;
            // the tuple operand is the entry block's first parameter
            assert_eq!(*tuple, f.blocks[0].params[0]);
            // the index was materialized as the isize constant 2
            let ix_const = f.blocks[0]
                .ops
                .iter()
                .find(|m| m.results.contains(index))
                .expect("the index constant is materialized in this block");
            assert!(matches!(ix_const.op, TxOp::ConstIsize(2)));
        }
    }
    assert!(saw_set_element, "the dialect set-element op is emitted");
}

/// Arithmetic over terms lowers to a call of the canonical runtime
/// symbol, declared on first use.
#[test]
fn term_addition_lowers_to_a_runtime_call() {
    let mut fb = FunctionBuilder::new(vec![
        Type::Term(TermType::Integer),
        Type::Term(TermType::Integer),
    ]);
    let a = fb.dfg.blocks[0].params[0];
    let b = fb.dfg.blocks[0].params[1];
    let s = fb.add(a, b, sp());
    fb.ret_ok(s, sp());

    let func = Function { signature: sig_ret_pair(1, 4), span: sp(), dfg: fb.dfg };
    let sigs: Vec<Signature> = vec![];
    let mut mb = ModuleBuilder::new(true);
    let f = build_function(&mut mb, &sigs, &func).unwrap();

    let mut saw_call = false;
    for n in f.blocks[0].ops.iter() {
        if let TxOp::CallOp(sym, args) = &n.op {
            saw_call = true;
            assert_eq!(*sym, FuncSymbol::Runtime(RuntimeFn::Add2));
            assert_eq!(args.len(), 2);
        }
    }
    assert!(saw_call);
    assert!(mb.declared.iter().any(|d| d.symbol == FuncSymbol::Runtime(RuntimeFn::Add2)));
}

/// A conditional side-branch splits the block: the condition either
/// jumps to its destination or falls through to a fresh block where
/// building continues.
#[test]
fn br_if_splits_the_block_in_the_dialect() {
    let mut fb = FunctionBuilder::new(vec![Type::Term(TermType::Any)]);
    let p = fb.dfg.blocks[0].params[0];
    let dest = fb.create_block(vec![]);
    let c = fb.eq_imm(
        p,
        ssa_ir::immediate::Immediate::Term(ssa_ir::immediate::ImmediateTerm::Integer(0)),
        sp(),
    );
    fb.br_if(c, dest, &vec![], sp()).unwrap();
    fb.ret_ok(p, sp());
    fb.switch_to_block(dest);
    fb.ret_ok(p, sp());

    let func = Function { signature: sig_ret_pair(1, 5), span: sp(), dfg: fb.dfg };
    let sigs: Vec<Signature> = vec![];
    let mut mb = ModuleBuilder::new(true);
    let f = build_function(&mut mb, &sigs, &func).unwrap();

    // the dialect function has one block more than the source: the
    // split continuation
    assert_eq!(f.blocks.len(), 3);
    let mut saw_cond = false;
    for n in f.blocks[0].ops.iter() {
        if let TxOp::CondBranchOp(_c, then_d, then_args, else_d, else_args) = &n.op {
            saw_cond = true;
            assert_eq!(*then_d, 1usize, "the then edge goes to the mapped destination");
            assert!(then_args.is_empty());
            assert_eq!(*else_d, 2usize, "the else edge goes to the split block");
            assert!(else_args.is_empty());
        }
    }
    assert!(saw_cond);
    // the split block holds the rest of the source block
    assert!(!f.blocks[2].ops.is_empty());
    assert!(f.blocks[2].ops.last().unwrap().op.is_terminator());
    // every block of the produced function is closed by a terminator
    for b in f.blocks.iter() {
        assert!(b.filled);
    }
}

/// The canonical runtime symbols are bit-exact.
#[test]
fn runtime_symbols_are_canonical() {
    assert_eq!(RuntimeFn::Add2.symbol_name(), "erlang:+/2");
    assert_eq!(RuntimeFn::Sub2.symbol_name(), "erlang:-/2");
    assert_eq!(RuntimeFn::Mul2.symbol_name(), "erlang:*/2");
    assert_eq!(RuntimeFn::Div2.symbol_name(), "erlang:div/2");
    assert_eq!(RuntimeFn::Rem2.symbol_name(), "erlang:rem/2");
    assert_eq!(RuntimeFn::Band2.symbol_name(), "erlang:band/2");
    assert_eq!(RuntimeFn::Bor2.symbol_name(), "erlang:bor/2");
    assert_eq!(RuntimeFn::Bxor2.symbol_name(), "erlang:bxor/2");
    assert_eq!(RuntimeFn::Bsl2.symbol_name(), "erlang:bsl/2");
    assert_eq!(RuntimeFn::Bsr2.symbol_name(), "erlang:bsr/2");
    assert_eq!(RuntimeFn::Eq2.symbol_name(), "erlang:==/2");
    assert_eq!(RuntimeFn::EqExact2.symbol_name(), "erlang:=:=/2");
    assert_eq!(RuntimeFn::Neq2.symbol_name(), "erlang:/=/2");
    assert_eq!(RuntimeFn::NeqExact2.symbol_name(), "erlang:=/=/2");
    assert_eq!(RuntimeFn::Lt2.symbol_name(), "erlang:</2");
    assert_eq!(RuntimeFn::Lte2.symbol_name(), "erlang:=</2");
    assert_eq!(RuntimeFn::Gt2.symbol_name(), "erlang:>/2");
    assert_eq!(RuntimeFn::Gte2.symbol_name(), "erlang:>=/2");
    assert_eq!(RuntimeFn::Concat2.symbol_name(), "erlang:++/2");
    assert_eq!(RuntimeFn::Subtract2.symbol_name(), "erlang:--/2");
    assert_eq!(RuntimeFn::Bnot1.symbol_name(), "erlang:bnot/1");
    assert_eq!(RuntimeFn::Neg1.symbol_name(), "erlang:-/1");
    assert_eq!(RuntimeFn::Fdiv2.symbol_name(), "erlang:fdiv/2");
}

/// Type translation: primitives map one to one, term types map to the
/// dialect's tagged types, floats are boxed only off the NaN-boxed
/// encoding, and compounds are boxed elementwise.
#[test]
fn type_translation_follows_the_encoding() {
    let sigs: Vec<Signature> = vec![];

    assert_eq!(translate_primitive_ir_type(&PrimitiveType::I1), CirType::I1);
    assert_eq!(translate_primitive_ir_type(&PrimitiveType::Isize), CirType::Index);
    assert_eq!(
        translate_primitive_ir_type(&PrimitiveType::Ptr(Box::new(PrimitiveType::I8))),
        CirType::Ptr(Box::new(CirType::I8))
    );
    assert_eq!(
        translate_primitive_ir_type(&PrimitiveType::Struct(vec![
            PrimitiveType::I32,
            PrimitiveType::I64,
        ])),
        CirType::StructTy(vec![CirType::I32, CirType::I64])
    );

    // NaN-boxed targets keep floats unboxed; others box them
    assert_eq!(
        translate_ir_type(true, &sigs, &Type::Term(TermType::Float)),
        CirType::TermFloat
    );
    assert_eq!(
        translate_ir_type(false, &sigs, &Type::Term(TermType::Float)),
        CirType::Boxed(Box::new(CirType::TermFloat))
    );

    assert_eq!(translate_ir_type(true, &sigs, &Type::Term(TermType::Any)), CirType::Term);
    assert_eq!(
        translate_ir_type(true, &sigs, &Type::Term(TermType::Binary)),
        CirType::Boxed(Box::new(CirType::TermBits))
    );
    assert_eq!(
        translate_ir_type(true, &sigs, &Type::Term(TermType::Cons)),
        CirType::Boxed(Box::new(CirType::TermCons))
    );
    assert_eq!(
        translate_ir_type(true, &sigs, &Type::Term(TermType::Tuple(Some(vec![
            TermType::Integer,
            TermType::Atom,
        ])))),
        CirType::Boxed(Box::new(CirType::TupleTy(vec![
            CirType::TermInteger,
            CirType::TermAtom,
        ])))
    );
    assert_eq!(translate_ir_type(true, &sigs, &Type::RecvState), CirType::I8);
    assert_eq!(translate_ir_type(true, &sigs, &Type::RecvContext), CirType::RecvCtx);
}

/// A return in a function whose signature does not declare the
/// two-value result pair is a structural violation.
#[test]
fn return_against_a_malformed_signature_is_a_structural_violation() {
    let mut fb = FunctionBuilder::new(vec![]);
    let seven = fb.integer(7, sp());
    fb.ret_ok(seven, sp());

    let signature = Signature {
        module: 1,
        name: 7,
        arity: 0,
        params: vec![],
        results: vec![Type::Term(TermType::Any)],
        visibility: Visibility::Public,
    };
    let func = Function { signature, span: sp(), dfg: fb.dfg };
    let sigs: Vec<Signature> = vec![];
    let mut mb = ModuleBuilder::new(true);
    let r = build_function(&mut mb, &sigs, &func);
    assert_eq!(r.unwrap_err(), LowerError::StructuralViolation);
}

/// The minimal lowerer reports recognized-but-unsupported constructs
/// without corrupting its state.
#[test]
fn big_integer_constants_are_reported_unsupported() {
    let mut fb = FunctionBuilder::new(vec![]);
    let big = fb.bigint(false, vec![1, 2, 3], sp());
    fb.ret_ok(big, sp());

    let func = Function { signature: sig_ret_pair(1, 6), span: sp(), dfg: fb.dfg };
    let sigs: Vec<Signature> = vec![];
    let mut mb = ModuleBuilder::new(true);
    let r = build_function(&mut mb, &sigs, &func);
    assert_eq!(r.unwrap_err(), LowerError::Unsupported);
}
