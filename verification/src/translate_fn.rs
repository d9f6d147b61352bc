use vstd::prelude::*;
use crate::cir::{CirType, FuncSymbol};
use crate::dfg::{DataFlowGraph, ValueDef};
use crate::function::{Function, Signature};
use crate::insts::{Inst, InstData, Value};
use crate::translate::{FunctionLowering, LowerError, ModuleBuilder};
use crate::translate_insts::{
    bin_const_ok, bin_imm_ok, bin_supported, build_binary_op, build_binary_op_const,
    build_binary_op_imm, build_br, build_call, build_call_indirect, build_is_type, build_primop,
    build_primop_imm, build_ret, build_ret_imm, build_setelement, build_setelement_const,
    build_setelement_imm, build_unary_op, build_unary_op_const, build_unary_op_imm,
    primop_maps_args, primop_supported, result_tys_for, results_ok, tuple_arity_of,
    un_const_supported, un_imm_supported, un_supported,
};
use crate::translate_types::translate_ir_type;
use crate::txir::{TxBuilder, TxFunction, TxValue};

verus! {

broadcast use vstd::std_specs::vec::group_vec_axioms, vstd::seq::group_seq_axioms;

/// The minimal lowerer can lower this instruction in this state: its
/// construct is supported, its shape is well formed, and every value
/// it reads has a dialect mapping.
pub open spec fn inst_lowerable(
    l: FunctionLowering,
    dfg: DataFlowGraph,
    nsigs: int,
    data: InstData,
) -> bool {
    match data {
        InstData::UnaryOp(d) => l.is_mapped(d.arg) && un_supported(d.op),
        InstData::UnaryOpImm(d) => un_imm_supported(d.op) && (d.op == crate::insts::Opcode::Tuple
            ==> tuple_arity_of(d.imm) is Some),
        InstData::UnaryOpConst(d) => crate::translate::const_lowerable(
            dfg.constants@[d.imm.0 as int],
        ) && un_const_supported(d.op),
        InstData::BinaryOp(d) => l.is_mapped(d.args.0) && l.is_mapped(d.args.1) && bin_supported(
            d.op,
        ),
        InstData::BinaryOpImm(d) => l.is_mapped(d.arg) && bin_imm_ok(d.op, d.imm),
        InstData::BinaryOpConst(d) => l.is_mapped(d.arg) && bin_const_ok(
            d.op,
            dfg.constants@[d.imm.0 as int],
        ),
        InstData::Ret(d) => l.is_mapped(d.args.0) && l.is_mapped(d.args.1)
            && l.tb.f.result_tys@.len() == 2,
        InstData::RetImm(d) => l.is_mapped(d.arg) && l.tb.f.result_tys@.len() == 2,
        InstData::Br(d) => {
            let dest = l.blocks_map@[d.destination.0 as int] as int;
            if d.op == crate::insts::Opcode::Br {
                l.all_mapped(d.args@) && d.args@.len() == l.tb.f.blocks@[dest].params@.len()
            } else if d.op == crate::insts::Opcode::BrIf || d.op
                == crate::insts::Opcode::BrUnless {
                l.all_mapped(d.args@) && d.args@.len() >= 1 && d.args@.len() - 1
                    == l.tb.f.blocks@[dest].params@.len()
            } else {
                false
            }
        },
        InstData::IsType(d) => l.is_mapped(d.arg),
        InstData::PrimOp(d) => primop_supported(d.op, d.args@.len() as int) && (primop_maps_args(
            d.op,
        ) ==> l.all_mapped(d.args@)),
        InstData::PrimOpImm(d) => match d.op {
            crate::insts::Opcode::MatchFail => true,
            crate::insts::Opcode::Raise => d.args@.len() == 3 && l.is_mapped(d.args@[1])
                && l.is_mapped(d.args@[2]),
            crate::insts::Opcode::RecvStart => true,
            crate::insts::Opcode::BuildStacktrace => true,
            _ => false,
        },
        InstData::Call(d) => d.op == crate::insts::Opcode::Call && (d.callee.0 as int) < nsigs
            && l.all_mapped(d.args@),
        InstData::CallIndirect(d) => d.op == crate::insts::Opcode::CallIndirect && l.is_mapped(
            d.callee,
        ) && l.all_mapped(d.args@),
        InstData::SetElement(d) => l.is_mapped(d.args.0) && l.is_mapped(d.args.1),
        InstData::SetElementImm(d) => l.is_mapped(d.arg),
        InstData::SetElementConst(d) => l.is_mapped(d.arg) && crate::translate::const_lowerable(
            dfg.constants@[d.value.0 as int],
        ),
        _ => false,
    }
}

/// Lowers a single source instruction to its dialect counterpart.
/// Succeeds exactly when the instruction is lowerable in the current
/// state.
pub fn build_inst(
    mb: &mut ModuleBuilder,
    l: &mut FunctionLowering,
    sigs: &Vec<Signature>,
    dfg: &DataFlowGraph,
    inst: Inst,
) -> (r: Result<(), LowerError>)
    requires
        old(l).ready(),
        dfg.wf(),
        dfg.valid_inst(inst),
        old(l).values_map@.len() == dfg.values@.len(),
        old(l).blocks_map@.len() == dfg.blocks@.len(),
    ensures
        match r {
            Ok(_) => final(l).inst_step(
                *old(l),
                dfg.insts@[inst.0 as int].data.is_terminator_spec(),
            ),
            Err(_) => final(l).inst_step(*old(l), false),
        },
        r is Ok <==> inst_lowerable(
            *old(l),
            *dfg,
            sigs@.len() as int,
            dfg.insts@[inst.0 as int].data,
        ),
{
    proof {
        assert(dfg.inst_wf(inst.0 as int));
        assert forall|j1: int, j2: int|
            0 <= j1 < j2 < dfg.insts@[inst.0 as int].results@.len() implies dfg.insts@[inst.0 as int]
            .results@[j1].0 != dfg.insts@[inst.0 as int].results@[j2].0 by {
            let rs = dfg.insts@[inst.0 as int].results@;
            if rs[j1].0 == rs[j2].0 {
                assert(dfg.values@[rs[j1].0 as int].def == ValueDef::Result(
                    Inst(inst.0),
                    j1 as usize,
                ));
                assert(dfg.values@[rs[j2].0 as int].def == ValueDef::Result(
                    Inst(inst.0),
                    j2 as usize,
                ));
                assert(vstd::std_specs::vec::spec_vec_len(&dfg.insts@[inst.0 as int].results)
                    == dfg.insts@[inst.0 as int].results@.len());
            }
        }
    }
    let node = &dfg.insts[inst.0];
    let rtys = result_tys_for(mb.nanboxed, sigs, dfg, &node.results);
    proof {
        assert(results_ok(node.results@, old(l).values_map@.len()));
    }
    match &node.data {
        InstData::UnaryOp(d) => build_unary_op(mb, l, d, &node.results, rtys),
        InstData::UnaryOpImm(d) => build_unary_op_imm(mb, l, d, &node.results, rtys),
        InstData::UnaryOpConst(d) => build_unary_op_const(mb, l, dfg, d, &node.results, rtys),
        InstData::BinaryOp(d) => build_binary_op(mb, l, d, &node.results, rtys),
        InstData::BinaryOpImm(d) => build_binary_op_imm(mb, l, d, &node.results, rtys),
        InstData::BinaryOpConst(d) => build_binary_op_const(mb, l, dfg, d, &node.results, rtys),
        InstData::Ret(d) => build_ret(l, d),
        InstData::RetImm(d) => build_ret_imm(l, d),
        InstData::Br(d) => build_br(l, d),
        InstData::IsType(d) => build_is_type(mb, l, sigs, d, &node.results, rtys),
        InstData::PrimOp(d) => build_primop(l, d, &node.results, rtys),
        InstData::PrimOpImm(d) => build_primop_imm(l, d, &node.results, rtys),
        InstData::Call(d) => build_call(mb, l, sigs, d, &node.results, rtys),
        InstData::CallIndirect(d) => build_call_indirect(l, d, &node.results, rtys),
        InstData::SetElement(d) => build_setelement(l, d, &node.results, rtys),
        InstData::SetElementImm(d) => build_setelement_imm(l, d, &node.results, rtys),
        InstData::SetElementConst(d) => build_setelement_const(l, dfg, d, &node.results, rtys),
        _ => Err(LowerError::Unsupported),
    }
}

/// Lowers one completed source function to a dialect function: the
/// function's symbol is declared with its translated type, one dialect
/// block is created per source block with translated parameter types,
/// and each instruction is translated in layout order.
#[verifier::loop_isolation(false)]
#[verifier::rlimit(50)]
pub fn build_function(
    mb: &mut ModuleBuilder,
    sigs: &Vec<Signature>,
    func: &Function,
) -> (r: Result<TxFunction, LowerError>)
    requires
        func.dfg.wf(),
        func.dfg.is_complete(),
        func.dfg.blocks@.len() > 0,
    ensures
        match r {
            Ok(f) => {
                &&& f.wf()
                &&& f.is_complete()
                &&& f.symbol == FuncSymbol::Mfa(
                    func.signature.module,
                    func.signature.name,
                    func.signature.arity,
                )
                &&& f.blocks@.len() >= func.dfg.blocks@.len()
                &&& forall|b: int| #![auto]
                    0 <= b < func.dfg.blocks@.len() ==> f.blocks@[b].params@.len()
                        == func.dfg.blocks@[b].params@.len()
                &&& forall|b: int, k: int| #![auto]
                    0 <= b < func.dfg.blocks@.len() && 0 <= k
                        < func.dfg.blocks@[b].params@.len()
                        ==> crate::translate_types::type_tx(
                        old(mb).nanboxed,
                        sigs@,
                        func.dfg.value_ty(func.dfg.blocks@[b].params@[k]),
                        f.value_ty(f.blocks@[b].params@[k]),
                    )
            },
            Err(_) => true,
        },
{
    let ghost nb = mb.nanboxed;
    let dfg = &func.dfg;
    let nblocks = dfg.blocks.len();
    let nvalues = dfg.values.len();

    // Translate the function's result types and declare its symbol
    // with its translated type; the declaration is public exactly when
    // the signature is public and not externally defined.
    let sym = FuncSymbol::Mfa(func.signature.module, func.signature.name, func.signature.arity);
    let fty = crate::translate_types::signature_to_fn_type(mb.nanboxed, &func.signature);
    let is_public = matches!(func.signature.visibility, crate::function::Visibility::Public);
    mb.get_or_declare_function(sym, Some(fty), is_public);
    let mut rtys: Vec<CirType> = Vec::new();
    let nres = func.signature.results.len();
    let mut i: usize = 0;
    while i < nres
        invariant
            i <= nres,
        decreases nres - i,
    {
        let c = translate_ir_type(mb.nanboxed, sigs, &func.signature.results[i]);
        rtys.push(c);
        i += 1;
    }

    let mut l = FunctionLowering {
        tb: TxBuilder::new(sym, rtys),
        blocks_map: Vec::new(),
        values_map: Vec::new(),
    };
    let mut v: usize = 0;
    while v < nvalues
        invariant
            v <= nvalues,
            l.values_map@.len() == v,
            forall|k: int| #![auto] 0 <= k < v ==> l.values_map@[k] is None,
            l.tb.f.wf(),
            l.tb.f.blocks@.len() == 0,
            l.tb.f.values@.len() == 0,
            l.tb.f.symbol == sym,
            l.tb.position == 0,
            l.blocks_map@.len() == 0,
        decreases nvalues - v,
    {
        l.values_map.push(None);
        v += 1;
    }

    // Create one dialect block per source block, translating the
    // parameter types and mapping the parameter values.
    let mut b: usize = 0;
    while b < nblocks
        invariant
            b <= nblocks,
            l.tb.f.wf(),
            l.tb.position == 0,
            forall|i2: int| #![auto]
                0 <= i2 < l.blocks_map@.len() ==> (l.blocks_map@[i2] as int)
                    < l.tb.f.blocks@.len(),
            forall|v2: int| #![auto]
                0 <= v2 < l.values_map@.len() ==> crate::translate::slot_ok(
                    l.values_map@[v2],
                    l.tb.f.values@.len(),
                ),
            l.blocks_map@.len() == b,
            l.tb.f.blocks@.len() == b,
            l.tb.f.symbol == sym,
            forall|k: int| #![auto] 0 <= k < b ==> l.blocks_map@[k] == k,
            forall|k: int| #![auto] 0 <= k < b ==> !l.tb.f.blocks@[k].filled,
            forall|k: int| #![auto]
                0 <= k < b ==> l.tb.f.blocks@[k].params@.len()
                    == dfg.blocks@[k].params@.len(),
            forall|k: int| #![auto] 0 <= k < b ==> l.tb.f.blocks@[k].ops@.len() == 0,
            forall|b2: int, k: int| #![auto]
                0 <= b2 < b && 0 <= k < dfg.blocks@[b2].params@.len()
                    ==> crate::translate_types::type_tx(
                    nb,
                    sigs@,
                    dfg.value_ty(dfg.blocks@[b2].params@[k]),
                    l.tb.f.value_ty(l.tb.f.blocks@[b2].params@[k]),
                ),
            l.values_map@.len() == nvalues,
        decreases nblocks - b,
    {
        let nparams = dfg.blocks[b].params.len();
        let mut ptys: Vec<CirType> = Vec::new();
        let mut k: usize = 0;
        while k < nparams
            invariant
                k <= nparams,
                ptys@.len() == k,
                nparams == dfg.blocks@[b as int].params@.len(),
                forall|j: int| #![auto]
                    0 <= j < k ==> crate::translate_types::type_tx(
                        nb,
                        sigs@,
                        dfg.value_ty(dfg.blocks@[b as int].params@[j]),
                        ptys@[j],
                    ),
            decreases nparams - k,
        {
            proof {
                assert(dfg.block_wf(b as int));
            }
            let pv = dfg.blocks[b].params[k];
            let ty = dfg.value_type(pv);
            let c = translate_ir_type(mb.nanboxed, sigs, ty);
            ptys.push(c);
            k += 1;
        }
        let v0 = l.tb.f.values.len();
        let ghost ptysv = ptys@;
        let ghost lpre = l.tb;
        let txb = l.tb.create_block(ptys);
        proof {
            assert forall|b2: int, k3: int|
                0 <= b2 < b && 0 <= k3 < dfg.blocks@[b2].params@.len() implies
                crate::translate_types::type_tx(
                nb,
                sigs@,
                dfg.value_ty(dfg.blocks@[b2].params@[k3]),
                l.tb.f.value_ty(l.tb.f.blocks@[b2].params@[k3]),
            ) by {
                assert(lpre.f.block_wf(b2));
                assert(l.tb.f.blocks@[b2].params@ == lpre.f.blocks@[b2].params@);
                assert(l.tb.f.value_ty(l.tb.f.blocks@[b2].params@[k3]) == lpre.f.value_ty(
                    lpre.f.blocks@[b2].params@[k3],
                ));
            }
            assert forall|k3: int|
                0 <= k3 < dfg.blocks@[b as int].params@.len() implies
                crate::translate_types::type_tx(
                nb,
                sigs@,
                dfg.value_ty(dfg.blocks@[b as int].params@[k3]),
                l.tb.f.value_ty(l.tb.f.blocks@[txb as int].params@[k3]),
            ) by {
                assert(l.tb.f.value_ty(l.tb.f.blocks@[txb as int].params@[k3]) == ptysv[k3]);
            }
        }
        let ghost tb_snap = l.tb;
        let ghost bm_snap = l.blocks_map@;
        let mut k2: usize = 0;
        while k2 < nparams
            invariant
                k2 <= nparams,
                l.inv(),
                l.tb == tb_snap,
                l.blocks_map@ == bm_snap,
                l.tb.position == 0,
                nparams == dfg.blocks@[b as int].params@.len(),
                nparams == l.tb.f.blocks@[txb as int].params@.len(),
                l.values_map@.len() == nvalues,
                l.blocks_map@.len() == b,
                v0 + nparams == l.tb.f.values@.len(),
            decreases nparams - k2,
        {
            proof {
                assert(dfg.block_wf(b as int));
                assert(vstd::std_specs::vec::spec_vec_len(&l.tb.f.values)
                    == l.tb.f.values@.len());
            }
            let pv = dfg.blocks[b].params[k2];
            l.map_result_to(pv, TxValue(v0 + k2));
            k2 += 1;
        }
        l.blocks_map.push(txb);
        b += 1;
    }

    // Fill each dialect block with the translated instructions, in
    // layout order.
    let mut b2: usize = 0;
    while b2 < nblocks
        invariant
            b2 <= nblocks,
            l.inv(),
            l.blocks_map@.len() == nblocks,
            l.values_map@.len() == nvalues,
            l.tb.f.blocks@.len() >= nblocks,
            l.tb.f.symbol == sym,
            forall|k: int| #![auto] 0 <= k < nblocks ==> l.blocks_map@[k] == k,
            forall|k: int| #![auto]
                0 <= k < nblocks ==> l.tb.f.blocks@[k].params@.len()
                    == dfg.blocks@[k].params@.len(),
            forall|b3: int, k: int| #![auto]
                0 <= b3 < nblocks && 0 <= k < dfg.blocks@[b3].params@.len()
                    ==> crate::translate_types::type_tx(
                    nb,
                    sigs@,
                    dfg.value_ty(dfg.blocks@[b3].params@[k]),
                    l.tb.f.value_ty(l.tb.f.blocks@[b3].params@[k]),
                ),
            forall|k: int| #![auto] b2 <= k < nblocks ==> !l.tb.f.blocks@[k].filled,
            forall|k: int| #![auto]
                0 <= k < l.tb.f.blocks@.len() ==> l.tb.f.blocks@[k].filled || (b2 <= k
                    < nblocks),
        decreases nblocks - b2,
    {
        let txb = l.blocks_map[b2];
        l.tb.switch_to_block(txb);
        let ninsts = dfg.blocks[b2].insts.len();
        proof {
            assert(dfg.block_wf(b2 as int));
        }
        let mut j: usize = 0;
        while j < ninsts
            invariant
                j <= ninsts,
                ninsts == dfg.blocks@[b2 as int].insts@.len(),
                l.inv(),
                l.blocks_map@.len() == nblocks,
                l.values_map@.len() == nvalues,
                l.tb.f.blocks@.len() >= nblocks,
                l.tb.f.symbol == sym,
                forall|k: int| #![auto] 0 <= k < nblocks ==> l.blocks_map@[k] == k,
                forall|k: int| #![auto]
                    0 <= k < nblocks ==> l.tb.f.blocks@[k].params@.len()
                        == dfg.blocks@[k].params@.len(),
                forall|b3: int, k: int| #![auto]
                    0 <= b3 < nblocks && 0 <= k < dfg.blocks@[b3].params@.len()
                        ==> crate::translate_types::type_tx(
                        nb,
                        sigs@,
                        dfg.value_ty(dfg.blocks@[b3].params@[k]),
                        l.tb.f.value_ty(l.tb.f.blocks@[b3].params@[k]),
                    ),
                forall|k: int| #![auto] b2 < k < nblocks ==> !l.tb.f.blocks@[k].filled,
                l.tb.position == b2 || l.tb.position >= nblocks,
                j < ninsts ==> !l.tb.f.blocks@[l.tb.position as int].filled,
                forall|k: int| #![auto]
                    0 <= k < l.tb.f.blocks@.len() ==> l.tb.f.blocks@[k].filled || (b2 < k
                        < nblocks) || k == l.tb.position as int,
                j == ninsts ==> l.tb.f.blocks@[l.tb.position as int].filled,
            decreases ninsts - j,
        {
            proof {
                assert(dfg.block_wf(b2 as int));
            }
            let inst = dfg.blocks[b2].insts[j];
            let ghost prev = l;
            match build_inst(mb, &mut l, sigs, dfg, inst) {
                Ok(_) => {},
                Err(e) => {
                    return Err(e);
                },
            }
            proof {
                if j + 1 < ninsts {
                    assert(!dfg.insts@[inst.0 as int].data.is_terminator_spec());
                }
                assert forall|b3: int, k: int|
                    0 <= b3 < nblocks && 0 <= k < dfg.blocks@[b3].params@.len() implies
                    crate::translate_types::type_tx(
                    nb,
                    sigs@,
                    dfg.value_ty(dfg.blocks@[b3].params@[k]),
                    l.tb.f.value_ty(l.tb.f.blocks@[b3].params@[k]),
                ) by {
                    assert(prev.tb.f.block_wf(b3));
                    assert(l.tb.f.blocks@[b3].params@ == prev.tb.f.blocks@[b3].params@);
                    assert(l.tb.f.value_ty(l.tb.f.blocks@[b3].params@[k])
                        == prev.tb.f.value_ty(prev.tb.f.blocks@[b3].params@[k]));
                }
            }
            j += 1;
        }
        b2 += 1;
    }
    Ok(l.tb.f)
}

} // verus!
