use vstd::prelude::*;
use crate::dfg::{BlockData, DataFlowGraph, InstNode, ValueData, ValueDef};
use crate::insts::{Block, Inst, InstData, Opcode, Value};
use crate::span::SourceSpan;
use crate::types::{PrimitiveType, TermType, Type};

verus! {

broadcast use vstd::std_specs::vec::group_vec_axioms, vstd::seq::group_seq_axioms;

/// Instructions whose results follow the two-value calling
/// convention: an i1 is-error flag and the returned term.
pub open spec fn call_like(data: InstData) -> bool {
    match data {
        InstData::Call(d) => d.op == Opcode::Call,
        InstData::CallIndirect(d) => d.op == Opcode::CallIndirect,
        _ => false,
    }
}

/// Growing a graph keeps every payload well formed: validity of
/// handles is monotone and branch arities only depend on parameter
/// lists that are preserved.
pub proof fn lemma_data_wf_monotone(prev: DataFlowGraph, cur: DataFlowGraph, data: InstData)
    requires
        prev.data_wf(data),
        cur.values@.len() >= prev.values@.len(),
        cur.constants@.len() >= prev.constants@.len(),
        cur.blocks@.len() >= prev.blocks@.len(),
        forall|b: int| #![auto]
            0 <= b < prev.blocks@.len() ==> cur.blocks@[b].params@.len()
                == prev.blocks@[b].params@.len(),
    ensures
        cur.data_wf(data),
{
    match data {
        InstData::Br(d) => {
            assert forall|i: int| 0 <= i < d.args@.len() implies cur.valid_value(d.args@[i]) by {
                assert(prev.valid_value(d.args@[i]));
            }
        },
        InstData::CondBr(d) => {
            assert forall|i: int|
                0 <= i < d.then_dest.1@.len() implies cur.valid_value(d.then_dest.1@[i]) by {
                assert(prev.valid_value(d.then_dest.1@[i]));
            }
            assert forall|i: int|
                0 <= i < d.else_dest.1@.len() implies cur.valid_value(d.else_dest.1@[i]) by {
                assert(prev.valid_value(d.else_dest.1@[i]));
            }
        },
        InstData::Switch(d) => {
            assert forall|i: int|
                0 <= i < d.arms@.len() implies cur.branch_target_ok(d.arms@[i].1, 0) by {
                assert(prev.branch_target_ok(d.arms@[i].1, 0));
            }
        },
        InstData::Call(d) => {
            assert forall|i: int| 0 <= i < d.args@.len() implies cur.valid_value(d.args@[i]) by {
                assert(prev.valid_value(d.args@[i]));
            }
        },
        InstData::CallIndirect(d) => {
            assert forall|i: int| 0 <= i < d.args@.len() implies cur.valid_value(d.args@[i]) by {
                assert(prev.valid_value(d.args@[i]));
            }
        },
        InstData::PrimOp(d) => {
            assert forall|i: int| 0 <= i < d.args@.len() implies cur.valid_value(d.args@[i]) by {
                assert(prev.valid_value(d.args@[i]));
            }
        },
        InstData::PrimOpImm(d) => {
            assert forall|i: int| 0 <= i < d.args@.len() implies cur.valid_value(d.args@[i]) by {
                assert(prev.valid_value(d.args@[i]));
            }
        },
        InstData::MakeFun(d) => {
            assert forall|i: int| 0 <= i < d.env@.len() implies cur.valid_value(d.env@[i]) by {
                assert(prev.valid_value(d.env@[i]));
            }
        },
        InstData::BitsMatch(d) => {
            assert forall|i: int| 0 <= i < d.args@.len() implies cur.valid_value(d.args@[i]) by {
                assert(prev.valid_value(d.args@[i]));
            }
        },
        InstData::BitsMatchSkip(d) => {
            assert forall|i: int| 0 <= i < d.args@.len() implies cur.valid_value(d.args@[i]) by {
                assert(prev.valid_value(d.args@[i]));
            }
        },
        InstData::BitsPush(d) => {
            assert forall|i: int| 0 <= i < d.args@.len() implies cur.valid_value(d.args@[i]) by {
                assert(prev.valid_value(d.args@[i]));
            }
        },
        _ => {},
    }
}

/// Read access to the graph a builder works on.
pub trait InstBuilderBase: Sized {
    fn data_flow_graph(&self) -> &DataFlowGraph;
}

/// Builds one function's SSA graph by appending instructions to a
/// current block. The builder's contracts enforce, at construction
/// time, the structural invariants every downstream pass relies on:
/// blocks end with exactly one terminator, branches carry as many
/// arguments as their destination has parameters, and every value is
/// defined exactly once.
#[derive(Debug)]
pub struct FunctionBuilder {
    pub dfg: DataFlowGraph,
    pub position: Block,
}

impl InstBuilderBase for FunctionBuilder {
    fn data_flow_graph(&self) -> &DataFlowGraph {
        &self.dfg
    }
}

impl FunctionBuilder {
    /// The builder can append to its current block: the graph is well
    /// formed and the current block is not yet closed by a terminator.
    pub open spec fn ready(&self) -> bool {
        &&& self.dfg.wf()
        &&& self.dfg.valid_block(self.position)
        &&& !self.dfg.blocks@[self.position.0 as int].filled
    }

    /// The graph is well formed and positioned at a valid block (which
    /// may already be closed).
    pub open spec fn positioned(&self) -> bool {
        &&& self.dfg.wf()
        &&& self.dfg.valid_block(self.position)
    }

    /// The graph has only grown from `prev`: every block, value,
    /// instruction and constant that existed keeps its meaning.
    pub open spec fn grows_from(&self, prev: FunctionBuilder) -> bool {
        &&& self.dfg.blocks@.len() >= prev.dfg.blocks@.len()
        &&& forall|b: int| #![auto]
            0 <= b < prev.dfg.blocks@.len() ==> self.dfg.blocks@[b].params@
                == prev.dfg.blocks@[b].params@
        &&& self.dfg.values@.len() >= prev.dfg.values@.len()
        &&& forall|v: int| #![auto]
            0 <= v < prev.dfg.values@.len() ==> self.dfg.values@[v] == prev.dfg.values@[v]
        &&& self.dfg.insts@.len() >= prev.dfg.insts@.len()
        &&& forall|i: int| #![auto]
            0 <= i < prev.dfg.insts@.len() ==> self.dfg.insts@[i] == prev.dfg.insts@[i]
        &&& self.dfg.constants@.len() >= prev.dfg.constants@.len()
        &&& forall|c: int| #![auto]
            0 <= c < prev.dfg.constants@.len() ==> self.dfg.constants@[c]
                == prev.dfg.constants@[c]
    }

    /// Exactly one instruction with payload `data` and span `span` was
    /// appended to the current block; all other blocks are untouched
    /// and the block is closed exactly when the payload is a
    /// terminator.
    pub open spec fn appended_inst(
        &self,
        prev: FunctionBuilder,
        data: InstData,
        span: SourceSpan,
    ) -> bool {
        let ni = prev.dfg.insts@.len() as int;
        let p = prev.position.0 as int;
        &&& self.position == prev.position
        &&& self.dfg.blocks@.len() == prev.dfg.blocks@.len()
        &&& forall|b: int| #![auto]
            0 <= b < prev.dfg.blocks@.len() && b != p ==> self.dfg.blocks@[b]
                == prev.dfg.blocks@[b]
        &&& self.dfg.insts@.len() == ni + 1
        &&& self.dfg.insts@[ni].data == data
        &&& self.dfg.insts@[ni].span == span
        &&& self.dfg.blocks@[p].insts@ == prev.dfg.blocks@[p].insts@.push(
            Inst(prev.dfg.insts@.len() as usize),
        )
        &&& self.dfg.blocks@[p].params@ == prev.dfg.blocks@[p].params@
        &&& self.dfg.blocks@[p].filled == data.is_terminator_spec()
    }

    /// Like `appended_inst`, but without pinning the payload itself:
    /// used for payloads that carry argument vectors, whose content is
    /// described separately.
    pub open spec fn appended_any(
        &self,
        prev: FunctionBuilder,
        span: SourceSpan,
        term: bool,
    ) -> bool {
        let ni = prev.dfg.insts@.len() as int;
        let p = prev.position.0 as int;
        &&& self.position == prev.position
        &&& self.dfg.blocks@.len() == prev.dfg.blocks@.len()
        &&& forall|b: int| #![auto]
            0 <= b < prev.dfg.blocks@.len() && b != p ==> self.dfg.blocks@[b]
                == prev.dfg.blocks@[b]
        &&& self.dfg.insts@.len() == ni + 1
        &&& self.dfg.insts@[ni].span == span
        &&& self.dfg.insts@[ni].data.is_terminator_spec() == term
        &&& self.dfg.blocks@[p].insts@ == prev.dfg.blocks@[p].insts@.push(
            Inst(prev.dfg.insts@.len() as usize),
        )
        &&& self.dfg.blocks@[p].params@ == prev.dfg.blocks@[p].params@
        &&& self.dfg.blocks@[p].filled == term
    }

    /// The instruction produced exactly one result `r` of type `ty`,
    /// and its node lists exactly that result.
    pub open spec fn one_result(&self, prev: FunctionBuilder, r: Value, ty: Type) -> bool {
        &&& r.0 == prev.dfg.values@.len()
        &&& self.dfg.values@.len() == prev.dfg.values@.len() + 1
        &&& self.dfg.value_ty(r) == ty
        &&& self.dfg.valid_value(r)
        &&& self.dfg.insts@[prev.dfg.insts@.len() as int].results@ == seq![r]
    }

    /// The instruction produced no result values.
    pub open spec fn no_result(&self, prev: FunctionBuilder) -> bool {
        self.dfg.values@ == prev.dfg.values@
    }

    /// Creates a builder whose entry block has one parameter per given
    /// type, in order.
    pub fn new(param_tys: Vec<Type>) -> (fb: FunctionBuilder)
        ensures
            fb.ready(),
            fb.position.0 == 0,
            fb.dfg.blocks@.len() == 1,
            fb.dfg.insts@.len() == 0,
            fb.dfg.constants@.len() == 0,
            fb.dfg.blocks@[0].params@.len() == param_tys@.len(),
            forall|k: int| #![auto]
                0 <= k < param_tys@.len() ==> fb.dfg.value_ty(fb.dfg.blocks@[0].params@[k])
                    == param_tys@[k],
    {
        let mut fb = FunctionBuilder { dfg: DataFlowGraph::new(), position: Block(0) };
        let b = fb.create_block(param_tys);
        fb.position = b;
        fb
    }

    /// Appends a new block with one parameter value per given type, in
    /// order, and returns its handle. The builder stays positioned at
    /// its current block.
    #[verifier::loop_isolation(false)]
    pub fn create_block(&mut self, param_tys: Vec<Type>) -> (b: Block)
        requires
            old(self).dfg.wf(),
        ensures
            final(self).dfg.wf(),
            final(self).position == old(self).position,
            final(self).grows_from(*old(self)),
            b.0 == old(self).dfg.blocks@.len(),
            final(self).dfg.blocks@.len() == old(self).dfg.blocks@.len() + 1,
            forall|b2: int| #![auto]
                0 <= b2 < old(self).dfg.blocks@.len() ==> final(self).dfg.blocks@[b2]
                    == old(self).dfg.blocks@[b2],
            final(self).dfg.insts@ == old(self).dfg.insts@,
            final(self).dfg.constants@ == old(self).dfg.constants@,
            final(self).dfg.values@.len() == old(self).dfg.values@.len() + param_tys@.len(),
            final(self).dfg.blocks@[b.0 as int].insts@.len() == 0,
            !final(self).dfg.blocks@[b.0 as int].filled,
            final(self).dfg.blocks@[b.0 as int].params@.len() == param_tys@.len(),
            forall|k: int| #![auto]
                0 <= k < param_tys@.len() ==> final(self).dfg.blocks@[b.0 as int].params@[k].0
                    == old(self).dfg.values@.len() + k,
            forall|k: int| #![auto]
                0 <= k < param_tys@.len() ==> final(self).dfg.value_ty(
                    final(self).dfg.blocks@[b.0 as int].params@[k],
                ) == param_tys@[k],
    {
        let ghost orig = param_tys@;
        let mut tys = param_tys;
        let b = Block(self.dfg.blocks.len());
        let v0 = self.dfg.values.len();

        // Reverse the types so that popping yields them in order.
        let mut rev: Vec<Type> = Vec::new();
        while tys.len() > 0
            invariant
                rev@.len() + tys@.len() == orig.len(),
                tys@ == orig.subrange(0, tys@.len() as int),
                forall|i: int| #![auto]
                    0 <= i < rev@.len() ==> rev@[i] == orig[orig.len() - 1 - i],
            decreases tys@.len(),
        {
            let t = match tys.pop() {
                Some(t) => t,
                None => vstd::pervasive::unreached(),
            };
            rev.push(t);
        }

        // Create the parameter values in order.
        let mut params: Vec<Value> = Vec::new();
        while rev.len() > 0
            invariant
                params@.len() + rev@.len() == orig.len(),
                forall|i: int| #![auto]
                    0 <= i < rev@.len() ==> rev@[i] == orig[orig.len() - 1 - i],
                self.position == old(self).position,
                self.dfg.values@.len() == v0 + params@.len(),
                self.dfg.blocks@ == old(self).dfg.blocks@,
                self.dfg.insts@ == old(self).dfg.insts@,
                self.dfg.constants@ == old(self).dfg.constants@,
                forall|v: int| #![auto]
                    0 <= v < v0 ==> self.dfg.values@[v] == old(self).dfg.values@[v],
                forall|k: int| #![auto]
                    0 <= k < params@.len() ==> params@[k].0 == v0 + k,
                forall|k: int| #![auto]
                    0 <= k < params@.len() ==> self.dfg.values@[v0 + k] == (ValueData {
                        def: ValueDef::Param(b, k as usize),
                        ty: orig[k],
                    }),
            decreases rev@.len(),
        {
            let k = params.len();
            let t = match rev.pop() {
                Some(t) => t,
                None => vstd::pervasive::unreached(),
            };
            let v = Value(self.dfg.values.len());
            self.dfg.values.push(ValueData { def: ValueDef::Param(b, k), ty: t });
            params.push(v);
        }

        self.dfg.blocks.push(BlockData { params, insts: Vec::new(), filled: false });

        proof {
            let nb = self.dfg.blocks@[b.0 as int];
            assert(nb.params@.len() == orig.len());
            assert(forall|k: int| #![auto]
                0 <= k < orig.len() ==> nb.params@[k].0 == v0 + k);
            assert(forall|k: int| #![auto]
                0 <= k < orig.len() ==> self.dfg.values@[v0 + k] == (ValueData {
                    def: ValueDef::Param(b, k as usize),
                    ty: orig[k],
                }));
        }
        proof {
            assert forall|b2: int| 0 <= b2 < self.dfg.blocks@.len() implies self.dfg.block_wf(
                b2,
            ) by {
                if b2 < b.0 {
                    assert(old(self).dfg.block_wf(b2));
                } else {
                    let bd = self.dfg.blocks@[b2];
                    assert(b2 == b.0 as int);
                    assert(Block(b2 as usize) == b);
                    assert(bd == self.dfg.blocks@[b.0 as int]);
                    assert(bd.params@.len() == orig.len());
                    assert forall|k: int| 0 <= k < bd.params@.len() implies self.dfg.valid_value(
                        bd.params@[k],
                    ) && self.dfg.values@[bd.params@[k].0 as int].def == ValueDef::Param(
                        Block(b2 as usize),
                        k as usize,
                    ) by {
                        assert(bd.params@[k].0 == v0 + k);
                        assert(self.dfg.values@[v0 + k] == (ValueData {
                            def: ValueDef::Param(b, k as usize),
                            ty: orig[k],
                        }));
                    }
                }
            }
            assert forall|i: int| 0 <= i < self.dfg.insts@.len() implies self.dfg.inst_wf(i) by {
                assert(old(self).dfg.inst_wf(i));
                lemma_data_wf_monotone(old(self).dfg, self.dfg, self.dfg.insts@[i].data);
            }
            assert forall|v: int| 0 <= v < self.dfg.values@.len() implies self.dfg.value_wf(v) by {
                if v < v0 {
                    assert(old(self).dfg.value_wf(v));
                } else {
                    let k = v - v0;
                    assert(self.dfg.values@[v] == (ValueData {
                        def: ValueDef::Param(b, k as usize),
                        ty: orig[k],
                    }));
                    assert(self.dfg.blocks@[b.0 as int].params@[k].0 == v0 + k);
                }
            }
            assert(self.dfg.insts_placed_once()) by {
                assert(old(self).dfg.insts_placed_once());
            }
        }
        b
    }

    /// Moves the builder's insertion point to the given block.
    pub fn switch_to_block(&mut self, block: Block)
        requires
            old(self).dfg.wf(),
            old(self).dfg.valid_block(block),
        ensures
            final(self).dfg == old(self).dfg,
            final(self).position == block,
    {
        self.position = block;
    }

    /// Appends one instruction with the given payload and type to the
    /// current block, creating its result values: none for a
    /// terminator or a valueless type, the two-value return pair for a
    /// call, and one value of the given type otherwise.
    #[verifier::loop_isolation(false)]
    pub fn build(&mut self, data: InstData, ty: Type, span: SourceSpan) -> (inst: Inst)
        requires
            old(self).ready(),
            old(self).dfg.data_wf(data),
        ensures
            final(self).dfg.wf(),
            final(self).grows_from(*old(self)),
            final(self).appended_inst(*old(self), data, span),
            final(self).dfg.valid_inst(inst),
            inst.0 == old(self).dfg.insts@.len(),
            !data.is_terminator_spec() ==> final(self).ready(),
            final(self).dfg.constants@ == old(self).dfg.constants@,
            if call_like(data) {
                &&& final(self).dfg.values@.len() == old(self).dfg.values@.len() + 2
                &&& final(self).dfg.insts@[inst.0 as int].results@ == seq![
                    Value(old(self).dfg.values@.len() as usize),
                    Value((old(self).dfg.values@.len() + 1) as usize),
                ]
                &&& final(self).dfg.value_ty(Value(old(self).dfg.values@.len() as usize))
                    == Type::Primitive(PrimitiveType::I1)
                &&& final(self).dfg.value_ty(Value((old(self).dfg.values@.len() + 1) as usize))
                    == Type::Term(TermType::Any)
            } else if data.is_terminator_spec() || ty == Type::Invalid {
                &&& final(self).no_result(*old(self))
                &&& final(self).dfg.insts@[inst.0 as int].results@.len() == 0
            } else {
                &&& final(self).one_result(*old(self), Value(old(self).dfg.values@.len() as usize), ty)
                &&& final(self).dfg.insts@[inst.0 as int].results@ == seq![
                    Value(old(self).dfg.values@.len() as usize),
                ]
            },
    {
        let inst = Inst(self.dfg.insts.len());
        let is_term = data.is_terminator();
        let is_call = match &data {
            InstData::Call(d) => matches!(d.op, Opcode::Call),
            InstData::CallIndirect(d) => matches!(d.op, Opcode::CallIndirect),
            _ => false,
        };
        let mut results: Vec<Value> = Vec::new();
        if is_call {
            let v0 = Value(self.dfg.values.len());
            self.dfg.values.push(
                ValueData {
                    def: ValueDef::Result(inst, 0),
                    ty: Type::Primitive(PrimitiveType::I1),
                },
            );
            let v1 = Value(self.dfg.values.len());
            self.dfg.values.push(
                ValueData { def: ValueDef::Result(inst, 1), ty: Type::Term(TermType::Any) },
            );
            results.push(v0);
            results.push(v1);
        } else if !is_term && !matches!(ty, Type::Invalid) {
            let v0 = Value(self.dfg.values.len());
            self.dfg.values.push(ValueData { def: ValueDef::Result(inst, 0), ty });
            results.push(v0);
        }
        self.dfg.insts.push(InstNode { data, span, results });
        let p = self.position.0;
        let bd = &mut self.dfg.blocks[p];
        bd.insts.push(inst);
        if is_term {
            bd.filled = true;
        }

        proof {
            let p_int = p as int;
            let ni = old(self).dfg.insts@.len() as int;
            assert(self.dfg.blocks@[p_int].insts@ == old(self).dfg.blocks@[p_int].insts@.push(
                inst,
            ));
            assert forall|b2: int| 0 <= b2 < self.dfg.blocks@.len() implies self.dfg.block_wf(
                b2,
            ) by {
                assert(old(self).dfg.block_wf(b2));
                if b2 != p_int {
                    assert(self.dfg.blocks@[b2] == old(self).dfg.blocks@[b2]);
                }
            }
            assert forall|i: int| 0 <= i < self.dfg.insts@.len() implies self.dfg.inst_wf(i) by {
                if i < ni {
                    assert(old(self).dfg.inst_wf(i));
                    lemma_data_wf_monotone(old(self).dfg, self.dfg, self.dfg.insts@[i].data);
                } else {
                    lemma_data_wf_monotone(old(self).dfg, self.dfg, data);
                }
            }
            assert forall|v: int| 0 <= v < self.dfg.values@.len() implies self.dfg.value_wf(v) by {
                if v < old(self).dfg.values@.len() {
                    assert(old(self).dfg.value_wf(v));
                }
            }
            assert(self.dfg.insts_placed_once()) by {
                assert(old(self).dfg.insts_placed_once());
                assert forall|b2: int, j2: int|
                    0 <= b2 < old(self).dfg.blocks@.len() && 0 <= j2
                        < old(self).dfg.blocks@[b2].insts@.len() implies old(
                    self,
                ).dfg.blocks@[b2].insts@[j2].0 < ni by {
                    assert(old(self).dfg.block_wf(b2));
                }
            }
        }
        inst
    }
}

} // verus!
