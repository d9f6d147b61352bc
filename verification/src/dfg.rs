use vstd::prelude::*;
use crate::constant::{const_eq, const_eq_spec, lemma_const_eq_reflexive, Constant, ConstantItem};
use crate::insts::{Block, Inst, InstData, Value};
use crate::span::SourceSpan;
use crate::types::Type;

verus! {

broadcast use vstd::std_specs::vec::group_vec_axioms, vstd::seq::group_seq_axioms;

/// Where an SSA value is defined: as the `k`-th parameter of a block
/// or as the `k`-th result of an instruction.
#[derive(Clone, Copy, Debug, PartialEq, Eq, Structural)]
pub enum ValueDef {
    Param(Block, usize),
    Result(Inst, usize),
}

/// An SSA value: its definition site and its type.
#[derive(Debug, PartialEq, Eq)]
pub struct ValueData {
    pub def: ValueDef,
    pub ty: Type,
}

/// A basic block: its parameter values, its instructions in order,
/// and whether it has been closed by a terminator.
#[derive(Debug, PartialEq, Eq)]
pub struct BlockData {
    pub params: Vec<Value>,
    pub insts: Vec<Inst>,
    pub filled: bool,
}

/// An instruction node: its payload, its source span, and the values
/// it produces.
#[derive(Debug, PartialEq, Eq)]
pub struct InstNode {
    pub data: InstData,
    pub span: SourceSpan,
    pub results: Vec<Value>,
}

/// The per-function arena holding the four interlinked tables of the
/// SSA graph: blocks in layout order, instructions, values, and the
/// pool of interned constants. All cross references are dense integer
/// handles into these tables.
#[derive(Debug, PartialEq, Eq)]
pub struct DataFlowGraph {
    pub blocks: Vec<BlockData>,
    pub insts: Vec<InstNode>,
    pub values: Vec<ValueData>,
    pub constants: Vec<ConstantItem>,
}

impl DataFlowGraph {
    /// The value handle is within bounds.
    pub open spec fn valid_value(&self, v: Value) -> bool {
        v.0 < self.values@.len()
    }

    /// Every value handle in the sequence is within bounds.
    pub open spec fn valid_values(&self, args: Seq<Value>) -> bool {
        forall|i: int| 0 <= i < args.len() ==> self.valid_value(args[i])
    }

    /// The block handle is within bounds.
    pub open spec fn valid_block(&self, b: Block) -> bool {
        b.0 < self.blocks@.len()
    }

    /// The constant handle is within bounds.
    pub open spec fn valid_constant(&self, c: Constant) -> bool {
        c.0 < self.constants@.len()
    }

    /// The instruction handle is within bounds.
    pub open spec fn valid_inst(&self, i: Inst) -> bool {
        i.0 < self.insts@.len()
    }

    /// The type of a value.
    pub open spec fn value_ty(&self, v: Value) -> Type {
        self.values@[v.0 as int].ty
    }

    /// The block `b` can be branched to with `argc` arguments.
    pub open spec fn branch_target_ok(&self, b: Block, argc: int) -> bool {
        self.valid_block(b) && self.blocks@[b.0 as int].params@.len() == argc
    }

    /// The keys of a switch table are pairwise distinct.
    pub open spec fn switch_keys_unique(&self, arms: Seq<(u32, Block)>) -> bool {
        forall|i: int, j: int| 0 <= i < j < arms.len() ==> arms[i].0 != arms[j].0
    }

    /// Every operand, destination and constant an instruction payload
    /// mentions is within bounds, and every branch carries exactly as
    /// many arguments as its destination has parameters.
    pub open spec fn data_wf(&self, data: InstData) -> bool {
        match data {
            InstData::UnaryOp(d) => self.valid_value(d.arg),
            InstData::UnaryOpImm(_) => true,
            InstData::UnaryOpConst(d) => self.valid_constant(d.imm),
            InstData::BinaryOp(d) => self.valid_value(d.args.0) && self.valid_value(d.args.1),
            InstData::BinaryOpImm(d) => self.valid_value(d.arg),
            InstData::BinaryOpConst(d) => self.valid_value(d.arg) && self.valid_constant(d.imm),
            InstData::Ret(d) => self.valid_value(d.args.0) && self.valid_value(d.args.1),
            InstData::RetImm(d) => self.valid_value(d.arg),
            InstData::Br(d) => {
                &&& self.valid_values(d.args@)
                &&& if d.op == crate::insts::Opcode::Br {
                    self.branch_target_ok(d.destination, d.args@.len() as int)
                } else {
                    d.args@.len() >= 1 && self.branch_target_ok(
                        d.destination,
                        d.args@.len() - 1,
                    )
                }
            },
            InstData::CondBr(d) => {
                &&& self.valid_value(d.cond)
                &&& self.valid_values(d.then_dest.1@)
                &&& self.branch_target_ok(d.then_dest.0, d.then_dest.1@.len() as int)
                &&& self.valid_values(d.else_dest.1@)
                &&& self.branch_target_ok(d.else_dest.0, d.else_dest.1@.len() as int)
            },
            InstData::Switch(d) => {
                &&& self.valid_value(d.arg)
                &&& self.branch_target_ok(d.default, 0)
                &&& forall|i: int|
                    0 <= i < d.arms@.len() ==> self.branch_target_ok(d.arms@[i].1, 0)
                &&& self.switch_keys_unique(d.arms@)
            },
            InstData::IsType(d) => self.valid_value(d.arg),
            InstData::Call(d) => self.valid_values(d.args@),
            InstData::CallIndirect(d) => self.valid_value(d.callee) && self.valid_values(d.args@),
            InstData::PrimOp(d) => self.valid_values(d.args@),
            InstData::PrimOpImm(d) => self.valid_values(d.args@),
            InstData::MakeFun(d) => self.valid_values(d.env@),
            InstData::SetElement(d) => self.valid_value(d.args.0) && self.valid_value(d.args.1),
            InstData::SetElementImm(d) => self.valid_value(d.arg),
            InstData::SetElementConst(d) => self.valid_value(d.arg) && self.valid_constant(
                d.value,
            ),
            InstData::BitsMatch(d) => self.valid_values(d.args@),
            InstData::BitsMatchSkip(d) => self.valid_values(d.args@),
            InstData::BitsPush(d) => self.valid_values(d.args@),
        }
    }

    /// The block's tables are internally consistent: parameters point
    /// back at the block, instruction handles are in bounds, and a
    /// terminator stands exactly at the end of a filled block.
    pub open spec fn block_wf(&self, b: int) -> bool {
        let bd = self.blocks@[b];
        &&& forall|k: int| #![auto]
            0 <= k < bd.params@.len() ==> self.valid_value(bd.params@[k])
                && self.values@[bd.params@[k].0 as int].def == ValueDef::Param(Block(b as usize), k as usize)
        &&& forall|j: int| #![auto] 0 <= j < bd.insts@.len() ==> self.valid_inst(bd.insts@[j])
        &&& forall|j: int| #![auto]
            0 <= j < bd.insts@.len() - 1 ==> !self.insts@[bd.insts@[j].0 as int].data.is_terminator_spec()
        &&& bd.filled ==> bd.insts@.len() > 0 && self.insts@[bd.insts@[bd.insts@.len() - 1].0 as int].data.is_terminator_spec()
        &&& !bd.filled ==> forall|j: int| #![auto]
            0 <= j < bd.insts@.len() ==> !self.insts@[bd.insts@[j].0 as int].data.is_terminator_spec()
    }

    /// The instruction's result values point back at it, and its
    /// payload is well formed.
    pub open spec fn inst_wf(&self, i: int) -> bool {
        let nd = self.insts@[i];
        &&& forall|k: int| #![auto]
            0 <= k < nd.results@.len() ==> self.valid_value(nd.results@[k])
                && self.values@[nd.results@[k].0 as int].def == ValueDef::Result(Inst(i as usize), k as usize)
        &&& self.data_wf(nd.data)
    }

    /// The value's recorded definition site exists and lists the value
    /// at the recorded position.
    pub open spec fn value_wf(&self, v: int) -> bool {
        match self.values@[v].def {
            ValueDef::Param(b, k) => {
                &&& self.valid_block(b)
                &&& k < self.blocks@[b.0 as int].params@.len()
                &&& self.blocks@[b.0 as int].params@[k as int] == Value(v as usize)
            },
            ValueDef::Result(i, k) => {
                &&& self.valid_inst(i)
                &&& k < self.insts@[i.0 as int].results@.len()
                &&& self.insts@[i.0 as int].results@[k as int] == Value(v as usize)
            },
        }
    }

    /// No instruction appears in two places of the block layout.
    pub open spec fn insts_placed_once(&self) -> bool {
        forall|b1: int, j1: int, b2: int, j2: int|
            0 <= b1 < self.blocks@.len() && 0 <= j1 < self.blocks@[b1].insts@.len() && 0 <= b2
                < self.blocks@.len() && 0 <= j2 < self.blocks@[b2].insts@.len()
                && self.blocks@[b1].insts@[j1] == self.blocks@[b2].insts@[j2] ==> b1 == b2 && j1
                == j2
    }

    /// No two pool entries are structurally equal: constants are
    /// uniquely indexed once interned.
    pub open spec fn pool_unique(&self) -> bool {
        forall|i: int, j: int|
            0 <= i < j < self.constants@.len() ==> !const_eq_spec(
                self.constants@[i],
                self.constants@[j],
            )
    }

    /// Well-formedness of the whole graph.
    pub open spec fn wf(&self) -> bool {
        &&& forall|b: int| 0 <= b < self.blocks@.len() ==> self.block_wf(b)
        &&& forall|i: int| 0 <= i < self.insts@.len() ==> self.inst_wf(i)
        &&& forall|v: int| 0 <= v < self.values@.len() ==> self.value_wf(v)
        &&& self.insts_placed_once()
        &&& self.pool_unique()
    }

    /// Creates an empty graph.
    pub fn new() -> (d: DataFlowGraph)
        ensures
            d.wf(),
            d.blocks@.len() == 0,
            d.insts@.len() == 0,
            d.values@.len() == 0,
            d.constants@.len() == 0,
    {
        DataFlowGraph { blocks: Vec::new(), insts: Vec::new(), values: Vec::new(), constants: Vec::new() }
    }

    /// The type of a value.
    pub fn value_type(&self, v: Value) -> (r: &Type)
        requires
            self.valid_value(v),
        ensures
            *r == self.value_ty(v),
    {
        &self.values[v.0].ty
    }

    /// The interned item a constant handle refers to.
    pub fn constant(&self, c: Constant) -> (r: &ConstantItem)
        requires
            self.valid_constant(c),
        ensures
            *r == self.constants@[c.0 as int],
    {
        &self.constants[c.0]
    }

    /// The number of parameters of a block.
    pub fn num_block_params(&self, b: Block) -> (n: usize)
        requires
            self.valid_block(b),
        ensures
            n == self.blocks@[b.0 as int].params@.len(),
    {
        self.blocks[b.0].params.len()
    }

    /// The `i`-th parameter value of a block.
    pub fn block_param(&self, b: Block, i: usize) -> (r: Value)
        requires
            self.valid_block(b),
            i < self.blocks@[b.0 as int].params@.len(),
        ensures
            r == self.blocks@[b.0 as int].params@[i as int],
    {
        self.blocks[b.0].params[i]
    }

    /// The first result of an instruction.
    pub fn first_result(&self, inst: Inst) -> (r: Value)
        requires
            self.valid_inst(inst),
            self.insts@[inst.0 as int].results@.len() > 0,
        ensures
            r == self.insts@[inst.0 as int].results@[0],
    {
        self.insts[inst.0].results[0]
    }
}

/// The set of pool indices already holding an item structurally equal
/// to `c`.
pub open spec fn pool_has(pool: Seq<ConstantItem>, c: ConstantItem) -> bool {
    exists|j: int| 0 <= j < pool.len() && const_eq_spec(pool[j], c)
}

/// What interning guarantees: the pool is unchanged when a
/// structurally equal item was already present and extended by the
/// item otherwise, and the returned handle is the first structurally
/// equal entry of the resulting pool.
pub open spec fn intern_post(
    old_pool: Seq<ConstantItem>,
    c: ConstantItem,
    new_pool: Seq<ConstantItem>,
    h: int,
) -> bool {
    &&& if pool_has(old_pool, c) {
        new_pool == old_pool
    } else {
        new_pool == old_pool.push(c)
    }
    &&& 0 <= h < new_pool.len()
    &&& const_eq_spec(new_pool[h], c)
    &&& forall|k: int| 0 <= k < h ==> !const_eq_spec(new_pool[k], c)
}

impl DataFlowGraph {
    /// Interns a literal item into the constant pool, deduplicating by
    /// structural equality, and returns its handle.
    #[verifier::loop_isolation(false)]
    pub fn make_constant(&mut self, c: ConstantItem) -> (r: Constant)
        requires
            old(self).wf(),
        ensures
            final(self).wf(),
            final(self).blocks@ == old(self).blocks@,
            final(self).insts@ == old(self).insts@,
            final(self).values@ == old(self).values@,
            intern_post(old(self).constants@, c, final(self).constants@, r.0 as int),
    {
        let n = self.constants.len();
        let mut i: usize = 0;
        while i < n
            invariant
                i <= n,
                forall|k: int| 0 <= k < i ==> !const_eq_spec(self.constants@[k], c),
            decreases n - i,
        {
            if const_eq(&self.constants[i], &c) {
                return Constant(i);
            }
            i += 1;
        }
        proof {
            lemma_const_eq_reflexive(c);
        }
        let h = self.constants.len();
        self.constants.push(c);
        proof {
            assert forall|b: int| 0 <= b < self.blocks@.len() implies self.block_wf(b) by {
                assert(old(self).block_wf(b));
            }
            assert forall|i2: int| 0 <= i2 < self.insts@.len() implies self.inst_wf(i2) by {
                assert(old(self).inst_wf(i2));
            }
            assert forall|v: int| 0 <= v < self.values@.len() implies self.value_wf(v) by {
                assert(old(self).value_wf(v));
            }
            assert(self.insts_placed_once()) by {
                assert(old(self).insts_placed_once());
            }
            assert forall|i2: int, j2: int| 0 <= i2 < j2 < self.constants@.len() implies
                !const_eq_spec(self.constants@[i2], self.constants@[j2]) by {
                if j2 < h {
                    assert(old(self).pool_unique());
                } else {
                    assert(self.constants@[j2] == c);
                }
            }
        }
        Constant(h)
    }
}

/// Interning is idempotent: interning an item into a pool that just
/// had the same item interned changes nothing and yields the same
/// handle.
pub proof fn lemma_intern_idempotent(
    p0: Seq<ConstantItem>,
    c: ConstantItem,
    p1: Seq<ConstantItem>,
    h1: int,
    p2: Seq<ConstantItem>,
    h2: int,
)
    requires
        intern_post(p0, c, p1, h1),
        intern_post(p1, c, p2, h2),
    ensures
        p2 == p1,
        h2 == h1,
{
    assert(pool_has(p1, c)) by {
        assert(0 <= h1 < p1.len() && const_eq_spec(p1[h1], c));
    }
    assert(p2 == p1);
    if h2 < h1 {
        assert(!const_eq_spec(p1[h2], c));
        assert(false);
    }
    if h1 < h2 {
        assert(!const_eq_spec(p2[h1], c));
        assert(false);
    }
}

} // verus!
