use vstd::prelude::*;
use crate::cir::{cir_eq_spec, CirType, FuncSymbol};
use crate::span::Symbol;

verus! {

broadcast use vstd::std_specs::vec::group_vec_axioms, vstd::seq::group_seq_axioms;

/// Handle of a typed value within one dialect function.
#[derive(Clone, Copy, Debug, PartialEq, Eq, Structural)]
pub struct TxValue(pub usize);

/// A dialect operation. Branch destinations are indices of the
/// function's block table; a `Cast` and a `Null` are typed by their
/// result value.
#[derive(Debug, PartialEq, Eq)]
pub enum TxOp {
    ConstBool(bool),
    ConstAtom(Symbol),
    ConstIsize(i64),
    ConstFloat(u64),
    ConstNil,
    ConstNone,
    Null,
    IsNullOp(TxValue),
    HeadOp(TxValue),
    TailOp(TxValue),
    NotOp(TxValue),
    AndOp(TxValue, TxValue),
    AndAlsoOp(TxValue, TxValue),
    OrOp(TxValue, TxValue),
    OrElseOp(TxValue, TxValue),
    XorOp(TxValue, TxValue),
    ConsOp(TxValue, TxValue),
    GetElementOp(TxValue, TxValue),
    IsTaggedTupleOp(TxValue, Symbol),
    TupleOp(usize),
    CallOp(FuncSymbol, Vec<TxValue>),
    CallIndirectOp(TxValue, Vec<TxValue>),
    CastOp(TxValue),
    IsTypeOp(TxValue, CirType),
    SetElementOp(TxValue, TxValue, TxValue),
    BranchOp(usize, Vec<TxValue>),
    CondBranchOp(TxValue, usize, Vec<TxValue>, usize, Vec<TxValue>),
    ReturnOp(Vec<TxValue>),
    RaiseOp(TxValue, TxValue, TxValue),
    StacktraceOp,
    ExceptionClassOp(TxValue),
    ExceptionReasonOp(TxValue),
    ExceptionTraceOp(TxValue),
    RecvStartOp(TxValue),
    RecvNextOp(TxValue),
    RecvPopOp(TxValue),
    YieldOp,
}

impl TxOp {
    /// Whether the operation ends its block.
    pub open spec fn is_terminator_spec(&self) -> bool {
        match self {
            TxOp::BranchOp(_, _) => true,
            TxOp::CondBranchOp(_, _, _, _, _) => true,
            TxOp::ReturnOp(_) => true,
            TxOp::RaiseOp(_, _, _) => true,
            _ => false,
        }
    }

    #[verifier::when_used_as_spec(is_terminator_spec)]
    pub fn is_terminator(&self) -> (r: bool)
        ensures
            r == self.is_terminator_spec(),
    {
        match self {
            TxOp::BranchOp(_, _) => true,
            TxOp::CondBranchOp(_, _, _, _, _) => true,
            TxOp::ReturnOp(_) => true,
            TxOp::RaiseOp(_, _, _) => true,
            _ => false,
        }
    }
}

/// One emitted operation together with the values it produces.
#[derive(Debug, PartialEq, Eq)]
pub struct TxOpNode {
    pub op: TxOp,
    pub results: Vec<TxValue>,
}

/// A dialect block: its parameter values and its operations in order.
#[derive(Debug, PartialEq, Eq)]
pub struct TxBlockData {
    pub params: Vec<TxValue>,
    pub ops: Vec<TxOpNode>,
    pub filled: bool,
}

/// A function of the typed dialect: its symbol, its result types, the
/// arena of typed values, and its blocks in creation order.
#[derive(Debug, PartialEq, Eq)]
pub struct TxFunction {
    pub symbol: FuncSymbol,
    pub result_tys: Vec<CirType>,
    pub values: Vec<CirType>,
    pub blocks: Vec<TxBlockData>,
}

impl TxFunction {
    /// The value handle is within bounds.
    pub open spec fn valid_value(&self, v: TxValue) -> bool {
        v.0 < self.values@.len()
    }

    /// Every value handle of the sequence is within bounds.
    pub open spec fn valid_values(&self, args: Seq<TxValue>) -> bool {
        forall|i: int| 0 <= i < args.len() ==> self.valid_value(args[i])
    }

    /// The type of a value.
    pub open spec fn value_ty(&self, v: TxValue) -> CirType {
        self.values@[v.0 as int]
    }

    /// Branch arguments agree with the destination's parameters: same
    /// count, and each argument's type is structurally equal to the
    /// corresponding parameter's type.
    pub open spec fn branch_args_ok(&self, dest: int, args: Seq<TxValue>) -> bool {
        &&& 0 <= dest < self.blocks@.len()
        &&& args.len() == self.blocks@[dest].params@.len()
        &&& forall|k: int| #![auto]
            0 <= k < args.len() ==> cir_eq_spec(
                self.value_ty(args[k]),
                self.value_ty(self.blocks@[dest].params@[k]),
            )
    }

    /// Operand validity and branch agreement for one operation.
    pub open spec fn op_wf(&self, op: TxOp) -> bool {
        match op {
            TxOp::ConstBool(_) => true,
            TxOp::ConstAtom(_) => true,
            TxOp::ConstIsize(_) => true,
            TxOp::ConstFloat(_) => true,
            TxOp::ConstNil => true,
            TxOp::ConstNone => true,
            TxOp::Null => true,
            TxOp::IsNullOp(a) => self.valid_value(a),
            TxOp::HeadOp(a) => self.valid_value(a),
            TxOp::TailOp(a) => self.valid_value(a),
            TxOp::NotOp(a) => self.valid_value(a),
            TxOp::AndOp(a, b) => self.valid_value(a) && self.valid_value(b),
            TxOp::AndAlsoOp(a, b) => self.valid_value(a) && self.valid_value(b),
            TxOp::OrOp(a, b) => self.valid_value(a) && self.valid_value(b),
            TxOp::OrElseOp(a, b) => self.valid_value(a) && self.valid_value(b),
            TxOp::XorOp(a, b) => self.valid_value(a) && self.valid_value(b),
            TxOp::ConsOp(a, b) => self.valid_value(a) && self.valid_value(b),
            TxOp::GetElementOp(a, b) => self.valid_value(a) && self.valid_value(b),
            TxOp::IsTaggedTupleOp(a, _) => self.valid_value(a),
            TxOp::TupleOp(_) => true,
            TxOp::CallOp(_, args) => self.valid_values(args@),
            TxOp::CallIndirectOp(c, args) => self.valid_value(c) && self.valid_values(args@),
            TxOp::CastOp(a) => self.valid_value(a),
            TxOp::IsTypeOp(a, _) => self.valid_value(a),
            TxOp::SetElementOp(a, b, c) => self.valid_value(a) && self.valid_value(b)
                && self.valid_value(c),
            TxOp::BranchOp(dest, args) => self.valid_values(args@) && self.branch_args_ok(
                dest as int,
                args@,
            ),
            TxOp::CondBranchOp(cond, td, ta, ed, ea) => {
                &&& self.valid_value(cond)
                &&& self.valid_values(ta@)
                &&& self.valid_values(ea@)
                &&& self.branch_args_ok(td as int, ta@)
                &&& self.branch_args_ok(ed as int, ea@)
            },
            TxOp::ReturnOp(args) => {
                &&& self.valid_values(args@)
                &&& args@.len() == self.result_tys@.len()
                &&& forall|k: int| #![auto]
                    0 <= k < args@.len() ==> cir_eq_spec(
                        self.value_ty(args@[k]),
                        self.result_tys@[k],
                    )
            },
            TxOp::RaiseOp(a, b, c) => self.valid_value(a) && self.valid_value(b)
                && self.valid_value(c),
            TxOp::StacktraceOp => true,
            TxOp::ExceptionClassOp(a) => self.valid_value(a),
            TxOp::ExceptionReasonOp(a) => self.valid_value(a),
            TxOp::ExceptionTraceOp(a) => self.valid_value(a),
            TxOp::RecvStartOp(a) => self.valid_value(a),
            TxOp::RecvNextOp(a) => self.valid_value(a),
            TxOp::RecvPopOp(a) => self.valid_value(a),
            TxOp::YieldOp => true,
        }
    }

    /// Block consistency: parameters and results are valid handles, a
    /// terminator stands exactly at the end of a filled block, and
    /// every operation is well formed.
    pub open spec fn block_wf(&self, b: int) -> bool {
        let bd = self.blocks@[b];
        &&& forall|k: int| #![auto] 0 <= k < bd.params@.len() ==> self.valid_value(bd.params@[k])
        &&& forall|j: int, k: int| #![auto]
            0 <= j < bd.ops@.len() && 0 <= k < bd.ops@[j].results@.len() ==> self.valid_value(
                bd.ops@[j].results@[k],
            )
        &&& forall|j: int| #![auto] 0 <= j < bd.ops@.len() ==> self.op_wf(bd.ops@[j].op)
        &&& forall|j: int| #![auto]
            0 <= j < bd.ops@.len() - 1 ==> !bd.ops@[j].op.is_terminator_spec()
        &&& bd.filled ==> bd.ops@.len() > 0 && bd.ops@[bd.ops@.len() - 1].op.is_terminator_spec()
        &&& !bd.filled ==> forall|j: int| #![auto]
            0 <= j < bd.ops@.len() ==> !bd.ops@[j].op.is_terminator_spec()
    }

    /// Well-formedness of the whole function.
    pub open spec fn wf(&self) -> bool {
        forall|b: int| 0 <= b < self.blocks@.len() ==> self.block_wf(b)
    }

    /// All blocks have been closed by a terminator.
    pub open spec fn is_complete(&self) -> bool {
        forall|b: int| 0 <= b < self.blocks@.len() ==> self.blocks@[b].filled
    }
}

/// Each block of a completed well-formed dialect function ends with
/// exactly one terminator, and every branch in it agrees with its
/// destination's parameters in count and (after cast insertion) in
/// type, exactly.
pub proof fn lemma_tx_structure(f: TxFunction, b: int)
    requires
        f.wf(),
        f.is_complete(),
        0 <= b < f.blocks@.len(),
    ensures
        f.blocks@[b].ops@.len() > 0,
        f.blocks@[b].ops@[f.blocks@[b].ops@.len() - 1].op.is_terminator_spec(),
        forall|j: int| #![auto]
            0 <= j < f.blocks@[b].ops@.len() - 1 ==> !f.blocks@[b].ops@[j].op.is_terminator_spec(),
        forall|j: int| #![auto] 0 <= j < f.blocks@[b].ops@.len() ==> f.op_wf(f.blocks@[b].ops@[j].op),
{
    assert(f.block_wf(b));
}

/// Builds one dialect function by appending operations to a current
/// block, maintaining the dialect's structural invariants.
#[derive(Debug)]
pub struct TxBuilder {
    pub f: TxFunction,
    pub position: usize,
}

impl TxBuilder {
    /// The builder can append to its current block.
    pub open spec fn ready(&self) -> bool {
        &&& self.f.wf()
        &&& (self.position as int) < self.f.blocks@.len()
        &&& !self.f.blocks@[self.position as int].filled
    }

    /// The function is well formed and the position valid.
    pub open spec fn positioned(&self) -> bool {
        &&& self.f.wf()
        &&& (self.position as int) < self.f.blocks@.len()
    }

    /// The function has only grown from `prev`.
    pub open spec fn grows_from(&self, prev: TxBuilder) -> bool {
        &&& self.f.symbol == prev.f.symbol
        &&& self.f.result_tys@ == prev.f.result_tys@
        &&& self.f.blocks@.len() >= prev.f.blocks@.len()
        &&& forall|b: int| #![auto]
            0 <= b < prev.f.blocks@.len() ==> self.f.blocks@[b].params@
                == prev.f.blocks@[b].params@
        &&& self.f.values@.len() >= prev.f.values@.len()
        &&& forall|v: int| #![auto]
            0 <= v < prev.f.values@.len() ==> self.f.values@[v] == prev.f.values@[v]
    }

    /// Creates a builder for a function with the given symbol and
    /// result types and no blocks yet.
    pub fn new(symbol: FuncSymbol, result_tys: Vec<CirType>) -> (tb: TxBuilder)
        ensures
            tb.f.wf(),
            tb.f.symbol == symbol,
            tb.f.result_tys@ == result_tys@,
            tb.f.blocks@.len() == 0,
            tb.f.values@.len() == 0,
            tb.position == 0,
    {
        TxBuilder {
            f: TxFunction { symbol, result_tys, values: Vec::new(), blocks: Vec::new() },
            position: 0,
        }
    }

    /// Appends a new block with one parameter value per given type, in
    /// order, and returns its index.
    #[verifier::loop_isolation(false)]
    pub fn create_block(&mut self, param_tys: Vec<CirType>) -> (b: usize)
        requires
            old(self).f.wf(),
        ensures
            final(self).f.wf(),
            final(self).position == old(self).position,
            final(self).grows_from(*old(self)),
            b == old(self).f.blocks@.len(),
            final(self).f.blocks@.len() == old(self).f.blocks@.len() + 1,
            forall|b2: int| #![auto]
                0 <= b2 < old(self).f.blocks@.len() ==> final(self).f.blocks@[b2]
                    == old(self).f.blocks@[b2],
            final(self).f.values@.len() == old(self).f.values@.len() + param_tys@.len(),
            final(self).f.blocks@[b as int].ops@.len() == 0,
            !final(self).f.blocks@[b as int].filled,
            final(self).f.blocks@[b as int].params@.len() == param_tys@.len(),
            forall|k: int| #![auto]
                0 <= k < param_tys@.len() ==> final(self).f.blocks@[b as int].params@[k].0
                    == old(self).f.values@.len() + k,
            forall|k: int| #![auto]
                0 <= k < param_tys@.len() ==> final(self).f.value_ty(
                    final(self).f.blocks@[b as int].params@[k],
                ) == param_tys@[k],
    {
        let ghost orig = param_tys@;
        let mut tys = param_tys;
        let b = self.f.blocks.len();
        let v0 = self.f.values.len();
        let mut rev: Vec<CirType> = Vec::new();
        while tys.len() > 0
            invariant
                rev@.len() + tys@.len() == orig.len(),
                tys@ == orig.subrange(0, tys@.len() as int),
                forall|i: int| #![auto]
                    0 <= i < rev@.len() ==> rev@[i] == orig[orig.len() - 1 - i],
            decreases tys@.len(),
        {
            let t = match tys.pop() {
                Some(t) => t,
                None => vstd::pervasive::unreached(),
            };
            rev.push(t);
        }
        let mut params: Vec<TxValue> = Vec::new();
        while rev.len() > 0
            invariant
                params@.len() + rev@.len() == orig.len(),
                forall|i: int| #![auto]
                    0 <= i < rev@.len() ==> rev@[i] == orig[orig.len() - 1 - i],
                self.position == old(self).position,
                self.f.symbol == old(self).f.symbol,
                self.f.result_tys@ == old(self).f.result_tys@,
                self.f.values@.len() == v0 + params@.len(),
                self.f.blocks@ == old(self).f.blocks@,
                forall|v: int| #![auto]
                    0 <= v < v0 ==> self.f.values@[v] == old(self).f.values@[v],
                forall|k: int| #![auto] 0 <= k < params@.len() ==> params@[k].0 == v0 + k,
                forall|k: int| #![auto]
                    0 <= k < params@.len() ==> self.f.values@[v0 + k] == orig[k],
            decreases rev@.len(),
        {
            let t = match rev.pop() {
                Some(t) => t,
                None => vstd::pervasive::unreached(),
            };
            let v = TxValue(self.f.values.len());
            self.f.values.push(t);
            params.push(v);
        }
        self.f.blocks.push(TxBlockData { params, ops: Vec::new(), filled: false });
        proof {
            assert forall|b2: int| 0 <= b2 < self.f.blocks@.len() implies self.f.block_wf(b2) by {
                if b2 < b {
                    assert(old(self).f.block_wf(b2));
                    lemma_tx_block_wf_monotone(old(self).f, self.f, b2);
                }
            }
        }
        b
    }

    /// Moves the builder's insertion point to the given block.
    pub fn switch_to_block(&mut self, block: usize)
        requires
            old(self).f.wf(),
            (block as int) < old(self).f.blocks@.len(),
        ensures
            final(self).f == old(self).f,
            final(self).position == block,
    {
        self.position = block;
    }

    /// Exactly the operation `op` was appended to the current block,
    /// producing one result value per type of `rtys`, numbered from
    /// `r0`; all other blocks are untouched.
    pub open spec fn appended_op(
        &self,
        prev: TxBuilder,
        op: TxOp,
        rtys: Seq<CirType>,
        r0: int,
    ) -> bool {
        let p = prev.position as int;
        let no = prev.f.blocks@[p].ops@.len() as int;
        &&& self.position == prev.position
        &&& self.f.blocks@.len() == prev.f.blocks@.len()
        &&& forall|b2: int| #![auto]
            0 <= b2 < prev.f.blocks@.len() && b2 != p ==> self.f.blocks@[b2]
                == prev.f.blocks@[b2]
        &&& self.f.values@.len() == prev.f.values@.len() + rtys.len()
        &&& r0 == prev.f.values@.len()
        &&& forall|k: int| #![auto] 0 <= k < rtys.len() ==> self.f.values@[r0 + k] == rtys[k]
        &&& self.f.blocks@[p].ops@.len() == no + 1
        &&& forall|j: int| #![auto]
            0 <= j < no ==> self.f.blocks@[p].ops@[j] == prev.f.blocks@[p].ops@[j]
        &&& self.f.blocks@[p].ops@[no].op == op
        &&& self.f.blocks@[p].ops@[no].results@.len() == rtys.len()
        &&& forall|k: int| #![auto]
            0 <= k < rtys.len() ==> self.f.blocks@[p].ops@[no].results@[k].0 == r0 + k
        &&& self.f.blocks@[p].params@ == prev.f.blocks@[p].params@
        &&& self.f.blocks@[p].filled == op.is_terminator_spec()
    }

    /// Appends one operation to the current block, creating one result
    /// value per given type.
    #[verifier::loop_isolation(false)]
    pub fn push_op(&mut self, op: TxOp, result_tys: Vec<CirType>) -> (r0: usize)
        requires
            old(self).ready(),
            old(self).f.op_wf(op),
        ensures
            final(self).grows_from(*old(self)),
            final(self).f.wf(),
            final(self).appended_op(*old(self), op, result_tys@, r0 as int),
            op.is_terminator_spec() ==> final(self).positioned(),
            !op.is_terminator_spec() ==> final(self).ready(),
    {
        let ghost orig = result_tys@;
        let mut tys = result_tys;
        let r0 = self.f.values.len();
        let is_term = op.is_terminator();
        let mut rev: Vec<CirType> = Vec::new();
        while tys.len() > 0
            invariant
                rev@.len() + tys@.len() == orig.len(),
                tys@ == orig.subrange(0, tys@.len() as int),
                forall|i: int| #![auto]
                    0 <= i < rev@.len() ==> rev@[i] == orig[orig.len() - 1 - i],
            decreases tys@.len(),
        {
            let t = match tys.pop() {
                Some(t) => t,
                None => vstd::pervasive::unreached(),
            };
            rev.push(t);
        }
        let mut results: Vec<TxValue> = Vec::new();
        while rev.len() > 0
            invariant
                results@.len() + rev@.len() == orig.len(),
                forall|i: int| #![auto]
                    0 <= i < rev@.len() ==> rev@[i] == orig[orig.len() - 1 - i],
                self.position == old(self).position,
                self.f.symbol == old(self).f.symbol,
                self.f.result_tys@ == old(self).f.result_tys@,
                self.f.values@.len() == r0 + results@.len(),
                self.f.blocks@ == old(self).f.blocks@,
                forall|v: int| #![auto]
                    0 <= v < r0 ==> self.f.values@[v] == old(self).f.values@[v],
                forall|k: int| #![auto] 0 <= k < results@.len() ==> results@[k].0 == r0 + k,
                forall|k: int| #![auto]
                    0 <= k < results@.len() ==> self.f.values@[r0 + k] == orig[k],
            decreases rev@.len(),
        {
            let t = match rev.pop() {
                Some(t) => t,
                None => vstd::pervasive::unreached(),
            };
            let v = TxValue(self.f.values.len());
            self.f.values.push(t);
            results.push(v);
        }
        let p = self.position;
        let bd = &mut self.f.blocks[p];
        bd.ops.push(TxOpNode { op, results });
        if is_term {
            bd.filled = true;
        }
        proof {
            let p_int = p as int;
            assert forall|b2: int| 0 <= b2 < self.f.blocks@.len() implies self.f.block_wf(b2) by {
                assert(old(self).f.block_wf(b2));
                if b2 != p_int {
                    assert(self.f.blocks@[b2] == old(self).f.blocks@[b2]);
                    lemma_tx_block_wf_monotone(old(self).f, self.f, b2);
                } else {
                    lemma_tx_op_wf_monotone(old(self).f, self.f, self.f.blocks@[p_int].ops@[
                        self.f.blocks@[p_int].ops@.len() - 1].op);
                    assert forall|j: int|
                        0 <= j < self.f.blocks@[b2].ops@.len() implies self.f.op_wf(
                        self.f.blocks@[b2].ops@[j].op,
                    ) by {
                        if j < self.f.blocks@[b2].ops@.len() - 1 {
                            assert(old(self).f.op_wf(old(self).f.blocks@[b2].ops@[j].op));
                            lemma_tx_op_wf_monotone(
                                old(self).f,
                                self.f,
                                self.f.blocks@[b2].ops@[j].op,
                            );
                        }
                    }
                }
            }
        }
        r0
    }
}

/// Growing the value arena and appending blocks keeps a block well
/// formed when its own content is unchanged.
pub proof fn lemma_tx_block_wf_monotone(prev: TxFunction, cur: TxFunction, b: int)
    requires
        prev.wf(),
        prev.block_wf(b),
        0 <= b < prev.blocks@.len(),
        cur.blocks@[b] == prev.blocks@[b],
        cur.result_tys@ == prev.result_tys@,
        cur.blocks@.len() >= prev.blocks@.len(),
        forall|b2: int| #![auto]
            0 <= b2 < prev.blocks@.len() ==> cur.blocks@[b2].params@ == prev.blocks@[b2].params@,
        cur.values@.len() >= prev.values@.len(),
        forall|v: int| #![auto] 0 <= v < prev.values@.len() ==> cur.values@[v] == prev.values@[v],
    ensures
        cur.block_wf(b),
{
    let bd = prev.blocks@[b];
    assert forall|j: int| 0 <= j < bd.ops@.len() implies cur.op_wf(bd.ops@[j].op) by {
        assert(prev.op_wf(bd.ops@[j].op));
        lemma_tx_op_wf_monotone(prev, cur, bd.ops@[j].op);
    }
}

/// Growing the value arena and appending blocks keeps an operation
/// well formed.
pub proof fn lemma_tx_op_wf_monotone(prev: TxFunction, cur: TxFunction, op: TxOp)
    requires
        prev.wf(),
        prev.op_wf(op),
        cur.result_tys@ == prev.result_tys@,
        cur.blocks@.len() >= prev.blocks@.len(),
        forall|b2: int| #![auto]
            0 <= b2 < prev.blocks@.len() ==> cur.blocks@[b2].params@ == prev.blocks@[b2].params@,
        cur.values@.len() >= prev.values@.len(),
        forall|v: int| #![auto] 0 <= v < prev.values@.len() ==> cur.values@[v] == prev.values@[v],
    ensures
        cur.op_wf(op),
{
    match op {
        TxOp::CallOp(_, args) => {
            assert forall|i: int| 0 <= i < args@.len() implies cur.valid_value(args@[i]) by {
                assert(prev.valid_value(args@[i]));
            }
        },
        TxOp::CallIndirectOp(_, args) => {
            assert forall|i: int| 0 <= i < args@.len() implies cur.valid_value(args@[i]) by {
                assert(prev.valid_value(args@[i]));
            }
        },
        TxOp::BranchOp(dest, args) => {
            assert forall|i: int| 0 <= i < args@.len() implies cur.valid_value(args@[i]) by {
                assert(prev.valid_value(args@[i]));
            }
            assert forall|k: int| 0 <= k < args@.len() implies cir_eq_spec(
                cur.value_ty(args@[k]),
                cur.value_ty(cur.blocks@[dest as int].params@[k]),
            ) by {
                assert(cir_eq_spec(
                    prev.value_ty(args@[k]),
                    prev.value_ty(prev.blocks@[dest as int].params@[k]),
                ));
                assert(prev.block_wf(dest as int));
                assert(prev.valid_value(args@[k]));
            }
        },
        TxOp::CondBranchOp(_, td, ta, ed, ea) => {
            assert forall|i: int| 0 <= i < ta@.len() implies cur.valid_value(ta@[i]) by {
                assert(prev.valid_value(ta@[i]));
            }
            assert forall|i: int| 0 <= i < ea@.len() implies cur.valid_value(ea@[i]) by {
                assert(prev.valid_value(ea@[i]));
            }
            assert forall|k: int| 0 <= k < ta@.len() implies cir_eq_spec(
                cur.value_ty(ta@[k]),
                cur.value_ty(cur.blocks@[td as int].params@[k]),
            ) by {
                assert(cir_eq_spec(
                    prev.value_ty(ta@[k]),
                    prev.value_ty(prev.blocks@[td as int].params@[k]),
                ));
                assert(prev.block_wf(td as int));
                assert(prev.valid_value(ta@[k]));
            }
            assert forall|k: int| 0 <= k < ea@.len() implies cir_eq_spec(
                cur.value_ty(ea@[k]),
                cur.value_ty(cur.blocks@[ed as int].params@[k]),
            ) by {
                assert(cir_eq_spec(
                    prev.value_ty(ea@[k]),
                    prev.value_ty(prev.blocks@[ed as int].params@[k]),
                ));
                assert(prev.block_wf(ed as int));
                assert(prev.valid_value(ea@[k]));
            }
        },
        TxOp::ReturnOp(args) => {
            assert forall|i: int| 0 <= i < args@.len() implies cur.valid_value(args@[i]) by {
                assert(prev.valid_value(args@[i]));
            }
            assert forall|k: int| 0 <= k < args@.len() implies cir_eq_spec(
                cur.value_ty(args@[k]),
                cur.result_tys@[k],
            ) by {
                assert(cir_eq_spec(prev.value_ty(args@[k]), prev.result_tys@[k]));
                assert(prev.valid_value(args@[k]));
            }
        },
        _ => {},
    }
}

} // verus!
