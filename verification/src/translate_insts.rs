use vstd::prelude::*;
use crate::cir::{cir_eq_spec, CirType, FuncSymbol, RuntimeFn};
use crate::dfg::DataFlowGraph;
use crate::function::Signature;
use crate::immediate::{Immediate, ImmediateTerm};
use crate::insts::{
    BinaryOp, BinaryOpConst, BinaryOpImm, Br, Call, CallIndirect, Inst, IsTypeData, Opcode,
    PrimOp, PrimOpImm, Ret, RetImm, SetElement, SetElementConst, SetElementImm, UnaryOp,
    UnaryOpConst, UnaryOpImm, Value,
};
use crate::constant::{ConstantItem, Integer};
use crate::translate::{
    dialect_binary_op, has_handle, imm_const_op, pooled_const_op, runtime_for_op, runtime_of_op,
    FunctionLowering, LowerError, ModuleBuilder,
};
use crate::translate_types::translate_ir_type;
use crate::span::Symbol;
use crate::txir::{TxOp, TxOpNode, TxValue};

verus! {

broadcast use vstd::std_specs::vec::group_vec_axioms, vstd::seq::group_seq_axioms;

/// The result handles of one instruction are in bounds of the value
/// map and pairwise distinct.
pub open spec fn results_ok(results: Seq<Value>, bound: nat) -> bool {
    &&& forall|k: int| #![auto] 0 <= k < results.len() ==> results[k].0 < bound
    &&& forall|j1: int, j2: int| #![auto]
        0 <= j1 < j2 < results.len() ==> results[j1].0 != results[j2].0
}

/// The operation nodes a lowering step appended to the block that was
/// current before it.
pub open spec fn ops_added(cur: FunctionLowering, prev: FunctionLowering) -> Seq<TxOpNode> {
    let p = prev.tb.position as int;
    cur.tb.f.blocks@[p].ops@.skip(prev.tb.f.blocks@[p].ops@.len() as int)
}

/// Every source result is mapped onto the corresponding result value
/// of the given operation node, in order.
pub open spec fn results_follow(
    cur: FunctionLowering,
    results: Seq<Value>,
    node: TxOpNode,
) -> bool {
    &&& node.results@.len() == results.len()
    &&& forall|k: int| #![auto]
        0 <= k < results.len() ==> cur.values_map@[results[k].0 as int] == Some(node.results@[k])
}

/// The operation is a call of the given symbol with one argument.
pub open spec fn is_call1(t: TxOp, sym: FuncSymbol, a: TxValue) -> bool {
    match t {
        TxOp::CallOp(s, args) => s == sym && args@ == seq![a],
        _ => false,
    }
}

/// The operation is a call of the given symbol with two arguments, in
/// order.
pub open spec fn is_call2(t: TxOp, sym: FuncSymbol, a: TxValue, b: TxValue) -> bool {
    match t {
        TxOp::CallOp(s, args) => s == sym && args@ == seq![a, b],
        _ => false,
    }
}

/// The operation is a call of the given symbol with the given
/// arguments.
pub open spec fn is_call_args(t: TxOp, sym: FuncSymbol, args: Seq<TxValue>) -> bool {
    match t {
        TxOp::CallOp(s, v) => s == sym && v@ == args,
        _ => false,
    }
}

/// The operation is an indirect call of the given callee value with
/// the given arguments.
pub open spec fn is_call_indirect_args(t: TxOp, callee: TxValue, args: Seq<TxValue>) -> bool {
    match t {
        TxOp::CallIndirectOp(c, v) => c == callee && v@ == args,
        _ => false,
    }
}

/// The unary opcodes the minimal lowerer supports.
pub open spec fn un_supported(op: Opcode) -> bool {
    match op {
        Opcode::IsNull => true,
        Opcode::Head => true,
        Opcode::Tail => true,
        Opcode::Not => true,
        Opcode::Neg => true,
        Opcode::Bnot => true,
        _ => false,
    }
}

/// The dialect operation a supported unary opcode lowers to over the
/// mapped operand: a direct operation for the projections and the
/// boolean negation, a runtime call for the numeric and bitwise
/// negations.
pub open spec fn unary_lowered(op: Opcode, a: TxValue, t: TxOp) -> bool {
    match op {
        Opcode::IsNull => t == TxOp::IsNullOp(a),
        Opcode::Head => t == TxOp::HeadOp(a),
        Opcode::Tail => t == TxOp::TailOp(a),
        Opcode::Not => t == TxOp::NotOp(a),
        Opcode::Neg => is_call1(t, FuncSymbol::Runtime(RuntimeFn::Neg1), a),
        Opcode::Bnot => is_call1(t, FuncSymbol::Runtime(RuntimeFn::Bnot1), a),
        _ => false,
    }
}

/// The binary opcodes that lower to a direct dialect operation.
pub open spec fn bin_dialect(op: Opcode) -> bool {
    match op {
        Opcode::And => true,
        Opcode::AndAlso => true,
        Opcode::Or => true,
        Opcode::OrElse => true,
        Opcode::Xor => true,
        Opcode::Cons => true,
        Opcode::GetElement => true,
        _ => false,
    }
}

/// The direct dialect operation a binary opcode lowers to.
pub open spec fn dialect_binary_spec(op: Opcode, a: TxValue, b: TxValue) -> TxOp {
    match op {
        Opcode::And => TxOp::AndOp(a, b),
        Opcode::AndAlso => TxOp::AndAlsoOp(a, b),
        Opcode::Or => TxOp::OrOp(a, b),
        Opcode::OrElse => TxOp::OrElseOp(a, b),
        Opcode::Xor => TxOp::XorOp(a, b),
        Opcode::Cons => TxOp::ConsOp(a, b),
        _ => TxOp::GetElementOp(a, b),
    }
}

/// The binary opcodes the minimal lowerer supports over two values.
pub open spec fn bin_supported(op: Opcode) -> bool {
    bin_dialect(op) || runtime_of_op(op) is Some
}

/// The operation a supported binary opcode lowers to over the mapped
/// operands: a direct dialect operation, or a call of the canonical
/// runtime built-in with the operands in order.
pub open spec fn binary_lowered(op: Opcode, a: TxValue, b: TxValue, t: TxOp) -> bool {
    if bin_dialect(op) {
        t == dialect_binary_spec(op, a, b)
    } else {
        match runtime_of_op(op) {
            Some(rf) => is_call2(t, FuncSymbol::Runtime(rf), a, b),
            None => false,
        }
    }
}

/// One appended operation makes a one-node suffix carrying it.
pub proof fn lemma_ops_added_single(
    cur: FunctionLowering,
    prev: FunctionLowering,
    op: TxOp,
    rtys: Seq<CirType>,
    r0: int,
)
    requires
        cur.tb.appended_op(prev.tb, op, rtys, r0),
    ensures
        ops_added(cur, prev).len() == 1,
        ops_added(cur, prev)[0].op == op,
        ops_added(cur, prev)[0].results@.len() == rtys.len(),
        forall|k: int| #![auto]
            0 <= k < rtys.len() ==> ops_added(cur, prev)[0].results@[k].0 == r0 + k,
{
    let p = prev.tb.position as int;
    let no = prev.tb.f.blocks@[p].ops@.len() as int;
    assert(ops_added(cur, prev) =~= seq![cur.tb.f.blocks@[p].ops@[no]]);
}

/// Appended-operation suffixes compose over consecutive steps that
/// stay in the same block.
pub proof fn lemma_ops_added_compose(
    cur: FunctionLowering,
    mid: FunctionLowering,
    prev: FunctionLowering,
)
    requires
        mid.tb.position == prev.tb.position,
        mid.tb.f.blocks@.len() > prev.tb.position as int,
        cur.tb.f.blocks@.len() > prev.tb.position as int,
        mid.tb.f.blocks@[prev.tb.position as int].ops@.len() >= prev.tb.f.blocks@[prev.tb.position as int].ops@.len(),
        cur.tb.f.blocks@[prev.tb.position as int].ops@.len() >= mid.tb.f.blocks@[prev.tb.position as int].ops@.len(),
        forall|j: int| #![auto]
            0 <= j < mid.tb.f.blocks@[prev.tb.position as int].ops@.len()
                ==> cur.tb.f.blocks@[prev.tb.position as int].ops@[j]
                == mid.tb.f.blocks@[prev.tb.position as int].ops@[j],
    ensures
        ops_added(cur, prev) == ops_added(mid, prev) + ops_added(cur, mid),
{
    let p = prev.tb.position as int;
    let a = prev.tb.f.blocks@[p].ops@.len() as int;
    let b = mid.tb.f.blocks@[p].ops@.len() as int;
    assert(ops_added(cur, prev) =~= ops_added(mid, prev) + ops_added(cur, mid));
}

/// The arity a tuple-allocation immediate denotes, when well formed:
/// a non-negative machine or term integer.
pub open spec fn tuple_arity_of(imm: Immediate) -> Option<int> {
    match imm {
        Immediate::Isize(n) => if n >= 0 {
            Some(n as int)
        } else {
            None
        },
        Immediate::Term(ImmediateTerm::Integer(n)) => if 0 <= n <= isize::MAX as i64 {
            Some(n as int)
        } else {
            None
        },
        _ => None,
    }
}

/// The operation allocates a tuple of the denoted arity.
pub open spec fn is_tuple_op(t: TxOp, arity: Option<int>) -> bool {
    match t {
        TxOp::TupleOp(n) => arity == Some(n as int),
        _ => false,
    }
}

/// The unary-immediate opcodes the minimal lowerer supports.
pub open spec fn un_imm_supported(op: Opcode) -> bool {
    match op {
        Opcode::ImmNull => true,
        Opcode::ImmInt => true,
        Opcode::ImmFloat => true,
        Opcode::ImmBool => true,
        Opcode::ImmAtom => true,
        Opcode::ImmNil => true,
        Opcode::ImmNone => true,
        Opcode::Tuple => true,
        Opcode::Neg => true,
        Opcode::Not => true,
        Opcode::Bnot => true,
        _ => false,
    }
}

/// The opcode materializes its immediate as a constant directly.
pub open spec fn imm_materializes(op: Opcode) -> bool {
    match op {
        Opcode::ImmInt => true,
        Opcode::ImmFloat => true,
        Opcode::ImmBool => true,
        Opcode::ImmAtom => true,
        Opcode::ImmNil => true,
        Opcode::ImmNone => true,
        _ => false,
    }
}

/// The unary-constant opcodes the minimal lowerer supports.
pub open spec fn un_const_supported(op: Opcode) -> bool {
    match op {
        Opcode::ConstBigInt => true,
        Opcode::ConstBinary => true,
        Opcode::ConstTuple => true,
        Opcode::ConstList => true,
        Opcode::ConstMap => true,
        Opcode::Neg => true,
        Opcode::Not => true,
        Opcode::Bnot => true,
        _ => false,
    }
}

/// The opcode passes its materialized pooled constant through as the
/// instruction's value.
pub open spec fn const_materializes(op: Opcode) -> bool {
    match op {
        Opcode::ConstBigInt => true,
        Opcode::ConstBinary => true,
        Opcode::ConstTuple => true,
        Opcode::ConstList => true,
        Opcode::ConstMap => true,
        _ => false,
    }
}

/// A constant was materialized and a second operation emitted over its
/// value, lowering the opcode with that value as operand; the source
/// results follow the second operation.
pub open spec fn const_then_op(
    cur: FunctionLowering,
    prev: FunctionLowering,
    cop: TxOp,
    op: Opcode,
    results: Seq<Value>,
) -> bool {
    let added = ops_added(cur, prev);
    &&& added.len() == 2
    &&& added[0].op == cop
    &&& added[0].results@.len() == 1
    &&& unary_lowered(op, added[0].results@[0], added[1].op)
    &&& results_follow(cur, results, added[1])
}

/// A constant was materialized and a binary operation emitted with it
/// as right-hand operand; the source results follow the second
/// operation.
pub open spec fn const_then_binop(
    cur: FunctionLowering,
    prev: FunctionLowering,
    cop: TxOp,
    op: Opcode,
    lhs: TxValue,
    results: Seq<Value>,
) -> bool {
    let added = ops_added(cur, prev);
    &&& added.len() == 2
    &&& added[0].op == cop
    &&& added[0].results@.len() == 1
    &&& binary_lowered(op, lhs, added[0].results@[0], added[1].op)
    &&& results_follow(cur, results, added[1])
}

/// The binary opcodes the lowerer accepts with an immediate or pooled
/// right-hand side.
pub open spec fn bin_rhs_supported(op: Opcode) -> bool {
    match op {
        Opcode::IsTaggedTuple => true,
        Opcode::GetElement => true,
        Opcode::And => true,
        Opcode::AndAlso => true,
        Opcode::Or => true,
        Opcode::OrElse => true,
        Opcode::Xor => true,
        Opcode::Cons => true,
        _ => runtime_of_op(op) is Some,
    }
}

/// The opcodes that reject a right-hand side of the wrong kind as a
/// structural violation (a tag test needs an atom, an element index
/// an integer, a boolean operation a boolean).
pub open spec fn bin_rhs_strict(op: Opcode) -> bool {
    match op {
        Opcode::IsTaggedTuple => true,
        Opcode::GetElement => true,
        Opcode::And => true,
        Opcode::AndAlso => true,
        Opcode::Or => true,
        Opcode::OrElse => true,
        Opcode::Xor => true,
        _ => false,
    }
}

/// The immediate right-hand side has the kind its opcode demands.
pub open spec fn bin_imm_ok(op: Opcode, imm: Immediate) -> bool {
    match op {
        Opcode::IsTaggedTuple => imm matches Immediate::Term(ImmediateTerm::Atom(_)),
        Opcode::GetElement => (imm matches Immediate::Term(ImmediateTerm::Integer(_))) || (
        imm matches Immediate::Isize(_)),
        Opcode::And => imm matches Immediate::Term(ImmediateTerm::Bool(_)),
        Opcode::AndAlso => imm matches Immediate::Term(ImmediateTerm::Bool(_)),
        Opcode::Or => imm matches Immediate::Term(ImmediateTerm::Bool(_)),
        Opcode::OrElse => imm matches Immediate::Term(ImmediateTerm::Bool(_)),
        Opcode::Xor => imm matches Immediate::Term(ImmediateTerm::Bool(_)),
        Opcode::Cons => true,
        _ => runtime_of_op(op) is Some,
    }
}

/// The pooled right-hand side has the kind its opcode demands and is
/// lowerable.
pub open spec fn bin_const_ok(op: Opcode, item: ConstantItem) -> bool {
    match op {
        Opcode::IsTaggedTuple => item matches ConstantItem::Atom(_),
        Opcode::GetElement => item matches ConstantItem::Integer(Integer::Small(_)),
        Opcode::And => item matches ConstantItem::Bool(_),
        Opcode::AndAlso => item matches ConstantItem::Bool(_),
        Opcode::Or => item matches ConstantItem::Bool(_),
        Opcode::OrElse => item matches ConstantItem::Bool(_),
        Opcode::Xor => item matches ConstantItem::Bool(_),
        Opcode::Cons => crate::translate::const_lowerable(item),
        _ => runtime_of_op(op) is Some && crate::translate::const_lowerable(item),
    }
}

/// The operation tests the left operand against the tag the
/// right-hand side carries.
pub open spec fn is_tagged_test(t: TxOp, lhs: TxValue, tag: Symbol) -> bool {
    t == TxOp::IsTaggedTupleOp(lhs, tag)
}

/// A return operand agrees with the declared result type: it carries
/// that type; it is the mapped source operand itself when that
/// operand's type already matched, and a fresh cast result otherwise.
pub open spec fn ret_arg_ok(
    cur: FunctionLowering,
    prev: FunctionLowering,
    m: TxValue,
    rt: CirType,
    a: TxValue,
) -> bool {
    &&& cir_eq_spec(cur.tb.f.value_ty(a), rt)
    &&& (cir_eq_spec(cur.tb.f.value_ty(m), rt) ==> a == m)
    &&& (!cir_eq_spec(cur.tb.f.value_ty(m), rt) ==> a.0 >= prev.tb.f.values@.len())
}

/// Branch arguments agree with the destination's parameters (whose
/// types are read in the state before the step): counts match, each
/// mapped source argument is passed unchanged exactly when its type
/// already equals the parameter's type structurally, and a fresh cast
/// result stands in otherwise. That every carried value's type equals
/// the parameter's type is the dialect's standing invariant
/// (`TxFunction::op_wf`).
pub open spec fn branch_args_agree(
    prev: FunctionLowering,
    margs: Seq<TxValue>,
    dest: int,
    v: Seq<TxValue>,
) -> bool {
    &&& v.len() == prev.tb.f.blocks@[dest].params@.len()
    &&& v.len() == margs.len()
    &&& forall|k: int| #![auto]
        0 <= k < v.len() && cir_eq_spec(
            prev.tb.f.value_ty(margs[k]),
            prev.tb.f.value_ty(prev.tb.f.blocks@[dest].params@[k]),
        ) ==> v[k] == margs[k]
    &&& forall|k: int| #![auto]
        0 <= k < v.len() ==> v[k] == margs[k] || v[k].0 >= prev.tb.f.values@.len()
}

/// The dialect values a sequence of mapped source values denotes.
pub open spec fn mapped_seq(l: FunctionLowering, args: Seq<Value>) -> Seq<TxValue> {
    Seq::new(args.len(), |k: int| l.mapped(args[k]))
}

/// The primitive opcodes the minimal lowerer knows (argument count
/// included).
pub open spec fn primop_supported(op: Opcode, argc: int) -> bool {
    match op {
        Opcode::MatchFail => argc == 1,
        Opcode::Raise => argc == 3,
        Opcode::RecvStart => argc == 1,
        Opcode::RecvNext => argc == 1,
        Opcode::RecvPeek => argc == 1,
        Opcode::RecvPop => argc == 1,
        Opcode::ExceptionClass => argc == 1,
        Opcode::ExceptionReason => argc == 1,
        Opcode::ExceptionTrace => argc == 1,
        Opcode::RecvWait => true,
        Opcode::BuildStacktrace => true,
        _ => false,
    }
}

/// The primitive opcodes the lowerer recognizes at all (the others
/// are unsupported, whatever their arguments).
pub open spec fn primop_known(op: Opcode) -> bool {
    match op {
        Opcode::MatchFail => true,
        Opcode::Raise => true,
        Opcode::RecvStart => true,
        Opcode::RecvNext => true,
        Opcode::RecvPeek => true,
        Opcode::RecvPop => true,
        Opcode::ExceptionClass => true,
        Opcode::ExceptionReason => true,
        Opcode::ExceptionTrace => true,
        Opcode::RecvWait => true,
        Opcode::BuildStacktrace => true,
        _ => false,
    }
}

/// Whether the primitive opcode reads its value arguments.
pub open spec fn primop_maps_args(op: Opcode) -> bool {
    match op {
        Opcode::RecvWait => false,
        Opcode::BuildStacktrace => false,
        _ => true,
    }
}

/// The dialect operation a non-raising primitive lowers to over its
/// mapped arguments. The receive peek advances the cursor like the
/// receive next, as the minimal lowerer unifies the two.
pub open spec fn primop_lowered(op: Opcode, margs: Seq<TxValue>, t: TxOp) -> bool {
    match op {
        Opcode::RecvStart => t == TxOp::RecvStartOp(margs[0]),
        Opcode::RecvNext => t == TxOp::RecvNextOp(margs[0]),
        Opcode::RecvPeek => t == TxOp::RecvNextOp(margs[0]),
        Opcode::RecvPop => t == TxOp::RecvPopOp(margs[0]),
        Opcode::RecvWait => t == TxOp::YieldOp,
        Opcode::BuildStacktrace => t == TxOp::StacktraceOp,
        Opcode::ExceptionClass => t == TxOp::ExceptionClassOp(margs[0]),
        Opcode::ExceptionReason => t == TxOp::ExceptionReasonOp(margs[0]),
        Opcode::ExceptionTrace => t == TxOp::ExceptionTraceOp(margs[0]),
        Opcode::Raise => t == TxOp::RaiseOp(margs[0], margs[1], margs[2]),
        _ => false,
    }
}

/// A failed match lowered as the error-class raise: the `error` atom
/// and a fresh stack trace are materialized and raised with the given
/// reason.
pub open spec fn matchfail_emitted(
    cur: FunctionLowering,
    prev: FunctionLowering,
    reason: TxValue,
) -> bool {
    let added = ops_added(cur, prev);
    &&& added.len() == 3
    &&& added[0].op == TxOp::ConstAtom(crate::span::SYM_ERROR)
    &&& added[0].results@.len() == 1
    &&& added[1].op == TxOp::StacktraceOp
    &&& added[1].results@.len() == 1
    &&& added[2].op == TxOp::RaiseOp(added[0].results@[0], reason, added[1].results@[0])
}

/// Builds a one-argument call operation.
pub fn call1_op(sym: FuncSymbol, a: TxValue) -> (t: TxOp)
    ensures
        is_call1(t, sym, a),
{
    let mut v: Vec<TxValue> = Vec::new();
    v.push(a);
    proof {
        assert(v@ =~= seq![a]);
    }
    TxOp::CallOp(sym, v)
}

/// Builds a two-argument call operation.
pub fn call2_op(sym: FuncSymbol, a: TxValue, b: TxValue) -> (t: TxOp)
    ensures
        is_call2(t, sym, a, b),
{
    let mut v: Vec<TxValue> = Vec::new();
    v.push(a);
    v.push(b);
    proof {
        assert(v@ =~= seq![a, b]);
    }
    TxOp::CallOp(sym, v)
}

impl FunctionLowering {
    /// One instruction's lowering step: the state evolved, untouched
    /// blocks are preserved, the position either stayed or moved to a
    /// freshly created block, and the current block is closed exactly
    /// when the source instruction was a terminator.
    pub open spec fn inst_step(&self, prev: FunctionLowering, term: bool) -> bool {
        &&& self.inv()
        &&& self.evolved(prev)
        &&& forall|b2: int| #![auto]
            0 <= b2 < prev.tb.f.blocks@.len() && b2 != prev.tb.position as int
                ==> self.tb.f.blocks@[b2].filled == prev.tb.f.blocks@[b2].filled
        &&& (self.tb.position == prev.tb.position || self.tb.position as int
            >= prev.tb.f.blocks@.len())
        &&& forall|k: int| #![auto]
            prev.tb.f.blocks@.len() <= k < self.tb.f.blocks@.len()
                ==> self.tb.f.blocks@[k].filled || k == self.tb.position as int
        &&& (self.tb.position != prev.tb.position
            ==> self.tb.f.blocks@[prev.tb.position as int].filled)
        &&& if term {
            self.tb.f.blocks@[self.tb.position as int].filled
        } else {
            !self.tb.f.blocks@[self.tb.position as int].filled
        }
    }

    /// Records the dialect value one source value maps to.
    pub fn map_result_to(&mut self, v: Value, tv: TxValue)
        requires
            old(self).inv(),
            v.0 < old(self).values_map@.len(),
            tv.0 < old(self).tb.f.values@.len(),
        ensures
            final(self).inv(),
            final(self).tb == old(self).tb,
            final(self).blocks_map@ == old(self).blocks_map@,
            final(self).values_map@.len() == old(self).values_map@.len(),
            final(self).values_map@ == old(self).values_map@.update(v.0 as int, Some(tv)),
    {
        self.values_map[v.0] = Some(tv);
    }

    /// Emits one non-terminator operation and maps the source results
    /// to its result values, leaving every other mapping unchanged.
    pub fn emit(&mut self, op: TxOp, rtys: Vec<CirType>, results: &Vec<Value>)
        requires
            old(self).ready(),
            old(self).tb.f.op_wf(op),
            !op.is_terminator_spec(),
            rtys@.len() == results@.len(),
            results_ok(results@, old(self).values_map@.len()),
        ensures
            final(self).ready(),
            final(self).same_position_step(*old(self)),
            final(self).tb.appended_op(
                old(self).tb,
                op,
                rtys@,
                old(self).tb.f.values@.len() as int,
            ),
            forall|k: int| #![auto]
                0 <= k < results@.len() ==> final(self).values_map@[results@[k].0 as int]
                    == Some(TxValue((old(self).tb.f.values@.len() + k) as usize)),
            forall|v2: int| #![auto]
                0 <= v2 < old(self).values_map@.len() && !has_handle(results@, v2)
                    ==> final(self).values_map@[v2] == old(self).values_map@[v2],
    {
        let r0 = self.tb.push_op(op, rtys);
        self.define_results(results, r0);
    }
}

/// Translates the types of an instruction's result values.
#[verifier::loop_isolation(false)]
pub fn result_tys_for(
    nanboxed: bool,
    sigs: &Vec<Signature>,
    dfg: &DataFlowGraph,
    results: &Vec<Value>,
) -> (r: Vec<CirType>)
    requires
        forall|k: int| #![auto] 0 <= k < results@.len() ==> results@[k].0 < dfg.values@.len(),
    ensures
        r@.len() == results@.len(),
{
    let mut out: Vec<CirType> = Vec::new();
    let n = results.len();
    let mut i: usize = 0;
    while i < n
        invariant
            i <= n,
            out@.len() == i,
        decreases n - i,
    {
        let ty = dfg.value_type(results[i]);
        let c = translate_ir_type(nanboxed, sigs, ty);
        out.push(c);
        i += 1;
    }
    out
}

/// Lowers an operation over one value: the projections and the
/// boolean negation map to direct dialect operations, the numeric and
/// bitwise negations to runtime calls. Succeeds exactly when the
/// operand is mapped and the opcode is supported; the emitted
/// operation and the result mapping are stated exactly.
pub fn build_unary_op(
    mb: &mut ModuleBuilder,
    l: &mut FunctionLowering,
    d: &UnaryOp,
    results: &Vec<Value>,
    rtys: Vec<CirType>,
) -> (r: Result<(), LowerError>)
    requires
        old(l).ready(),
        rtys@.len() == results@.len(),
        results_ok(results@, old(l).values_map@.len()),
    ensures
        final(l).inst_step(*old(l), false),
        r is Ok <==> old(l).is_mapped(d.arg) && un_supported(d.op),
        match r {
            Ok(_) => {
                let added = ops_added(*final(l), *old(l));
                &&& added.len() == 1
                &&& unary_lowered(d.op, old(l).mapped(d.arg), added[0].op)
                &&& results_follow(*final(l), results@, added[0])
            },
            Err(e) => if !old(l).is_mapped(d.arg) {
                e == LowerError::StructuralViolation
            } else {
                e == LowerError::Unsupported
            },
        },
{
    let ghost l0 = *l;
    let arg = match l.map_value(d.arg) {
        Ok(tv) => tv,
        Err(e) => {
            return Err(e);
        },
    };
    let op: TxOp = match d.op {
        Opcode::IsNull => TxOp::IsNullOp(arg),
        Opcode::Head => TxOp::HeadOp(arg),
        Opcode::Tail => TxOp::TailOp(arg),
        Opcode::Not => TxOp::NotOp(arg),
        Opcode::Neg => {
            mb.get_or_declare_function(FuncSymbol::Runtime(RuntimeFn::Neg1), None, false);
            call1_op(FuncSymbol::Runtime(RuntimeFn::Neg1), arg)
        },
        Opcode::Bnot => {
            mb.get_or_declare_function(FuncSymbol::Runtime(RuntimeFn::Bnot1), None, false);
            call1_op(FuncSymbol::Runtime(RuntimeFn::Bnot1), arg)
        },
        _ => {
            return Err(LowerError::Unsupported);
        },
    };
    proof {
        assert(unary_lowered(d.op, arg, op));
    }
    let ghost opv = op;
    let ghost r0 = l.tb.f.values@.len() as int;
    let ghost rtysv = rtys@;
    l.emit(op, rtys, results);
    proof {
        lemma_ops_added_single(*l, l0, opv, rtysv, r0);
    }
    Ok(())
}

/// Lowers an operation over one immediate: the constant forms
/// materialize the immediate and pass its value through as the
/// instruction's value, a null is typed, a tuple allocation takes its
/// arity from a well-formed integer immediate, and the negations
/// apply to the materialized constant.
pub fn build_unary_op_imm(
    mb: &mut ModuleBuilder,
    l: &mut FunctionLowering,
    d: &UnaryOpImm,
    results: &Vec<Value>,
    rtys: Vec<CirType>,
) -> (r: Result<(), LowerError>)
    requires
        old(l).ready(),
        rtys@.len() == results@.len(),
        results_ok(results@, old(l).values_map@.len()),
    ensures
        final(l).inst_step(*old(l), false),
        r is Ok <==> un_imm_supported(d.op) && (d.op == Opcode::Tuple
            ==> tuple_arity_of(d.imm) is Some),
        match r {
            Ok(_) => {
                let added = ops_added(*final(l), *old(l));
                if imm_materializes(d.op) {
                    &&& added.len() == 1
                    &&& added[0].op == imm_const_op(d.imm)
                    &&& added[0].results@.len() == 1
                    &&& (results@.len() == 1 ==> final(l).values_map@[results@[0].0 as int]
                        == Some(added[0].results@[0]))
                } else if d.op == Opcode::ImmNull {
                    &&& added.len() == 1
                    &&& added[0].op == TxOp::Null
                    &&& results_follow(*final(l), results@, added[0])
                } else if d.op == Opcode::Tuple {
                    &&& added.len() == 1
                    &&& is_tuple_op(added[0].op, tuple_arity_of(d.imm))
                    &&& results_follow(*final(l), results@, added[0])
                } else {
                    const_then_op(*final(l), *old(l), imm_const_op(d.imm), d.op, results@)
                }
            },
            Err(e) => if un_imm_supported(d.op) {
                e == LowerError::StructuralViolation
            } else {
                e == LowerError::Unsupported
            },
        },
{
    let ghost l0 = *l;
    match d.op {
        Opcode::ImmNull => {
            let ghost r0 = l.tb.f.values@.len() as int;
            let ghost rtysv = rtys@;
            l.emit(TxOp::Null, rtys, results);
            proof {
                lemma_ops_added_single(*l, l0, TxOp::Null, rtysv, r0);
            }
            Ok(())
        },
        Opcode::ImmInt | Opcode::ImmFloat | Opcode::ImmBool | Opcode::ImmAtom | Opcode::ImmNil
            | Opcode::ImmNone => {
            let ghost r0 = l.tb.f.values@.len() as int;
            let tv = l.immediate_to_constant(d.imm);
            if results.len() == 1 {
                l.map_result_to(results[0], tv);
            }
            proof {
                lemma_ops_added_single(
                    *l,
                    l0,
                    imm_const_op(d.imm),
                    seq![crate::translate::imm_const_ty(d.imm)],
                    r0,
                );
                assert(tv == ops_added(*l, l0)[0].results@[0]);
            }
            Ok(())
        },
        Opcode::Tuple => {
            let arity: usize = match d.imm {
                Immediate::Isize(n) => {
                    if n < 0 {
                        return Err(LowerError::StructuralViolation);
                    }
                    n as usize
                },
                Immediate::Term(ImmediateTerm::Integer(n)) => {
                    if n < 0 || n > isize::MAX as i64 {
                        return Err(LowerError::StructuralViolation);
                    }
                    n as usize
                },
                _ => {
                    return Err(LowerError::StructuralViolation);
                },
            };
            let ghost r0 = l.tb.f.values@.len() as int;
            let ghost rtysv = rtys@;
            l.emit(TxOp::TupleOp(arity), rtys, results);
            proof {
                lemma_ops_added_single(*l, l0, TxOp::TupleOp(arity), rtysv, r0);
            }
            Ok(())
        },
        Opcode::Neg | Opcode::Not | Opcode::Bnot => {
            let ghost r0 = l.tb.f.values@.len() as int;
            let tv = l.immediate_to_constant(d.imm);
            let ghost l1 = *l;
            let op: TxOp = match d.op {
                Opcode::Neg => {
                    mb.get_or_declare_function(FuncSymbol::Runtime(RuntimeFn::Neg1), None, false);
                    call1_op(FuncSymbol::Runtime(RuntimeFn::Neg1), tv)
                },
                Opcode::Not => TxOp::NotOp(tv),
                _ => {
                    mb.get_or_declare_function(FuncSymbol::Runtime(RuntimeFn::Bnot1), None, false);
                    call1_op(FuncSymbol::Runtime(RuntimeFn::Bnot1), tv)
                },
            };
            proof {
                assert(unary_lowered(d.op, tv, op));
            }
            let ghost opv = op;
            let ghost r1 = l.tb.f.values@.len() as int;
            let ghost rtysv = rtys@;
            l.emit(op, rtys, results);
            proof {
                lemma_ops_added_single(
                    l1,
                    l0,
                    imm_const_op(d.imm),
                    seq![crate::translate::imm_const_ty(d.imm)],
                    r0,
                );
                lemma_ops_added_single(*l, l1, opv, rtysv, r1);
                lemma_ops_added_compose(*l, l1, l0);
                assert(tv == ops_added(*l, l0)[0].results@[0]);
            }
            Ok(())
        },
        _ => Err(LowerError::Unsupported),
    }
}

/// Lowers an operation over one pooled constant: the constant forms
/// pass the materialized value through, the negations apply to it;
/// big-integer and compound constants are not lowerable by the
/// minimal lowerer.
pub fn build_unary_op_const(
    mb: &mut ModuleBuilder,
    l: &mut FunctionLowering,
    dfg: &DataFlowGraph,
    d: &UnaryOpConst,
    results: &Vec<Value>,
    rtys: Vec<CirType>,
) -> (r: Result<(), LowerError>)
    requires
        old(l).ready(),
        dfg.valid_constant(d.imm),
        rtys@.len() == results@.len(),
        results_ok(results@, old(l).values_map@.len()),
    ensures
        final(l).inst_step(*old(l), false),
        r is Ok <==> crate::translate::const_lowerable(dfg.constants@[d.imm.0 as int])
            && un_const_supported(d.op),
        match r {
            Ok(_) => {
                let item = dfg.constants@[d.imm.0 as int];
                let added = ops_added(*final(l), *old(l));
                if const_materializes(d.op) {
                    &&& added.len() == 1
                    &&& added[0].op == pooled_const_op(item)
                    &&& added[0].results@.len() == 1
                    &&& (results@.len() == 1 ==> final(l).values_map@[results@[0].0 as int]
                        == Some(added[0].results@[0]))
                } else {
                    const_then_op(*final(l), *old(l), pooled_const_op(item), d.op, results@)
                }
            },
            Err(e) => e == LowerError::Unsupported,
        },
{
    let ghost l0 = *l;
    let ghost r0 = l.tb.f.values@.len() as int;
    let ghost item = dfg.constants@[d.imm.0 as int];
    let tv = match l.const_to_constant(dfg.constant(d.imm)) {
        Ok(tv) => tv,
        Err(e) => {
            return Err(e);
        },
    };
    let ghost l1 = *l;
    match d.op {
        Opcode::ConstBigInt | Opcode::ConstBinary | Opcode::ConstTuple | Opcode::ConstList
            | Opcode::ConstMap => {
            if results.len() == 1 {
                l.map_result_to(results[0], tv);
            }
            proof {
                lemma_ops_added_single(
                    *l,
                    l0,
                    pooled_const_op(item),
                    seq![crate::translate::pooled_const_ty(item)],
                    r0,
                );
                assert(tv == ops_added(*l, l0)[0].results@[0]);
            }
            Ok(())
        },
        Opcode::Neg | Opcode::Not | Opcode::Bnot => {
            let op: TxOp = match d.op {
                Opcode::Neg => {
                    mb.get_or_declare_function(FuncSymbol::Runtime(RuntimeFn::Neg1), None, false);
                    call1_op(FuncSymbol::Runtime(RuntimeFn::Neg1), tv)
                },
                Opcode::Not => TxOp::NotOp(tv),
                _ => {
                    mb.get_or_declare_function(FuncSymbol::Runtime(RuntimeFn::Bnot1), None, false);
                    call1_op(FuncSymbol::Runtime(RuntimeFn::Bnot1), tv)
                },
            };
            proof {
                assert(unary_lowered(d.op, tv, op));
            }
            let ghost opv = op;
            let ghost r1 = l.tb.f.values@.len() as int;
            let ghost rtysv = rtys@;
            l.emit(op, rtys, results);
            proof {
                lemma_ops_added_single(
                    l1,
                    l0,
                    pooled_const_op(item),
                    seq![crate::translate::pooled_const_ty(item)],
                    r0,
                );
                lemma_ops_added_single(*l, l1, opv, rtysv, r1);
                lemma_ops_added_compose(*l, l1, l0);
                assert(tv == ops_added(*l, l0)[0].results@[0]);
            }
            Ok(())
        },
        _ => Err(LowerError::Unsupported),
    }
}

/// Lowers an operation over two values: the structural and boolean
/// operations map to direct dialect operations, comparisons and
/// arithmetic to calls of the canonical runtime built-in with the
/// operands in order. Succeeds exactly when both operands are mapped
/// and the opcode is supported.
pub fn build_binary_op(
    mb: &mut ModuleBuilder,
    l: &mut FunctionLowering,
    d: &BinaryOp,
    results: &Vec<Value>,
    rtys: Vec<CirType>,
) -> (r: Result<(), LowerError>)
    requires
        old(l).ready(),
        rtys@.len() == results@.len(),
        results_ok(results@, old(l).values_map@.len()),
    ensures
        final(l).inst_step(*old(l), false),
        r is Ok <==> old(l).is_mapped(d.args.0) && old(l).is_mapped(d.args.1) && bin_supported(
            d.op,
        ),
        match r {
            Ok(_) => {
                let added = ops_added(*final(l), *old(l));
                &&& added.len() == 1
                &&& binary_lowered(
                    d.op,
                    old(l).mapped(d.args.0),
                    old(l).mapped(d.args.1),
                    added[0].op,
                )
                &&& results_follow(*final(l), results@, added[0])
            },
            Err(e) => if !(old(l).is_mapped(d.args.0) && old(l).is_mapped(d.args.1)) {
                e == LowerError::StructuralViolation
            } else {
                e == LowerError::Unsupported
            },
        },
{
    let ghost l0 = *l;
    let lhs = match l.map_value(d.args.0) {
        Ok(tv) => tv,
        Err(e) => {
            return Err(e);
        },
    };
    let rhs = match l.map_value(d.args.1) {
        Ok(tv) => tv,
        Err(e) => {
            return Err(e);
        },
    };
    match dialect_binary_op(d.op, lhs, rhs) {
        Some(op) => {
            proof {
                assert(binary_lowered(d.op, lhs, rhs, dialect_binary_spec(d.op, lhs, rhs)));
            }
            let ghost opv = op;
            let ghost r0 = l.tb.f.values@.len() as int;
            let ghost rtysv = rtys@;
            l.emit(op, rtys, results);
            proof {
                lemma_ops_added_single(*l, l0, opv, rtysv, r0);
            }
            return Ok(());
        },
        None => {},
    }
    match runtime_for_op(d.op) {
        Some(rf) => {
            mb.get_or_declare_function(FuncSymbol::Runtime(rf), None, false);
            let op = call2_op(FuncSymbol::Runtime(rf), lhs, rhs);
            let ghost opv = op;
            let ghost r0 = l.tb.f.values@.len() as int;
            let ghost rtysv = rtys@;
            l.emit(op, rtys, results);
            proof {
                lemma_ops_added_single(*l, l0, opv, rtysv, r0);
            }
            Ok(())
        },
        None => Err(LowerError::Unsupported),
    }
}

/// Lowers an operation over one value and an immediate right-hand
/// side: a tag test takes its atom directly, every other supported
/// opcode materializes the immediate and lowers like the two-value
/// form, with the materialized value as right operand. A right-hand
/// side of the wrong kind is a structural violation.
pub fn build_binary_op_imm(
    mb: &mut ModuleBuilder,
    l: &mut FunctionLowering,
    d: &BinaryOpImm,
    results: &Vec<Value>,
    rtys: Vec<CirType>,
) -> (r: Result<(), LowerError>)
    requires
        old(l).ready(),
        rtys@.len() == results@.len(),
        results_ok(results@, old(l).values_map@.len()),
    ensures
        final(l).inst_step(*old(l), false),
        r is Ok <==> old(l).is_mapped(d.arg) && bin_imm_ok(d.op, d.imm),
        match r {
            Ok(_) => {
                let added = ops_added(*final(l), *old(l));
                if d.op == Opcode::IsTaggedTuple {
                    &&& added.len() == 1
                    &&& (match d.imm {
                        Immediate::Term(ImmediateTerm::Atom(a)) => is_tagged_test(
                            added[0].op,
                            old(l).mapped(d.arg),
                            a,
                        ),
                        _ => false,
                    })
                    &&& results_follow(*final(l), results@, added[0])
                } else {
                    const_then_binop(
                        *final(l),
                        *old(l),
                        imm_const_op(d.imm),
                        d.op,
                        old(l).mapped(d.arg),
                        results@,
                    )
                }
            },
            Err(e) => if !old(l).is_mapped(d.arg) {
                e == LowerError::StructuralViolation
            } else if bin_rhs_strict(d.op) {
                e == LowerError::StructuralViolation
            } else {
                e == LowerError::Unsupported
            },
        },
{
    let ghost l0 = *l;
    let lhs = match l.map_value(d.arg) {
        Ok(tv) => tv,
        Err(e) => {
            return Err(e);
        },
    };
    match d.op {
        Opcode::IsTaggedTuple => {
            match d.imm {
                Immediate::Term(ImmediateTerm::Atom(a)) => {
                    let ghost r0 = l.tb.f.values@.len() as int;
                    let ghost rtysv = rtys@;
                    l.emit(TxOp::IsTaggedTupleOp(lhs, a), rtys, results);
                    proof {
                        lemma_ops_added_single(*l, l0, TxOp::IsTaggedTupleOp(lhs, a), rtysv, r0);
                    }
                    Ok(())
                },
                _ => Err(LowerError::StructuralViolation),
            }
        },
        Opcode::GetElement => {
            match d.imm {
                Immediate::Term(ImmediateTerm::Integer(_)) | Immediate::Isize(_) => {},
                _ => {
                    return Err(LowerError::StructuralViolation);
                },
            }
            let ghost r0 = l.tb.f.values@.len() as int;
            let rhs = l.immediate_to_constant(d.imm);
            let ghost l1 = *l;
            let op = TxOp::GetElementOp(lhs, rhs);
            let ghost r1 = l.tb.f.values@.len() as int;
            let ghost rtysv = rtys@;
            l.emit(op, rtys, results);
            proof {
                lemma_ops_added_single(
                    l1,
                    l0,
                    imm_const_op(d.imm),
                    seq![crate::translate::imm_const_ty(d.imm)],
                    r0,
                );
                lemma_ops_added_single(*l, l1, TxOp::GetElementOp(lhs, rhs), rtysv, r1);
                lemma_ops_added_compose(*l, l1, l0);
                assert(rhs == ops_added(*l, l0)[0].results@[0]);
            }
            Ok(())
        },
        Opcode::And | Opcode::AndAlso | Opcode::Or | Opcode::OrElse | Opcode::Xor => {
            match d.imm {
                Immediate::Term(ImmediateTerm::Bool(_)) => {},
                _ => {
                    return Err(LowerError::StructuralViolation);
                },
            }
            let ghost r0 = l.tb.f.values@.len() as int;
            let rhs = l.immediate_to_constant(d.imm);
            let ghost l1 = *l;
            let op = match dialect_binary_op(d.op, lhs, rhs) {
                Some(op) => op,
                None => vstd::pervasive::unreached(),
            };
            let ghost opv = op;
            let ghost r1 = l.tb.f.values@.len() as int;
            let ghost rtysv = rtys@;
            l.emit(op, rtys, results);
            proof {
                lemma_ops_added_single(
                    l1,
                    l0,
                    imm_const_op(d.imm),
                    seq![crate::translate::imm_const_ty(d.imm)],
                    r0,
                );
                lemma_ops_added_single(*l, l1, opv, rtysv, r1);
                lemma_ops_added_compose(*l, l1, l0);
                assert(rhs == ops_added(*l, l0)[0].results@[0]);
            }
            Ok(())
        },
        Opcode::Cons => {
            let ghost r0 = l.tb.f.values@.len() as int;
            let rhs = l.immediate_to_constant(d.imm);
            let ghost l1 = *l;
            let ghost r1 = l.tb.f.values@.len() as int;
            let ghost rtysv = rtys@;
            l.emit(TxOp::ConsOp(lhs, rhs), rtys, results);
            proof {
                lemma_ops_added_single(
                    l1,
                    l0,
                    imm_const_op(d.imm),
                    seq![crate::translate::imm_const_ty(d.imm)],
                    r0,
                );
                lemma_ops_added_single(*l, l1, TxOp::ConsOp(lhs, rhs), rtysv, r1);
                lemma_ops_added_compose(*l, l1, l0);
                assert(rhs == ops_added(*l, l0)[0].results@[0]);
            }
            Ok(())
        },
        _ => {
            match runtime_for_op(d.op) {
                Some(rf) => {
                    let ghost r0 = l.tb.f.values@.len() as int;
                    let rhs = l.immediate_to_constant(d.imm);
                    let ghost l1 = *l;
                    mb.get_or_declare_function(FuncSymbol::Runtime(rf), None, false);
                    let op = call2_op(FuncSymbol::Runtime(rf), lhs, rhs);
                    let ghost opv = op;
                    let ghost r1 = l.tb.f.values@.len() as int;
                    let ghost rtysv = rtys@;
                    l.emit(op, rtys, results);
                    proof {
                        lemma_ops_added_single(
                            l1,
                            l0,
                            imm_const_op(d.imm),
                            seq![crate::translate::imm_const_ty(d.imm)],
                            r0,
                        );
                        lemma_ops_added_single(*l, l1, opv, rtysv, r1);
                        lemma_ops_added_compose(*l, l1, l0);
                        assert(rhs == ops_added(*l, l0)[0].results@[0]);
                    }
                    Ok(())
                },
                None => Err(LowerError::Unsupported),
            }
        },
    }
}

/// Lowers an operation over one value and a pooled constant
/// right-hand side: a tag test takes the pooled atom directly, every
/// other supported opcode materializes the constant and lowers like
/// the two-value form. A pooled item of the wrong kind is a
/// structural violation; one the minimal lowerer cannot materialize
/// is unsupported.
pub fn build_binary_op_const(
    mb: &mut ModuleBuilder,
    l: &mut FunctionLowering,
    dfg: &DataFlowGraph,
    d: &BinaryOpConst,
    results: &Vec<Value>,
    rtys: Vec<CirType>,
) -> (r: Result<(), LowerError>)
    requires
        old(l).ready(),
        dfg.valid_constant(d.imm),
        rtys@.len() == results@.len(),
        results_ok(results@, old(l).values_map@.len()),
    ensures
        final(l).inst_step(*old(l), false),
        r is Ok <==> old(l).is_mapped(d.arg) && bin_const_ok(
            d.op,
            dfg.constants@[d.imm.0 as int],
        ),
        match r {
            Ok(_) => {
                let item = dfg.constants@[d.imm.0 as int];
                let added = ops_added(*final(l), *old(l));
                if d.op == Opcode::IsTaggedTuple {
                    &&& added.len() == 1
                    &&& (match item {
                        ConstantItem::Atom(a) => is_tagged_test(
                            added[0].op,
                            old(l).mapped(d.arg),
                            a,
                        ),
                        _ => false,
                    })
                    &&& results_follow(*final(l), results@, added[0])
                } else {
                    const_then_binop(
                        *final(l),
                        *old(l),
                        pooled_const_op(item),
                        d.op,
                        old(l).mapped(d.arg),
                        results@,
                    )
                }
            },
            Err(e) => if !old(l).is_mapped(d.arg) {
                e == LowerError::StructuralViolation
            } else if bin_rhs_strict(d.op) && !bin_const_ok(
                d.op,
                dfg.constants@[d.imm.0 as int],
            ) {
                e == LowerError::StructuralViolation
            } else {
                e == LowerError::Unsupported
            },
        },
{
    let ghost l0 = *l;
    let ghost item = dfg.constants@[d.imm.0 as int];
    let lhs = match l.map_value(d.arg) {
        Ok(tv) => tv,
        Err(e) => {
            return Err(e);
        },
    };
    match d.op {
        Opcode::IsTaggedTuple => {
            match dfg.constant(d.imm) {
                ConstantItem::Atom(a) => {
                    let a = *a;
                    let ghost r0 = l.tb.f.values@.len() as int;
                    let ghost rtysv = rtys@;
                    l.emit(TxOp::IsTaggedTupleOp(lhs, a), rtys, results);
                    proof {
                        lemma_ops_added_single(*l, l0, TxOp::IsTaggedTupleOp(lhs, a), rtysv, r0);
                    }
                    Ok(())
                },
                _ => Err(LowerError::StructuralViolation),
            }
        },
        Opcode::GetElement => {
            match dfg.constant(d.imm) {
                ConstantItem::Integer(Integer::Small(_)) => {},
                _ => {
                    return Err(LowerError::StructuralViolation);
                },
            }
            let ghost r0 = l.tb.f.values@.len() as int;
            let rhs = match l.const_to_constant(dfg.constant(d.imm)) {
                Ok(tv) => tv,
                Err(e) => {
                    return Err(e);
                },
            };
            let ghost l1 = *l;
            let ghost r1 = l.tb.f.values@.len() as int;
            let ghost rtysv = rtys@;
            l.emit(TxOp::GetElementOp(lhs, rhs), rtys, results);
            proof {
                lemma_ops_added_single(
                    l1,
                    l0,
                    pooled_const_op(item),
                    seq![crate::translate::pooled_const_ty(item)],
                    r0,
                );
                lemma_ops_added_single(*l, l1, TxOp::GetElementOp(lhs, rhs), rtysv, r1);
                lemma_ops_added_compose(*l, l1, l0);
                assert(rhs == ops_added(*l, l0)[0].results@[0]);
            }
            Ok(())
        },
        Opcode::And | Opcode::AndAlso | Opcode::Or | Opcode::OrElse | Opcode::Xor => {
            match dfg.constant(d.imm) {
                ConstantItem::Bool(_) => {},
                _ => {
                    return Err(LowerError::StructuralViolation);
                },
            }
            let ghost r0 = l.tb.f.values@.len() as int;
            let rhs = match l.const_to_constant(dfg.constant(d.imm)) {
                Ok(tv) => tv,
                Err(e) => {
                    return Err(e);
                },
            };
            let ghost l1 = *l;
            let op = match dialect_binary_op(d.op, lhs, rhs) {
                Some(op) => op,
                None => vstd::pervasive::unreached(),
            };
            let ghost opv = op;
            let ghost r1 = l.tb.f.values@.len() as int;
            let ghost rtysv = rtys@;
            l.emit(op, rtys, results);
            proof {
                lemma_ops_added_single(
                    l1,
                    l0,
                    pooled_const_op(item),
                    seq![crate::translate::pooled_const_ty(item)],
                    r0,
                );
                lemma_ops_added_single(*l, l1, opv, rtysv, r1);
                lemma_ops_added_compose(*l, l1, l0);
                assert(rhs == ops_added(*l, l0)[0].results@[0]);
            }
            Ok(())
        },
        Opcode::Cons => {
            let ghost r0 = l.tb.f.values@.len() as int;
            let rhs = match l.const_to_constant(dfg.constant(d.imm)) {
                Ok(tv) => tv,
                Err(e) => {
                    return Err(e);
                },
            };
            let ghost l1 = *l;
            let ghost r1 = l.tb.f.values@.len() as int;
            let ghost rtysv = rtys@;
            l.emit(TxOp::ConsOp(lhs, rhs), rtys, results);
            proof {
                lemma_ops_added_single(
                    l1,
                    l0,
                    pooled_const_op(item),
                    seq![crate::translate::pooled_const_ty(item)],
                    r0,
                );
                lemma_ops_added_single(*l, l1, TxOp::ConsOp(lhs, rhs), rtysv, r1);
                lemma_ops_added_compose(*l, l1, l0);
                assert(rhs == ops_added(*l, l0)[0].results@[0]);
            }
            Ok(())
        },
        _ => {
            match runtime_for_op(d.op) {
                Some(rf) => {
                    let ghost r0 = l.tb.f.values@.len() as int;
                    let rhs = match l.const_to_constant(dfg.constant(d.imm)) {
                        Ok(tv) => tv,
                        Err(e) => {
                            return Err(e);
                        },
                    };
                    let ghost l1 = *l;
                    mb.get_or_declare_function(FuncSymbol::Runtime(rf), None, false);
                    let op = call2_op(FuncSymbol::Runtime(rf), lhs, rhs);
                    let ghost opv = op;
                    let ghost r1 = l.tb.f.values@.len() as int;
                    let ghost rtysv = rtys@;
                    l.emit(op, rtys, results);
                    proof {
                        lemma_ops_added_single(
                            l1,
                            l0,
                            pooled_const_op(item),
                            seq![crate::translate::pooled_const_ty(item)],
                            r0,
                        );
                        lemma_ops_added_single(*l, l1, opv, rtysv, r1);
                        lemma_ops_added_compose(*l, l1, l0);
                        assert(rhs == ops_added(*l, l0)[0].results@[0]);
                    }
                    Ok(())
                },
                None => Err(LowerError::Unsupported),
            }
        },
    }
}

/// Lowers a two-arity return: succeeds exactly when both operands
/// are mapped and the function declares the two-value result pair;
/// the emitted return carries, for each slot, the mapped operand
/// itself when its type already matches the declared result type and
/// a fresh cast of it otherwise.
pub fn build_ret(l: &mut FunctionLowering, d: &Ret) -> (r: Result<(), LowerError>)
    requires
        old(l).ready(),
    ensures
        match r {
            Ok(_) => final(l).inst_step(*old(l), true),
            Err(_) => final(l).inst_step(*old(l), false),
        },
        r is Ok <==> old(l).is_mapped(d.args.0) && old(l).is_mapped(d.args.1) && old(
            l,
        ).tb.f.result_tys@.len() == 2,
        match r {
            Ok(_) => {
                let added = ops_added(*final(l), *old(l));
                &&& added.len() >= 1
                &&& (match added.last().op {
                    TxOp::ReturnOp(v) => {
                        &&& v@.len() == 2
                        &&& ret_arg_ok(
                            *final(l),
                            *old(l),
                            old(l).mapped(d.args.0),
                            final(l).tb.f.result_tys@[0],
                            v@[0],
                        )
                        &&& ret_arg_ok(
                            *final(l),
                            *old(l),
                            old(l).mapped(d.args.1),
                            final(l).tb.f.result_tys@[1],
                            v@[1],
                        )
                    },
                    _ => false,
                })
            },
            Err(e) => e == LowerError::StructuralViolation,
        },
{
    let ghost l0 = *l;
    let a0 = match l.map_value(d.args.0) {
        Ok(tv) => tv,
        Err(e) => {
            return Err(e);
        },
    };
    let a1 = match l.map_value(d.args.1) {
        Ok(tv) => tv,
        Err(e) => {
            return Err(e);
        },
    };
    if l.tb.f.result_tys.len() != 2 {
        return Err(LowerError::StructuralViolation);
    }
    let mut args: Vec<TxValue> = Vec::new();
    args.push(a0);
    args.push(a1);
    proof {
        assert(args@ =~= seq![a0, a1]);
    }
    let out = l.coerce_rets(&args);
    let ghost l2 = *l;
    let ghost outv = out@;
    let ghost opv = TxOp::ReturnOp(out);
    l.tb.push_op(TxOp::ReturnOp(out), Vec::new());
    proof {
        lemma_ops_added_single(*l, l2, opv, Seq::<CirType>::empty(), l2.tb.f.values@.len() as int);
        lemma_ops_added_compose(*l, l2, l0);
        assert(ops_added(*l, l0).last() == ops_added(*l, l2)[0]);
    }
    Ok(())
}

/// Lowers a return whose is-error flag is an immediate: the flag is
/// materialized as a constant first, and both the flag and the mapped
/// payload are cast to the function's result types where needed. The
/// two-value result convention stands: the flag slot first, the
/// payload second.
pub fn build_ret_imm(l: &mut FunctionLowering, d: &RetImm) -> (r: Result<(), LowerError>)
    requires
        old(l).ready(),
    ensures
        match r {
            Ok(_) => final(l).inst_step(*old(l), true),
            Err(_) => final(l).inst_step(*old(l), false),
        },
        r is Ok <==> old(l).is_mapped(d.arg) && old(l).tb.f.result_tys@.len() == 2,
        match r {
            Ok(_) => {
                let added = ops_added(*final(l), *old(l));
                &&& added.len() >= 2
                &&& added[0].op == imm_const_op(d.imm)
                &&& added[0].results@.len() == 1
                &&& (match added.last().op {
                    TxOp::ReturnOp(v) => {
                        &&& v@.len() == 2
                        &&& ret_arg_ok(
                            *final(l),
                            *old(l),
                            added[0].results@[0],
                            final(l).tb.f.result_tys@[0],
                            v@[0],
                        )
                        &&& ret_arg_ok(
                            *final(l),
                            *old(l),
                            old(l).mapped(d.arg),
                            final(l).tb.f.result_tys@[1],
                            v@[1],
                        )
                    },
                    _ => false,
                })
            },
            Err(e) => e == LowerError::StructuralViolation,
        },
{
    let ghost l0 = *l;
    let a1 = match l.map_value(d.arg) {
        Ok(tv) => tv,
        Err(e) => {
            return Err(e);
        },
    };
    if l.tb.f.result_tys.len() != 2 {
        return Err(LowerError::StructuralViolation);
    }
    let a0 = l.immediate_to_constant(d.imm);
    let ghost l1 = *l;
    let mut args: Vec<TxValue> = Vec::new();
    args.push(a0);
    args.push(a1);
    proof {
        assert(args@ =~= seq![a0, a1]);
        lemma_ops_added_single(
            l1,
            l0,
            imm_const_op(d.imm),
            seq![crate::translate::imm_const_ty(d.imm)],
            l0.tb.f.values@.len() as int,
        );
    }
    let out = l.coerce_rets(&args);
    let ghost l2 = *l;
    let ghost outv = out@;
    let ghost opv = TxOp::ReturnOp(out);
    l.tb.push_op(TxOp::ReturnOp(out), Vec::new());
    proof {
        lemma_ops_added_single(*l, l2, opv, Seq::<CirType>::empty(), l2.tb.f.values@.len() as int);
        lemma_ops_added_compose(l2, l1, l0);
        lemma_ops_added_compose(*l, l2, l0);
        assert(ops_added(*l, l0)[0] == ops_added(l1, l0)[0]);
        assert(ops_added(*l, l0).last() == ops_added(*l, l2)[0]);
        assert(a0 == ops_added(*l, l0)[0].results@[0]);
    }
    Ok(())
}

/// Lowers a branch. An unconditional branch jumps to the mapped
/// destination with its arguments coerced to the destination's
/// parameter types: each is passed unchanged exactly when its type
/// already matches, and a fresh cast result stands in otherwise. The
/// conditional forms split the current block: the emitted conditional
/// branch targets the mapped destination on its taken edge and a
/// fresh, empty continuation block (in which building continues) on
/// the other, with the edges swapped for the branch-unless form; the
/// condition is cast to i1 when needed.
pub fn build_br(l: &mut FunctionLowering, d: &Br) -> (r: Result<(), LowerError>)
    requires
        old(l).ready(),
        d.destination.0 < old(l).blocks_map@.len(),
    ensures
        match r {
            Ok(_) => final(l).inst_step(
                *old(l),
                d.op == Opcode::Br,
            ),
            Err(_) => final(l).inst_step(*old(l), false),
        },
        d.op == Opcode::Br ==> {
            let dest = old(l).blocks_map@[d.destination.0 as int] as int;
            &&& (r is Ok <==> old(l).all_mapped(d.args@) && d.args@.len() == old(
                l,
            ).tb.f.blocks@[dest].params@.len())
            &&& (match r {
                Ok(_) => {
                    let added = ops_added(*final(l), *old(l));
                    &&& added.len() >= 1
                    &&& (match added.last().op {
                        TxOp::BranchOp(b, v) => b as int == dest && branch_args_agree(
                            *old(l),
                            mapped_seq(*old(l), d.args@),
                            dest,
                            v@,
                        ),
                        _ => false,
                    })
                },
                Err(e) => e == LowerError::StructuralViolation,
            })
        },
        (d.op == Opcode::BrIf || d.op == Opcode::BrUnless) ==> {
            let dest = old(l).blocks_map@[d.destination.0 as int] as int;
            &&& (r is Ok <==> old(l).all_mapped(d.args@) && d.args@.len() >= 1 && d.args@.len()
                - 1 == old(l).tb.f.blocks@[dest].params@.len())
            &&& (match r {
                Ok(_) => {
                    let added = ops_added(*final(l), *old(l));
                    let split = final(l).tb.position as int;
                    let cond = old(l).mapped(d.args@[0]);
                    &&& split >= old(l).tb.f.blocks@.len()
                    &&& final(l).tb.f.blocks@[split].params@.len() == 0
                    &&& added.len() >= 1
                    &&& (match added.last().op {
                        TxOp::CondBranchOp(c, td, ta, ed, ea) => {
                            &&& cir_eq_spec(final(l).tb.f.value_ty(c), CirType::I1)
                            &&& (cir_eq_spec(final(l).tb.f.value_ty(cond), CirType::I1)
                                ==> c == cond)
                            &&& if d.op == Opcode::BrIf {
                                &&& td as int == dest
                                &&& ed as int == split
                                &&& ea@.len() == 0
                                &&& branch_args_agree(
                                    *old(l),
                                    mapped_seq(*old(l), d.args@).skip(1),
                                    dest,
                                    ta@,
                                )
                            } else {
                                &&& ed as int == dest
                                &&& td as int == split
                                &&& ta@.len() == 0
                                &&& branch_args_agree(
                                    *old(l),
                                    mapped_seq(*old(l), d.args@).skip(1),
                                    dest,
                                    ea@,
                                )
                            }
                        },
                        _ => false,
                    })
                },
                Err(e) => e == LowerError::StructuralViolation,
            })
        },
        !(d.op == Opcode::Br || d.op == Opcode::BrIf || d.op == Opcode::BrUnless) ==> r is Err
            && (old(l).all_mapped(d.args@) ==> r == Err::<(), LowerError>(
            LowerError::Unsupported,
        )),
{
    let ghost l0 = *l;
    let dest = self_dest(l, d.destination.0);
    let mapped = match l.map_values(&d.args) {
        Ok(ts) => ts,
        Err(e) => {
            return Err(e);
        },
    };
    proof {
        assert(mapped@ =~= mapped_seq(l0, d.args@));
    }
    match d.op {
        Opcode::Br => {
            if mapped.len() != l.tb.f.blocks[dest].params.len() {
                return Err(LowerError::StructuralViolation);
            }
            let out = l.coerce_args_to_params(&mapped, dest);
            let ghost l2 = *l;
            let ghost outv = out@;
            let ghost opv = TxOp::BranchOp(dest, out);
            l.tb.push_op(TxOp::BranchOp(dest, out), Vec::new());
            proof {
                lemma_ops_added_single(
                    *l,
                    l2,
                    opv,
                    Seq::<CirType>::empty(),
                    l2.tb.f.values@.len() as int,
                );
                lemma_ops_added_compose(*l, l2, l0);
                assert(ops_added(*l, l0).last() == ops_added(*l, l2)[0]);
                assert(branch_args_agree(l0, mapped@, dest as int, outv));
            }
            Ok(())
        },
        Opcode::BrIf | Opcode::BrUnless => {
            if mapped.len() == 0 {
                return Err(LowerError::StructuralViolation);
            }
            let cond = mapped[0];
            let mut rest: Vec<TxValue> = Vec::new();
            let n = mapped.len();
            let mut i: usize = 1;
            #[verifier::loop_isolation(false)]
            while i < n
                invariant
                    1 <= i <= n,
                    rest@.len() == i - 1,
                    forall|j: int| #![auto] 0 <= j < i - 1 ==> rest@[j] == mapped@[j + 1],
                decreases n - i,
            {
                rest.push(mapped[i]);
                i += 1;
            }
            proof {
                assert(rest@ =~= mapped@.skip(1));
            }
            if rest.len() != l.tb.f.blocks[dest].params.len() {
                return Err(LowerError::StructuralViolation);
            }
            let split = l.tb.create_block(Vec::new());
            let cond2 = l.coerce_to(cond, &CirType::I1);
            let ghost lc = *l;
            let out = l.coerce_args_to_params(&rest, dest);
            proof {
                assert(l0.tb.f.block_wf(dest as int));
                assert forall|k: int|
                    0 <= k < rest@.len() implies lc.tb.f.value_ty(rest@[k]) == l0.tb.f.value_ty(
                    rest@[k],
                ) && lc.tb.f.value_ty(lc.tb.f.blocks@[dest as int].params@[k])
                    == l0.tb.f.value_ty(l0.tb.f.blocks@[dest as int].params@[k]) by {
                    assert(rest@[k].0 < l0.tb.f.values@.len());
                }
            }
            let empty: Vec<TxValue> = Vec::new();
            let is_if = matches!(d.op, Opcode::BrIf);
            let ghost l2 = *l;
            let ghost outv = out@;
            if is_if {
                let ghost opv = TxOp::CondBranchOp(cond2, dest, out, split, empty);
                l.tb.push_op(TxOp::CondBranchOp(cond2, dest, out, split, empty), Vec::new());
                proof {
                    lemma_ops_added_single(
                        *l,
                        l2,
                        opv,
                        Seq::<CirType>::empty(),
                        l2.tb.f.values@.len() as int,
                    );
                    lemma_ops_added_compose(*l, l2, l0);
                    assert(ops_added(*l, l0).last() == ops_added(*l, l2)[0]);
                    assert(branch_args_agree(l0, mapped@.skip(1), dest as int, outv));
                }
            } else {
                let ghost opv = TxOp::CondBranchOp(cond2, split, empty, dest, out);
                l.tb.push_op(TxOp::CondBranchOp(cond2, split, empty, dest, out), Vec::new());
                proof {
                    lemma_ops_added_single(
                        *l,
                        l2,
                        opv,
                        Seq::<CirType>::empty(),
                        l2.tb.f.values@.len() as int,
                    );
                    lemma_ops_added_compose(*l, l2, l0);
                    assert(ops_added(*l, l0).last() == ops_added(*l, l2)[0]);
                    assert(branch_args_agree(l0, mapped@.skip(1), dest as int, outv));
                }
            }
            l.tb.switch_to_block(split);
            Ok(())
        },
        _ => Err(LowerError::Unsupported),
    }
}

/// Lowers a runtime type test against the translated static type;
/// succeeds exactly when the tested value is mapped.
pub fn build_is_type(
    mb: &ModuleBuilder,
    l: &mut FunctionLowering,
    sigs: &Vec<Signature>,
    d: &IsTypeData,
    results: &Vec<Value>,
    rtys: Vec<CirType>,
) -> (r: Result<(), LowerError>)
    requires
        old(l).ready(),
        rtys@.len() == results@.len(),
        results_ok(results@, old(l).values_map@.len()),
    ensures
        final(l).inst_step(*old(l), false),
        r is Ok <==> old(l).is_mapped(d.arg),
        match r {
            Ok(_) => {
                let added = ops_added(*final(l), *old(l));
                &&& added.len() == 1
                &&& (match added[0].op {
                    TxOp::IsTypeOp(a, t) => a == old(l).mapped(d.arg)
                        && crate::translate_types::type_tx(mb.nanboxed, sigs@, d.ty, t),
                    _ => false,
                })
                &&& results_follow(*final(l), results@, added[0])
            },
            Err(e) => e == LowerError::StructuralViolation,
        },
{
    let ghost l0 = *l;
    let input = match l.map_value(d.arg) {
        Ok(tv) => tv,
        Err(e) => {
            return Err(e);
        },
    };
    let ty = translate_ir_type(mb.nanboxed, sigs, &d.ty);
    let ghost tyv = ty;
    let op = TxOp::IsTypeOp(input, ty);
    let ghost opv = op;
    let ghost r0 = l.tb.f.values@.len() as int;
    let ghost rtysv = rtys@;
    l.emit(op, rtys, results);
    proof {
        lemma_ops_added_single(*l, l0, opv, rtysv, r0);
    }
    Ok(())
}

/// Lowers a primitive operation: a failed match raises an error with
/// a captured stack trace, receive operations map to their dialect
/// counterparts (the wait suspends via a cooperative yield), and the
/// exception accessors project their field. Succeeds exactly when the
/// opcode and argument count are known and the read arguments are
/// mapped.
pub fn build_primop(
    l: &mut FunctionLowering,
    d: &PrimOp,
    results: &Vec<Value>,
    rtys: Vec<CirType>,
) -> (r: Result<(), LowerError>)
    requires
        old(l).ready(),
        rtys@.len() == results@.len(),
        results_ok(results@, old(l).values_map@.len()),
    ensures
        match r {
            Ok(_) => final(l).inst_step(
                *old(l),
                d.op == Opcode::Raise || d.op == Opcode::MatchFail,
            ),
            Err(_) => final(l).inst_step(*old(l), false),
        },
        r is Ok <==> primop_supported(d.op, d.args@.len() as int) && (primop_maps_args(d.op)
            ==> old(l).all_mapped(d.args@)),
        match r {
            Ok(_) => {
                let added = ops_added(*final(l), *old(l));
                if d.op == Opcode::MatchFail {
                    matchfail_emitted(*final(l), *old(l), old(l).mapped(d.args@[0]))
                } else if d.op == Opcode::Raise {
                    added.len() == 1 && primop_lowered(
                        d.op,
                        mapped_seq(*old(l), d.args@),
                        added[0].op,
                    )
                } else {
                    &&& added.len() == 1
                    &&& primop_lowered(d.op, mapped_seq(*old(l), d.args@), added[0].op)
                    &&& results_follow(*final(l), results@, added[0])
                }
            },
            Err(e) => if primop_known(d.op) {
                e == LowerError::StructuralViolation
            } else {
                e == LowerError::Unsupported
            },
        },
{
    let ghost l0 = *l;
    match d.op {
        Opcode::MatchFail => {
            if d.args.len() != 1 {
                return Err(LowerError::StructuralViolation);
            }
            let reason = match l.map_value(d.args[0]) {
                Ok(tv) => tv,
                Err(e) => {
                    return Err(e);
                },
            };
            l.emit_match_fail(reason);
            Ok(())
        },
        Opcode::Raise => {
            if d.args.len() != 3 {
                return Err(LowerError::StructuralViolation);
            }
            let class = match l.map_value(d.args[0]) {
                Ok(tv) => tv,
                Err(e) => {
                    return Err(e);
                },
            };
            let reason = match l.map_value(d.args[1]) {
                Ok(tv) => tv,
                Err(e) => {
                    return Err(e);
                },
            };
            let trace = match l.map_value(d.args[2]) {
                Ok(tv) => tv,
                Err(e) => {
                    return Err(e);
                },
            };
            let ghost opv = TxOp::RaiseOp(class, reason, trace);
            l.tb.push_op(TxOp::RaiseOp(class, reason, trace), Vec::new());
            proof {
                lemma_ops_added_single(
                    *l,
                    l0,
                    opv,
                    Seq::<CirType>::empty(),
                    l0.tb.f.values@.len() as int,
                );
            }
            Ok(())
        },
        Opcode::RecvStart | Opcode::RecvNext | Opcode::RecvPeek | Opcode::RecvPop
            | Opcode::ExceptionClass | Opcode::ExceptionReason | Opcode::ExceptionTrace => {
            if d.args.len() != 1 {
                return Err(LowerError::StructuralViolation);
            }
            let a = match l.map_value(d.args[0]) {
                Ok(tv) => tv,
                Err(e) => {
                    return Err(e);
                },
            };
            let op: TxOp = match d.op {
                Opcode::RecvStart => TxOp::RecvStartOp(a),
                Opcode::RecvNext => TxOp::RecvNextOp(a),
                Opcode::RecvPeek => TxOp::RecvNextOp(a),
                Opcode::RecvPop => TxOp::RecvPopOp(a),
                Opcode::ExceptionClass => TxOp::ExceptionClassOp(a),
                Opcode::ExceptionReason => TxOp::ExceptionReasonOp(a),
                _ => TxOp::ExceptionTraceOp(a),
            };
            let ghost opv = op;
            let ghost r0 = l.tb.f.values@.len() as int;
            let ghost rtysv = rtys@;
            l.emit(op, rtys, results);
            proof {
                lemma_ops_added_single(*l, l0, opv, rtysv, r0);
            }
            Ok(())
        },
        Opcode::RecvWait => {
            let ghost r0 = l.tb.f.values@.len() as int;
            let ghost rtysv = rtys@;
            l.emit(TxOp::YieldOp, rtys, results);
            proof {
                lemma_ops_added_single(*l, l0, TxOp::YieldOp, rtysv, r0);
            }
            Ok(())
        },
        Opcode::BuildStacktrace => {
            let ghost r0 = l.tb.f.values@.len() as int;
            let ghost rtysv = rtys@;
            l.emit(TxOp::StacktraceOp, rtys, results);
            proof {
                lemma_ops_added_single(*l, l0, TxOp::StacktraceOp, rtysv, r0);
            }
            Ok(())
        },
        _ => Err(LowerError::Unsupported),
    }
}

/// Lowers a primitive operation with an immediate argument: a failed
/// match raises over the materialized reason, a raise takes its class
/// from the immediate, and a receive start takes its timeout from it.
pub fn build_primop_imm(
    l: &mut FunctionLowering,
    d: &PrimOpImm,
    results: &Vec<Value>,
    rtys: Vec<CirType>,
) -> (r: Result<(), LowerError>)
    requires
        old(l).ready(),
        rtys@.len() == results@.len(),
        results_ok(results@, old(l).values_map@.len()),
    ensures
        match r {
            Ok(_) => final(l).inst_step(
                *old(l),
                d.op == Opcode::Raise || d.op == Opcode::MatchFail,
            ),
            Err(_) => final(l).inst_step(*old(l), false),
        },
        r is Ok <==> match d.op {
            Opcode::MatchFail => true,
            Opcode::Raise => d.args@.len() == 3 && old(l).is_mapped(d.args@[1]) && old(
                l,
            ).is_mapped(d.args@[2]),
            Opcode::RecvStart => true,
            Opcode::BuildStacktrace => true,
            _ => false,
        },
        match r {
            Ok(_) => {
                let added = ops_added(*final(l), *old(l));
                match d.op {
                    Opcode::MatchFail => {
                        &&& added.len() == 4
                        &&& added[0].op == imm_const_op(d.imm)
                        &&& added[0].results@.len() == 1
                        &&& added[1].op == TxOp::ConstAtom(crate::span::SYM_ERROR)
                        &&& added[1].results@.len() == 1
                        &&& added[2].op == TxOp::StacktraceOp
                        &&& added[2].results@.len() == 1
                        &&& added[3].op == TxOp::RaiseOp(
                            added[1].results@[0],
                            added[0].results@[0],
                            added[2].results@[0],
                        )
                    },
                    Opcode::Raise => {
                        &&& added.len() == 2
                        &&& added[0].op == imm_const_op(d.imm)
                        &&& added[0].results@.len() == 1
                        &&& added[1].op == TxOp::RaiseOp(
                            added[0].results@[0],
                            old(l).mapped(d.args@[1]),
                            old(l).mapped(d.args@[2]),
                        )
                    },
                    Opcode::RecvStart => {
                        &&& added.len() == 2
                        &&& added[0].op == imm_const_op(d.imm)
                        &&& added[0].results@.len() == 1
                        &&& added[1].op == TxOp::RecvStartOp(added[0].results@[0])
                        &&& results_follow(*final(l), results@, added[1])
                    },
                    _ => {
                        &&& added.len() == 1
                        &&& added[0].op == TxOp::StacktraceOp
                        &&& results_follow(*final(l), results@, added[0])
                    },
                }
            },
            Err(e) => if d.op == Opcode::Raise {
                e == LowerError::StructuralViolation
            } else {
                e == LowerError::Unsupported
            },
        },
{
    let ghost l0 = *l;
    match d.op {
        Opcode::MatchFail => {
            let ghost r0 = l.tb.f.values@.len() as int;
            let reason = l.immediate_to_constant(d.imm);
            let ghost l1 = *l;
            l.emit_match_fail(reason);
            proof {
                lemma_ops_added_single(
                    l1,
                    l0,
                    imm_const_op(d.imm),
                    seq![crate::translate::imm_const_ty(d.imm)],
                    r0,
                );
                lemma_ops_added_compose(*l, l1, l0);
                assert(reason == ops_added(*l, l0)[0].results@[0]);
            }
            Ok(())
        },
        Opcode::Raise => {
            if d.args.len() != 3 {
                return Err(LowerError::StructuralViolation);
            }
            let reason = match l.map_value(d.args[1]) {
                Ok(tv) => tv,
                Err(e) => {
                    return Err(e);
                },
            };
            let trace = match l.map_value(d.args[2]) {
                Ok(tv) => tv,
                Err(e) => {
                    return Err(e);
                },
            };
            let ghost r0 = l.tb.f.values@.len() as int;
            let class = l.immediate_to_constant(d.imm);
            let ghost l1 = *l;
            let ghost opv = TxOp::RaiseOp(class, reason, trace);
            l.tb.push_op(TxOp::RaiseOp(class, reason, trace), Vec::new());
            proof {
                lemma_ops_added_single(
                    l1,
                    l0,
                    imm_const_op(d.imm),
                    seq![crate::translate::imm_const_ty(d.imm)],
                    r0,
                );
                lemma_ops_added_single(
                    *l,
                    l1,
                    opv,
                    Seq::<CirType>::empty(),
                    l1.tb.f.values@.len() as int,
                );
                lemma_ops_added_compose(*l, l1, l0);
                assert(class == ops_added(*l, l0)[0].results@[0]);
            }
            Ok(())
        },
        Opcode::RecvStart => {
            let ghost r0 = l.tb.f.values@.len() as int;
            let a = l.immediate_to_constant(d.imm);
            let ghost l1 = *l;
            let ghost opv = TxOp::RecvStartOp(a);
            let ghost r1 = l.tb.f.values@.len() as int;
            let ghost rtysv = rtys@;
            l.emit(TxOp::RecvStartOp(a), rtys, results);
            proof {
                lemma_ops_added_single(
                    l1,
                    l0,
                    imm_const_op(d.imm),
                    seq![crate::translate::imm_const_ty(d.imm)],
                    r0,
                );
                lemma_ops_added_single(*l, l1, opv, rtysv, r1);
                lemma_ops_added_compose(*l, l1, l0);
                assert(a == ops_added(*l, l0)[0].results@[0]);
            }
            Ok(())
        },
        Opcode::BuildStacktrace => {
            let ghost r0 = l.tb.f.values@.len() as int;
            let ghost rtysv = rtys@;
            l.emit(TxOp::StacktraceOp, rtys, results);
            proof {
                lemma_ops_added_single(*l, l0, TxOp::StacktraceOp, rtysv, r0);
            }
            Ok(())
        },
        _ => Err(LowerError::Unsupported),
    }
}

/// Lowers a direct call: the callee's fully qualified symbol is
/// looked up in the signature registry and declared lazily, and the
/// mapped arguments are passed in order. Tail calls are not lowerable
/// by the minimal lowerer.
pub fn build_call(
    mb: &mut ModuleBuilder,
    l: &mut FunctionLowering,
    sigs: &Vec<Signature>,
    d: &Call,
    results: &Vec<Value>,
    rtys: Vec<CirType>,
) -> (r: Result<(), LowerError>)
    requires
        old(l).ready(),
        rtys@.len() == results@.len(),
        results_ok(results@, old(l).values_map@.len()),
    ensures
        final(l).inst_step(*old(l), false),
        r is Ok ==> d.op == Opcode::Call,
        r is Ok <==> d.op == Opcode::Call && (d.callee.0 as int) < sigs@.len() && old(
            l,
        ).all_mapped(d.args@),
        match r {
            Ok(_) => {
                let sig = sigs@[d.callee.0 as int];
                let sym = FuncSymbol::Mfa(sig.module, sig.name, sig.arity);
                let added = ops_added(*final(l), *old(l));
                &&& added.len() == 1
                &&& is_call_args(added[0].op, sym, mapped_seq(*old(l), d.args@))
                &&& results_follow(*final(l), results@, added[0])
                &&& exists|h: int| #![auto]
                    0 <= h < final(mb).declared@.len() && final(mb).declared@[h].symbol == sym
            },
            Err(e) => if d.op != Opcode::Call {
                e == LowerError::Unsupported
            } else {
                e == LowerError::StructuralViolation
            },
        },
{
    let ghost l0 = *l;
    if !matches!(d.op, Opcode::Call) {
        return Err(LowerError::Unsupported);
    }
    if (d.callee.0 as usize) >= sigs.len() {
        return Err(LowerError::StructuralViolation);
    }
    let sig = &sigs[d.callee.0 as usize];
    let sym = FuncSymbol::Mfa(sig.module, sig.name, sig.arity);
    let fty = crate::translate_types::signature_to_fn_type(mb.nanboxed, sig);
    let is_public = matches!(sig.visibility, crate::function::Visibility::Public);
    let h = mb.get_or_declare_function(sym, Some(fty), is_public);
    let mapped = match l.map_values(&d.args) {
        Ok(ts) => ts,
        Err(e) => {
            return Err(e);
        },
    };
    proof {
        assert(mapped@ =~= mapped_seq(l0, d.args@));
    }
    let op = TxOp::CallOp(sym, mapped);
    let ghost opv = op;
    let ghost r0 = l.tb.f.values@.len() as int;
    let ghost rtysv = rtys@;
    l.emit(op, rtys, results);
    proof {
        lemma_ops_added_single(*l, l0, opv, rtysv, r0);
    }
    Ok(())
}

/// Lowers an indirect call through a fun value, passing the mapped
/// arguments in order. Indirect tail calls are not lowerable by the
/// minimal lowerer.
pub fn build_call_indirect(
    l: &mut FunctionLowering,
    d: &CallIndirect,
    results: &Vec<Value>,
    rtys: Vec<CirType>,
) -> (r: Result<(), LowerError>)
    requires
        old(l).ready(),
        rtys@.len() == results@.len(),
        results_ok(results@, old(l).values_map@.len()),
    ensures
        final(l).inst_step(*old(l), false),
        r is Ok ==> d.op == Opcode::CallIndirect,
        r is Ok <==> d.op == Opcode::CallIndirect && old(l).is_mapped(d.callee) && old(
            l,
        ).all_mapped(d.args@),
        match r {
            Ok(_) => {
                let added = ops_added(*final(l), *old(l));
                &&& added.len() == 1
                &&& is_call_indirect_args(
                    added[0].op,
                    old(l).mapped(d.callee),
                    mapped_seq(*old(l), d.args@),
                )
                &&& results_follow(*final(l), results@, added[0])
            },
            Err(e) => if d.op != Opcode::CallIndirect {
                e == LowerError::Unsupported
            } else {
                e == LowerError::StructuralViolation
            },
        },
{
    let ghost l0 = *l;
    if !matches!(d.op, Opcode::CallIndirect) {
        return Err(LowerError::Unsupported);
    }
    let callee = match l.map_value(d.callee) {
        Ok(tv) => tv,
        Err(e) => {
            return Err(e);
        },
    };
    let mapped = match l.map_values(&d.args) {
        Ok(ts) => ts,
        Err(e) => {
            return Err(e);
        },
    };
    proof {
        assert(mapped@ =~= mapped_seq(l0, d.args@));
    }
    let op = TxOp::CallIndirectOp(callee, mapped);
    let ghost opv = op;
    let ghost r0 = l.tb.f.values@.len() as int;
    let ghost rtysv = rtys@;
    l.emit(op, rtys, results);
    proof {
        lemma_ops_added_single(*l, l0, opv, rtysv, r0);
    }
    Ok(())
}

/// Lowers an element replacement whose new element is a value: the
/// index immediate is materialized and the dialect set-element is
/// emitted over the mapped tuple, the index constant and the mapped
/// value. The tuple's own mapping is untouched: the instruction
/// produces a new tuple value.
pub fn build_setelement(
    l: &mut FunctionLowering,
    d: &SetElement,
    results: &Vec<Value>,
    rtys: Vec<CirType>,
) -> (r: Result<(), LowerError>)
    requires
        old(l).ready(),
        rtys@.len() == results@.len(),
        results_ok(results@, old(l).values_map@.len()),
    ensures
        final(l).inst_step(*old(l), false),
        r is Ok <==> old(l).is_mapped(d.args.0) && old(l).is_mapped(d.args.1),
        match r {
            Ok(_) => {
                let added = ops_added(*final(l), *old(l));
                &&& added.len() == 2
                &&& added[0].op == imm_const_op(d.index)
                &&& added[0].results@.len() == 1
                &&& added[1].op == TxOp::SetElementOp(
                    old(l).mapped(d.args.0),
                    added[0].results@[0],
                    old(l).mapped(d.args.1),
                )
                &&& results_follow(*final(l), results@, added[1])
                &&& (!has_handle(results@, d.args.0.0 as int)
                    ==> final(l).values_map@[d.args.0.0 as int]
                    == old(l).values_map@[d.args.0.0 as int])
            },
            Err(e) => e == LowerError::StructuralViolation,
        },
{
    let ghost l0 = *l;
    let tuple = match l.map_value(d.args.0) {
        Ok(tv) => tv,
        Err(e) => {
            return Err(e);
        },
    };
    let value = match l.map_value(d.args.1) {
        Ok(tv) => tv,
        Err(e) => {
            return Err(e);
        },
    };
    let ghost r0 = l.tb.f.values@.len() as int;
    let index = l.immediate_to_constant(d.index);
    let ghost l1 = *l;
    let op = TxOp::SetElementOp(tuple, index, value);
    let ghost opv = op;
    let ghost r1 = l.tb.f.values@.len() as int;
    let ghost rtysv = rtys@;
    l.emit(op, rtys, results);
    proof {
        lemma_ops_added_single(
            l1,
            l0,
            imm_const_op(d.index),
            seq![crate::translate::imm_const_ty(d.index)],
            r0,
        );
        lemma_ops_added_single(*l, l1, opv, rtysv, r1);
        lemma_ops_added_compose(*l, l1, l0);
        assert(index == ops_added(*l, l0)[0].results@[0]);
    }
    Ok(())
}

/// Lowers an element replacement whose new element is an immediate:
/// both the index and the element are materialized first.
pub fn build_setelement_imm(
    l: &mut FunctionLowering,
    d: &SetElementImm,
    results: &Vec<Value>,
    rtys: Vec<CirType>,
) -> (r: Result<(), LowerError>)
    requires
        old(l).ready(),
        rtys@.len() == results@.len(),
        results_ok(results@, old(l).values_map@.len()),
    ensures
        final(l).inst_step(*old(l), false),
        r is Ok <==> old(l).is_mapped(d.arg),
        match r {
            Ok(_) => {
                let added = ops_added(*final(l), *old(l));
                &&& added.len() == 3
                &&& added[0].op == imm_const_op(d.index)
                &&& added[0].results@.len() == 1
                &&& added[1].op == imm_const_op(d.value)
                &&& added[1].results@.len() == 1
                &&& added[2].op == TxOp::SetElementOp(
                    old(l).mapped(d.arg),
                    added[0].results@[0],
                    added[1].results@[0],
                )
                &&& results_follow(*final(l), results@, added[2])
                &&& (!has_handle(results@, d.arg.0 as int)
                    ==> final(l).values_map@[d.arg.0 as int]
                    == old(l).values_map@[d.arg.0 as int])
            },
            Err(e) => e == LowerError::StructuralViolation,
        },
{
    let ghost l0 = *l;
    let tuple = match l.map_value(d.arg) {
        Ok(tv) => tv,
        Err(e) => {
            return Err(e);
        },
    };
    let ghost r0 = l.tb.f.values@.len() as int;
    let index = l.immediate_to_constant(d.index);
    let ghost l1 = *l;
    let ghost r1 = l.tb.f.values@.len() as int;
    let value = l.immediate_to_constant(d.value);
    let ghost l2 = *l;
    let op = TxOp::SetElementOp(tuple, index, value);
    let ghost opv = op;
    let ghost r2 = l.tb.f.values@.len() as int;
    let ghost rtysv = rtys@;
    l.emit(op, rtys, results);
    proof {
        lemma_ops_added_single(
            l1,
            l0,
            imm_const_op(d.index),
            seq![crate::translate::imm_const_ty(d.index)],
            r0,
        );
        lemma_ops_added_single(
            l2,
            l1,
            imm_const_op(d.value),
            seq![crate::translate::imm_const_ty(d.value)],
            r1,
        );
        lemma_ops_added_single(*l, l2, opv, rtysv, r2);
        lemma_ops_added_compose(l2, l1, l0);
        lemma_ops_added_compose(*l, l2, l0);
        assert(ops_added(*l, l0)[0] == ops_added(l1, l0)[0]);
        assert(ops_added(*l, l0)[1] == ops_added(l2, l1)[0]);
        assert(index == ops_added(*l, l0)[0].results@[0]);
        assert(value == ops_added(*l, l0)[1].results@[0]);
    }
    Ok(())
}

/// Lowers an element replacement whose new element is a pooled
/// constant: the index immediate and the pooled item are materialized
/// first. An item the minimal lowerer cannot materialize is
/// unsupported.
pub fn build_setelement_const(
    l: &mut FunctionLowering,
    dfg: &DataFlowGraph,
    d: &SetElementConst,
    results: &Vec<Value>,
    rtys: Vec<CirType>,
) -> (r: Result<(), LowerError>)
    requires
        old(l).ready(),
        dfg.valid_constant(d.value),
        rtys@.len() == results@.len(),
        results_ok(results@, old(l).values_map@.len()),
    ensures
        final(l).inst_step(*old(l), false),
        r is Ok <==> old(l).is_mapped(d.arg) && crate::translate::const_lowerable(
            dfg.constants@[d.value.0 as int],
        ),
        match r {
            Ok(_) => {
                let item = dfg.constants@[d.value.0 as int];
                let added = ops_added(*final(l), *old(l));
                &&& added.len() == 3
                &&& added[0].op == imm_const_op(d.index)
                &&& added[0].results@.len() == 1
                &&& added[1].op == pooled_const_op(item)
                &&& added[1].results@.len() == 1
                &&& added[2].op == TxOp::SetElementOp(
                    old(l).mapped(d.arg),
                    added[0].results@[0],
                    added[1].results@[0],
                )
                &&& results_follow(*final(l), results@, added[2])
            },
            Err(e) => if !old(l).is_mapped(d.arg) {
                e == LowerError::StructuralViolation
            } else {
                e == LowerError::Unsupported
            },
        },
{
    let ghost l0 = *l;
    let ghost item = dfg.constants@[d.value.0 as int];
    let tuple = match l.map_value(d.arg) {
        Ok(tv) => tv,
        Err(e) => {
            return Err(e);
        },
    };
    let ghost r0 = l.tb.f.values@.len() as int;
    let index = l.immediate_to_constant(d.index);
    let ghost l1 = *l;
    let ghost r1 = l.tb.f.values@.len() as int;
    let value = match l.const_to_constant(dfg.constant(d.value)) {
        Ok(tv) => tv,
        Err(e) => {
            return Err(e);
        },
    };
    let ghost l2 = *l;
    let op = TxOp::SetElementOp(tuple, index, value);
    let ghost opv = op;
    let ghost r2 = l.tb.f.values@.len() as int;
    let ghost rtysv = rtys@;
    l.emit(op, rtys, results);
    proof {
        lemma_ops_added_single(
            l1,
            l0,
            imm_const_op(d.index),
            seq![crate::translate::imm_const_ty(d.index)],
            r0,
        );
        lemma_ops_added_single(
            l2,
            l1,
            pooled_const_op(item),
            seq![crate::translate::pooled_const_ty(item)],
            r1,
        );
        lemma_ops_added_single(*l, l2, opv, rtysv, r2);
        lemma_ops_added_compose(l2, l1, l0);
        lemma_ops_added_compose(*l, l2, l0);
        assert(ops_added(*l, l0)[0] == ops_added(l1, l0)[0]);
        assert(ops_added(*l, l0)[1] == ops_added(l2, l1)[0]);
        assert(index == ops_added(*l, l0)[0].results@[0]);
        assert(value == ops_added(*l, l0)[1].results@[0]);
    }
    Ok(())
}

/// The destination block a source block maps to.
fn self_dest(l: &FunctionLowering, b: usize) -> (r: usize)
    requires
        l.inv(),
        b < l.blocks_map@.len(),
    ensures
        (r as int) < l.tb.f.blocks@.len(),
        r == l.blocks_map@[b as int],
{
    l.blocks_map[b]
}

} // verus!
