use vstd::prelude::*;
use crate::cir::{cir_clone, cir_eq, cir_eq_spec, lemma_cir_eq_transitive, CirType, FuncSymbol, RuntimeFn};
use crate::constant::{ConstantItem, Integer};
use crate::dfg::DataFlowGraph;
use crate::immediate::{Immediate, ImmediateTerm};
use crate::insts::{Opcode, Value};
use crate::span::SYM_ERROR;
use crate::txir::{TxBuilder, TxOp, TxValue};

verus! {

broadcast use vstd::std_specs::vec::group_vec_axioms, vstd::seq::group_seq_axioms;

/// Why a lowering step could not be completed: the construct is
/// recognized but not lowerable by the minimal lowerer, or a
/// structural invariant of the input was broken.
#[derive(Clone, Copy, Debug, PartialEq, Eq, Structural)]
pub enum LowerError {
    Unsupported,
    StructuralViolation,
}

/// One declared callee: its symbol, its dialect function type when
/// the signature is known (runtime built-ins are declared by symbol
/// alone, as their types belong to the runtime), and whether the
/// declaration is public. A declaration is public exactly when its
/// signature is public and not externally defined.
#[derive(Debug)]
pub struct DeclaredFn {
    pub symbol: FuncSymbol,
    pub ty: Option<CirType>,
    pub is_public: bool,
}

/// Module-wide lowering state: the target's term encoding and the
/// registry of lazily declared callee symbols.
#[derive(Debug)]
pub struct ModuleBuilder {
    pub nanboxed: bool,
    pub declared: Vec<DeclaredFn>,
}

impl ModuleBuilder {
    /// Creates a module builder for a target whose term encoding is
    /// NaN-boxed or not.
    pub fn new(nanboxed: bool) -> (mb: ModuleBuilder)
        ensures
            mb.nanboxed == nanboxed,
            mb.declared@.len() == 0,
    {
        ModuleBuilder { nanboxed, declared: Vec::new() }
    }

    /// Returns the handle of a callee symbol, declaring it on first
    /// use; declaring is idempotent by symbol, and the first
    /// declaration's type and visibility stand.
    #[verifier::loop_isolation(false)]
    pub fn get_or_declare_function(
        &mut self,
        sym: FuncSymbol,
        ty: Option<CirType>,
        is_public: bool,
    ) -> (h: usize)
        ensures
            final(self).nanboxed == old(self).nanboxed,
            (h as int) < final(self).declared@.len(),
            final(self).declared@[h as int].symbol == sym,
            forall|k: int| #![auto] 0 <= k < h ==> final(self).declared@[k].symbol != sym,
            if exists|j: int| #![auto]
                0 <= j < old(self).declared@.len() && old(self).declared@[j].symbol == sym {
                final(self).declared@ =~= old(self).declared@
            } else {
                &&& final(self).declared@.len() == old(self).declared@.len() + 1
                &&& (forall|j: int| #![auto]
                    0 <= j < old(self).declared@.len() ==> final(self).declared@[j] == old(
                        self,
                    ).declared@[j])
                &&& final(self).declared@.last().symbol == sym
                &&& final(self).declared@.last().ty == ty
                &&& final(self).declared@.last().is_public == is_public
            },
    {
        let n = self.declared.len();
        let mut i: usize = 0;
        while i < n
            invariant
                i <= n,
                forall|k: int| #![auto] 0 <= k < i ==> self.declared@[k].symbol != sym,
            decreases n - i,
        {
            if self.declared[i].symbol == sym {
                return i;
            }
            i += 1;
        }
        let h = self.declared.len();
        self.declared.push(DeclaredFn { symbol: sym, ty, is_public });
        h
    }
}

/// A value-map slot is absent or holds an in-bounds dialect value.
pub open spec fn slot_ok(s: Option<TxValue>, bound: nat) -> bool {
    match s {
        Some(tv) => tv.0 < bound,
        None => true,
    }
}

/// The dialect constant operation an immediate materializes as.
pub open spec fn imm_const_op(imm: Immediate) -> TxOp {
    match imm {
        Immediate::I1(b) => TxOp::ConstBool(b),
        Immediate::I8(i) => TxOp::ConstIsize(i as i64),
        Immediate::I16(i) => TxOp::ConstIsize(i as i64),
        Immediate::I32(i) => TxOp::ConstIsize(i as i64),
        Immediate::I64(i) => TxOp::ConstIsize(i),
        Immediate::Isize(i) => TxOp::ConstIsize(i as i64),
        Immediate::F64(bits) => TxOp::ConstFloat(bits),
        Immediate::Term(ImmediateTerm::Bool(b)) => TxOp::ConstBool(b),
        Immediate::Term(ImmediateTerm::Integer(i)) => TxOp::ConstIsize(i),
        Immediate::Term(ImmediateTerm::Float(bits)) => TxOp::ConstFloat(bits),
        Immediate::Term(ImmediateTerm::Atom(a)) => TxOp::ConstAtom(a),
        Immediate::Term(ImmediateTerm::Nil) => TxOp::ConstNil,
        Immediate::Term(ImmediateTerm::NoneVal) => TxOp::ConstNone,
    }
}

/// The dialect type of a materialized immediate.
pub open spec fn imm_const_ty(imm: Immediate) -> CirType {
    match imm {
        Immediate::I1(_) => CirType::I1,
        Immediate::I8(_) => CirType::I8,
        Immediate::I16(_) => CirType::I16,
        Immediate::I32(_) => CirType::I32,
        Immediate::I64(_) => CirType::I64,
        Immediate::Isize(_) => CirType::Index,
        Immediate::F64(_) => CirType::F64,
        Immediate::Term(ImmediateTerm::Bool(_)) => CirType::TermBool,
        Immediate::Term(ImmediateTerm::Integer(_)) => CirType::TermIsize,
        Immediate::Term(ImmediateTerm::Float(_)) => CirType::TermFloat,
        Immediate::Term(ImmediateTerm::Atom(_)) => CirType::TermAtom,
        Immediate::Term(ImmediateTerm::Nil) => CirType::TermNil,
        Immediate::Term(ImmediateTerm::NoneVal) => CirType::TermNone,
    }
}

/// The dialect constant operation a lowerable pooled constant
/// materializes as.
pub open spec fn pooled_const_op(item: ConstantItem) -> TxOp {
    match item {
        ConstantItem::Integer(Integer::Small(i)) => TxOp::ConstIsize(i),
        ConstantItem::Float(bits) => TxOp::ConstFloat(bits),
        ConstantItem::Bool(b) => TxOp::ConstBool(b),
        ConstantItem::Atom(a) => TxOp::ConstAtom(a),
        _ => TxOp::ConstNone,
    }
}

/// The dialect type of a materialized pooled constant.
pub open spec fn pooled_const_ty(item: ConstantItem) -> CirType {
    match item {
        ConstantItem::Integer(Integer::Small(_)) => CirType::TermIsize,
        ConstantItem::Float(_) => CirType::TermFloat,
        ConstantItem::Bool(_) => CirType::TermBool,
        ConstantItem::Atom(_) => CirType::TermAtom,
        _ => CirType::TermNone,
    }
}

/// A pooled constant the minimal lowerer can materialize: a small
/// integer, float, boolean or atom. Big integers and compound
/// constants are deferred.
pub open spec fn const_lowerable(item: ConstantItem) -> bool {
    match item {
        ConstantItem::Integer(Integer::Small(_)) => true,
        ConstantItem::Float(_) => true,
        ConstantItem::Bool(_) => true,
        ConstantItem::Atom(_) => true,
        _ => false,
    }
}

/// Some entry of the sequence carries the given raw value handle.
pub open spec fn has_handle(results: Seq<Value>, v: int) -> bool {
    exists|k: int| 0 <= k < results.len() && results[k].0 == v
}

/// Per-function lowering state: the dialect function under
/// construction and the maps from source blocks and values to their
/// dialect counterparts.
#[derive(Debug)]
pub struct FunctionLowering {
    pub tb: TxBuilder,
    pub blocks_map: Vec<usize>,
    pub values_map: Vec<Option<TxValue>>,
}

impl FunctionLowering {
    /// The dialect function is well formed and every mapped handle is
    /// in bounds.
    pub open spec fn inv(&self) -> bool {
        &&& self.tb.f.wf()
        &&& (self.tb.position as int) < self.tb.f.blocks@.len()
        &&& forall|i: int| #![auto]
            0 <= i < self.blocks_map@.len() ==> (self.blocks_map@[i] as int)
                < self.tb.f.blocks@.len()
        &&& forall|v: int| #![auto]
            0 <= v < self.values_map@.len() ==> slot_ok(
                self.values_map@[v],
                self.tb.f.values@.len(),
            )
    }

    /// The invariant holds and the current block is open.
    pub open spec fn ready(&self) -> bool {
        &&& self.inv()
        &&& !self.tb.f.blocks@[self.tb.position as int].filled
    }

    /// The state has only grown: the map domains are unchanged and the
    /// dialect function extends its previous self.
    pub open spec fn evolved(&self, prev: FunctionLowering) -> bool {
        &&& self.tb.grows_from(prev.tb)
        &&& self.blocks_map@ == prev.blocks_map@
        &&& self.values_map@.len() == prev.values_map@.len()
    }

    /// One lowering step that stayed in the current block: the state
    /// evolved, the position and block count are unchanged, and no
    /// other block was touched.
    pub open spec fn same_position_step(&self, prev: FunctionLowering) -> bool {
        &&& self.evolved(prev)
        &&& self.tb.position == prev.tb.position
        &&& self.tb.f.blocks@.len() == prev.tb.f.blocks@.len()
        &&& forall|b2: int| #![auto]
            0 <= b2 < prev.tb.f.blocks@.len() && b2 != prev.tb.position as int
                ==> self.tb.f.blocks@[b2] == prev.tb.f.blocks@[b2]
        &&& self.tb.f.blocks@[prev.tb.position as int].ops@.len()
            >= prev.tb.f.blocks@[prev.tb.position as int].ops@.len()
        &&& forall|j: int| #![auto]
            0 <= j < prev.tb.f.blocks@[prev.tb.position as int].ops@.len()
                ==> self.tb.f.blocks@[prev.tb.position as int].ops@[j]
                == prev.tb.f.blocks@[prev.tb.position as int].ops@[j]
    }

    /// The source value has a dialect mapping.
    pub open spec fn is_mapped(&self, v: Value) -> bool {
        v.0 < self.values_map@.len() && self.values_map@[v.0 as int] is Some
    }

    /// Every source value of the sequence has a dialect mapping.
    pub open spec fn all_mapped(&self, args: Seq<Value>) -> bool {
        forall|k: int| 0 <= k < args.len() ==> self.is_mapped(args[k])
    }

    /// The dialect value a mapped source value denotes.
    pub open spec fn mapped(&self, v: Value) -> TxValue {
        match self.values_map@[v.0 as int] {
            Some(tv) => tv,
            None => TxValue(0),
        }
    }

    /// The dialect value a source value is mapped to: the mapping is
    /// returned exactly when one was recorded, and a missing mapping
    /// is a structural violation.
    pub fn map_value(&self, v: Value) -> (r: Result<TxValue, LowerError>)
        requires
            self.inv(),
        ensures
            r is Ok <==> self.is_mapped(v),
            match r {
                Ok(tv) => tv == self.mapped(v) && tv.0 < self.tb.f.values@.len(),
                Err(e) => e == LowerError::StructuralViolation,
            },
    {
        if v.0 < self.values_map.len() {
            match self.values_map[v.0] {
                Some(tv) => Ok(tv),
                None => Err(LowerError::StructuralViolation),
            }
        } else {
            Err(LowerError::StructuralViolation)
        }
    }

    /// Maps a list of source values: succeeds exactly when every one
    /// has a recorded mapping, and then returns those mappings in
    /// order.
    #[verifier::loop_isolation(false)]
    pub fn map_values(&self, args: &Vec<Value>) -> (r: Result<Vec<TxValue>, LowerError>)
        requires
            self.inv(),
        ensures
            r is Ok <==> self.all_mapped(args@),
            match r {
                Ok(ts) => {
                    &&& self.tb.f.valid_values(ts@)
                    &&& ts@.len() == args@.len()
                    &&& forall|k: int| #![auto] 0 <= k < args@.len() ==> ts@[k] == self.mapped(args@[k])
                },
                Err(e) => e == LowerError::StructuralViolation,
            },
    {
        let mut out: Vec<TxValue> = Vec::new();
        let n = args.len();
        let mut i: usize = 0;
        while i < n
            invariant
                i <= n,
                out@.len() == i,
                forall|j: int| #![auto] 0 <= j < i ==> out@[j].0 < self.tb.f.values@.len(),
                forall|j: int| #![auto] 0 <= j < i ==> self.is_mapped(args@[j]),
                forall|j: int| #![auto] 0 <= j < i ==> out@[j] == self.mapped(args@[j]),
            decreases n - i,
        {
            match self.map_value(args[i]) {
                Ok(tv) => {
                    out.push(tv);
                    proof {
                        assert(self.is_mapped(args@[i as int]));
                        assert(out@[i as int] == self.mapped(args@[i as int]));
                    }
                },
                Err(e) => {
                    return Err(e);
                },
            }
            i += 1;
        }
        Ok(out)
    }

    /// Records the dialect values a source instruction's results map
    /// to: result `k` maps to dialect value `r0 + k`.
    #[verifier::loop_isolation(false)]
    pub fn define_results(&mut self, results: &Vec<Value>, r0: usize)
        requires
            old(self).inv(),
            forall|k: int| #![auto]
                0 <= k < results@.len() ==> results@[k].0 < old(self).values_map@.len(),
            forall|j1: int, j2: int| #![auto]
                0 <= j1 < j2 < results@.len() ==> results@[j1].0 != results@[j2].0,
            r0 + results@.len() <= old(self).tb.f.values@.len(),
        ensures
            final(self).inv(),
            final(self).tb == old(self).tb,
            final(self).blocks_map@ == old(self).blocks_map@,
            final(self).values_map@.len() == old(self).values_map@.len(),
            forall|k: int| #![auto]
                0 <= k < results@.len() ==> final(self).values_map@[results@[k].0 as int]
                    == Some(TxValue((r0 + k) as usize)),
            forall|v2: int| #![auto]
                0 <= v2 < old(self).values_map@.len() && !has_handle(results@, v2)
                    ==> final(self).values_map@[v2] == old(self).values_map@[v2],
    {
        proof {
            assert(vstd::std_specs::vec::spec_vec_len(&self.tb.f.values)
                == self.tb.f.values@.len());
        }
        let n = results.len();
        let mut k: usize = 0;
        while k < n
            invariant
                k <= n,
                self.tb == old(self).tb,
                self.blocks_map@ == old(self).blocks_map@,
                self.values_map@.len() == old(self).values_map@.len(),
                forall|v: int| #![auto]
                    0 <= v < self.values_map@.len() ==> slot_ok(
                        self.values_map@[v],
                        self.tb.f.values@.len(),
                    ),
                forall|j: int| #![auto]
                    0 <= j < k ==> self.values_map@[results@[j].0 as int] == Some(
                        TxValue((r0 + j) as usize),
                    ),
                forall|v2: int| #![auto]
                    0 <= v2 < old(self).values_map@.len() && !has_handle(results@, v2)
                        ==> self.values_map@[v2] == old(self).values_map@[v2],
            decreases n - k,
        {
            let tv = TxValue(r0 + k);
            let idx = results[k].0;
            self.values_map[idx] = Some(tv);
            proof {
                assert(has_handle(results@, idx as int)) by {
                    assert(results@[k as int].0 == idx);
                }
                assert forall|j: int|
                    0 <= j < k + 1 implies self.values_map@[results@[j].0 as int] == Some(
                    TxValue((r0 + j) as usize),
                ) by {
                    if j < k {
                        assert(results@[j].0 != results@[k as int].0);
                    }
                }
            }
            k += 1;
        }
    }

    /// Coerces a value to an expected type: when the value's type
    /// already matches structurally it is passed through unchanged and
    /// nothing is emitted; otherwise exactly one cast of it is
    /// appended, whose fresh result carries the expected type.
    pub fn coerce_to(&mut self, tv: TxValue, expected: &CirType) -> (r: TxValue)
        requires
            old(self).ready(),
            tv.0 < old(self).tb.f.values@.len(),
        ensures
            final(self).ready(),
            final(self).same_position_step(*old(self)),
            final(self).values_map@ == old(self).values_map@,
            r.0 < final(self).tb.f.values@.len(),
            cir_eq_spec(final(self).tb.f.value_ty(r), *expected),
            cir_eq_spec(old(self).tb.f.value_ty(tv), *expected)
                ==> final(self).tb == old(self).tb && r == tv,
            !cir_eq_spec(old(self).tb.f.value_ty(tv), *expected)
                ==> r.0 == old(self).tb.f.values@.len() && (exists|c: CirType|
                cir_eq_spec(c, *expected) && final(self).tb.appended_op(
                    old(self).tb,
                    TxOp::CastOp(tv),
                    seq![c],
                    r.0 as int,
                )),
    {
        let same = cir_eq(&self.tb.f.values[tv.0], expected);
        if same {
            tv
        } else {
            let c = cir_clone(expected);
            proof {
                crate::cir::lemma_cir_eq_symmetric(c, *expected);
            }
            let r0 = self.tb.push_op(TxOp::CastOp(tv), vec![c]);
            TxValue(r0)
        }
    }

    /// Coerces already mapped branch arguments to the destination's
    /// parameter types, inserting casts where needed.
    #[verifier::loop_isolation(false)]
    pub fn coerce_args_to_params(&mut self, args: &Vec<TxValue>, dest: usize) -> (r: Vec<TxValue>)
        requires
            old(self).ready(),
            old(self).tb.f.valid_values(args@),
            (dest as int) < old(self).tb.f.blocks@.len(),
            args@.len() == old(self).tb.f.blocks@[dest as int].params@.len(),
        ensures
            final(self).ready(),
            final(self).same_position_step(*old(self)),
            final(self).tb.f.valid_values(r@),
            final(self).tb.f.branch_args_ok(dest as int, r@),
            r@.len() == args@.len(),
            final(self).values_map@ == old(self).values_map@,
            forall|k: int| #![auto]
                0 <= k < args@.len() && cir_eq_spec(
                    old(self).tb.f.value_ty(args@[k]),
                    old(self).tb.f.value_ty(old(self).tb.f.blocks@[dest as int].params@[k]),
                ) ==> r@[k] == args@[k],
            forall|k: int| #![auto]
                0 <= k < r@.len() ==> r@[k] == args@[k] || r@[k].0 >= old(
                    self,
                ).tb.f.values@.len(),
    {
        let mut out: Vec<TxValue> = Vec::new();
        let n = args.len();
        let mut i: usize = 0;
        while i < n
            invariant
                i <= n,
                out@.len() == i,
                self.ready(),
                self.same_position_step(*old(self)),
                self.values_map@ == old(self).values_map@,
                forall|j: int| #![auto] 0 <= j < i ==> out@[j].0 < self.tb.f.values@.len(),
                forall|j: int| #![auto]
                    0 <= j < i ==> cir_eq_spec(
                        self.tb.f.value_ty(out@[j]),
                        self.tb.f.value_ty(self.tb.f.blocks@[dest as int].params@[j]),
                    ),
                forall|j: int| #![auto]
                    0 <= j < i && cir_eq_spec(
                        old(self).tb.f.value_ty(args@[j]),
                        old(self).tb.f.value_ty(
                            old(self).tb.f.blocks@[dest as int].params@[j],
                        ),
                    ) ==> out@[j] == args@[j],
                forall|j: int| #![auto]
                    0 <= j < i ==> out@[j] == args@[j] || out@[j].0 >= old(
                        self,
                    ).tb.f.values@.len(),
            decreases n - i,
        {
            let p = self.tb.f.blocks[dest].params[i];
            proof {
                assert(self.tb.f.block_wf(dest as int));
            }
            let expected = cir_clone(&self.tb.f.values[p.0]);
            let ghost pty = self.tb.f.value_ty(p);
            let ghost aty = self.tb.f.value_ty(args@[i as int]);
            let tv = self.coerce_to(args[i], &expected);
            proof {
                lemma_cir_eq_transitive(
                    self.tb.f.value_ty(tv),
                    expected,
                    self.tb.f.value_ty(self.tb.f.blocks@[dest as int].params@[i as int]),
                );
                assert(aty == old(self).tb.f.value_ty(args@[i as int]));
                assert(old(self).tb.f.block_wf(dest as int));
                assert(p == old(self).tb.f.blocks@[dest as int].params@[i as int]);
                assert(pty == old(self).tb.f.value_ty(
                    old(self).tb.f.blocks@[dest as int].params@[i as int],
                ));
                if cir_eq_spec(aty, pty) {
                    crate::cir::lemma_cir_eq_symmetric(expected, pty);
                    lemma_cir_eq_transitive(aty, pty, expected);
                    assert(tv == args@[i as int]);
                }
            }
            out.push(tv);
            i += 1;
        }
        out
    }

    /// Coerces already mapped return operands to the function's result
    /// types, inserting casts where needed.
    #[verifier::loop_isolation(false)]
    pub fn coerce_rets(&mut self, args: &Vec<TxValue>) -> (r: Vec<TxValue>)
        requires
            old(self).ready(),
            old(self).tb.f.valid_values(args@),
            args@.len() == old(self).tb.f.result_tys@.len(),
        ensures
            final(self).ready(),
            final(self).same_position_step(*old(self)),
            final(self).tb.f.valid_values(r@),
            r@.len() == final(self).tb.f.result_tys@.len(),
            forall|k: int| #![auto]
                0 <= k < r@.len() ==> cir_eq_spec(
                    final(self).tb.f.value_ty(r@[k]),
                    final(self).tb.f.result_tys@[k],
                ),
            final(self).values_map@ == old(self).values_map@,
            forall|k: int| #![auto]
                0 <= k < args@.len() && cir_eq_spec(
                    old(self).tb.f.value_ty(args@[k]),
                    old(self).tb.f.result_tys@[k],
                ) ==> r@[k] == args@[k],
            forall|k: int| #![auto]
                0 <= k < r@.len() ==> r@[k] == args@[k] || r@[k].0 >= old(
                    self,
                ).tb.f.values@.len(),
    {
        let mut out: Vec<TxValue> = Vec::new();
        let n = args.len();
        let mut i: usize = 0;
        while i < n
            invariant
                i <= n,
                out@.len() == i,
                self.ready(),
                self.same_position_step(*old(self)),
                self.values_map@ == old(self).values_map@,
                forall|j: int| #![auto] 0 <= j < i ==> out@[j].0 < self.tb.f.values@.len(),
                forall|j: int| #![auto]
                    0 <= j < i ==> cir_eq_spec(
                        self.tb.f.value_ty(out@[j]),
                        self.tb.f.result_tys@[j],
                    ),
                forall|j: int| #![auto]
                    0 <= j < i && cir_eq_spec(
                        old(self).tb.f.value_ty(args@[j]),
                        old(self).tb.f.result_tys@[j],
                    ) ==> out@[j] == args@[j],
                forall|j: int| #![auto]
                    0 <= j < i ==> out@[j] == args@[j] || out@[j].0 >= old(
                        self,
                    ).tb.f.values@.len(),
            decreases n - i,
        {
            let expected = cir_clone(&self.tb.f.result_tys[i]);
            let ghost rty = self.tb.f.result_tys@[i as int];
            let ghost aty = self.tb.f.value_ty(args@[i as int]);
            let tv = self.coerce_to(args[i], &expected);
            proof {
                lemma_cir_eq_transitive(
                    self.tb.f.value_ty(tv),
                    expected,
                    self.tb.f.result_tys@[i as int],
                );
                assert(aty == old(self).tb.f.value_ty(args@[i as int]));
                assert(rty == old(self).tb.f.result_tys@[i as int]);
                if cir_eq_spec(aty, rty) {
                    crate::cir::lemma_cir_eq_symmetric(expected, rty);
                    lemma_cir_eq_transitive(aty, rty, expected);
                    assert(tv == args@[i as int]);
                }
            }
            out.push(tv);
            i += 1;
        }
        out
    }

    /// Materializes an immediate as a dialect constant operation and
    /// returns its value.
    pub fn immediate_to_constant(&mut self, imm: Immediate) -> (r: TxValue)
        requires
            old(self).ready(),
        ensures
            final(self).ready(),
            final(self).same_position_step(*old(self)),
            r.0 < final(self).tb.f.values@.len(),
            final(self).values_map@ == old(self).values_map@,
            final(self).tb.appended_op(
                old(self).tb,
                imm_const_op(imm),
                seq![imm_const_ty(imm)],
                r.0 as int,
            ),
            final(self).tb.f.value_ty(r) == imm_const_ty(imm),
    {
        let (op, ty): (TxOp, CirType) = match imm {
            Immediate::I1(b) => (TxOp::ConstBool(b), CirType::I1),
            Immediate::I8(i) => (TxOp::ConstIsize(i as i64), CirType::I8),
            Immediate::I16(i) => (TxOp::ConstIsize(i as i64), CirType::I16),
            Immediate::I32(i) => (TxOp::ConstIsize(i as i64), CirType::I32),
            Immediate::I64(i) => (TxOp::ConstIsize(i), CirType::I64),
            Immediate::Isize(i) => (TxOp::ConstIsize(i as i64), CirType::Index),
            Immediate::F64(bits) => (TxOp::ConstFloat(bits), CirType::F64),
            Immediate::Term(ImmediateTerm::Bool(b)) => (TxOp::ConstBool(b), CirType::TermBool),
            Immediate::Term(ImmediateTerm::Integer(i)) => (
                TxOp::ConstIsize(i),
                CirType::TermIsize,
            ),
            Immediate::Term(ImmediateTerm::Float(bits)) => (
                TxOp::ConstFloat(bits),
                CirType::TermFloat,
            ),
            Immediate::Term(ImmediateTerm::Atom(a)) => (TxOp::ConstAtom(a), CirType::TermAtom),
            Immediate::Term(ImmediateTerm::Nil) => (TxOp::ConstNil, CirType::TermNil),
            Immediate::Term(ImmediateTerm::NoneVal) => (TxOp::ConstNone, CirType::TermNone),
        };
        let r0 = self.tb.push_op(op, vec![ty]);
        TxValue(r0)
    }

    /// Materializes a pooled constant as a dialect constant operation;
    /// big integers and compound constants are not lowerable by the
    /// minimal lowerer and are reported as unsupported.
    pub fn const_to_constant(&mut self, item: &ConstantItem) -> (r: Result<TxValue, LowerError>)
        requires
            old(self).ready(),
        ensures
            final(self).ready(),
            final(self).same_position_step(*old(self)),
            final(self).values_map@ == old(self).values_map@,
            match r {
                Ok(tv) => {
                    &&& tv.0 < final(self).tb.f.values@.len()
                    &&& const_lowerable(*item)
                    &&& tv.0 == old(self).tb.f.values@.len()
                    &&& final(self).tb.appended_op(
                        old(self).tb,
                        pooled_const_op(*item),
                        seq![pooled_const_ty(*item)],
                        tv.0 as int,
                    )
                },
                Err(e) => {
                    &&& e == LowerError::Unsupported
                    &&& !const_lowerable(*item)
                    &&& final(self).tb == old(self).tb
                },
            },
    {
        let (op, ty): (TxOp, CirType) = match item {
            ConstantItem::Integer(Integer::Small(i)) => (
                TxOp::ConstIsize(*i),
                CirType::TermIsize,
            ),
            ConstantItem::Integer(Integer::Big(_, _)) => {
                return Err(LowerError::Unsupported);
            },
            ConstantItem::Float(bits) => (TxOp::ConstFloat(*bits), CirType::TermFloat),
            ConstantItem::Bool(b) => (TxOp::ConstBool(*b), CirType::TermBool),
            ConstantItem::Atom(a) => (TxOp::ConstAtom(*a), CirType::TermAtom),
            _ => {
                return Err(LowerError::Unsupported);
            },
        };
        let r0 = self.tb.push_op(op, vec![ty]);
        Ok(TxValue(r0))
    }

    /// Emits the error-class raise that a failed match lowers to: an
    /// `error` atom, the offending reason, and a freshly captured
    /// stack trace.
    pub fn emit_match_fail(&mut self, reason: TxValue)
        requires
            old(self).ready(),
            reason.0 < old(self).tb.f.values@.len(),
        ensures
            final(self).inv(),
            final(self).evolved(*old(self)),
            final(self).tb.position == old(self).tb.position,
            final(self).tb.f.blocks@.len() == old(self).tb.f.blocks@.len(),
            forall|b2: int| #![auto]
                0 <= b2 < old(self).tb.f.blocks@.len() && b2 != old(self).tb.position as int
                    ==> final(self).tb.f.blocks@[b2] == old(self).tb.f.blocks@[b2],
            final(self).tb.f.blocks@[final(self).tb.position as int].filled,
            final(self).values_map@ == old(self).values_map@,
            ({
                let p = old(self).tb.position as int;
                let no = old(self).tb.f.blocks@[p].ops@.len() as int;
                let ops = final(self).tb.f.blocks@[p].ops@;
                &&& ops.len() == no + 3
                &&& forall|j: int| #![auto] 0 <= j < no ==> ops[j] == old(
                    self,
                ).tb.f.blocks@[p].ops@[j]
                &&& ops[no].op == TxOp::ConstAtom(SYM_ERROR)
                &&& ops[no].results@.len() == 1
                &&& ops[no + 1].op == TxOp::StacktraceOp
                &&& ops[no + 1].results@.len() == 1
                &&& ops[no + 2].op == TxOp::RaiseOp(
                    ops[no].results@[0],
                    reason,
                    ops[no + 1].results@[0],
                )
            }),
    {
        let class = self.immediate_to_constant(Immediate::Term(ImmediateTerm::Atom(SYM_ERROR)));
        let t0 = self.tb.push_op(TxOp::StacktraceOp, vec![CirType::Trace]);
        let trace = TxValue(t0);
        self.tb.push_op(TxOp::RaiseOp(class, reason, trace), Vec::new());
    }
}

/// The runtime built-in an opcode lowers to a call of, if any.
pub open spec fn runtime_of_op(op: Opcode) -> Option<RuntimeFn> {
    match op {
        Opcode::Eq => Some(RuntimeFn::Eq2),
        Opcode::EqExact => Some(RuntimeFn::EqExact2),
        Opcode::Neq => Some(RuntimeFn::Neq2),
        Opcode::NeqExact => Some(RuntimeFn::NeqExact2),
        Opcode::Gt => Some(RuntimeFn::Gt2),
        Opcode::Gte => Some(RuntimeFn::Gte2),
        Opcode::Lt => Some(RuntimeFn::Lt2),
        Opcode::Lte => Some(RuntimeFn::Lte2),
        Opcode::Band => Some(RuntimeFn::Band2),
        Opcode::Bor => Some(RuntimeFn::Bor2),
        Opcode::Bxor => Some(RuntimeFn::Bxor2),
        Opcode::Bsl => Some(RuntimeFn::Bsl2),
        Opcode::Bsr => Some(RuntimeFn::Bsr2),
        Opcode::Div => Some(RuntimeFn::Div2),
        Opcode::Rem => Some(RuntimeFn::Rem2),
        Opcode::Add => Some(RuntimeFn::Add2),
        Opcode::Sub => Some(RuntimeFn::Sub2),
        Opcode::Mul => Some(RuntimeFn::Mul2),
        Opcode::Fdiv => Some(RuntimeFn::Fdiv2),
        Opcode::ListConcat => Some(RuntimeFn::Concat2),
        Opcode::ListSubtract => Some(RuntimeFn::Subtract2),
        _ => None,
    }
}

/// The runtime built-in a binary opcode lowers to a call of, if any.
pub fn runtime_for_op(op: Opcode) -> (r: Option<RuntimeFn>)
    ensures
        r == runtime_of_op(op),
        r == match op {
            Opcode::Eq => Some(RuntimeFn::Eq2),
            Opcode::EqExact => Some(RuntimeFn::EqExact2),
            Opcode::Neq => Some(RuntimeFn::Neq2),
            Opcode::NeqExact => Some(RuntimeFn::NeqExact2),
            Opcode::Gt => Some(RuntimeFn::Gt2),
            Opcode::Gte => Some(RuntimeFn::Gte2),
            Opcode::Lt => Some(RuntimeFn::Lt2),
            Opcode::Lte => Some(RuntimeFn::Lte2),
            Opcode::Band => Some(RuntimeFn::Band2),
            Opcode::Bor => Some(RuntimeFn::Bor2),
            Opcode::Bxor => Some(RuntimeFn::Bxor2),
            Opcode::Bsl => Some(RuntimeFn::Bsl2),
            Opcode::Bsr => Some(RuntimeFn::Bsr2),
            Opcode::Div => Some(RuntimeFn::Div2),
            Opcode::Rem => Some(RuntimeFn::Rem2),
            Opcode::Add => Some(RuntimeFn::Add2),
            Opcode::Sub => Some(RuntimeFn::Sub2),
            Opcode::Mul => Some(RuntimeFn::Mul2),
            Opcode::Fdiv => Some(RuntimeFn::Fdiv2),
            Opcode::ListConcat => Some(RuntimeFn::Concat2),
            Opcode::ListSubtract => Some(RuntimeFn::Subtract2),
            _ => None,
        },
{
    match op {
        Opcode::Eq => Some(RuntimeFn::Eq2),
        Opcode::EqExact => Some(RuntimeFn::EqExact2),
        Opcode::Neq => Some(RuntimeFn::Neq2),
        Opcode::NeqExact => Some(RuntimeFn::NeqExact2),
        Opcode::Gt => Some(RuntimeFn::Gt2),
        Opcode::Gte => Some(RuntimeFn::Gte2),
        Opcode::Lt => Some(RuntimeFn::Lt2),
        Opcode::Lte => Some(RuntimeFn::Lte2),
        Opcode::Band => Some(RuntimeFn::Band2),
        Opcode::Bor => Some(RuntimeFn::Bor2),
        Opcode::Bxor => Some(RuntimeFn::Bxor2),
        Opcode::Bsl => Some(RuntimeFn::Bsl2),
        Opcode::Bsr => Some(RuntimeFn::Bsr2),
        Opcode::Div => Some(RuntimeFn::Div2),
        Opcode::Rem => Some(RuntimeFn::Rem2),
        Opcode::Add => Some(RuntimeFn::Add2),
        Opcode::Sub => Some(RuntimeFn::Sub2),
        Opcode::Mul => Some(RuntimeFn::Mul2),
        Opcode::Fdiv => Some(RuntimeFn::Fdiv2),
        Opcode::ListConcat => Some(RuntimeFn::Concat2),
        Opcode::ListSubtract => Some(RuntimeFn::Subtract2),
        _ => None,
    }
}

/// The direct dialect operation a binary opcode lowers to, if any.
pub fn dialect_binary_op(op: Opcode, lhs: TxValue, rhs: TxValue) -> (r: Option<TxOp>)
    ensures
        r == match op {
            Opcode::And => Some(TxOp::AndOp(lhs, rhs)),
            Opcode::AndAlso => Some(TxOp::AndAlsoOp(lhs, rhs)),
            Opcode::Or => Some(TxOp::OrOp(lhs, rhs)),
            Opcode::OrElse => Some(TxOp::OrElseOp(lhs, rhs)),
            Opcode::Xor => Some(TxOp::XorOp(lhs, rhs)),
            Opcode::Cons => Some(TxOp::ConsOp(lhs, rhs)),
            Opcode::GetElement => Some(TxOp::GetElementOp(lhs, rhs)),
            _ => None::<TxOp>,
        },
{
    match op {
        Opcode::And => Some(TxOp::AndOp(lhs, rhs)),
        Opcode::AndAlso => Some(TxOp::AndAlsoOp(lhs, rhs)),
        Opcode::Or => Some(TxOp::OrOp(lhs, rhs)),
        Opcode::OrElse => Some(TxOp::OrElseOp(lhs, rhs)),
        Opcode::Xor => Some(TxOp::XorOp(lhs, rhs)),
        Opcode::Cons => Some(TxOp::ConsOp(lhs, rhs)),
        Opcode::GetElement => Some(TxOp::GetElementOp(lhs, rhs)),
        _ => None,
    }
}

} // verus!
