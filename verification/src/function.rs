use vstd::prelude::*;
use crate::dfg::DataFlowGraph;
use crate::insts::InstData;
use crate::span::{SourceSpan, Symbol};
use crate::types::{type_seq_eq_spec, type_slice_eq, FuncRef, Type};

verus! {

broadcast use vstd::std_specs::vec::group_vec_axioms, vstd::seq::group_seq_axioms;

/// Who may call a function: exported from the module, local to it, or
/// defined elsewhere and merely referenced.
#[derive(Clone, Copy, Debug, PartialEq, Eq, Structural)]
pub enum Visibility {
    Public,
    Private,
    ExternallyDefined,
}

/// A function signature: its fully qualified name (module, function,
/// arity), its parameter and result types, and its visibility.
#[derive(Debug, PartialEq, Eq)]
pub struct Signature {
    pub module: Symbol,
    pub name: Symbol,
    pub arity: u8,
    pub params: Vec<Type>,
    pub results: Vec<Type>,
    pub visibility: Visibility,
}

/// Two signatures declare the same symbol: the fully qualified triple
/// matches.
pub open spec fn same_mfa(a: Signature, b: Signature) -> bool {
    a.module == b.module && a.name == b.name && a.arity == b.arity
}

/// Two signatures agree completely: same symbol, structurally equal
/// parameter and result types, and the same visibility.
pub open spec fn sig_eq_spec(a: Signature, b: Signature) -> bool {
    &&& same_mfa(a, b)
    &&& type_seq_eq_spec(a.params@, b.params@)
    &&& type_seq_eq_spec(a.results@, b.results@)
    &&& a.visibility == b.visibility
}

/// A function body: its signature, its source span and the SSA graph
/// holding its blocks, instructions, values and constants.
#[derive(Debug, PartialEq, Eq)]
pub struct Function {
    pub signature: Signature,
    pub span: SourceSpan,
    pub dfg: DataFlowGraph,
}

impl Function {
    /// A function is well formed when its graph is and every block is
    /// closed by a terminator.
    pub open spec fn wf(&self) -> bool {
        &&& self.dfg.wf()
        &&& self.dfg.is_complete()
    }
}

impl DataFlowGraph {
    /// All blocks have been closed by a terminator.
    pub open spec fn is_complete(&self) -> bool {
        forall|b: int| 0 <= b < self.blocks@.len() ==> self.blocks@[b].filled
    }
}

/// A second declaration of an already declared symbol carried a
/// different signature; the second declaration is rejected.
#[derive(Clone, Copy, Debug, PartialEq, Eq, Structural)]
pub struct DeclarationRace;

/// A module: its name, the registry of declared function signatures,
/// and the lowered function bodies. Function references index the
/// signature registry.
#[derive(Debug)]
pub struct Module {
    pub name: Symbol,
    pub signatures: Vec<Signature>,
    pub functions: Vec<Function>,
}

/// What declaring a signature guarantees: the registry is unchanged
/// when the symbol was already declared, and extended by the signature
/// otherwise; on success the returned handle is the first entry
/// declaring the symbol and that entry agrees with the request.
pub open spec fn declare_post(
    old_sigs: Seq<Signature>,
    sig: Signature,
    new_sigs: Seq<Signature>,
    r: Result<FuncRef, DeclarationRace>,
) -> bool {
    match r {
        Ok(f) => {
            &&& 0 <= f.0 < new_sigs.len()
            &&& same_mfa(new_sigs[f.0 as int], sig)
            &&& sig_eq_spec(new_sigs[f.0 as int], sig)
            &&& forall|k: int| 0 <= k < f.0 ==> !same_mfa(new_sigs[k], sig)
            &&& if exists|j: int| 0 <= j < old_sigs.len() && same_mfa(old_sigs[j], sig) {
                new_sigs == old_sigs
            } else {
                new_sigs == old_sigs.push(sig)
            }
        },
        Err(_) => {
            &&& new_sigs == old_sigs
            &&& exists|j: int|
                0 <= j < old_sigs.len() && same_mfa(old_sigs[j], sig) && !sig_eq_spec(
                    old_sigs[j],
                    sig,
                )
        },
    }
}

impl Module {
    /// Creates an empty module.
    pub fn new(name: Symbol) -> (m: Module)
        ensures
            m.name == name,
            m.signatures@.len() == 0,
            m.functions@.len() == 0,
    {
        Module { name, signatures: Vec::new(), functions: Vec::new() }
    }

    /// Declares a function symbol. Declaring the same symbol with an
    /// agreeing signature is idempotent and resolves to the existing
    /// handle; a disagreeing redeclaration is rejected.
    #[verifier::loop_isolation(false)]
    pub fn declare_function(&mut self, sig: Signature) -> (r: Result<FuncRef, DeclarationRace>)
        requires
            old(self).signatures@.len() < u32::MAX as int,
        ensures
            final(self).name == old(self).name,
            final(self).functions@ == old(self).functions@,
            declare_post(old(self).signatures@, sig, final(self).signatures@, r),
    {
        let n = self.signatures.len();
        let mut i: usize = 0;
        while i < n
            invariant
                i <= n,
                forall|k: int| 0 <= k < i ==> !same_mfa(self.signatures@[k], sig),
            decreases n - i,
        {
            let s = &self.signatures[i];
            if s.module == sig.module && s.name == sig.name && s.arity == sig.arity {
                let agrees = type_slice_eq(&s.params, &sig.params) && type_slice_eq(
                    &s.results,
                    &sig.results,
                ) && s.visibility == sig.visibility;
                if agrees {
                    return Ok(FuncRef(i as u32));
                } else {
                    return Err(DeclarationRace);
                }
            }
            i += 1;
        }
        let h = self.signatures.len();
        proof {
            crate::types::lemma_type_seq_eq_reflexive(sig.params@);
            crate::types::lemma_type_seq_eq_reflexive(sig.results@);
        }
        self.signatures.push(sig);
        Ok(FuncRef(h as u32))
    }

    /// Adds a lowered function body to the module.
    pub fn define_function(&mut self, f: Function)
        ensures
            final(self).name == old(self).name,
            final(self).signatures@ == old(self).signatures@,
            final(self).functions@ == old(self).functions@.push(f),
    {
        self.functions.push(f);
    }
}

/// Declaring a symbol is idempotent: declaring the same signature into
/// the registry that a first declaration produced changes nothing and
/// resolves to the same handle.
pub proof fn lemma_declare_idempotent(
    s0: Seq<Signature>,
    sig: Signature,
    s1: Seq<Signature>,
    f1: FuncRef,
    s2: Seq<Signature>,
    f2: FuncRef,
)
    requires
        declare_post(s0, sig, s1, Ok(f1)),
        declare_post(s1, sig, s2, Ok(f2)),
    ensures
        s2 == s1,
        f2 == f1,
{
    assert(exists|j: int| 0 <= j < s1.len() && same_mfa(s1[j], sig)) by {
        assert(same_mfa(s1[f1.0 as int], sig));
    }
    if f2.0 < f1.0 {
        assert(!same_mfa(s1[f2.0 as int], sig));
    }
    if f1.0 < f2.0 {
        assert(!same_mfa(s2[f1.0 as int], sig));
    }
}

/// The control-flow successor relation of a graph: block `a` has an
/// edge to block `b` when some instruction of `a` branches, jumps
/// conditionally or dispatches to `b`.
pub open spec fn cfg_edge(d: DataFlowGraph, a: int, b: int) -> bool {
    exists|j: int|
        0 <= j < d.blocks@[a].insts@.len() && #[trigger] inst_targets(
            d.insts@[d.blocks@[a].insts@[j].0 as int].data,
            b,
        )
}

/// The instruction can transfer control to block `b`.
pub open spec fn inst_targets(data: InstData, b: int) -> bool {
    match data {
        InstData::Br(dd) => dd.destination.0 as int == b,
        InstData::CondBr(dd) => dd.then_dest.0.0 as int == b || dd.else_dest.0.0 as int == b,
        InstData::Switch(dd) => dd.default.0 as int == b || (exists|k: int|
            0 <= k < dd.arms@.len() && dd.arms@[k].1.0 as int == b),
        _ => false,
    }
}

/// The sequence of block indices is a path of the graph from the
/// entry block.
pub open spec fn cfg_path(d: DataFlowGraph, p: Seq<int>) -> bool {
    &&& p.len() > 0
    &&& p[0] == 0
    &&& forall|i: int| 0 <= i < p.len() - 1 ==> cfg_edge(d, p[i], #[trigger] p[i + 1])
}

/// Block `dom` dominates block `b`: every path from the entry block
/// to `b` passes through `dom`.
pub open spec fn dominates(d: DataFlowGraph, dom: int, b: int) -> bool {
    forall|p: Seq<int>| cfg_path(d, p) && p.last() == b ==> #[trigger] p.contains(dom)
}

/// The dominance half of the SSA invariant: every operand of every
/// instruction is either a parameter of the instruction's own block
/// or defined in a block that dominates it. This predicate states the
/// property; the builder does not prove it of every graph it
/// produces, since that takes a dominator analysis. The tests
/// exercise it on the graphs they build.
pub open spec fn ssa_uses_dominated(d: DataFlowGraph) -> bool {
    forall|b: int, j: int, v: int|
        0 <= b < d.blocks@.len() && 0 <= j < d.blocks@[b].insts@.len() && 0 <= v
            < d.values@.len() && #[trigger] inst_uses(
            d.insts@[d.blocks@[b].insts@[j].0 as int].data,
            v,
        ) ==> match d.values@[v].def {
            crate::dfg::ValueDef::Param(pb, _) => pb.0 as int == b || dominates(
                d,
                pb.0 as int,
                b,
            ),
            crate::dfg::ValueDef::Result(i, _) => exists|b2: int, j2: int|
                #![auto]
                0 <= b2 < d.blocks@.len() && 0 <= j2 < d.blocks@[b2].insts@.len()
                    && d.blocks@[b2].insts@[j2] == i && (b2 == b || dominates(d, b2, b)),
        }
}

/// The instruction reads the value with raw handle `v`.
pub open spec fn inst_uses(data: InstData, v: int) -> bool {
    match data {
        InstData::UnaryOp(dd) => dd.arg.0 as int == v,
        InstData::UnaryOpImm(_) => false,
        InstData::UnaryOpConst(_) => false,
        InstData::BinaryOp(dd) => dd.args.0.0 as int == v || dd.args.1.0 as int == v,
        InstData::BinaryOpImm(dd) => dd.arg.0 as int == v,
        InstData::BinaryOpConst(dd) => dd.arg.0 as int == v,
        InstData::Ret(dd) => dd.args.0.0 as int == v || dd.args.1.0 as int == v,
        InstData::RetImm(dd) => dd.arg.0 as int == v,
        InstData::Br(dd) => seq_uses(dd.args@, v),
        InstData::CondBr(dd) => dd.cond.0 as int == v || seq_uses(dd.then_dest.1@, v)
            || seq_uses(dd.else_dest.1@, v),
        InstData::Switch(dd) => dd.arg.0 as int == v,
        InstData::IsType(dd) => dd.arg.0 as int == v,
        InstData::Call(dd) => seq_uses(dd.args@, v),
        InstData::CallIndirect(dd) => dd.callee.0 as int == v || seq_uses(dd.args@, v),
        InstData::PrimOp(dd) => seq_uses(dd.args@, v),
        InstData::PrimOpImm(dd) => seq_uses(dd.args@, v),
        InstData::MakeFun(dd) => seq_uses(dd.env@, v),
        InstData::SetElement(dd) => dd.args.0.0 as int == v || dd.args.1.0 as int == v,
        InstData::SetElementImm(dd) => dd.arg.0 as int == v,
        InstData::SetElementConst(dd) => dd.arg.0 as int == v,
        InstData::BitsMatch(dd) => seq_uses(dd.args@, v),
        InstData::BitsMatchSkip(dd) => seq_uses(dd.args@, v),
        InstData::BitsPush(dd) => seq_uses(dd.args@, v),
    }
}

/// Some element of the value sequence has the raw handle `v`.
pub open spec fn seq_uses(args: Seq<crate::insts::Value>, v: int) -> bool {
    exists|k: int| 0 <= k < args.len() && args[k].0 as int == v
}

/// Each block of a completed well-formed function ends with exactly
/// one terminator: its last instruction is a terminator and no earlier
/// instruction is.
pub proof fn lemma_terminator_unique(d: DataFlowGraph, b: int)
    requires
        d.wf(),
        d.is_complete(),
        0 <= b < d.blocks@.len(),
    ensures
        d.blocks@[b].insts@.len() > 0,
        d.insts@[d.blocks@[b].insts@[d.blocks@[b].insts@.len() - 1].0 as int]
            .data.is_terminator_spec(),
        forall|j: int| #![auto]
            0 <= j < d.blocks@[b].insts@.len() - 1 ==> !d.insts@[d.blocks@[b].insts@[j].0 as int]
                .data.is_terminator_spec(),
{
    assert(d.block_wf(b));
}

/// Every branch instruction of a well-formed graph carries exactly as
/// many arguments as its destination has parameters: the conditional
/// forms carry the condition in addition, and switch destinations take
/// none.
pub proof fn lemma_branch_arity(d: DataFlowGraph, i: int)
    requires
        d.wf(),
        0 <= i < d.insts@.len(),
    ensures
        match d.insts@[i].data {
            InstData::Br(dd) => {
                &&& dd.destination.0 < d.blocks@.len()
                &&& if dd.op == crate::insts::Opcode::Br {
                    dd.args@.len() == d.blocks@[dd.destination.0 as int].params@.len()
                } else {
                    dd.args@.len() == d.blocks@[dd.destination.0 as int].params@.len() + 1
                }
            },
            InstData::CondBr(dd) => {
                &&& dd.then_dest.0.0 < d.blocks@.len()
                &&& dd.then_dest.1@.len() == d.blocks@[dd.then_dest.0.0 as int].params@.len()
                &&& dd.else_dest.0.0 < d.blocks@.len()
                &&& dd.else_dest.1@.len() == d.blocks@[dd.else_dest.0.0 as int].params@.len()
            },
            InstData::Switch(dd) => {
                &&& dd.default.0 < d.blocks@.len()
                &&& d.blocks@[dd.default.0 as int].params@.len() == 0
                &&& forall|k: int| #![auto]
                    0 <= k < dd.arms@.len() ==> dd.arms@[k].1.0 < d.blocks@.len()
                        && d.blocks@[dd.arms@[k].1.0 as int].params@.len() == 0
            },
            _ => true,
        },
{
    assert(d.inst_wf(i));
}

/// Every value of a well-formed graph is defined exactly once: two
/// occurrences of the same value among block-parameter lists or
/// instruction-result lists are the same occurrence, and no value is
/// both a block parameter and an instruction result.
pub proof fn lemma_value_defined_once(d: DataFlowGraph)
    requires
        d.wf(),
    ensures
        forall|b1: int, k1: int, b2: int, k2: int|
            0 <= b1 < d.blocks@.len() && 0 <= k1 < d.blocks@[b1].params@.len() && 0 <= b2
                < d.blocks@.len() && 0 <= k2 < d.blocks@[b2].params@.len()
                && d.blocks@[b1].params@[k1] == d.blocks@[b2].params@[k2] ==> b1 == b2 && k1 == k2,
        forall|i1: int, k1: int, i2: int, k2: int|
            0 <= i1 < d.insts@.len() && 0 <= k1 < d.insts@[i1].results@.len() && 0 <= i2
                < d.insts@.len() && 0 <= k2 < d.insts@[i2].results@.len()
                && d.insts@[i1].results@[k1] == d.insts@[i2].results@[k2] ==> i1 == i2 && k1 == k2,
        forall|b: int, k: int, i: int, k2: int|
            0 <= b < d.blocks@.len() && 0 <= k < d.blocks@[b].params@.len() && 0 <= i
                < d.insts@.len() && 0 <= k2 < d.insts@[i].results@.len() ==> d.blocks@[b].params@[k]
                != d.insts@[i].results@[k2],
{
    assert forall|b1: int, k1: int, b2: int, k2: int|
        0 <= b1 < d.blocks@.len() && 0 <= k1 < d.blocks@[b1].params@.len() && 0 <= b2
            < d.blocks@.len() && 0 <= k2 < d.blocks@[b2].params@.len() && d.blocks@[b1].params@[k1]
            == d.blocks@[b2].params@[k2] implies b1 == b2 && k1 == k2 by {
        assert(vstd::std_specs::vec::spec_vec_len(&d.blocks) == d.blocks@.len());
        assert(d.block_wf(b1));
        assert(d.block_wf(b2));
        assert(vstd::std_specs::vec::spec_vec_len(&d.blocks@[b1].params) == d.blocks@[b1].params@.len());
        assert(vstd::std_specs::vec::spec_vec_len(&d.blocks@[b2].params) == d.blocks@[b2].params@.len());
        let v = d.blocks@[b1].params@[k1];
        assert(d.values@[v.0 as int].def == crate::dfg::ValueDef::Param(
            crate::insts::Block(b1 as usize),
            k1 as usize,
        ));
        assert(d.values@[v.0 as int].def == crate::dfg::ValueDef::Param(
            crate::insts::Block(b2 as usize),
            k2 as usize,
        ));
    }
    assert forall|i1: int, k1: int, i2: int, k2: int|
        0 <= i1 < d.insts@.len() && 0 <= k1 < d.insts@[i1].results@.len() && 0 <= i2
            < d.insts@.len() && 0 <= k2 < d.insts@[i2].results@.len() && d.insts@[i1].results@[k1]
            == d.insts@[i2].results@[k2] implies i1 == i2 && k1 == k2 by {
        assert(vstd::std_specs::vec::spec_vec_len(&d.insts) == d.insts@.len());
        assert(d.inst_wf(i1));
        assert(d.inst_wf(i2));
        assert(vstd::std_specs::vec::spec_vec_len(&d.insts@[i1].results) == d.insts@[i1].results@.len());
        assert(vstd::std_specs::vec::spec_vec_len(&d.insts@[i2].results) == d.insts@[i2].results@.len());
        let v = d.insts@[i1].results@[k1];
        assert(d.values@[v.0 as int].def == crate::dfg::ValueDef::Result(
            crate::insts::Inst(i1 as usize),
            k1 as usize,
        ));
        assert(d.values@[v.0 as int].def == crate::dfg::ValueDef::Result(
            crate::insts::Inst(i2 as usize),
            k2 as usize,
        ));
    }
    assert forall|b: int, k: int, i: int, k2: int|
        0 <= b < d.blocks@.len() && 0 <= k < d.blocks@[b].params@.len() && 0 <= i < d.insts@.len()
            && 0 <= k2 < d.insts@[i].results@.len() implies d.blocks@[b].params@[k]
        != d.insts@[i].results@[k2] by {
        assert(d.block_wf(b));
        assert(d.inst_wf(i));
        if d.blocks@[b].params@[k] == d.insts@[i].results@[k2] {
            let v = d.blocks@[b].params@[k];
            assert(d.values@[v.0 as int].def == crate::dfg::ValueDef::Param(
                crate::insts::Block(b as usize),
                k as usize,
            ));
            assert(d.values@[v.0 as int].def == crate::dfg::ValueDef::Result(
                crate::insts::Inst(i as usize),
                k2 as usize,
            ));
        }
    }
}

} // verus!
