//! Mid-level SSA intermediate representation for a compiler of a
//! dynamically typed, actor-based functional language, together with
//! the two lowerings that flank it: the scope normalizer that makes
//! the source language's implicit rebinding explicit, and the
//! typed-operation lowerer that emits the SSA into a typed dialect
//! for code generation.

// The shared vocabulary: spans, symbols, the type algebra, immediates
// and the interned constant pool items.
pub mod span;
pub mod types;
pub mod immediate;
pub mod constant;

// The SSA core: the per-function arena, the instruction taxonomy, the
// typed builder surface, and the function and module structure.
pub mod insts;
pub mod dfg;
pub mod builder;
pub mod ops;
pub mod arith;
pub mod structure;
pub mod flow;
pub mod prims;
pub mod function;
pub mod lower;

// The scope normalizer: known-set bookkeeping over persistent name
// sets, fresh-name allocation, and the rebinding rewrite over the
// core expression tree.
pub mod nameset;
pub mod known;
pub mod context;
pub mod cst;
pub mod normalize;

// The typed-operation lowerer: the target dialect's types and
// operations, type translation, and the per-instruction translation.
pub mod cir;
pub mod txir;
pub mod translate_types;
pub mod translate;
pub mod translate_insts;
pub mod translate_fn;

// The runtime collaborators the core is specified against: the
// process bookkeeping it reads and the driver loop's decisions.
pub mod process;
pub mod driver;
