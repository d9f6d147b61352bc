use vstd::prelude::*;

verus! {

/// A range of offsets into the source text recording where an
/// instruction or expression came from. Synthesized constructs inherit
/// the span of the construct they were derived from.
#[derive(Clone, Copy, Debug, PartialEq, Eq, Structural)]
pub struct SourceSpan {
    pub start: u32,
    pub end: u32,
}

impl SourceSpan {
    /// The span used when no source position is available.
    pub fn unknown() -> (s: SourceSpan)
        ensures
            s == (SourceSpan { start: 0, end: 0 }),
    {
        SourceSpan { start: 0, end: 0 }
    }
}

/// Handle of an interned symbol. Interning of names and atoms is an
/// opaque service of the surrounding compiler; the core only ever
/// compares handles, so a symbol is modeled as its dense index.
pub type Symbol = u32;

/// The well-known interned symbol of the `error` exception class
/// atom, agreed with the surrounding compiler's interner.
pub const SYM_ERROR: Symbol = 1;

} // verus!
