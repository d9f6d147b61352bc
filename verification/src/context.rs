use vstd::prelude::*;
use crate::cst::Name;
use crate::span::{SourceSpan, Symbol};

verus! {

/// Per-function normalization state: the counters that keep fresh
/// variable names, lifted closure names and synthesized jump labels
/// distinct, together with the function's identity and flags.
#[derive(Debug)]
pub struct FunctionContext {
    pub span: SourceSpan,
    pub var_counter: u32,
    pub fun_counter: u32,
    pub goto_counter: u32,
    pub name: Symbol,
    pub arity: u8,
    pub wanted: bool,
    pub in_guard: bool,
    pub is_nif: bool,
}

impl FunctionContext {
    /// Creates the context for normalizing one function.
    pub fn new(span: SourceSpan, name: Symbol, arity: u8) -> (c: FunctionContext)
        ensures
            c.span == span,
            c.name == name,
            c.arity == arity,
            c.var_counter == 0,
            c.fun_counter == 0,
            c.goto_counter == 0,
            c.wanted,
            !c.in_guard,
            !c.is_nif,
    {
        FunctionContext {
            span,
            var_counter: 0,
            fun_counter: 0,
            goto_counter: 0,
            name,
            arity,
            wanted: true,
            in_guard: false,
            is_nif: false,
        }
    }

    /// Replaces the wanted flag and returns its previous value.
    pub fn set_wanted(&mut self, wanted: bool) -> (prev: bool)
        ensures
            prev == old(self).wanted,
            *final(self) == (FunctionContext { wanted, ..*old(self) }),
    {
        let prev = self.wanted;
        self.wanted = wanted;
        prev
    }

    /// Allocates a fresh variable name: distinct from every name this
    /// context handed out before.
    pub fn next_var_name(&mut self) -> (n: Name)
        requires
            old(self).var_counter < u32::MAX,
        ensures
            n == Name::Fresh(old(self).var_counter),
            *final(self) == (FunctionContext {
                var_counter: (old(self).var_counter + 1) as u32,
                ..*old(self)
            }),
    {
        let id = self.var_counter;
        self.var_counter = self.var_counter + 1;
        Name::Fresh(id)
    }

    /// Allocates a fresh variable name (the core tree has no separate
    /// variable record beyond its name).
    pub fn next_var(&mut self) -> (n: Name)
        requires
            old(self).var_counter < u32::MAX,
        ensures
            n == Name::Fresh(old(self).var_counter),
            *final(self) == (FunctionContext {
                var_counter: (old(self).var_counter + 1) as u32,
                ..*old(self)
            }),
    {
        self.next_var_name()
    }

    /// Allocates `n` fresh variable names, in order.
    #[verifier::loop_isolation(false)]
    pub fn next_n_vars(&mut self, n: usize) -> (vs: Vec<Name>)
        requires
            old(self).var_counter + n <= u32::MAX,
        ensures
            vs@.len() == n,
            forall|i: int| #![auto]
                0 <= i < n ==> vs@[i] == Name::Fresh((old(self).var_counter + i) as u32),
            *final(self) == (FunctionContext {
                var_counter: (old(self).var_counter + n) as u32,
                ..*old(self)
            }),
    {
        let mut vs: Vec<Name> = Vec::new();
        let mut i: usize = 0;
        while i < n
            invariant
                i <= n,
                vs@.len() == i,
                self.var_counter == old(self).var_counter + i,
                forall|j: int| #![auto]
                    0 <= j < i ==> vs@[j] == Name::Fresh((old(self).var_counter + j) as u32),
                self.span == old(self).span,
                self.fun_counter == old(self).fun_counter,
                self.goto_counter == old(self).goto_counter,
                self.name == old(self).name,
                self.arity == old(self).arity,
                self.wanted == old(self).wanted,
                self.in_guard == old(self).in_guard,
                self.is_nif == old(self).is_nif,
            decreases n - i,
        {
            let v = self.next_var();
            vs.push(v);
            i += 1;
        }
        vs
    }

    /// Allocates the index of a lifted closure's synthesized name:
    /// indices are handed out in order and never reused.
    pub fn new_fun_name(&mut self) -> (ix: u32)
        requires
            old(self).fun_counter < u32::MAX,
        ensures
            ix == old(self).fun_counter,
            *final(self) == (FunctionContext {
                fun_counter: (old(self).fun_counter + 1) as u32,
                ..*old(self)
            }),
    {
        let ix = self.fun_counter;
        self.fun_counter = self.fun_counter + 1;
        ix
    }

    /// The index of the current synthesized jump label.
    pub fn goto_func(&self) -> (ix: u32)
        ensures
            ix == self.goto_counter,
    {
        self.goto_counter
    }

    /// Moves to the next synthesized jump label.
    pub fn inc_goto_func(&mut self)
        requires
            old(self).goto_counter < u32::MAX,
        ensures
            *final(self) == (FunctionContext {
                goto_counter: (old(self).goto_counter + 1) as u32,
                ..*old(self)
            }),
    {
        self.goto_counter = self.goto_counter + 1;
    }
}

} // verus!
