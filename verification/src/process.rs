use vstd::prelude::*;
use crate::span::Symbol;

verus! {

/// Scheduling priority of a process.
#[derive(Clone, Copy, Debug, PartialEq, Eq, Structural)]
pub enum Priority {
    Low,
    Normal,
    High,
    Max,
}

/// The fully qualified entry point of a process.
#[derive(Clone, Copy, Debug, PartialEq, Eq, Structural)]
pub struct ModuleFunctionArity {
    pub module: Symbol,
    pub function: Symbol,
    pub arity: u8,
}

/// The queryable status flags of a process.
#[derive(Clone, Copy, Debug, PartialEq, Eq, Structural)]
pub enum ProcessFlags {
    TrapExit,
}

/// The well-known interned symbol of the `init` atom.
pub const SYM_INIT: Symbol = 2;

/// The default size of a process's initial heap, in words.
pub const DEFAULT_HEAP_SIZE: usize = 233;

/// A runtime process as the compiler's collaborators see it: its
/// entry point, priority, parent, heap size, scheduler assignment and
/// status flags. Only the bookkeeping the core reads is modeled; the
/// heap itself belongs to the runtime.
#[derive(Debug)]
pub struct Process {
    pub priority: Priority,
    pub parent: Option<u32>,
    pub initial_module_function_arity: ModuleFunctionArity,
    pub heap_size: usize,
    pub scheduler_id: Option<u32>,
    pub trap_exit: bool,
}

impl Process {
    /// Whether the process converts exit signals into messages.
    pub open spec fn traps(&self) -> bool {
        self.trap_exit
    }

    /// Creates a process with the given priority, parent, entry point
    /// and heap size; exit trapping starts disabled.
    pub fn new(
        priority: Priority,
        parent: Option<u32>,
        initial_module_function_arity: ModuleFunctionArity,
        heap_size: usize,
    ) -> (p: Process)
        ensures
            p.priority == priority,
            p.parent == parent,
            p.initial_module_function_arity == initial_module_function_arity,
            p.heap_size == heap_size,
            p.scheduler_id is None,
            !p.traps(),
    {
        Process {
            priority,
            parent,
            initial_module_function_arity,
            heap_size,
            scheduler_id: None,
            trap_exit: false,
        }
    }

    /// Whether all the given flags are set.
    pub fn are_flags_set(&self, flags: ProcessFlags) -> (r: bool)
        ensures
            r == match flags {
                ProcessFlags::TrapExit => self.traps(),
            },
    {
        match flags {
            ProcessFlags::TrapExit => self.trap_exit,
        }
    }

    /// Sets whether the process traps exits and returns the old value.
    pub fn trap_exit(&mut self, value: bool) -> (old_value: bool)
        ensures
            old_value == old(self).traps(),
            final(self).traps() == value,
            final(self).priority == old(self).priority,
            final(self).parent == old(self).parent,
            final(self).initial_module_function_arity == old(self).initial_module_function_arity,
            final(self).heap_size == old(self).heap_size,
            final(self).scheduler_id == old(self).scheduler_id,
    {
        let old_value = self.trap_exit;
        self.trap_exit = value;
        old_value
    }

    /// Whether the process currently traps exits.
    pub fn traps_exit(&self) -> (r: bool)
        ensures
            r == self.traps(),
    {
        self.trap_exit
    }

    /// Assigns the process to a scheduler.
    pub fn schedule_with(&mut self, id: u32)
        ensures
            final(self).scheduler_id == Some(id),
            final(self).traps() == old(self).traps(),
            final(self).priority == old(self).priority,
            final(self).parent == old(self).parent,
            final(self).initial_module_function_arity == old(self).initial_module_function_arity,
            final(self).heap_size == old(self).heap_size,
    {
        self.scheduler_id = Some(id);
    }
}

/// Creates the default test process: normal priority, no parent, the
/// `init:init/0` entry point and the default heap, assigned to the
/// first scheduler. Exit trapping starts disabled.
pub fn process() -> (p: Process)
    ensures
        !p.traps(),
        p.priority == Priority::Normal,
        p.parent is None,
        p.initial_module_function_arity == (ModuleFunctionArity {
            module: SYM_INIT,
            function: SYM_INIT,
            arity: 0,
        }),
        p.heap_size == DEFAULT_HEAP_SIZE,
        p.scheduler_id is Some,
{
    let initial_module_function_arity = ModuleFunctionArity {
        module: SYM_INIT,
        function: SYM_INIT,
        arity: 0,
    };
    let mut p = Process::new(
        Priority::Normal,
        None,
        initial_module_function_arity,
        DEFAULT_HEAP_SIZE,
    );
    p.schedule_with(0);
    p
}

} // verus!
