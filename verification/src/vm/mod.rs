//! The virtual machine: its stop signals, its state and its dispatch.

use vstd::prelude::*;

use crate::wasm::value::ValueType;

pub mod import_func;
pub mod init;
pub mod machine;
pub mod runs;
pub mod semantics;
pub mod state;
pub mod stepping;

pub use machine::VM;
pub use state::{Frame, FrameState, Label, Memory, MemoryState, VmState};

verus! {

/// A position in the code of a module: a function and an instruction in it.
#[derive(Clone, Copy, Debug, PartialEq, Eq, Structural)]
pub struct CodePosition {
    pub func_index: u32,
    pub instr_index: u32,
}

impl CodePosition {
    pub fn new(func_index: u32, instr_index: u32) -> (pos: CodePosition)
        ensures
            pos.func_index == func_index,
            pos.instr_index == instr_index,
    {
        CodePosition { func_index, instr_index }
    }
}

/// Why a machine stopped. A machine that stopped keeps its state as it was at
/// the instruction that stopped it, and can be inspected or resumed.
#[derive(Clone, Copy, Debug, PartialEq, Eq, Structural)]
pub enum Trap {
    /// The outermost function returned.
    ExecutionFinished,
    /// The instruction pointer arrived at the code breakpoint with this index.
    BreakpointReached(u32),
    /// An access touched what the watchpoint with this index watches.
    WatchpointReached(u32),
    /// The machine dispatched as many instructions as one operation may.
    StepLimitReached,
    /// An `unreachable` instruction was executed.
    Unreachable,
    DivisionByZero,
    SignedIntegerOverflow,
    /// A float was to become an integer that cannot hold it. The machine
    /// does no float arithmetic: this is for a front end that does.
    InvalidConversionToInt,
    OutOfBoundsMemoryAccess,
    /// The module has no memory.
    NoMemory,
    /// A call of this imported function was not fulfilled.
    UnsupportedCallToImportedFunction(u32),
    /// The instruction is not one the machine executes.
    UnsupportedInstruction,
    /// There is no instruction at the instruction pointer.
    NoInstruction,
    NoFunctionWithIndex(u32),
    NoTypeWithIndex(u32),
    /// The module has no table.
    NoTable,
    /// The table has no function for the index of an indirect call.
    UndefinedElement,
    /// The function of an indirect call has another type than the call.
    IndirectCallTypeMismatch,
    NoLocalWithIndex(u32),
    NoGlobalWithIndex(u32),
    /// A branch names a label deeper than the blocks that are open.
    InvalidBranchIndex(u32),
    /// An `else` or `end` that a block needs is missing.
    UnbalancedBlock,
    PopFromEmptyStack,
    TypeError { expected: ValueType, found: ValueType },
}

/// Why a machine could not be set up for a module. This is found when the
/// machine is built or entered, before any instruction runs: it is no trap.
#[derive(Clone, Copy, Debug, PartialEq, Eq, Structural)]
pub enum InitError {
    /// An initial value has another type than what it initialises.
    MismatchedType { expected: ValueType, found: ValueType },
    /// An initial value refers to a global that has no value before it.
    UnknownGlobal(u32),
    /// The memory is larger than a memory can be on this machine.
    MemoryTooLarge,
    /// A data segment does not lie in the memory.
    DataSegmentOutOfBounds,
    /// The table is larger than a table can be on this machine.
    TableTooLarge,
    /// An element segment does not lie in the table.
    ElementSegmentOutOfBounds,
    /// The module has no function to start with.
    NoStartFunction,
}

/// What the machine computes: a result, or the trap it stops with.
pub type VMResult<T> = Result<T, Trap>;

} // verus!
