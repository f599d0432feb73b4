//! The state of a machine, as plain mathematical values, and the data
//! structures that hold it while the machine runs.

use vstd::prelude::*;

use crate::vm::CodePosition;
use crate::wasm::value::Value;

verus! {

/// An open block. A branch to it cuts the value stack back to `height`,
/// keeps the `arity` values that were on top, and continues at `target`.
#[derive(Clone, Copy, Debug, PartialEq, Eq, Structural)]
pub struct Label {
    pub is_loop: bool,
    pub height: usize,
    pub arity: usize,
    pub target: u32,
}

/// One activation of a function, as a mathematical value.
#[verifier::ext_equal]
pub struct FrameState {
    pub locals: Seq<Value>,
    pub ret_addr: CodePosition,
    pub stack_base: nat,
    pub labels: Seq<Label>,
}

/// One activation of a function: its locals (the parameters first), the
/// position at which the caller resumes, the height of the value stack when
/// it was entered, and the blocks that are open in it.
#[derive(Debug)]
pub struct Frame {
    pub locals: Vec<Value>,
    pub ret_addr: CodePosition,
    pub stack_base: usize,
    pub labels: Vec<Label>,
}

/// The frames of a function stack, as mathematical values.
pub open spec fn frame_views(frames: Seq<Frame>) -> Seq<FrameState> {
    frames.map_values(|frame: Frame| frame@)
}

impl View for Frame {
    type V = FrameState;

    open spec fn view(&self) -> FrameState {
        FrameState {
            locals: self.locals@,
            ret_addr: self.ret_addr,
            stack_base: self.stack_base as nat,
            labels: self.labels@,
        }
    }
}

/// A linear memory, as a mathematical value.
#[verifier::ext_equal]
pub struct MemoryState {
    pub data: Seq<u8>,
    pub max_pages: Option<u32>,
}

/// A linear memory: its bytes and the most pages it may grow to.
#[derive(Debug)]
pub struct Memory {
    pub data: Vec<u8>,
    pub max_pages: Option<u32>,
}

impl View for Memory {
    type V = MemoryState;

    open spec fn view(&self) -> MemoryState {
        MemoryState { data: self.data@, max_pages: self.max_pages }
    }
}

impl Memory {
    /// The bytes of the memory.
    pub fn data(&self) -> (d: &Vec<u8>)
        ensures
            d@ == self@.data,
    {
        &self.data
    }
}

/// The state of a machine: the instruction pointer, the value stack, the
/// function stack (the outermost call first), the globals, the memory, and
/// the table, which has a function index or nothing for each of its elements.
#[verifier::ext_equal]
pub struct VmState {
    pub ip: CodePosition,
    pub value_stack: Seq<Value>,
    pub frames: Seq<FrameState>,
    pub globals: Seq<Value>,
    pub memory: Option<MemoryState>,
    pub table: Option<Seq<Option<u32>>>,
}

impl VmState {
    /// The number of calls that are active.
    pub open spec fn depth(self) -> nat {
        self.frames.len()
    }

    /// The call positions from the innermost to the outermost: the
    /// instruction pointer, then the return addresses of the frames from the
    /// innermost down to the second.
    pub open spec fn backtrace(self) -> Seq<CodePosition> {
        seq![self.ip] + Seq::new(
            if self.frames.len() >= 1 {
                (self.frames.len() - 1) as nat
            } else {
                0
            },
            |i: int| self.frames[self.frames.len() - 1 - i].ret_addr,
        )
    }
}

/// A backtrace has one position for each active call, and one for a
/// machine without a call: first the instruction pointer, then, for each
/// frame from the innermost down to the second, the address it returns to.
pub proof fn lemma_backtrace_shape(s: VmState)
    ensures
        s.backtrace().len() == if s.depth() >= 1 {
            s.depth()
        } else {
            1
        },
        s.backtrace()[0] == s.ip,
        forall|k: int|
            1 <= k < s.depth() ==> #[trigger] s.backtrace()[k] == s.frames[s.depth()
                - k].ret_addr,
{
}

} // verus!
