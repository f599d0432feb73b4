//! The debugging session: one loaded file and one machine at most.

use vstd::prelude::*;

use crate::breakpoints::{Breakpoint, Breakpoints};
use crate::debuginfo::DebugInfo;
use crate::file::File;
use crate::vm::import_func::{ImportAnswer, ImportFunctionHandler};
use crate::vm::init::spec_initial_state;
use crate::vm::runs::enters_call;
use crate::vm::semantics::{
    dispatch, handler_answers, next_position, one_less, resumes, runs_func, runs_to_depth, starts,
    Outcome,
};
use crate::vm::state::{frame_views, Memory, VmState};
use crate::vm::{CodePosition, InitError, Trap, VM};
use crate::wasm::module::Module;
use crate::wasm::value::Value;
use crate::wire::RunCodeType;

verus! {

/// Why an operation of the session failed. The session is then as it was
/// before the operation.
#[derive(Clone, Copy, Debug, PartialEq, Eq, Structural)]
pub enum DebuggerError {
    /// A machine could not be set up for the module.
    InitError(InitError),
    NoFileLoaded,
    NoRunningInstance,
    NoMemory,
    InvalidBreakpointPosition,
    InvalidWatchpointGlobal,
    Unimplemented,
}

/// What an operation of the session gives: its result, or why it failed.
pub type DebuggerResult<T> = Result<T, DebuggerError>;

/// Why a breakpoint cannot be set in a module, if it cannot: a code
/// breakpoint must stand at an instruction that the module has, and a global
/// watchpoint must watch a global that it has. A memory watchpoint can
/// always be set.
pub open spec fn breakpoint_error(module: Module, breakpoint: Breakpoint) -> Option<DebuggerError> {
    match breakpoint {
        Breakpoint::Code(pos) => if module.has_position(pos) {
            None
        } else {
            Some(DebuggerError::InvalidBreakpointPosition)
        },
        Breakpoint::Memory(_, _, _) => None,
        Breakpoint::Global(_, index) => if index < module.globals@.len() {
            None
        } else {
            Some(DebuggerError::InvalidWatchpointGlobal)
        },
    }
}

/// What setting a breakpoint in a module comes to, for the breakpoints that
/// are set and the index that is next: a breakpoint that can be set gets the
/// next index; one that cannot changes nothing.
pub open spec fn add_outcome(
    module: Module,
    set: Map<u32, Breakpoint>,
    next_index: nat,
    breakpoint: Breakpoint,
) -> (Map<u32, Breakpoint>, nat, DebuggerResult<u32>) {
    match breakpoint_error(module, breakpoint) {
        Some(error) => (set, next_index, Err(error)),
        None => (set.insert(next_index as u32, breakpoint), next_index + 1, Ok(next_index as u32)),
    }
}

/// A breakpoint that is refused uses up no index: whatever is set after it
/// gets the index, and leaves the breakpoints, that it would have without
/// the refusal.
pub proof fn lemma_refused_breakpoint_uses_no_index(
    module: Module,
    set: Map<u32, Breakpoint>,
    next_index: nat,
    refused: Breakpoint,
    following: Breakpoint,
)
    requires
        breakpoint_error(module, refused) is Some,
    ensures
        add_outcome(module, set, next_index, refused).2 is Err,
        add_outcome(
            module,
            add_outcome(module, set, next_index, refused).0,
            add_outcome(module, set, next_index, refused).1,
            following,
        ) == add_outcome(module, set, next_index, following),
{
}

/// The locals of a frame, with the function that the frame runs.
#[derive(Debug)]
pub struct FrameLocals {
    pub func_index: u32,
    pub locals: Vec<Value>,
}

/// The frame that a level names in a function stack of `depth` frames:
/// level -1 is the innermost frame, -2 the one that called it, and so on.
/// Other levels name no frame.
pub open spec fn frame_at_level(depth: nat, func_level: i32) -> Option<int> {
    if -depth <= func_level <= -1 {
        Some(depth + func_level)
    } else {
        None
    }
}

/// The function that the frame `index` of a machine runs: the innermost
/// frame runs the function the instruction pointer is in, another the
/// function to which the next frame returns.
pub open spec fn frame_function(s: VmState, index: int) -> u32 {
    if index == s.frames.len() - 1 {
        s.ip.func_index
    } else {
        s.frames[index + 1].ret_addr.func_index
    }
}

/// The floor to which an operation runs that begins with `depth` active
/// calls: a step over runs until no more calls are active than there were, a
/// step out until one less is, a start or a continuation until none is; a
/// single step runs to no floor.
pub open spec fn run_floor(run_code_type: RunCodeType, depth: usize) -> Option<usize> {
    match run_code_type {
        RunCodeType::Step => None,
        RunCodeType::StepOver => Some(depth),
        RunCodeType::StepOut => Some(one_less(depth as nat) as usize),
        RunCodeType::Start => Some(0),
        RunCodeType::Continue => Some(0),
    }
}

/// A debugging session. It owns the loaded file, with its module and its
/// breakpoints, and the machine that runs the module, if one was started.
pub struct Debugger<F: ImportFunctionHandler + Default> {
    file: Option<File>,
    vm: Option<VM<F>>,
    info: Option<DebugInfo>,
}

impl<F: ImportFunctionHandler + Default> Debugger<F> {
    /// The file that is loaded.
    pub closed spec fn spec_file(&self) -> Option<File> {
        self.file
    }

    /// The machine, if there is one.
    pub closed spec fn spec_vm(&self) -> Option<VM<F>> {
        self.vm
    }

    /// The names that were loaded with the file.
    pub closed spec fn spec_info(&self) -> Option<DebugInfo> {
        self.info
    }

    /// The state of the machine, if there is one.
    pub open spec fn vm_state(&self) -> Option<VmState> {
        match self.spec_vm() {
            Some(vm) => Some(vm@),
            None => None,
        }
    }

    /// The state from which an operation runs that sets up a machine first
    /// where there is none, and the step limit it runs with.
    pub open spec fn ensured_state(&self) -> Result<(VmState, nat), InitError> {
        match self.spec_vm() {
            Some(vm) => Ok((vm@, vm.spec_step_limit() as nat)),
            None => match spec_initial_state(&self.spec_file()->0.spec_module()) {
                Ok(state) => Ok((state, u64::MAX as nat)),
                Err(error) => Err(error),
            },
        }
    }

    /// A session with no file and no machine.
    pub fn new() -> (debugger: Debugger<F>)
        ensures
            debugger.spec_file() is None,
            debugger.spec_vm() is None,
            debugger.spec_info() is None,
    {
        Debugger { file: None, vm: None, info: None }
    }

    /// The loaded file, if one is loaded.
    pub fn file(&self) -> (file: Option<&File>)
        ensures
            file is Some <==> self.spec_file() is Some,
            file matches Some(f) ==> *f == self.spec_file()->0,
    {
        self.file.as_ref()
    }

    /// The machine, if there is one.
    pub fn vm(&self) -> (vm: Option<&VM<F>>)
        ensures
            vm is Some <==> self.spec_vm() is Some,
            vm matches Some(v) ==> *v == self.spec_vm()->0,
    {
        self.vm.as_ref()
    }

    /// Loads a file: the module that was read from `file_path`, with the
    /// names that came with it. The file has no breakpoints yet. The file
    /// that was loaded before, its breakpoints and the machine are gone.
    pub fn load_file(&mut self, file_path: String, module: Module, info: Option<DebugInfo>)
        ensures
            final(self).spec_file() matches Some(file) && file.spec_file_path() == file_path
                && file.spec_module() == module && file.spec_breakpoints()@ == Map::<
                u32,
                Breakpoint,
            >::empty() && file.spec_breakpoints().spec_next_index() == 0,
            final(self).spec_vm() is None,
            final(self).spec_info() == info,
    {
        self.info = info;
        self.file = Some(File::new(file_path, module));
        self.vm = None;
    }

    /// The call positions from the innermost to the outermost: where the
    /// machine is, then where each call returns to.
    pub fn backtrace(&self) -> (r: DebuggerResult<Vec<CodePosition>>)
        ensures
            match self.spec_vm() {
                Some(vm) => r is Ok && r->Ok_0@ == vm@.backtrace(),
                None => r == Err::<Vec<CodePosition>, DebuggerError>(
                    DebuggerError::NoRunningInstance,
                ),
            },
    {
        let vm = match &self.vm {
            Some(vm) => vm,
            None => {
                return Err(DebuggerError::NoRunningInstance);
            },
        };
        let mut backtrace: Vec<CodePosition> = Vec::new();
        backtrace.push(vm.ip());
        let frames = vm.function_stack();
        let count = frames.len();
        let mut i: usize = 1;
        while i < count
            invariant
                1 <= i,
                count == frames@.len(),
                vm@.frames.len() == count,
                i <= count || i == 1,
                frame_views(frames@) == vm@.frames,
                backtrace@.len() == i,
                backtrace@[0] == vm@.ip,
                forall|k: int|
                    1 <= k < i ==> #[trigger] backtrace@[k] == vm@.frames[count - k].ret_addr,
            decreases count - i,
        {
            backtrace.push(frames[count - i].ret_addr);
            i = i + 1;
        }
        Ok(backtrace)
    }

    /// The name of a function, if names were loaded and it has one.
    pub fn function_name(&self, func_index: u32) -> (name: Option<&String>)
        ensures
            name is Some <==> self.spec_info() is Some
                && self.spec_info()->0.function_names().contains_key(func_index),
            name matches Some(n) ==> *n == self.spec_info()->0.function_names()[func_index],
    {
        match &self.info {
            Some(info) => info.function_name(func_index),
            None => None,
        }
    }

    /// The name of a local of a function, if names were loaded and it has one.
    pub fn local_name(&self, func_index: u32, local_index: u32) -> (name: Option<&String>)
        ensures
            name is Some <==> self.spec_info() is Some
                && self.spec_info()->0.local_names().contains_key(func_index)
                && self.spec_info()->0.local_names()[func_index].contains_key(local_index),
            name matches Some(n) ==> *n
                == self.spec_info()->0.local_names()[func_index][local_index],
    {
        match &self.info {
            Some(info) => info.local_name(func_index, local_index),
            None => None,
        }
    }

    /// The globals of the machine.
    pub fn globals(&self) -> (r: DebuggerResult<&Vec<Value>>)
        ensures
            match self.spec_vm() {
                Some(vm) => r is Ok && r->Ok_0@ == vm@.globals,
                None => r is Err && r->Err_0 == DebuggerError::NoRunningInstance,
            },
    {
        match &self.vm {
            Some(vm) => Ok(vm.globals()),
            None => Err(DebuggerError::NoRunningInstance),
        }
    }

    /// The value stack of the machine, the top last.
    pub fn value_stack(&self) -> (r: DebuggerResult<&Vec<Value>>)
        ensures
            match self.spec_vm() {
                Some(vm) => r is Ok && r->Ok_0@ == vm@.value_stack,
                None => r is Err && r->Err_0 == DebuggerError::NoRunningInstance,
            },
    {
        match &self.vm {
            Some(vm) => Ok(vm.value_stack()),
            None => Err(DebuggerError::NoRunningInstance),
        }
    }

    /// The memory of the machine.
    pub fn memory(&self) -> (r: DebuggerResult<&Memory>)
        ensures
            match self.spec_vm() {
                Some(vm) => match vm@.memory {
                    Some(memory) => r is Ok && r->Ok_0@ == memory,
                    None => r is Err && r->Err_0 == DebuggerError::NoMemory,
                },
                None => r is Err && r->Err_0 == DebuggerError::NoRunningInstance,
            },
    {
        match &self.vm {
            Some(vm) => match vm.default_memory() {
                Ok(memory) => Ok(memory),
                Err(_) => Err(DebuggerError::NoMemory),
            },
            None => Err(DebuggerError::NoRunningInstance),
        }
    }

    /// The locals of the frame that `func_level` names, and the function
    /// that the frame runs; nothing where the level names no frame.
    pub fn locals(&self, func_level: i32) -> (r: DebuggerResult<Option<FrameLocals>>)
        ensures
            match self.spec_vm() {
                None => r is Err && r->Err_0 == DebuggerError::NoRunningInstance,
                Some(vm) => r is Ok && match frame_at_level(vm@.depth(), func_level) {
                    None => r->Ok_0 is None,
                    Some(index) => r->Ok_0 is Some && r->Ok_0->0.locals@ == vm@.frames[index].locals
                        && r->Ok_0->0.func_index == frame_function(vm@, index),
                },
            },
    {
        let vm = match &self.vm {
            Some(vm) => vm,
            None => {
                return Err(DebuggerError::NoRunningInstance);
            },
        };
        let frames = vm.function_stack();
        let depth = frames.len();
        if func_level >= 0 || (depth as u64) < (-(func_level as i64)) as u64 {
            return Ok(None);
        }
        let index: usize = depth - ((-(func_level as i64)) as usize);
        let func_index = if index == depth - 1 {
            vm.ip().func_index
        } else {
            frames[index + 1].ret_addr.func_index
        };
        let locals = crate::vm::machine::copy_values(&frames[index].locals, 0);
        Ok(Some(FrameLocals { func_index, locals }))
    }

    /// The breakpoints of the loaded file.
    pub fn breakpoints(&self) -> (r: DebuggerResult<&Breakpoints>)
        ensures
            match self.spec_file() {
                Some(file) => r is Ok && *r->Ok_0 == file.spec_breakpoints(),
                None => r is Err && r->Err_0 == DebuggerError::NoFileLoaded,
            },
    {
        match &self.file {
            Some(file) => Ok(file.breakpoints()),
            None => Err(DebuggerError::NoFileLoaded),
        }
    }

    /// Sets a breakpoint in the loaded file and returns its index.
    ///
    /// A breakpoint that cannot be set in the module is refused, and so is
    /// every breakpoint while no file is loaded. A refusal changes nothing:
    /// no index is used up, and the next breakpoint that is set gets the
    /// index that this one would have got.
    pub fn add_breakpoint(&mut self, breakpoint: Breakpoint) -> (r: DebuggerResult<u32>)
        requires
            old(self).spec_file() matches Some(file) ==> breakpoint_error(
                file.spec_module(),
                breakpoint,
            ) is Some || file.spec_breakpoints().spec_next_index() < u32::MAX,
        ensures
            match old(self).spec_file() {
                None => r == Err::<u32, DebuggerError>(DebuggerError::NoFileLoaded) && *final(self)
                    == *old(self),
                Some(file) => {
                    let (set, next_index, result) = add_outcome(
                        file.spec_module(),
                        file.spec_breakpoints()@,
                        file.spec_breakpoints().spec_next_index(),
                        breakpoint,
                    );
                    &&& r == result
                    &&& r is Err ==> *final(self) == *old(self)
                    &&& final(self).spec_file() matches Some(after)
                    &&& after.spec_breakpoints()@ == set
                    &&& after.spec_breakpoints().spec_next_index() == next_index
                    &&& after.spec_module() == file.spec_module()
                    &&& after.spec_file_path() == file.spec_file_path()
                    &&& final(self).spec_vm() == old(self).spec_vm()
                    &&& final(self).spec_info() == old(self).spec_info()
                },
            },
    {
        let mut file = match self.file.take() {
            Some(file) => file,
            None => {
                return Err(DebuggerError::NoFileLoaded);
            },
        };
        let error = match breakpoint {
            Breakpoint::Code(pos) => {
                let found = match file.module().get_func(pos.func_index) {
                    Some(func) => (pos.instr_index as usize) < func.instructions.len(),
                    None => false,
                };
                if found {
                    None
                } else {
                    Some(DebuggerError::InvalidBreakpointPosition)
                }
            },
            Breakpoint::Memory(_, _, _) => None,
            Breakpoint::Global(_, index) => {
                if (index as usize) < file.module().globals.len() {
                    None
                } else {
                    Some(DebuggerError::InvalidWatchpointGlobal)
                }
            },
        };
        match error {
            Some(error) => {
                self.file = Some(file);
                Err(error)
            },
            None => {
                let index = file.breakpoints_and_unlock().add_breakpoint(breakpoint);
                self.file = Some(file);
                Ok(index)
            },
        }
    }

    /// Deletes the breakpoint with this index. Returns whether there was
    /// one: there is none where the index was never given out, or where its
    /// breakpoint was deleted before. That is no error.
    pub fn delete_breakpoint(&mut self, index: u32) -> (r: DebuggerResult<bool>)
        ensures
            match old(self).spec_file() {
                None => r == Err::<bool, DebuggerError>(DebuggerError::NoFileLoaded) && *final(self)
                    == *old(self),
                Some(file) => {
                    &&& r == Ok::<bool, DebuggerError>(
                        file.spec_breakpoints()@.dom().contains(index),
                    )
                    &&& final(self).spec_file() matches Some(after)
                    &&& after.spec_breakpoints()@ == file.spec_breakpoints()@.remove(index)
                    &&& after.spec_breakpoints().spec_next_index()
                        == file.spec_breakpoints().spec_next_index()
                    &&& after.spec_module() == file.spec_module()
                    &&& after.spec_file_path() == file.spec_file_path()
                    &&& final(self).spec_vm() == old(self).spec_vm()
                    &&& final(self).spec_info() == old(self).spec_info()
                },
            },
    {
        let mut file = match self.file.take() {
            Some(file) => file,
            None => {
                return Err(DebuggerError::NoFileLoaded);
            },
        };
        let existed = file.breakpoints_and_unlock().delete_breakpoint(index);
        self.file = Some(file);
        Ok(existed)
    }

    /// Deletes every breakpoint of the loaded file. Their indices are not
    /// given out again.
    pub fn clear_breakpoints(&mut self) -> (r: DebuggerResult<()>)
        ensures
            match old(self).spec_file() {
                None => r == Err::<(), DebuggerError>(DebuggerError::NoFileLoaded) && *final(self)
                    == *old(self),
                Some(file) => {
                    &&& r is Ok
                    &&& final(self).spec_file() matches Some(after)
                    &&& after.spec_breakpoints()@ == Map::<u32, Breakpoint>::empty()
                    &&& after.spec_breakpoints().spec_next_index()
                        == file.spec_breakpoints().spec_next_index()
                    &&& after.spec_module() == file.spec_module()
                    &&& after.spec_file_path() == file.spec_file_path()
                    &&& final(self).spec_vm() == old(self).spec_vm()
                    &&& final(self).spec_info() == old(self).spec_info()
                },
            },
    {
        let mut file = match self.file.take() {
            Some(file) => file,
            None => {
                return Err(DebuggerError::NoFileLoaded);
            },
        };
        file.breakpoints_and_unlock().clear();
        self.file = Some(file);
        Ok(())
    }

    /// Discards the machine.
    pub fn reset_vm(&mut self) -> (r: DebuggerResult<()>)
        ensures
            r is Ok,
            final(self).spec_vm() is None,
            final(self).spec_file() == old(self).spec_file(),
            final(self).spec_info() == old(self).spec_info(),
    {
        self.vm = None;
        Ok(())
    }

    /// The machine, or the failure that there is none.
    pub fn get_vm(&self) -> (r: DebuggerResult<&VM<F>>)
        ensures
            match self.spec_vm() {
                Some(vm) => r is Ok && *r->Ok_0 == vm,
                None => r is Err && r->Err_0 == DebuggerError::NoRunningInstance,
            },
    {
        match &self.vm {
            Some(vm) => Ok(vm),
            None => Err(DebuggerError::NoRunningInstance),
        }
    }

    /// The loaded file, or the failure that none is loaded.
    pub fn get_file(&self) -> (r: DebuggerResult<&File>)
        ensures
            match self.spec_file() {
                Some(file) => r is Ok && *r->Ok_0 == file,
                None => r is Err && r->Err_0 == DebuggerError::NoFileLoaded,
            },
    {
        match &self.file {
            Some(file) => Ok(file),
            None => Err(DebuggerError::NoFileLoaded),
        }
    }

    /// What an operation needs that runs the machine: the machine and the
    /// file whose module it runs.
    pub open spec fn running(&self) -> Result<(VM<F>, File), DebuggerError> {
        match self.spec_vm() {
            None => Err(DebuggerError::NoRunningInstance),
            Some(vm) => match self.spec_file() {
                None => Err(DebuggerError::NoFileLoaded),
                Some(file) => Ok((vm, file)),
            },
        }
    }

    /// The number of calls that are active in the machine.
    pub open spec fn depth(&self) -> nat {
        match self.spec_vm() {
            Some(vm) => vm@.depth(),
            None => 0,
        }
    }

    /// Whether the session is as `before` but for the state of its machine.
    pub open spec fn only_ran(&self, before: &Self) -> bool {
        &&& self.spec_file() == before.spec_file()
        &&& self.spec_info() == before.spec_info()
        &&& self.spec_vm() is Some
        &&& before.spec_vm() matches Some(vm) ==> self.spec_vm()->0.spec_step_limit()
            == vm.spec_step_limit()
    }

    /// Whether dispatching one instruction takes the session to `after`,
    /// with result `r`. Without a machine, or a file, the operation fails and
    /// the session stays as it is.
    pub open spec fn steps_to(&self, after: &Self, r: DebuggerResult<Option<Trap>>) -> bool {
        match self.running() {
            Err(error) => r == Err::<Option<Trap>, DebuggerError>(error) && *after == *self,
            Ok((vm, file)) => {
                &&& r is Ok
                &&& after.only_ran(self)
                &&& exists|reply: ImportAnswer|
                    {
                        &&& #[trigger] dispatch(
                            &file.spec_module(),
                            &file.spec_breakpoints(),
                            vm@,
                            reply,
                        ) == (Outcome { state: after.spec_vm()->0@, trap: r->Ok_0 })
                        &&& handler_answers(
                            &file.spec_module(),
                            vm@,
                            vm.spec_handler(),
                            reply,
                            after.spec_vm()->0.spec_handler(),
                        )
                    }
            },
        }
    }

    /// Whether running the machine, until it stops or no more than `floor`
    /// calls are active, takes the session to `after`, with result `r`.
    /// Without a machine, or a file, the operation fails and the session
    /// stays as it is.
    pub open spec fn runs_to(&self, after: &Self, floor: nat, r: DebuggerResult<Option<Trap>>)
        -> bool {
        match self.running() {
            Err(error) => r == Err::<Option<Trap>, DebuggerError>(error) && *after == *self,
            Ok((vm, file)) => {
                &&& r is Ok
                &&& after.only_ran(self)
                &&& runs_to_depth(
                    &file.spec_module(),
                    &file.spec_breakpoints(),
                    vm@,
                    vm.spec_handler(),
                    floor,
                    vm.spec_step_limit() as nat,
                    after.spec_vm()->0@,
                    after.spec_vm()->0.spec_handler(),
                    r->Ok_0,
                )
            },
        }
    }

    /// Whether starting the module of the loaded file in a new machine
    /// takes the session to `after`, with result `r`. The new machine takes
    /// the place of the old one: its start function is entered, and it runs
    /// until it stops. The start fails, and the session stays as it is, where
    /// no file is loaded or no machine can be set up for the module: its
    /// initial values are wrong, or it has no start function. The new
    /// machine has a handler of its own.
    pub open spec fn starts_to(&self, after: &Self, r: DebuggerResult<Option<Trap>>) -> bool {
        match self.spec_file() {
            None => r == Err::<Option<Trap>, DebuggerError>(DebuggerError::NoFileLoaded) && *after
                == *self,
            Some(file) => match spec_initial_state(&file.spec_module()) {
                Err(error) => r == Err::<Option<Trap>, DebuggerError>(
                    DebuggerError::InitError(error),
                ) && *after == *self,
                Ok(state) => if r is Ok {
                    &&& r->Ok_0 is Some
                    &&& after.spec_vm() is Some
                    &&& exists|handler: F| #[trigger]
                        starts(
                            &file.spec_module(),
                            &file.spec_breakpoints(),
                            state,
                            handler,
                            u64::MAX as nat,
                            after.spec_vm()->0@,
                            after.spec_vm()->0.spec_handler(),
                            Ok(r->Ok_0->0),
                        )
                    &&& after.spec_vm()->0.spec_step_limit() == u64::MAX
                    &&& after.spec_file() == self.spec_file()
                    &&& after.spec_info() == self.spec_info()
                } else {
                    &&& r == Err::<Option<Trap>, DebuggerError>(
                        DebuggerError::InitError(InitError::NoStartFunction),
                    )
                    &&& exists|handler: F| #[trigger]
                        starts(
                            &file.spec_module(),
                            &file.spec_breakpoints(),
                            state,
                            handler,
                            u64::MAX as nat,
                            state,
                            handler,
                            Err(InitError::NoStartFunction),
                        )
                    &&& *after == *self
                },
            },
        }
    }

    /// Starts the module of the loaded file in a new machine, and runs it
    /// until it stops.
    pub fn start(&mut self) -> (r: DebuggerResult<Option<Trap>>)
        ensures
            old(self).starts_to(final(self), r),
    {
        let file = match &self.file {
            Some(file) => file,
            None => {
                return Err(DebuggerError::NoFileLoaded);
            },
        };
        let mut vm = match VM::new(file.module(), F::default()) {
            Ok(vm) => vm,
            Err(error) => {
                return Err(DebuggerError::InitError(error));
            },
        };
        let ghost state = vm@;
        let ghost handler = vm.spec_handler();
        match vm.start(file.module(), file.breakpoints()) {
            Ok(trap) => {
                self.vm = Some(vm);
                let r: DebuggerResult<Option<Trap>> = Ok(Some(trap));
                // The handler of the new machine is the witness.
                assert(starts(
                    &self.spec_file()->0.spec_module(),
                    &self.spec_file()->0.spec_breakpoints(),
                    state,
                    handler,
                    u64::MAX as nat,
                    self.spec_vm()->0@,
                    self.spec_vm()->0.spec_handler(),
                    Ok(r->Ok_0->0),
                ));
                r
            },
            Err(error) => {
                assert(starts(
                    &file.spec_module(),
                    &file.spec_breakpoints(),
                    state,
                    handler,
                    u64::MAX as nat,
                    state,
                    handler,
                    Err(InitError::NoStartFunction),
                ));
                Err(DebuggerError::InitError(error))
            },
        }
    }

    /// Runs the module of the loaded file in a new machine, as `start` does.
    pub fn run(&mut self) -> (r: DebuggerResult<Trap>)
        ensures
            old(self).starts_to(
                final(self),
                match r {
                    Ok(trap) => Ok(Some(trap)),
                    Err(error) => Err(error),
                },
            ),
    {
        match self.start() {
            Ok(Some(trap)) => Ok(trap),
            Ok(None) => Ok(Trap::ExecutionFinished),
            Err(error) => Err(error),
        }
    }

    /// Calls a function of the module from outside, in the machine of the
    /// session; a machine is set up first where there is none.
    pub fn call(&mut self, index: u32, args: &Vec<Value>) -> (r: DebuggerResult<Trap>)
        ensures
            match old(self).spec_file() {
                None => r == Err::<Trap, DebuggerError>(DebuggerError::NoFileLoaded) && *final(self)
                    == *old(self),
                Some(file) => match old(self).ensured_state() {
                    Err(error) => r == Err::<Trap, DebuggerError>(DebuggerError::InitError(error))
                        && *final(self) == *old(self),
                    Ok((state, limit)) => {
                        &&& r is Ok
                        &&& final(self).spec_vm() is Some
                        &&& exists|handler: F|
                            {
                                &&& old(self).spec_vm() is Some ==> handler == old(
                                    self,
                                ).spec_vm()->0.spec_handler()
                                &&& #[trigger] runs_func(
                                    &file.spec_module(),
                                    &file.spec_breakpoints(),
                                    state,
                                    handler,
                                    limit,
                                    index,
                                    args@,
                                    final(self).spec_vm()->0@,
                                    final(self).spec_vm()->0.spec_handler(),
                                    r->Ok_0,
                                )
                            }
                        &&& final(self).spec_vm()->0.spec_step_limit() == limit
                        &&& final(self).spec_file() == old(self).spec_file()
                        &&& final(self).spec_info() == old(self).spec_info()
                    },
                },
            },
    {
        let file = match &self.file {
            Some(file) => file,
            None => {
                return Err(DebuggerError::NoFileLoaded);
            },
        };
        let mut vm = match self.vm.take() {
            Some(vm) => vm,
            None => match VM::new(file.module(), F::default()) {
                Ok(vm) => vm,
                Err(error) => {
                    return Err(DebuggerError::InitError(error));
                },
            },
        };
        let ghost state = vm@;
        let ghost handler = vm.spec_handler();
        let trap = vm.run_func(file.module(), file.breakpoints(), index, args);
        self.vm = Some(vm);
        let r: DebuggerResult<Trap> = Ok(trap);
        // The handler that the machine had before the call is the witness.
        assert({
            let (before, limit) = old(self).ensured_state()->Ok_0;
            runs_func(
                &self.spec_file()->0.spec_module(),
                &self.spec_file()->0.spec_breakpoints(),
                before,
                handler,
                limit,
                index,
                args@,
                self.spec_vm()->0@,
                self.spec_vm()->0.spec_handler(),
                r->Ok_0,
            )
        });
        r
    }

    /// Runs on until the machine stops.
    pub fn continue_execution(&mut self) -> (r: DebuggerResult<Trap>)
        ensures
            old(self).runs_to(
                final(self),
                0,
                match r {
                    Ok(trap) => Ok(Some(trap)),
                    Err(error) => Err(error),
                },
            ),
    {
        if self.vm.is_none() {
            return Err(DebuggerError::NoRunningInstance);
        }
        let file = match &self.file {
            Some(file) => file,
            None => {
                return Err(DebuggerError::NoFileLoaded);
            },
        };
        let mut vm = self.vm.take().unwrap();
        let trap = vm.continue_execution(file.module(), file.breakpoints());
        self.vm = Some(vm);
        Ok(trap)
    }

    /// Dispatches one instruction. Where nothing is returned, the
    /// instruction pointer has moved on by exactly that instruction: the
    /// machine is in the state that `dispatch` gives, and has not stopped.
    pub fn execute_step(&mut self) -> (r: DebuggerResult<Option<Trap>>)
        ensures
            old(self).steps_to(final(self), r),
    {
        if self.vm.is_none() {
            return Err(DebuggerError::NoRunningInstance);
        }
        let file = match &self.file {
            Some(file) => file,
            None => {
                return Err(DebuggerError::NoFileLoaded);
            },
        };
        let mut vm = self.vm.take().unwrap();
        let trap = vm.execute_step(file.module(), file.breakpoints());
        self.vm = Some(vm);
        Ok(trap)
    }

    /// Steps over the instruction at the instruction pointer, and over the
    /// call it makes, if it is one. Where nothing is returned, no more calls
    /// are active than before; after a call, as many are, and the machine
    /// stands behind the instruction that made the call.
    pub fn execute_step_over(&mut self) -> (r: DebuggerResult<Option<Trap>>)
        ensures
            old(self).runs_to(final(self), old(self).depth(), r),
            r matches Ok(None) ==> final(self).depth() <= old(self).depth(),
            r matches Ok(None) && enters_call(
                &old(self).spec_file()->0.spec_module(),
                old(self).vm_state()->0,
            ) ==> final(self).depth() == old(self).depth() && final(self).vm_state()->0.ip
                == next_position(old(self).vm_state()->0.ip),
    {
        if self.vm.is_none() {
            return Err(DebuggerError::NoRunningInstance);
        }
        let file = match &self.file {
            Some(file) => file,
            None => {
                return Err(DebuggerError::NoFileLoaded);
            },
        };
        let mut vm = self.vm.take().unwrap();
        let trap = vm.execute_step_over(file.module(), file.breakpoints());
        self.vm = Some(vm);
        Ok(trap)
    }

    /// Steps out of the current call. Where nothing is returned, the call
    /// has returned: exactly one call less is active, and the machine goes
    /// on at the return address of the call. From the outermost call there
    /// is always a trap; its return finishes the execution, so where no call
    /// is left active the trap is `ExecutionFinished`, unless the step limit
    /// is zero.
    pub fn execute_step_out(&mut self) -> (r: DebuggerResult<Option<Trap>>)
        ensures
            old(self).runs_to(final(self), one_less(old(self).depth()), r),
            r matches Ok(None) ==> final(self).depth() == old(self).depth() - 1,
            r matches Ok(None) ==> final(self).vm_state()->0.ip == old(
                self,
            ).vm_state()->0.frames.last().ret_addr,
            r is Ok && old(self).depth() <= 1 ==> r->Ok_0 is Some,
            r is Ok && final(self).depth() == 0 && old(self).spec_vm()->0.spec_step_limit() >= 1
                ==> r->Ok_0 == Some(Trap::ExecutionFinished),
    {
        if self.vm.is_none() {
            return Err(DebuggerError::NoRunningInstance);
        }
        let file = match &self.file {
            Some(file) => file,
            None => {
                return Err(DebuggerError::NoFileLoaded);
            },
        };
        let mut vm = self.vm.take().unwrap();
        let trap = vm.execute_step_out(file.module(), file.breakpoints());
        self.vm = Some(vm);
        Ok(trap)
    }

    /// Runs the machine until it stops or no more than `floor` calls are
    /// active.
    pub fn run_to_depth(&mut self, floor: usize) -> (r: DebuggerResult<Option<Trap>>)
        ensures
            old(self).runs_to(final(self), floor as nat, r),
    {
        if self.vm.is_none() {
            return Err(DebuggerError::NoRunningInstance);
        }
        let file = match &self.file {
            Some(file) => file,
            None => {
                return Err(DebuggerError::NoFileLoaded);
            },
        };
        let mut vm = self.vm.take().unwrap();
        let trap = vm.run_to_depth(file.module(), file.breakpoints(), floor);
        self.vm = Some(vm);
        Ok(trap)
    }

    /// The floor to which an operation of this kind runs, begun in the state
    /// the session is in.
    pub fn floor_of(&self, run_code_type: RunCodeType) -> (floor: Option<usize>)
        ensures
            floor == run_floor(run_code_type, self.depth() as usize),
    {
        let depth = match &self.vm {
            Some(vm) => vm.depth(),
            None => 0,
        };
        match run_code_type {
            RunCodeType::Step => None,
            RunCodeType::StepOver => Some(depth),
            RunCodeType::StepOut => if depth >= 1 {
                Some(depth - 1)
            } else {
                Some(0)
            },
            RunCodeType::Start => Some(0),
            RunCodeType::Continue => Some(0),
        }
    }

    /// Goes on after an instruction that the machine does not execute was
    /// executed for it from outside: the machine stops where it stands, at
    /// a code breakpoint or with no call active; else it runs on to the
    /// floor of the operation that was under way, if it is above it. Without
    /// a machine, or a file, the operation fails and the session stays as it
    /// is.
    pub fn resume_after_outside_step(&mut self, floor: Option<usize>) -> (r: DebuggerResult<
        Option<Trap>,
    >)
        ensures
            match old(self).running() {
                Err(error) => r == Err::<Option<Trap>, DebuggerError>(error) && *final(self)
                    == *old(self),
                Ok((vm, file)) => {
                    &&& r is Ok
                    &&& final(self).only_ran(old(self))
                    &&& resumes(
                        &file.spec_module(),
                        &file.spec_breakpoints(),
                        vm@,
                        vm.spec_handler(),
                        floor,
                        vm.spec_step_limit() as nat,
                        final(self).spec_vm()->0@,
                        final(self).spec_vm()->0.spec_handler(),
                        r->Ok_0,
                    )
                    &&& floor == Some(0usize) ==> r->Ok_0 is Some
                },
            },
    {
        if self.vm.is_none() {
            return Err(DebuggerError::NoRunningInstance);
        }
        let file = match &self.file {
            Some(file) => file,
            None => {
                return Err(DebuggerError::NoFileLoaded);
            },
        };
        let mut vm = self.vm.take().unwrap();
        let trap = vm.resume_after_outside_step(file.module(), file.breakpoints(), floor);
        self.vm = Some(vm);
        Ok(trap)
    }

    /// Has the machine run in the way a front end asks for.
    pub fn run_code(&mut self, run_code_type: RunCodeType) -> (r: DebuggerResult<Option<Trap>>)
        ensures
            match run_code_type {
                RunCodeType::Start => old(self).starts_to(final(self), r),
                RunCodeType::Step => old(self).steps_to(final(self), r),
                RunCodeType::StepOut => old(self).runs_to(
                    final(self),
                    one_less(old(self).depth()),
                    r,
                ),
                RunCodeType::StepOver => old(self).runs_to(final(self), old(self).depth(), r),
                RunCodeType::Continue => old(self).runs_to(final(self), 0, r) && (r is Ok ==> r->Ok_0
                    is Some),
            },
    {
        match run_code_type {
            RunCodeType::Start => self.start(),
            RunCodeType::Step => self.execute_step(),
            RunCodeType::StepOut => self.execute_step_out(),
            RunCodeType::StepOver => self.execute_step_over(),
            RunCodeType::Continue => match self.continue_execution() {
                Ok(trap) => Ok(Some(trap)),
                Err(error) => Err(error),
            },
        }
    }

    /// The machine, to change it.
    pub fn get_vm_mut(&mut self) -> (r: DebuggerResult<&mut VM<F>>)
        ensures
            match old(self).spec_vm() {
                Some(vm) => r matches Ok(vm_ref) && *vm_ref == vm && final(self).spec_vm() == Some(
                    *final(vm_ref),
                ) && final(self).spec_file() == old(self).spec_file(),
                None => r is Err && r->Err_0 == DebuggerError::NoRunningInstance && *final(self)
                    == *old(self),
            },
    {
        match &mut self.vm {
            Some(vm) => Ok(vm),
            None => Err(DebuggerError::NoRunningInstance),
        }
    }

    /// The loaded file, to change it.
    pub fn get_file_mut(&mut self) -> (r: DebuggerResult<&mut File>)
        ensures
            match old(self).spec_file() {
                Some(file) => r matches Ok(file_ref) && *file_ref == file && final(self).spec_file()
                    == Some(*final(file_ref)) && final(self).spec_vm() == old(self).spec_vm(),
                None => r is Err && r->Err_0 == DebuggerError::NoFileLoaded && *final(self)
                    == *old(self),
            },
    {
        match &mut self.file {
            Some(file) => Ok(file),
            None => Err(DebuggerError::NoFileLoaded),
        }
    }
}

} // verus!
