//! The machine: the state it holds and the dispatch of one instruction.

use vstd::prelude::*;

use crate::breakpoints::Breakpoints;
use crate::vm::import_func::{
    ImportAnswer, ImportError, ImportFunctionHandler, ImportReply, ImportRequest,
};
use crate::vm::init::{init_globals, init_memory, init_table, spec_initial_state};
use crate::vm::semantics;
use crate::vm::semantics::{Access, Action, Effect, Outcome};
use crate::vm::state::{frame_views, Frame, Label, Memory, VmState};
use crate::vm::{CodePosition, InitError, Trap, VMResult};
use crate::wasm::endian::{ExtendTo, LittleEndianConvert};
use crate::wasm::module::{Instruction, LoadOp, MemWidth, Module, MAX_PAGES, PAGE_SIZE};
use crate::wasm::ops::{
    bool_value, eval_convert, eval_i32_binary, eval_i32_compare, eval_i32_unary, eval_i64_binary,
    eval_i64_compare, eval_i64_unary,
};
use crate::wasm::value::{Value, ValueType, F32, F64};

verus! {

/// A machine that runs one module. It holds a handler for the calls of
/// imported functions, and the number of instructions that one operation may
/// dispatch before it gives up.
pub struct VM<F: ImportFunctionHandler> {
    ip: CodePosition,
    value_stack: Vec<Value>,
    function_stack: Vec<Frame>,
    globals: Vec<Value>,
    memory: Option<Memory>,
    table: Option<Vec<Option<u32>>>,
    handler: F,
    step_limit: u64,
}

/// Looks for the end of the block that is open at `start` in a function.
pub(crate) fn find_block_end(module: &Module, func_index: u32, start: u32) -> (r: Option<
    (Option<u32>, u32),
>)
    ensures
        match semantics::scan_block(module.code(func_index), start as int, 0, None) {
            None => r is None,
            Some((else_at, end)) => {
                &&& r matches Some((found_else, found_end))
                &&& found_end == end
                &&& end < module.code(func_index).len()
                &&& end < u32::MAX
                &&& match else_at {
                    None => found_else is None,
                    Some(e) => found_else == Some(e as u32) && start <= e < end,
                }
            },
        },
{
    let func = match module.get_func(func_index) {
        Some(func) => func,
        None => {
            return None;
        },
    };
    let ghost code = module.code(func_index);
    let mut at: usize = start as usize;
    let mut depth: usize = 0;
    let mut else_at: Option<u32> = None;
    let ghost mut else_spec: Option<int> = None;
    while at < func.instructions.len() && at < u32::MAX as usize
        invariant
            code == module.code(func_index),
            module.spec_get_func(func_index) == Some(*func),
            start <= at,
            depth <= at - start,
            else_spec is None <==> else_at is None,
            else_spec matches Some(e) ==> else_at == Some(e as u32) && start <= e < at,
            semantics::scan_block(code, start as int, 0, None) == semantics::scan_block(
                code,
                at as int,
                depth as nat,
                else_spec,
            ),
        decreases func.instructions@.len() - at,
    {
        match &func.instructions[at] {
            Instruction::Block(_) | Instruction::Loop(_) | Instruction::If(_) => {
                depth = depth + 1;
            },
            Instruction::Else => {
                if depth == 0 && else_at.is_none() {
                    else_at = Some(at as u32);
                    proof {
                        else_spec = Some(at as int);
                    }
                }
            },
            Instruction::End => {
                if depth == 0 {
                    return Some((else_at, at as u32));
                }
                depth = depth - 1;
            },
            _ => {},
        }
        at = at + 1;
    }
    None
}

/// Reads what a load reads at `addr`.
pub(crate) fn load_from(data: &Vec<u8>, addr: usize, op: LoadOp) -> (v: Value)
    requires
        addr + op.width.spec_bytes() <= data@.len(),
    ensures
        v == semantics::load_value(
            op,
            data@.subrange(addr as int, addr + op.width.spec_bytes()),
        ),
{
    let count = op.width.bytes();
    let len = data.len();
    let bytes = vstd::slice::slice_subrange(data.as_slice(), addr, addr + count);
    let raw: u64 = match op.width {
        MemWidth::B8 => u8::from_little_endian(bytes) as u64,
        MemWidth::B16 => u16::from_little_endian(bytes) as u64,
        MemWidth::B32 => u32::from_little_endian(bytes) as u64,
        MemWidth::B64 => u64::from_little_endian(bytes),
    };
    let bits: u64 = if op.signed {
        match op.width {
            MemWidth::B8 => ((raw as u8) as i8).extend_to(),
            MemWidth::B16 => ((raw as u16) as i16).extend_to(),
            MemWidth::B32 => ((raw as u32) as i32).extend_to(),
            MemWidth::B64 => raw,
        }
    } else {
        raw
    };
    match op.value_type {
        ValueType::I32 => Value::I32((bits as u32) as i32),
        ValueType::I64 => Value::I64(bits as i64),
        ValueType::F32 => Value::F32(F32::from_bits(bits as u32)),
        ValueType::F64 => Value::F64(F64::from_bits(bits)),
    }
}

/// The bits of a value, zero-extended to 64 bits.
pub(crate) fn value_bits(v: Value) -> (bits: u64)
    ensures
        bits == semantics::bits_of_value(v),
{
    match v {
        Value::I32(x) => (x as u32) as u64,
        Value::I64(x) => x as u64,
        Value::F32(f) => f.to_bits() as u64,
        Value::F64(f) => f.to_bits(),
    }
}

/// Cuts `stack` as `unwind` says.
pub(crate) fn unwind_values(stack: &mut Vec<Value>, pops: usize, height: usize, carry: usize)
    requires
        height + carry + pops <= old(stack)@.len(),
    ensures
        final(stack)@ == semantics::unwind(old(stack)@, pops, height as nat, carry),
{
    let n = stack.len();
    let m = n - pops;
    stack.truncate(m);
    let ghost rest = stack@;
    let mut i: usize = 0;
    while i < carry
        invariant
            i <= carry,
            height + carry <= m,
            stack@.len() == m,
            rest.len() == m,
            forall|k: int|
                height <= k < height + i ==> #[trigger] stack@[k] == rest[k - height + m - carry],
            forall|k: int| 0 <= k < m && !(height <= k < height + i) ==> stack@[k] == rest[k],
        decreases carry - i,
    {
        let v = stack[m - carry + i];
        stack.set(height + i, v);
        i = i + 1;
    }
    stack.truncate(height + carry);
}

/// Appends the zero value of each type to `values`.
pub(crate) fn push_defaults(values: &mut Vec<Value>, types: &Vec<ValueType>)
    ensures
        final(values)@ == old(values)@ + semantics::default_values(types@),
{
    let mut i: usize = 0;
    while i < types.len()
        invariant
            i <= types@.len(),
            values@ == old(values)@ + semantics::default_values(types@).take(i as int),
        decreases types@.len() - i,
    {
        values.push(Value::default(types[i]));
        i = i + 1;
    }
}

/// A copy of the values of `values` from `from` on.
pub(crate) fn copy_values(values: &Vec<Value>, from: usize) -> (r: Vec<Value>)
    requires
        from <= values@.len(),
    ensures
        r@ == values@.skip(from as int),
{
    let mut r: Vec<Value> = Vec::new();
    let mut i: usize = from;
    while i < values.len()
        invariant
            from <= i <= values@.len(),
            r@ == values@.subrange(from as int, i as int),
        decreases values@.len() - i,
    {
        r.push(values[i]);
        i = i + 1;
    }
    r
}

/// A copy of `bytes`.
pub(crate) fn copy_bytes(bytes: &Vec<u8>) -> (r: Vec<u8>)
    ensures
        r@ == bytes@,
{
    let mut r: Vec<u8> = Vec::new();
    let mut i: usize = 0;
    while i < bytes.len()
        invariant
            i <= bytes@.len(),
            r@ == bytes@.take(i as int),
        decreases bytes@.len() - i,
    {
        r.push(bytes[i]);
        i = i + 1;
    }
    r
}

/// Puts `src` in place of the first values of `dst`.
pub(crate) fn replace_values(dst: &mut Vec<Value>, src: &Vec<Value>)
    requires
        src@.len() <= old(dst)@.len(),
    ensures
        final(dst)@ == src@ + old(dst)@.skip(src@.len() as int),
{
    let mut i: usize = 0;
    while i < src.len()
        invariant
            i <= src@.len(),
            src@.len() <= dst@.len(),
            dst@.len() == old(dst)@.len(),
            forall|k: int| 0 <= k < i ==> dst@[k] == src@[k],
            forall|k: int| i <= k < dst@.len() ==> dst@[k] == old(dst)@[k],
        decreases src@.len() - i,
    {
        dst.set(i, src[i]);
        i = i + 1;
    }
}

/// Puts `src` in place of the first bytes of `dst`.
pub(crate) fn replace_bytes(dst: &mut Vec<u8>, src: &Vec<u8>)
    requires
        src@.len() <= old(dst)@.len(),
    ensures
        final(dst)@ == src@ + old(dst)@.skip(src@.len() as int),
{
    let mut i: usize = 0;
    while i < src.len()
        invariant
            i <= src@.len(),
            src@.len() <= dst@.len(),
            dst@.len() == old(dst)@.len(),
            forall|k: int| 0 <= k < i ==> dst@[k] == src@[k],
            forall|k: int| i <= k < dst@.len() ==> dst@[k] == old(dst)@[k],
        decreases src@.len() - i,
    {
        dst.set(i, src[i]);
        i = i + 1;
    }
}

/// Writes what a store writes at `addr`.
pub(crate) fn store_at(data: &mut Vec<u8>, addr: usize, width: MemWidth, bits: u64)
    requires
        addr + width.spec_bytes() <= old(data)@.len(),
    ensures
        final(data)@ == semantics::write_at(
            old(data)@,
            addr as int,
            semantics::store_bytes(width, bits),
        ),
{
    let len = data.len();
    match width {
        MemWidth::B8 => {
            data.set(addr, bits as u8);
        },
        MemWidth::B16 => {
            let x = bits as u16;
            data.set(addr, (x & 0xff) as u8);
            data.set(addr + 1, ((x >> 8) & 0xff) as u8);
        },
        MemWidth::B32 => {
            let x = bits as u32;
            data.set(addr, (x & 0xff) as u8);
            data.set(addr + 1, ((x >> 8) & 0xff) as u8);
            data.set(addr + 2, ((x >> 16) & 0xff) as u8);
            data.set(addr + 3, ((x >> 24) & 0xff) as u8);
        },
        MemWidth::B64 => {
            let x = bits;
            data.set(addr, (x & 0xff) as u8);
            data.set(addr + 1, ((x >> 8) & 0xff) as u8);
            data.set(addr + 2, ((x >> 16) & 0xff) as u8);
            data.set(addr + 3, ((x >> 24) & 0xff) as u8);
            data.set(addr + 4, ((x >> 32) & 0xff) as u8);
            data.set(addr + 5, ((x >> 40) & 0xff) as u8);
            data.set(addr + 6, ((x >> 48) & 0xff) as u8);
            data.set(addr + 7, ((x >> 56) & 0xff) as u8);
        },
    }
}

/// Appends `delta` pages of zeros to `data`.
pub(crate) fn grow_by(data: &mut Vec<u8>, delta: u32)
    requires
        old(data)@.len() + delta * PAGE_SIZE <= usize::MAX,
    ensures
        final(data)@ == old(data)@ + semantics::zero_bytes((delta * PAGE_SIZE) as nat),
{
    let len = data.len();
    let more: usize = (delta as usize) * (PAGE_SIZE as usize);
    data.resize(len + more, 0u8);
}

fn stack_step(pops: usize, push: Option<Value>) -> (action: Action)
    ensures
        action == semantics::stack_step(pops, push),
{
    Action::Step { pops, push, effect: None, access: None }
}

fn effect_step(pops: usize, effect: Effect, access: Option<Access>) -> (action: Action)
    ensures
        action == semantics::effect_step(pops, effect, access),
{
    Action::Step { pops, push: None, effect: Some(effect), access }
}

impl<F: ImportFunctionHandler> VM<F> {
    /// The state of the machine.
    pub closed spec fn view(&self) -> VmState {
        VmState {
            ip: self.ip,
            value_stack: self.value_stack@,
            frames: frame_views(self.function_stack@),
            globals: self.globals@,
            memory: match self.memory {
                Some(memory) => Some(memory@),
                None => None,
            },
            table: match self.table {
                Some(table) => Some(table@),
                None => None,
            },
        }
    }

    /// The number of instructions that one operation may dispatch.
    pub closed spec fn spec_step_limit(&self) -> u64 {
        self.step_limit
    }

    /// The handler that the machine asks when an imported function is called.
    pub closed spec fn spec_handler(&self) -> F {
        self.handler
    }

    /// A machine for a module, in the state in which it starts, with the
    /// handler for the calls of imported functions. One operation of it may
    /// dispatch as many instructions as a 64-bit number can count.
    pub fn new(module: &Module, handler: F) -> (r: Result<VM<F>, InitError>)
        ensures
            match spec_initial_state(module) {
                Ok(state) => r matches Ok(vm) && vm@ == state && vm.spec_step_limit() == u64::MAX
                    && vm.spec_handler() == handler,
                Err(error) => r matches Err(e) && e == error,
            },
    {
        let globals = match init_globals(module) {
            Ok(globals) => globals,
            Err(error) => {
                return Err(error);
            },
        };
        let memory = match init_memory(module, &globals) {
            Ok(memory) => memory,
            Err(error) => {
                return Err(error);
            },
        };
        let table = match init_table(module, &globals) {
            Ok(table) => table,
            Err(error) => {
                return Err(error);
            },
        };
        let vm = VM {
            ip: CodePosition { func_index: 0, instr_index: 0 },
            value_stack: Vec::new(),
            function_stack: Vec::new(),
            globals,
            memory,
            table,
            handler,
            step_limit: u64::MAX,
        };
        Ok(vm)
    }

    /// The number of calls that are active.
    pub fn depth(&self) -> (depth: usize)
        ensures
            depth == self@.depth(),
    {
        self.function_stack.len()
    }

    /// Enters a function of the module from outside, with `args` for its
    /// parameters.
    pub fn enter(&mut self, module: &Module, func: u32, args: &Vec<Value>)
        requires
            func < module.functions@.len(),
        ensures
            final(self)@ == semantics::enter(module, old(self)@, func, args@),
            final(self).spec_step_limit() == old(self).spec_step_limit(),
            final(self).spec_handler() == old(self).spec_handler(),
    {
        let callee = &module.functions[func as usize];
        let mut locals: Vec<Value> = Vec::new();
        let mut i: usize = 0;
        while i < callee.params.len()
            invariant
                i <= callee.params@.len(),
                locals@.len() == i,
                forall|k: int|
                    0 <= k < i ==> #[trigger] locals@[k] == if k < args@.len() {
                        args@[k]
                    } else {
                        Value::spec_default(callee.params@[k])
                    },
            decreases callee.params@.len() - i,
        {
            if i < args.len() {
                locals.push(args[i]);
            } else {
                locals.push(Value::default(callee.params[i]));
            }
            i = i + 1;
        }
        push_defaults(&mut locals, &callee.locals);
        assert(locals@ =~= semantics::entry_locals(*callee, args@));
        let frame = Frame {
            locals,
            ret_addr: self.ip,
            stack_base: self.value_stack.len(),
            labels: Vec::new(),
        };
        self.function_stack.push(frame);
        self.ip = CodePosition { func_index: func, instr_index: 0 };
    }

    /// The instruction pointer.
    pub fn ip(&self) -> (pos: CodePosition)
        ensures
            pos == self@.ip,
    {
        self.ip
    }

    /// The value stack, the top last.
    pub fn value_stack(&self) -> (stack: &Vec<Value>)
        ensures
            stack@ == self@.value_stack,
    {
        &self.value_stack
    }

    /// The function stack, the outermost call first.
    pub fn function_stack(&self) -> (frames: &Vec<Frame>)
        ensures
            frame_views(frames@) == self@.frames,
    {
        &self.function_stack
    }

    /// The globals.
    pub fn globals(&self) -> (globals: &Vec<Value>)
        ensures
            globals@ == self@.globals,
    {
        &self.globals
    }

    /// The memory of the machine; `NoMemory` where it has none.
    pub fn default_memory(&self) -> (r: VMResult<&Memory>)
        ensures
            match self@.memory {
                Some(memory) => r is Ok && r->Ok_0@ == memory,
                None => r == Err::<&Memory, Trap>(Trap::NoMemory),
            },
    {
        match &self.memory {
            Some(memory) => Ok(memory),
            None => Err(Trap::NoMemory),
        }
    }

    /// The table of the machine, if it has one: a function index or nothing
    /// for each element.
    pub fn table(&self) -> (table: Option<&Vec<Option<u32>>>)
        ensures
            match self@.table {
                Some(elements) => table is Some && table->0@ == elements,
                None => table is None,
            },
    {
        self.table.as_ref()
    }

    /// The value stack, to change it.
    pub fn value_stack_mut(&mut self) -> (stack: &mut Vec<Value>)
        ensures
            stack@ == old(self)@.value_stack,
            final(self)@ == (VmState { value_stack: final(stack)@, ..old(self)@ }),
            final(self).spec_step_limit() == old(self).spec_step_limit(),
            final(self).spec_handler() == old(self).spec_handler(),
    {
        &mut self.value_stack
    }

    /// The globals, to change them.
    pub fn globals_mut(&mut self) -> (globals: &mut Vec<Value>)
        ensures
            globals@ == old(self)@.globals,
            final(self)@ == (VmState { globals: final(globals)@, ..old(self)@ }),
            final(self).spec_step_limit() == old(self).spec_step_limit(),
            final(self).spec_handler() == old(self).spec_handler(),
    {
        &mut self.globals
    }

    /// The memory of the machine, to change it; `NoMemory` where it has none.
    pub fn default_memory_mut(&mut self) -> (r: VMResult<&mut Memory>)
        ensures
            match old(self)@.memory {
                Some(memory) => r matches Ok(reference) && reference@ == memory && final(self)@ == (
                VmState { memory: Some(final(reference)@), ..old(self)@ }),
                None => r is Err && r->Err_0 == Trap::NoMemory && final(self)@ == old(self)@,
            },
            final(self).spec_step_limit() == old(self).spec_step_limit(),
            final(self).spec_handler() == old(self).spec_handler(),
    {
        match &mut self.memory {
            Some(memory) => Ok(memory),
            None => Err(Trap::NoMemory),
        }
    }

    /// The handler for the calls of imported functions, to change it: what
    /// the caller leaves in it is the machine's handler from then on. The
    /// state of the machine stays as it is.
    pub fn import_function_handler_mut(&mut self) -> (handler: &mut F)
        ensures
            *handler == old(self).spec_handler(),
            final(self).spec_handler() == *final(handler),
            final(self)@ == old(self)@,
            final(self).spec_step_limit() == old(self).spec_step_limit(),
    {
        &mut self.handler
    }

    /// Moves the instruction pointer.
    pub fn set_ip(&mut self, pos: CodePosition)
        ensures
            final(self)@ == (VmState { ip: pos, ..old(self)@ }),
            final(self).spec_step_limit() == old(self).spec_step_limit(),
            final(self).spec_handler() == old(self).spec_handler(),
    {
        self.ip = pos;
    }

    /// The number of instructions that one operation may dispatch.
    #[verifier::when_used_as_spec(spec_step_limit)]
    pub fn step_limit(&self) -> (limit: u64)
        ensures
            limit == self.spec_step_limit(),
    {
        self.step_limit
    }

    /// Sets the number of instructions that one operation may dispatch.
    pub fn set_step_limit(&mut self, limit: u64)
        ensures
            final(self).spec_step_limit() == limit,
            final(self)@ == old(self)@,
            final(self).spec_handler() == old(self).spec_handler(),
    {
        self.step_limit = limit;
    }

    fn peek(&self, k: usize) -> (r: VMResult<Value>)
        ensures
            r == semantics::peek(self@, k as nat),
    {
        let n = self.value_stack.len();
        if k < n {
            Ok(self.value_stack[n - 1 - k])
        } else {
            Err(Trap::PopFromEmptyStack)
        }
    }

    fn peek_i32(&self, k: usize) -> (r: VMResult<i32>)
        ensures
            r == semantics::peek_i32(self@, k as nat),
    {
        match self.peek(k) {
            Ok(Value::I32(x)) => Ok(x),
            Ok(v) => Err(Trap::TypeError { expected: ValueType::I32, found: v.value_type() }),
            Err(trap) => Err(trap),
        }
    }

    fn peek_i64(&self, k: usize) -> (r: VMResult<i64>)
        ensures
            r == semantics::peek_i64(self@, k as nat),
    {
        match self.peek(k) {
            Ok(Value::I64(x)) => Ok(x),
            Ok(v) => Err(Trap::TypeError { expected: ValueType::I64, found: v.value_type() }),
            Err(trap) => Err(trap),
        }
    }

    fn plan_return(&self, module: &Module, pops: usize) -> (r: VMResult<Action>)
        requires
            self@.frames.len() > 0,
            pops <= 1,
        ensures
            r == semantics::plan_return(module, self@, pops),
            r matches Ok(action) ==> semantics::action_ok(module, self@, action),
    {
        let carry: usize = match module.get_func(self.ip.func_index) {
            Some(func) => if func.return_type.is_some() { 1 } else { 0 },
            None => 0,
        };
        let frame = &self.function_stack[self.function_stack.len() - 1];
        let n = self.value_stack.len();
        if frame.stack_base <= n && carry + pops <= n - frame.stack_base {
            Ok(Action::Return { pops, carry })
        } else {
            Err(Trap::PopFromEmptyStack)
        }
    }

    fn plan_branch(&self, module: &Module, depth: u32, pops: usize) -> (r: VMResult<Action>)
        requires
            self@.frames.len() > 0,
            pops <= 1,
        ensures
            r == semantics::plan_branch(module, self@, depth, pops),
            r matches Ok(action) ==> semantics::action_ok(module, self@, action),
    {
        let frame = &self.function_stack[self.function_stack.len() - 1];
        let count = frame.labels.len();
        if depth as usize > count {
            Err(Trap::InvalidBranchIndex(depth))
        } else if depth as usize == count {
            self.plan_return(module, pops)
        } else {
            let label = frame.labels[count - 1 - depth as usize];
            let carry: usize = if label.is_loop { 0 } else { label.arity };
            let labels_kept = if label.is_loop {
                count - depth as usize
            } else {
                count - 1 - depth as usize
            };
            let n = self.value_stack.len();
            if label.height <= n && carry <= n - label.height && pops <= n - label.height - carry {
                Ok(
                    Action::Jump {
                        pops,
                        labels_kept,
                        height: label.height,
                        carry,
                        target: label.target,
                        enter: None,
                    },
                )
            } else {
                Err(Trap::PopFromEmptyStack)
            }
        }
    }

    fn effective_address(&self, base: i32, offset: u32, width: MemWidth) -> (r: VMResult<usize>)
        ensures
            r == semantics::effective_address(self@, base, offset, width),
            r matches Ok(addr) ==> self@.memory is Some && addr + width.spec_bytes()
                <= self@.memory->0.data.len() && addr + width.spec_bytes() <= usize::MAX,
    {
        match &self.memory {
            None => Err(Trap::NoMemory),
            Some(memory) => {
                let addr: u64 = (base as u32) as u64 + offset as u64;
                let len = memory.data.len();
                let bytes = width.bytes();
                if len >= bytes && addr <= (len - bytes) as u64 {
                    Ok(addr as usize)
                } else {
                    Err(Trap::OutOfBoundsMemoryAccess)
                }
            },
        }
    }

    fn plan_grow(memory: &Memory, delta: u32) -> (action: Action)
        ensures
            action == semantics::plan_grow(memory@, delta),
            action matches Action::Step { pops, push, effect, access } && pops == 1 && access is None
                && (effect matches Some(e) ==> e == Effect::Grow(delta) && memory@.data.len()
                + delta * PAGE_SIZE <= usize::MAX),
    {
        let pages: usize = memory.data.len() / (PAGE_SIZE as usize);
        let limit: u32 = match memory.max_pages {
            Some(max) => if max < MAX_PAGES { max } else { MAX_PAGES },
            None => MAX_PAGES,
        };
        let fits_limit = pages <= limit as usize && delta as usize <= limit as usize - pages;
        let fits_memory = fits_limit && (delta as u64) * (PAGE_SIZE as u64) <= (usize::MAX
            - memory.data.len()) as u64;
        if fits_memory {
            Action::Step {
                pops: 1,
                push: Some(Value::I32(pages as i32)),
                effect: Some(Effect::Grow(delta)),
                access: None,
            }
        } else {
            stack_step(1, Some(Value::I32(-1i32)))
        }
    }

    fn plan_block(&self, module: &Module, instr: &Instruction) -> (r: VMResult<Action>)
        requires
            self@.frames.len() > 0,
            module.spec_instr_at(self@.ip) is Some,
        ensures
            r == semantics::plan_block(module, self@, *instr),
            r matches Ok(action) ==> semantics::action_ok(module, self@, action),
    {
        let n = self.value_stack.len();
        let frame = &self.function_stack[self.function_stack.len() - 1];
        let count = frame.labels.len();
        match instr {
            Instruction::Block(block_type) => {
                match find_block_end(module, self.ip.func_index, self.ip.instr_index + 1) {
                    Some((_, end)) => {
                        let label = Label {
                            is_loop: false,
                            height: n,
                            arity: block_type.arity(),
                            target: end + 1,
                        };
                        Ok(effect_step(0, Effect::PushLabel(label), None))
                    },
                    None => Err(Trap::UnbalancedBlock),
                }
            },
            Instruction::Loop(_) => {
                let label = Label {
                    is_loop: true,
                    height: n,
                    arity: 0,
                    target: self.ip.instr_index + 1,
                };
                Ok(effect_step(0, Effect::PushLabel(label), None))
            },
            Instruction::If(block_type) => {
                let cond = match self.peek_i32(0) {
                    Ok(cond) => cond,
                    Err(trap) => {
                        return Err(trap);
                    },
                };
                match find_block_end(module, self.ip.func_index, self.ip.instr_index + 1) {
                    None => Err(Trap::UnbalancedBlock),
                    Some((else_at, end)) => {
                        let label = Label {
                            is_loop: false,
                            height: n - 1,
                            arity: block_type.arity(),
                            target: end + 1,
                        };
                        if cond != 0 {
                            Ok(effect_step(1, Effect::PushLabel(label), None))
                        } else {
                            let (target, enter) = match else_at {
                                Some(e) => (e + 1, Some(label)),
                                None => (end + 1, None),
                            };
                            Ok(
                                Action::Jump {
                                    pops: 1,
                                    labels_kept: count,
                                    height: n - 1,
                                    carry: 0,
                                    target,
                                    enter,
                                },
                            )
                        }
                    },
                }
            },
            Instruction::Else => {
                if count == 0 {
                    Err(Trap::UnbalancedBlock)
                } else {
                    Ok(
                        Action::Jump {
                            pops: 0,
                            labels_kept: count - 1,
                            height: n,
                            carry: 0,
                            target: frame.labels[count - 1].target,
                            enter: None,
                        },
                    )
                }
            },
            Instruction::End => {
                if count > 0 {
                    Ok(effect_step(0, Effect::PopLabel, None))
                } else {
                    self.plan_return(module, 0)
                }
            },
            _ => Err(Trap::UnsupportedInstruction),
        }
    }

    fn plan_variable(&self, module: &Module, instr: &Instruction) -> (r: VMResult<Action>)
        requires
            self@.frames.len() > 0,
            module.spec_instr_at(self@.ip) is Some,
        ensures
            r == semantics::plan_variable(self@, *instr),
            r matches Ok(action) ==> semantics::action_ok(module, self@, action),
    {
        let n = self.value_stack.len();
        let frame = &self.function_stack[self.function_stack.len() - 1];
        match instr {
            Instruction::Drop => match self.peek(0) {
                Err(trap) => Err(trap),
                Ok(_) => Ok(stack_step(1, None)),
            },
            Instruction::Select => match self.peek_i32(0) {
                Err(trap) => Err(trap),
                Ok(cond) => match self.peek(2) {
                    Err(trap) => Err(trap),
                    Ok(first) => {
                        let chosen = if cond != 0 { first } else { self.value_stack[n - 2] };
                        Ok(stack_step(3, Some(chosen)))
                    },
                },
            },
            Instruction::GetLocal(index) => {
                if (*index as usize) < frame.locals.len() {
                    Ok(stack_step(0, Some(frame.locals[*index as usize])))
                } else {
                    Err(Trap::NoLocalWithIndex(*index))
                }
            },
            Instruction::SetLocal(index) => match self.peek(0) {
                Err(trap) => Err(trap),
                Ok(v) => if (*index as usize) < frame.locals.len() {
                    Ok(effect_step(1, Effect::SetLocal(*index, v), None))
                } else {
                    Err(Trap::NoLocalWithIndex(*index))
                },
            },
            Instruction::TeeLocal(index) => match self.peek(0) {
                Err(trap) => Err(trap),
                Ok(v) => if (*index as usize) < frame.locals.len() {
                    Ok(effect_step(0, Effect::SetLocal(*index, v), None))
                } else {
                    Err(Trap::NoLocalWithIndex(*index))
                },
            },
            Instruction::GetGlobal(index) => {
                if (*index as usize) < self.globals.len() {
                    Ok(
                        Action::Step {
                            pops: 0,
                            push: Some(self.globals[*index as usize]),
                            effect: None,
                            access: Some(Access::Global(*index, false)),
                        },
                    )
                } else {
                    Err(Trap::NoGlobalWithIndex(*index))
                }
            },
            Instruction::SetGlobal(index) => match self.peek(0) {
                Err(trap) => Err(trap),
                Ok(v) => if (*index as usize) < self.globals.len() {
                    Ok(
                        effect_step(
                            1,
                            Effect::SetGlobal(*index, v),
                            Some(Access::Global(*index, true)),
                        ),
                    )
                } else {
                    Err(Trap::NoGlobalWithIndex(*index))
                },
            },
            _ => Err(Trap::UnsupportedInstruction),
        }
    }

    fn plan_memory(&self, module: &Module, instr: &Instruction) -> (r: VMResult<Action>)
        requires
            self@.frames.len() > 0,
            module.spec_instr_at(self@.ip) is Some,
        ensures
            r == semantics::plan_memory(self@, *instr),
            r matches Ok(action) ==> semantics::action_ok(module, self@, action),
    {
        match instr {
            Instruction::Load(op, offset) => {
                let base = match self.peek_i32(0) {
                    Ok(base) => base,
                    Err(trap) => {
                        return Err(trap);
                    },
                };
                let addr = match self.effective_address(base, *offset, op.width) {
                    Ok(addr) => addr,
                    Err(trap) => {
                        return Err(trap);
                    },
                };
                match &self.memory {
                    Some(memory) => Ok(
                        Action::Step {
                            pops: 1,
                            push: Some(load_from(&memory.data, addr, *op)),
                            effect: None,
                            access: Some(Access::Memory(addr, op.width.bytes(), false)),
                        },
                    ),
                    None => Err(Trap::NoMemory),
                }
            },
            Instruction::Store(op, offset) => {
                let v = match self.peek(0) {
                    Ok(v) => v,
                    Err(trap) => {
                        return Err(trap);
                    },
                };
                let found = v.value_type();
                if found != op.value_type {
                    return Err(Trap::TypeError { expected: op.value_type, found });
                }
                let base = match self.peek_i32(1) {
                    Ok(base) => base,
                    Err(trap) => {
                        return Err(trap);
                    },
                };
                match self.effective_address(base, *offset, op.width) {
                    Err(trap) => Err(trap),
                    Ok(addr) => Ok(
                        effect_step(
                            2,
                            Effect::Store(addr, op.width, value_bits(v)),
                            Some(Access::Memory(addr, op.width.bytes(), true)),
                        ),
                    ),
                }
            },
            Instruction::CurrentMemory => match &self.memory {
                None => Err(Trap::NoMemory),
                Some(memory) => {
                    let pages = (memory.data.len() / (PAGE_SIZE as usize)) as i32;
                    Ok(stack_step(0, Some(Value::I32(pages))))
                },
            },
            Instruction::GrowMemory => match self.peek_i32(0) {
                Err(trap) => Err(trap),
                Ok(delta) => match &self.memory {
                    None => Err(Trap::NoMemory),
                    Some(memory) => Ok(Self::plan_grow(memory, delta as u32)),
                },
            },
            _ => Err(Trap::UnsupportedInstruction),
        }
    }

    fn plan_numeric(&self, module: &Module, instr: &Instruction) -> (r: VMResult<Action>)
        requires
            self@.frames.len() > 0,
            module.spec_instr_at(self@.ip) is Some,
        ensures
            r == semantics::plan_numeric(self@, *instr),
            r matches Ok(action) ==> semantics::action_ok(module, self@, action),
    {
        match instr {
            Instruction::Const(v) => Ok(stack_step(0, Some(*v))),
            Instruction::I32Unary(op) => match self.peek_i32(0) {
                Err(trap) => Err(trap),
                Ok(a) => Ok(stack_step(1, Some(Value::I32(eval_i32_unary(*op, a))))),
            },
            Instruction::I32Binary(op) => match self.peek_i32(0) {
                Err(trap) => Err(trap),
                Ok(b) => match self.peek_i32(1) {
                    Err(trap) => Err(trap),
                    Ok(a) => match eval_i32_binary(*op, a, b) {
                        Err(trap) => Err(trap),
                        Ok(r) => Ok(stack_step(2, Some(Value::I32(r)))),
                    },
                },
            },
            Instruction::I32Compare(op) => match self.peek_i32(0) {
                Err(trap) => Err(trap),
                Ok(b) => match self.peek_i32(1) {
                    Err(trap) => Err(trap),
                    Ok(a) => Ok(stack_step(2, Some(bool_value(eval_i32_compare(*op, a, b))))),
                },
            },
            Instruction::I32Eqz => match self.peek_i32(0) {
                Err(trap) => Err(trap),
                Ok(a) => Ok(stack_step(1, Some(bool_value(a == 0)))),
            },
            Instruction::I64Unary(op) => match self.peek_i64(0) {
                Err(trap) => Err(trap),
                Ok(a) => Ok(stack_step(1, Some(Value::I64(eval_i64_unary(*op, a))))),
            },
            Instruction::I64Binary(op) => match self.peek_i64(0) {
                Err(trap) => Err(trap),
                Ok(b) => match self.peek_i64(1) {
                    Err(trap) => Err(trap),
                    Ok(a) => match eval_i64_binary(*op, a, b) {
                        Err(trap) => Err(trap),
                        Ok(r) => Ok(stack_step(2, Some(Value::I64(r)))),
                    },
                },
            },
            Instruction::I64Compare(op) => match self.peek_i64(0) {
                Err(trap) => Err(trap),
                Ok(b) => match self.peek_i64(1) {
                    Err(trap) => Err(trap),
                    Ok(a) => Ok(stack_step(2, Some(bool_value(eval_i64_compare(*op, a, b))))),
                },
            },
            Instruction::I64Eqz => match self.peek_i64(0) {
                Err(trap) => Err(trap),
                Ok(a) => Ok(stack_step(1, Some(bool_value(a == 0)))),
            },
            Instruction::Convert(op) => match self.peek(0) {
                Err(trap) => Err(trap),
                Ok(v) => match eval_convert(*op, v) {
                    Err(trap) => Err(trap),
                    Ok(r) => Ok(stack_step(1, Some(r))),
                },
            },
            _ => Err(Trap::UnsupportedInstruction),
        }
    }

    fn plan_call(&self, module: &Module, func_index: u32, pops: usize) -> (r: VMResult<Action>)
        requires
            self@.frames.len() > 0,
            self@.ip.instr_index < u32::MAX,
            pops <= 1,
        ensures
            r == semantics::plan_call(module, self@, func_index, pops),
            r matches Ok(action) ==> semantics::action_ok(module, self@, action),
    {
        match module.get_func(func_index) {
            None => Err(Trap::NoFunctionWithIndex(func_index)),
            Some(func) => {
                let n = self.value_stack.len();
                let params = func.params.len();
                if pops > n || params > n - pops {
                    Err(Trap::PopFromEmptyStack)
                } else if func.is_imported {
                    Ok(Action::Import { pops, func: func_index, params })
                } else {
                    Ok(Action::Call { pops, func: func_index, params })
                }
            },
        }
    }

    fn plan_call_indirect(&self, module: &Module, type_index: u32) -> (r: VMResult<Action>)
        requires
            self@.frames.len() > 0,
            self@.ip.instr_index < u32::MAX,
        ensures
            r == semantics::plan(module, self@, Instruction::CallIndirect(type_index)),
            r matches Ok(action) ==> semantics::action_ok(module, self@, action),
    {
        let index = match self.peek_i32(0) {
            Ok(index) => index as u32,
            Err(trap) => {
                return Err(trap);
            },
        };
        let table = match &self.table {
            Some(table) => table,
            None => {
                return Err(Trap::NoTable);
            },
        };
        let entry = if (index as usize) < table.len() {
            table[index as usize]
        } else {
            None
        };
        let func_index = match entry {
            Some(func_index) => func_index,
            None => {
                return Err(Trap::UndefinedElement);
            },
        };
        let func = match module.get_func(func_index) {
            Some(func) => func,
            None => {
                return Err(Trap::NoFunctionWithIndex(func_index));
            },
        };
        let function_type = match module.get_type(type_index) {
            Some(function_type) => function_type,
            None => {
                return Err(Trap::NoTypeWithIndex(type_index));
            },
        };
        if func.has_type(function_type) {
            self.plan_call(module, func_index, 1)
        } else {
            Err(Trap::IndirectCallTypeMismatch)
        }
    }

    /// What the instruction at the instruction pointer does, or the fault it
    /// ends in. The state of the machine stays as it is.
    fn plan(&self, module: &Module, instr: &Instruction) -> (r: VMResult<Action>)
        requires
            self@.frames.len() > 0,
            module.spec_instr_at(self@.ip) is Some,
        ensures
            r == semantics::plan(module, self@, *instr),
            r matches Ok(action) ==> semantics::action_ok(module, self@, action),
    {
        match instr {
            Instruction::Unreachable => Err(Trap::Unreachable),
            Instruction::Unsupported => Err(Trap::UnsupportedInstruction),
            Instruction::Nop => Ok(stack_step(0, None)),
            Instruction::Return => self.plan_return(module, 0),
            Instruction::Br(depth) => self.plan_branch(module, *depth, 0),
            Instruction::BrIf(depth) => match self.peek_i32(0) {
                Err(trap) => Err(trap),
                Ok(cond) => if cond != 0 {
                    self.plan_branch(module, *depth, 1)
                } else {
                    Ok(stack_step(1, None))
                },
            },
            Instruction::BrTable(table, default) => match self.peek_i32(0) {
                Err(trap) => Err(trap),
                Ok(index) => {
                    let depth = if ((index as u32) as usize) < table.len() {
                        table[(index as u32) as usize]
                    } else {
                        *default
                    };
                    self.plan_branch(module, depth, 1)
                },
            },
            Instruction::Call(func_index) => self.plan_call(module, *func_index, 0),
            Instruction::CallIndirect(type_index) => self.plan_call_indirect(module, *type_index),
            Instruction::Block(_)
            | Instruction::Loop(_)
            | Instruction::If(_)
            | Instruction::Else
            | Instruction::End => self.plan_block(module, instr),
            Instruction::Drop
            | Instruction::Select
            | Instruction::GetLocal(_)
            | Instruction::SetLocal(_)
            | Instruction::TeeLocal(_)
            | Instruction::GetGlobal(_)
            | Instruction::SetGlobal(_) => self.plan_variable(module, instr),
            Instruction::Load(_, _)
            | Instruction::Store(_, _)
            | Instruction::CurrentMemory
            | Instruction::GrowMemory => self.plan_memory(module, instr),
            Instruction::Const(_)
            | Instruction::I32Unary(_)
            | Instruction::I32Binary(_)
            | Instruction::I32Compare(_)
            | Instruction::I32Eqz
            | Instruction::I64Unary(_)
            | Instruction::I64Binary(_)
            | Instruction::I64Compare(_)
            | Instruction::I64Eqz
            | Instruction::Convert(_) => self.plan_numeric(module, instr),
        }
    }

    /// Carries out an effect.
    fn apply_effect(&mut self, effect: Effect)
        requires
            old(self)@.frames.len() > 0,
            match effect {
                Effect::SetLocal(index, _) => index < old(self)@.frames.last().locals.len(),
                Effect::SetGlobal(index, _) => index < old(self)@.globals.len(),
                Effect::Store(addr, width, _) => old(self)@.memory is Some && addr
                    + width.spec_bytes() <= old(self)@.memory->0.data.len(),
                Effect::Grow(delta) => old(self)@.memory is Some && old(self)@.memory->0.data.len()
                    + delta * PAGE_SIZE <= usize::MAX,
                Effect::PushLabel(_) => true,
                Effect::PopLabel => old(self)@.frames.last().labels.len() > 0,
            },
        ensures
            final(self)@ == semantics::apply_effect(old(self)@, effect),
            final(self).spec_step_limit() == old(self).spec_step_limit(),
            final(self).spec_handler() == old(self).spec_handler(),
    {
        match effect {
            Effect::SetLocal(index, v) => {
                let mut frame = self.function_stack.pop().unwrap();
                frame.locals.set(index as usize, v);
                self.function_stack.push(frame);
            },
            Effect::SetGlobal(index, v) => {
                self.globals.set(index as usize, v);
            },
            Effect::Store(addr, width, bits) => {
                let mut memory = self.memory.take().unwrap();
                store_at(&mut memory.data, addr, width, bits);
                self.memory = Some(memory);
            },
            Effect::Grow(delta) => {
                let mut memory = self.memory.take().unwrap();
                grow_by(&mut memory.data, delta);
                self.memory = Some(memory);
            },
            Effect::PushLabel(label) => {
                let mut frame = self.function_stack.pop().unwrap();
                frame.labels.push(label);
                self.function_stack.push(frame);
            },
            Effect::PopLabel => {
                let mut frame = self.function_stack.pop().unwrap();
                frame.labels.pop();
                self.function_stack.push(frame);
            },
        }
    }

    /// Carries out an action that is no call of an imported function.
    fn apply(&mut self, module: &Module, action: Action)
        requires
            semantics::action_ok(module, old(self)@, action),
            !(action is Import),
        ensures
            final(self)@ == semantics::apply(module, old(self)@, action),
            final(self).spec_step_limit() == old(self).spec_step_limit(),
            final(self).spec_handler() == old(self).spec_handler(),
    {
        let n = self.value_stack.len();
        match action {
            Action::Step { pops, push, effect, access } => {
                self.value_stack.truncate(n - pops);
                match push {
                    Some(v) => {
                        self.value_stack.push(v);
                    },
                    None => {},
                }
                self.ip = CodePosition {
                    func_index: self.ip.func_index,
                    instr_index: self.ip.instr_index + 1,
                };
                match effect {
                    Some(effect) => {
                        self.apply_effect(effect);
                    },
                    None => {},
                }
            },
            Action::Jump { pops, labels_kept, height, carry, target, enter } => {
                unwind_values(&mut self.value_stack, pops, height, carry);
                let mut frame = self.function_stack.pop().unwrap();
                frame.labels.truncate(labels_kept);
                match enter {
                    Some(label) => {
                        frame.labels.push(label);
                    },
                    None => {},
                }
                self.function_stack.push(frame);
                self.ip = CodePosition { func_index: self.ip.func_index, instr_index: target };
            },
            Action::Return { pops, carry } => {
                let frame = self.function_stack.pop().unwrap();
                unwind_values(&mut self.value_stack, pops, frame.stack_base, carry);
                if self.function_stack.len() > 0 {
                    self.ip = frame.ret_addr;
                }
            },
            Action::Call { pops, func, params } => {
                let callee = &module.functions[func as usize];
                self.value_stack.truncate(n - pops);
                let mut locals = self.value_stack.split_off(n - pops - params);
                push_defaults(&mut locals, &callee.locals);
                let frame = Frame {
                    locals,
                    ret_addr: CodePosition {
                        func_index: self.ip.func_index,
                        instr_index: self.ip.instr_index + 1,
                    },
                    stack_base: n - pops - params,
                    labels: Vec::new(),
                };
                self.function_stack.push(frame);
                self.ip = CodePosition { func_index: func, instr_index: 0 };
                assert(self@.frames.last().locals =~= semantics::apply(
                    module,
                    old(self)@,
                    action,
                ).frames.last().locals);
            },
            Action::Import { pops, func, params } => {},
        }
    }

    /// Why the machine stops in the state it is in, an instruction with
    /// this access having been executed; nothing if it goes on.
    pub(crate) fn stop_after(&self, breakpoints: &Breakpoints, access: Option<Access>) -> (trap:
        Option<Trap>)
        ensures
            trap == semantics::stop_after(breakpoints, self@, access),
    {
        if self.function_stack.len() == 0 {
            return Some(Trap::ExecutionFinished);
        }
        let hit = match access {
            Some(Access::Global(index, write)) => breakpoints.find_global(index, write),
            Some(Access::Memory(addr, len, write)) => breakpoints.find_memory(
                addr as u64,
                len as u64,
                write,
            ),
            None => None,
        };
        match hit {
            Some(index) => Some(Trap::WatchpointReached(index)),
            None => match breakpoints.find_code(self.ip) {
                Some(index) => Some(Trap::BreakpointReached(index)),
                None => None,
            },
        }
    }

    /// What a handler is handed for a call of the imported function `func`
    /// whose `params` arguments lie `pops` values below the top of the
    /// stack: the arguments, the globals and the bytes of the memory, as they
    /// are.
    pub fn import_request(&self, func: u32, pops: usize, params: usize) -> (request: ImportRequest)
        requires
            pops + params <= self@.value_stack.len(),
        ensures
            request@ == semantics::request_for(self@, func, pops, params),
    {
        let n = self.value_stack.len();
        let mut args = copy_values(&self.value_stack, n - pops - params);
        args.truncate(params);
        let request = ImportRequest {
            func_index: func,
            args,
            globals: copy_values(&self.globals, 0),
            memory: match &self.memory {
                Some(memory) => Some(copy_bytes(&memory.data)),
                None => None,
            },
        };
        assert(request@ =~= semantics::request_for(self@, func, pops, params));
        request
    }

    /// Completes a call of the imported function `func` with what the
    /// handler answered. With an answer that fits the machine, the call
    /// returns: the `pops` values on top and the arguments below them leave
    /// the stack, the value returned is pushed, and the globals and bytes of
    /// the answer replace the first globals and bytes of the machine. Without
    /// one, the machine stays as it is and stops: with `NoMemory` where the
    /// handler answered so, else with `UnsupportedCallToImportedFunction`.
    pub fn complete_import(
        &mut self,
        module: &Module,
        breakpoints: &Breakpoints,
        func: u32,
        pops: usize,
        params: usize,
        reply: ImportAnswer,
    ) -> (trap: Option<Trap>)
        requires
            pops + params <= old(self)@.value_stack.len(),
            old(self)@.ip.instr_index < u32::MAX,
        ensures
            semantics::perform(
                module,
                breakpoints,
                old(self)@,
                Action::Import { pops, func, params },
                reply,
            ) == (Outcome { state: final(self)@, trap }),
            final(self).spec_step_limit() == old(self).spec_step_limit(),
            final(self).spec_handler() == old(self).spec_handler(),
    {
        let reply = match reply {
            Ok(reply) => reply,
            Err(ImportError::NoMemory) => {
                return Some(Trap::NoMemory);
            },
            Err(ImportError::Unsupported) => {
                return Some(Trap::UnsupportedCallToImportedFunction(func));
            },
        };
        let memory_len = match &self.memory {
            Some(memory) => memory.data.len(),
            None => 0,
        };
        if reply.globals.len() <= self.globals.len() && reply.memory.len() <= memory_len {
            let n = self.value_stack.len();
            self.value_stack.truncate(n - pops - params);
            match reply.return_value {
                Some(v) => {
                    self.value_stack.push(v);
                },
                None => {},
            }
            replace_values(&mut self.globals, &reply.globals);
            if self.memory.is_some() {
                let mut memory = self.memory.take().unwrap();
                replace_bytes(&mut memory.data, &reply.memory);
                self.memory = Some(memory);
            }
            self.ip = CodePosition {
                func_index: self.ip.func_index,
                instr_index: self.ip.instr_index + 1,
            };
            self.stop_after(breakpoints, None)
        } else {
            Some(Trap::UnsupportedCallToImportedFunction(func))
        }
    }

    /// Carries out an action that `plan` gave, and says why the machine
    /// stops behind it, if it does. A call of an imported function goes to
    /// the handler, and is completed with what the handler answers; nothing
    /// else asks the handler.
    fn perform(&mut self, module: &Module, breakpoints: &Breakpoints, action: Action) -> (trap:
        Option<Trap>)
        requires
            semantics::action_ok(module, old(self)@, action),
        ensures
            exists|reply: ImportAnswer|
                {
                    &&& #[trigger] semantics::perform(
                        module,
                        breakpoints,
                        old(self)@,
                        action,
                        reply,
                    ) == (Outcome { state: final(self)@, trap })
                    &&& match action {
                        Action::Import { pops, func, params } => old(self).spec_handler().answers(
                            semantics::request_for(old(self)@, func, pops, params),
                            reply,
                            final(self).spec_handler(),
                        ),
                        _ => final(self).spec_handler() == old(self).spec_handler(),
                    }
                },
            final(self).spec_step_limit() == old(self).spec_step_limit(),
    {
        match action {
            Action::Import { pops, func, params } => {
                let request = self.import_request(func, pops, params);
                let reply = self.handler.handle_import_function(&request);
                let ghost answered = reply;
                let trap = self.complete_import(module, breakpoints, func, pops, params, reply);
                assert(semantics::perform(module, breakpoints, old(self)@, action, answered) == (
                Outcome { state: self@, trap }));
                trap
            },
            Action::Step { pops, push, effect, access } => {
                self.apply(module, action);
                let trap = self.stop_after(breakpoints, access);
                assert(semantics::perform(
                    module,
                    breakpoints,
                    old(self)@,
                    action,
                    Err(ImportError::Unsupported),
                ) == (Outcome { state: self@, trap }));
                trap
            },
            _ => {
                self.apply(module, action);
                let trap = self.stop_after(breakpoints, None);
                assert(semantics::perform(
                    module,
                    breakpoints,
                    old(self)@,
                    action,
                    Err(ImportError::Unsupported),
                ) == (Outcome { state: self@, trap }));
                trap
            },
        }
    }

    /// Dispatches one instruction: the one at the instruction pointer. The
    /// machine is then in the state, and stops for the reason, that
    /// `dispatch` gives for the state it was in and for what the handler
    /// answered. The handler is asked only by a call of an imported function
    /// that can be made, and else stays as it is. Where nothing is returned
    /// the instruction was executed and the machine can go on.
    pub fn execute_step(&mut self, module: &Module, breakpoints: &Breakpoints) -> (trap: Option<
        Trap,
    >)
        ensures
            exists|reply: ImportAnswer|
                {
                    &&& #[trigger] semantics::dispatch(module, breakpoints, old(self)@, reply) == (
                    Outcome { state: final(self)@, trap })
                    &&& semantics::handler_answers(
                        module,
                        old(self)@,
                        old(self).spec_handler(),
                        reply,
                        final(self).spec_handler(),
                    )
                },
            final(self).spec_step_limit() == old(self).spec_step_limit(),
    {
        let ghost unasked: ImportAnswer = Err(ImportError::Unsupported);
        if self.function_stack.len() == 0 {
            assert(semantics::dispatch(module, breakpoints, old(self)@, unasked) == (Outcome {
                state: self@,
                trap: Some(Trap::ExecutionFinished),
            }));
            return Some(Trap::ExecutionFinished);
        }
        let instr = match module.instr_at(self.ip) {
            Some(instr) => instr,
            None => {
                assert(semantics::dispatch(module, breakpoints, old(self)@, unasked) == (Outcome {
                    state: self@,
                    trap: Some(Trap::NoInstruction),
                }));
                return Some(Trap::NoInstruction);
            },
        };
        match self.plan(module, instr) {
            Err(trap) => {
                assert(semantics::dispatch(module, breakpoints, old(self)@, unasked) == (Outcome {
                    state: self@,
                    trap: Some(trap),
                }));
                Some(trap)
            },
            Ok(action) => {
                let trap = self.perform(module, breakpoints, action);
                proof {
                    let reply = choose|reply: ImportAnswer|
                        {
                            &&& #[trigger] semantics::perform(
                                module,
                                breakpoints,
                                old(self)@,
                                action,
                                reply,
                            ) == (Outcome { state: self@, trap })
                            &&& match action {
                                Action::Import { pops, func, params } => old(
                                    self,
                                ).spec_handler().answers(
                                    semantics::request_for(old(self)@, func, pops, params),
                                    reply,
                                    self.spec_handler(),
                                ),
                                _ => self.spec_handler() == old(self).spec_handler(),
                            }
                        };
                    assert(semantics::dispatch(module, breakpoints, old(self)@, reply) == (
                    Outcome { state: self@, trap }));
                }
                trap
            },
        }
    }
}

} // verus!
