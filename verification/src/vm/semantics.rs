//! What one instruction does to the state of a machine, and what runs of
//! several instructions come to.

use vstd::prelude::*;

use crate::breakpoints::Breakpoints;
use crate::vm::import_func::{
    ImportAnswer, ImportError, ImportFunctionHandler, ImportReply, ImportRequestView,
};
use crate::vm::state::{FrameState, Label, MemoryState, VmState};
use crate::vm::{CodePosition, InitError, Trap, VMResult};
use crate::wasm::endian::{
    u16_le_bytes, u16_of_le_bytes, u32_le_bytes, u32_of_le_bytes, u64_le_bytes, u64_of_le_bytes,
};
use crate::wasm::module::{
    BlockType, Function, Instruction, LoadOp, MemWidth, Module, MAX_PAGES, PAGE_SIZE,
};
use crate::wasm::ops::{
    convert, i32_binary, i32_compare, i32_unary, i64_binary, i64_compare, i64_unary,
    spec_bool_value,
};
use crate::wasm::value::{Value, ValueType, F32, F64};

verus! {

/// Looks in `code`, from `at` on, for the `end` of the block that is open
/// there, `depth` blocks having been opened on the way. Gives the position of
/// the block's own `else`, if it was passed, and of its `end`; nothing if the
/// code ends before the block does.
pub open spec fn scan_block(code: Seq<Instruction>, at: int, depth: nat, else_at: Option<int>)
    -> Option<(Option<int>, int)>
    decreases code.len() - at,
{
    if at < 0 || at >= code.len() {
        None
    } else {
        match code[at] {
            Instruction::Block(_) | Instruction::Loop(_) | Instruction::If(_) => scan_block(
                code,
                at + 1,
                depth + 1,
                else_at,
            ),
            Instruction::Else => scan_block(
                code,
                at + 1,
                depth,
                if depth == 0 && else_at is None {
                    Some(at)
                } else {
                    else_at
                },
            ),
            Instruction::End => if depth == 0 {
                Some((else_at, at))
            } else {
                scan_block(code, at + 1, (depth - 1) as nat, else_at)
            },
            _ => scan_block(code, at + 1, depth, else_at),
        }
    }
}

/// The number that `width` bytes hold, the least significant first.
pub open spec fn load_raw(width: MemWidth, bytes: Seq<u8>) -> u64 {
    match width {
        MemWidth::B8 => bytes[0] as u64,
        MemWidth::B16 => u16_of_le_bytes(bytes) as u64,
        MemWidth::B32 => u32_of_le_bytes(bytes) as u64,
        MemWidth::B64 => u64_of_le_bytes(bytes),
    }
}

/// A number of `width` bytes, sign-extended to 64 bits.
pub open spec fn sign_extend(width: MemWidth, raw: u64) -> u64 {
    match width {
        MemWidth::B8 => ((raw as u8) as i8) as u64,
        MemWidth::B16 => ((raw as u16) as i16) as u64,
        MemWidth::B32 => ((raw as u32) as i32) as u64,
        MemWidth::B64 => raw,
    }
}

/// The value of a type whose bits are the low bits of `bits`.
pub open spec fn value_of_bits(value_type: ValueType, bits: u64) -> Value {
    match value_type {
        ValueType::I32 => Value::I32((bits as u32) as i32),
        ValueType::I64 => Value::I64(bits as i64),
        ValueType::F32 => Value::F32(F32 { bits: bits as u32 }),
        ValueType::F64 => Value::F64(F64 { bits }),
    }
}

/// The bits of a value, zero-extended to 64 bits.
pub open spec fn bits_of_value(v: Value) -> u64 {
    match v {
        Value::I32(x) => (x as u32) as u64,
        Value::I64(x) => x as u64,
        Value::F32(f) => f.bits as u64,
        Value::F64(f) => f.bits,
    }
}

/// The value that a load gives for the bytes it reads.
pub open spec fn load_value(op: LoadOp, bytes: Seq<u8>) -> Value {
    let raw = load_raw(op.width, bytes);
    value_of_bits(
        op.value_type,
        if op.signed {
            sign_extend(op.width, raw)
        } else {
            raw
        },
    )
}

/// The bytes that a store writes: the low `width` bytes of `bits`, the least
/// significant first.
pub open spec fn store_bytes(width: MemWidth, bits: u64) -> Seq<u8> {
    match width {
        MemWidth::B8 => seq![bits as u8],
        MemWidth::B16 => u16_le_bytes(bits as u16),
        MemWidth::B32 => u32_le_bytes(bits as u32),
        MemWidth::B64 => u64_le_bytes(bits),
    }
}

/// `data` with `bytes` written from `addr` on.
pub open spec fn write_at(data: Seq<u8>, addr: int, bytes: Seq<u8>) -> Seq<u8> {
    data.take(addr) + bytes + data.skip(addr + bytes.len())
}

/// `count` bytes that are zero.
pub open spec fn zero_bytes(count: nat) -> Seq<u8> {
    Seq::new(count, |i: int| 0u8)
}

/// The zero values of a sequence of types.
pub open spec fn default_values(types: Seq<ValueType>) -> Seq<Value> {
    types.map_values(|t: ValueType| Value::spec_default(t))
}

/// What an instruction changes besides the value stack.
#[derive(Clone, Copy, Debug, PartialEq, Eq, Structural)]
pub enum Effect {
    SetLocal(u32, Value),
    SetGlobal(u32, Value),
    /// The low bytes of the bits are written at the address.
    Store(usize, MemWidth, u64),
    /// The memory grows by this many pages of zeros.
    Grow(u32),
    PushLabel(Label),
    PopLabel,
}

/// What an instruction reads or writes that a watchpoint may watch: a
/// global, or a number of bytes of memory from an address on; and whether it
/// writes.
#[derive(Clone, Copy, Debug, PartialEq, Eq, Structural)]
pub enum Access {
    Global(u32, bool),
    Memory(usize, usize, bool),
}

/// What an instruction does, once it is known not to fail.
#[derive(Clone, Copy, Debug, PartialEq, Eq, Structural)]
pub enum Action {
    /// Pops `pops` values, pushes `push`, has the effect, and goes on to the
    /// next instruction.
    Step { pops: usize, push: Option<Value>, effect: Option<Effect>, access: Option<Access> },
    /// Pops `pops` values, cuts the stack back to `height` keeping the
    /// `carry` values on top, keeps the `labels_kept` outermost labels, enters
    /// a block if `enter` names one, and goes on at `target`.
    Jump {
        pops: usize,
        labels_kept: usize,
        height: usize,
        carry: usize,
        target: u32,
        enter: Option<Label>,
    },
    /// Pops `pops` values and returns from the function with the `carry`
    /// values on top.
    Return { pops: usize, carry: usize },
    /// Pops `pops` values and calls a function of the module with the
    /// `params` values that are then on top.
    Call { pops: usize, func: u32, params: usize },
    /// Pops `pops` values and calls an imported function with the `params`
    /// values that are then on top.
    Import { pops: usize, func: u32, params: usize },
}

/// The value that lies `k` below the top of the stack.
pub open spec fn peek(s: VmState, k: nat) -> VMResult<Value> {
    if k < s.value_stack.len() {
        Ok(s.value_stack[s.value_stack.len() - 1 - k])
    } else {
        Err(Trap::PopFromEmptyStack)
    }
}

/// The 32-bit integer that lies `k` below the top of the stack.
pub open spec fn peek_i32(s: VmState, k: nat) -> VMResult<i32> {
    match peek(s, k) {
        Ok(Value::I32(x)) => Ok(x),
        Ok(v) => Err(Trap::TypeError { expected: ValueType::I32, found: v.spec_value_type() }),
        Err(trap) => Err(trap),
    }
}

/// The 64-bit integer that lies `k` below the top of the stack.
pub open spec fn peek_i64(s: VmState, k: nat) -> VMResult<i64> {
    match peek(s, k) {
        Ok(Value::I64(x)) => Ok(x),
        Ok(v) => Err(Trap::TypeError { expected: ValueType::I64, found: v.spec_value_type() }),
        Err(trap) => Err(trap),
    }
}

/// The step that pops `pops` values and pushes `push`, and does nothing else.
pub open spec fn stack_step(pops: usize, push: Option<Value>) -> Action {
    Action::Step { pops, push, effect: None, access: None }
}

/// The step that pops `pops` values and has an effect.
pub open spec fn effect_step(pops: usize, effect: Effect, access: Option<Access>) -> Action {
    Action::Step { pops, push: None, effect: Some(effect), access }
}

/// The label of a block that is entered with `height` values on the stack
/// and ends at `end`: a branch to it continues behind its end.
pub open spec fn block_label(height: nat, block_type: BlockType, end: int) -> Label {
    Label {
        is_loop: false,
        height: height as usize,
        arity: block_type.spec_arity() as usize,
        target: (end + 1) as u32,
    }
}

/// The label of a loop that is entered at `pos` with `height` values on the
/// stack: a branch to it continues at its first instruction.
pub open spec fn loop_label(height: nat, pos: CodePosition) -> Label {
    Label { is_loop: true, height: height as usize, arity: 0, target: (pos.instr_index + 1) as u32 }
}

/// Returning from the current function, `pops` values popped before: the
/// function's result, if it has one, must lie above the frame's base.
pub open spec fn plan_return(module: &Module, s: VmState, pops: usize) -> VMResult<Action> {
    let carry: usize = match module.spec_get_func(s.ip.func_index) {
        Some(func) => if func.return_type is Some { 1 } else { 0 },
        None => 0,
    };
    if s.frames.last().stack_base + carry + pops <= s.value_stack.len() {
        Ok(Action::Return { pops, carry })
    } else {
        Err(Trap::PopFromEmptyStack)
    }
}

/// Branching to the label `depth` blocks out, `pops` values popped before.
/// The label one beyond the outermost block is the function itself: a branch
/// to it returns. A branch to a loop continues at its start, with nothing
/// carried; a branch to another block continues behind its end, with the
/// block's results carried.
pub open spec fn plan_branch(module: &Module, s: VmState, depth: u32, pops: usize) -> VMResult<
    Action,
> {
    let labels = s.frames.last().labels;
    if depth > labels.len() {
        Err(Trap::InvalidBranchIndex(depth))
    } else if depth == labels.len() {
        plan_return(module, s, pops)
    } else {
        let label = labels[labels.len() - 1 - depth];
        let carry: usize = if label.is_loop { 0 } else { label.arity };
        let labels_kept = if label.is_loop { labels.len() - depth } else { labels.len() - 1 - depth };
        if label.height + carry + pops <= s.value_stack.len() {
            Ok(
                Action::Jump {
                    pops,
                    labels_kept: labels_kept as usize,
                    height: label.height,
                    carry,
                    target: label.target,
                    enter: None,
                },
            )
        } else {
            Err(Trap::PopFromEmptyStack)
        }
    }
}

/// The address that a memory access of `width` bytes touches first, for the
/// address on the stack and the instruction's offset: the memory must exist
/// and hold all the bytes.
pub open spec fn effective_address(s: VmState, base: i32, offset: u32, width: MemWidth)
    -> VMResult<usize> {
    match s.memory {
        None => Err(Trap::NoMemory),
        Some(memory) => {
            let addr = (base as u32) + offset;
            if addr + width.spec_bytes() <= memory.data.len() {
                Ok(addr as usize)
            } else {
                Err(Trap::OutOfBoundsMemoryAccess)
            }
        },
    }
}

/// What growing the memory by `delta` pages comes to: the step that grows
/// it and pushes the old size in pages, or, where the memory may not or
/// cannot become that large, the step that pushes -1.
pub open spec fn plan_grow(memory: MemoryState, delta: u32) -> Action {
    let pages = memory.data.len() / (PAGE_SIZE as nat);
    let limit: int = match memory.max_pages {
        Some(max) => if max < MAX_PAGES { max as int } else { MAX_PAGES as int },
        None => MAX_PAGES as int,
    };
    if pages + delta <= limit && memory.data.len() + delta * PAGE_SIZE <= usize::MAX {
        Action::Step {
            pops: 1,
            push: Some(Value::I32(pages as i32)),
            effect: Some(Effect::Grow(delta)),
            access: None,
        }
    } else {
        stack_step(1, Some(Value::I32(-1i32)))
    }
}

/// What an instruction that opens, divides or closes a block does.
///
/// A block or an `if` needs its `end` in the code behind it. An `if` pops
/// its condition: where that is not zero the block is entered; where it is
/// zero the machine goes on behind the block's `else`, inside the block, or
/// behind its `end` where it has no `else`. An `else` that is arrived at
/// ends the block. An `end` ends the innermost block, or, where no block is
/// open, the function.
pub open spec fn plan_block(module: &Module, s: VmState, instr: Instruction) -> VMResult<Action> {
    let n = s.value_stack.len();
    let labels = s.frames.last().labels;
    let found = scan_block(module.code(s.ip.func_index), s.ip.instr_index + 1, 0, None);
    match instr {
        Instruction::Block(block_type) => match found {
            Some((_, end)) => Ok(
                effect_step(0, Effect::PushLabel(block_label(n, block_type, end)), None),
            ),
            None => Err(Trap::UnbalancedBlock),
        },
        Instruction::Loop(_) => Ok(effect_step(0, Effect::PushLabel(loop_label(n, s.ip)), None)),
        Instruction::If(block_type) => match peek_i32(s, 0) {
            Err(trap) => Err(trap),
            Ok(cond) => match found {
                None => Err(Trap::UnbalancedBlock),
                Some((else_at, end)) => {
                    let label = block_label((n - 1) as nat, block_type, end);
                    if cond != 0 {
                        Ok(effect_step(1, Effect::PushLabel(label), None))
                    } else {
                        Ok(
                            Action::Jump {
                                pops: 1,
                                labels_kept: labels.len() as usize,
                                height: (n - 1) as usize,
                                carry: 0,
                                target: match else_at {
                                    Some(e) => (e + 1) as u32,
                                    None => (end + 1) as u32,
                                },
                                enter: match else_at {
                                    Some(_) => Some(label),
                                    None => None,
                                },
                            },
                        )
                    }
                },
            },
        },
        Instruction::Else => if labels.len() == 0 {
            Err(Trap::UnbalancedBlock)
        } else {
            Ok(
                Action::Jump {
                    pops: 0,
                    labels_kept: (labels.len() - 1) as usize,
                    height: n as usize,
                    carry: 0,
                    target: labels.last().target,
                    enter: None,
                },
            )
        },
        Instruction::End => if labels.len() > 0 {
            Ok(effect_step(0, Effect::PopLabel, None))
        } else {
            plan_return(module, s, 0)
        },
        _ => Err(Trap::UnsupportedInstruction),
    }
}

/// What an instruction on the stack, a local or a global does.
pub open spec fn plan_variable(s: VmState, instr: Instruction) -> VMResult<Action> {
    let n = s.value_stack.len();
    let locals = s.frames.last().locals;
    match instr {
        Instruction::Drop => match peek(s, 0) {
            Err(trap) => Err(trap),
            Ok(_) => Ok(stack_step(1, None)),
        },
        Instruction::Select => match peek_i32(s, 0) {
            Err(trap) => Err(trap),
            Ok(cond) => match peek(s, 2) {
                Err(trap) => Err(trap),
                Ok(first) => Ok(
                    stack_step(3, Some(if cond != 0 { first } else { s.value_stack[n - 2] })),
                ),
            },
        },
        Instruction::GetLocal(index) => if index < locals.len() {
            Ok(stack_step(0, Some(locals[index as int])))
        } else {
            Err(Trap::NoLocalWithIndex(index))
        },
        Instruction::SetLocal(index) => match peek(s, 0) {
            Err(trap) => Err(trap),
            Ok(v) => if index < locals.len() {
                Ok(effect_step(1, Effect::SetLocal(index, v), None))
            } else {
                Err(Trap::NoLocalWithIndex(index))
            },
        },
        Instruction::TeeLocal(index) => match peek(s, 0) {
            Err(trap) => Err(trap),
            Ok(v) => if index < locals.len() {
                Ok(effect_step(0, Effect::SetLocal(index, v), None))
            } else {
                Err(Trap::NoLocalWithIndex(index))
            },
        },
        Instruction::GetGlobal(index) => if index < s.globals.len() {
            Ok(
                Action::Step {
                    pops: 0,
                    push: Some(s.globals[index as int]),
                    effect: None,
                    access: Some(Access::Global(index, false)),
                },
            )
        } else {
            Err(Trap::NoGlobalWithIndex(index))
        },
        Instruction::SetGlobal(index) => match peek(s, 0) {
            Err(trap) => Err(trap),
            Ok(v) => if index < s.globals.len() {
                Ok(
                    effect_step(
                        1,
                        Effect::SetGlobal(index, v),
                        Some(Access::Global(index, true)),
                    ),
                )
            } else {
                Err(Trap::NoGlobalWithIndex(index))
            },
        },
        _ => Err(Trap::UnsupportedInstruction),
    }
}

/// What an instruction on the memory does.
///
/// A load pops an address and pushes what it reads. A store pops a value,
/// which must have the type of the store, and an address. Both fail without
/// a memory and beyond its end.
pub open spec fn plan_memory(s: VmState, instr: Instruction) -> VMResult<Action> {
    match instr {
        Instruction::Load(op, offset) => match peek_i32(s, 0) {
            Err(trap) => Err(trap),
            Ok(base) => match effective_address(s, base, offset, op.width) {
                Err(trap) => Err(trap),
                Ok(addr) => Ok(
                    Action::Step {
                        pops: 1,
                        push: Some(
                            load_value(
                                op,
                                s.memory->0.data.subrange(
                                    addr as int,
                                    addr + op.width.spec_bytes(),
                                ),
                            ),
                        ),
                        effect: None,
                        access: Some(Access::Memory(addr, op.width.spec_bytes() as usize, false)),
                    },
                ),
            },
        },
        Instruction::Store(op, offset) => match peek(s, 0) {
            Err(trap) => Err(trap),
            Ok(v) => if v.spec_value_type() != op.value_type {
                Err(Trap::TypeError { expected: op.value_type, found: v.spec_value_type() })
            } else {
                match peek_i32(s, 1) {
                    Err(trap) => Err(trap),
                    Ok(base) => match effective_address(s, base, offset, op.width) {
                        Err(trap) => Err(trap),
                        Ok(addr) => Ok(
                            effect_step(
                                2,
                                Effect::Store(addr, op.width, bits_of_value(v)),
                                Some(Access::Memory(addr, op.width.spec_bytes() as usize, true)),
                            ),
                        ),
                    },
                }
            },
        },
        Instruction::CurrentMemory => match s.memory {
            None => Err(Trap::NoMemory),
            Some(memory) => Ok(
                stack_step(0, Some(Value::I32((memory.data.len() / (PAGE_SIZE as nat)) as i32))),
            ),
        },
        Instruction::GrowMemory => match peek_i32(s, 0) {
            Err(trap) => Err(trap),
            Ok(delta) => match s.memory {
                None => Err(Trap::NoMemory),
                Some(memory) => Ok(plan_grow(memory, delta as u32)),
            },
        },
        _ => Err(Trap::UnsupportedInstruction),
    }
}

/// What a constant, an integer operation or a conversion does: its
/// operands, which must have its type, are popped, and its result is pushed.
/// The second operand lies on top of the first.
pub open spec fn plan_numeric(s: VmState, instr: Instruction) -> VMResult<Action> {
    match instr {
        Instruction::Const(v) => Ok(stack_step(0, Some(v))),
        Instruction::I32Unary(op) => match peek_i32(s, 0) {
            Err(trap) => Err(trap),
            Ok(a) => Ok(stack_step(1, Some(Value::I32(i32_unary(op, a))))),
        },
        Instruction::I32Binary(op) => match peek_i32(s, 0) {
            Err(trap) => Err(trap),
            Ok(b) => match peek_i32(s, 1) {
                Err(trap) => Err(trap),
                Ok(a) => match i32_binary(op, a, b) {
                    Err(trap) => Err(trap),
                    Ok(r) => Ok(stack_step(2, Some(Value::I32(r)))),
                },
            },
        },
        Instruction::I32Compare(op) => match peek_i32(s, 0) {
            Err(trap) => Err(trap),
            Ok(b) => match peek_i32(s, 1) {
                Err(trap) => Err(trap),
                Ok(a) => Ok(stack_step(2, Some(spec_bool_value(i32_compare(op, a, b))))),
            },
        },
        Instruction::I32Eqz => match peek_i32(s, 0) {
            Err(trap) => Err(trap),
            Ok(a) => Ok(stack_step(1, Some(spec_bool_value(a == 0)))),
        },
        Instruction::I64Unary(op) => match peek_i64(s, 0) {
            Err(trap) => Err(trap),
            Ok(a) => Ok(stack_step(1, Some(Value::I64(i64_unary(op, a))))),
        },
        Instruction::I64Binary(op) => match peek_i64(s, 0) {
            Err(trap) => Err(trap),
            Ok(b) => match peek_i64(s, 1) {
                Err(trap) => Err(trap),
                Ok(a) => match i64_binary(op, a, b) {
                    Err(trap) => Err(trap),
                    Ok(r) => Ok(stack_step(2, Some(Value::I64(r)))),
                },
            },
        },
        Instruction::I64Compare(op) => match peek_i64(s, 0) {
            Err(trap) => Err(trap),
            Ok(b) => match peek_i64(s, 1) {
                Err(trap) => Err(trap),
                Ok(a) => Ok(stack_step(2, Some(spec_bool_value(i64_compare(op, a, b))))),
            },
        },
        Instruction::I64Eqz => match peek_i64(s, 0) {
            Err(trap) => Err(trap),
            Ok(a) => Ok(stack_step(1, Some(spec_bool_value(a == 0)))),
        },
        Instruction::Convert(op) => match peek(s, 0) {
            Err(trap) => Err(trap),
            Ok(v) => match convert(op, v) {
                Err(trap) => Err(trap),
                Ok(r) => Ok(stack_step(1, Some(r))),
            },
        },
        _ => Err(Trap::UnsupportedInstruction),
    }
}

/// Calling function `func_index`, `pops` values popped before: the module
/// must have the function, and the stack its arguments. A function that is
/// imported is called through the handler.
pub open spec fn plan_call(module: &Module, s: VmState, func_index: u32, pops: usize) -> VMResult<
    Action,
> {
    match module.spec_get_func(func_index) {
        None => Err(Trap::NoFunctionWithIndex(func_index)),
        Some(func) => if func.params@.len() + pops > s.value_stack.len() {
            Err(Trap::PopFromEmptyStack)
        } else if func.is_imported {
            Ok(Action::Import { pops, func: func_index, params: func.params@.len() as usize })
        } else {
            Ok(Action::Call { pops, func: func_index, params: func.params@.len() as usize })
        },
    }
}

/// The function that a table has for an index, if it has one.
pub open spec fn table_entry(table: Seq<Option<u32>>, index: u32) -> Option<u32> {
    if index < table.len() {
        table[index as int]
    } else {
        None
    }
}

/// What the instruction `instr`, standing at the instruction pointer, does
/// in state `s`, or the fault it ends in. The machine has a frame.
///
/// An indirect call pops an index; the table must have a function for it,
/// and the function the type that the call names. A conditional branch pops
/// its condition and branches where that is not zero. A branch by table pops
/// an index and branches to the label that the table has for it, or to the
/// default where the table is shorter.
pub open spec fn plan(module: &Module, s: VmState, instr: Instruction) -> VMResult<Action> {
    match instr {
        Instruction::Unreachable => Err(Trap::Unreachable),
        Instruction::Unsupported => Err(Trap::UnsupportedInstruction),
        Instruction::Nop => Ok(stack_step(0, None)),
        Instruction::Return => plan_return(module, s, 0),
        Instruction::Br(depth) => plan_branch(module, s, depth, 0),
        Instruction::BrIf(depth) => match peek_i32(s, 0) {
            Err(trap) => Err(trap),
            Ok(cond) => if cond != 0 {
                plan_branch(module, s, depth, 1)
            } else {
                Ok(stack_step(1, None))
            },
        },
        Instruction::BrTable(table, default) => match peek_i32(s, 0) {
            Err(trap) => Err(trap),
            Ok(index) => plan_branch(
                module,
                s,
                if (index as u32) < table@.len() { table@[(index as u32) as int] } else { default },
                1,
            ),
        },
        Instruction::Call(func_index) => plan_call(module, s, func_index, 0),
        Instruction::CallIndirect(type_index) => match peek_i32(s, 0) {
            Err(trap) => Err(trap),
            Ok(index) => match s.table {
                None => Err(Trap::NoTable),
                Some(table) => match table_entry(table, index as u32) {
                    None => Err(Trap::UndefinedElement),
                    Some(func_index) => match (
                        module.spec_get_func(func_index),
                        module.spec_get_type(type_index),
                    ) {
                        (None, _) => Err(Trap::NoFunctionWithIndex(func_index)),
                        (Some(_), None) => Err(Trap::NoTypeWithIndex(type_index)),
                        (Some(func), Some(function_type)) => if func.spec_has_type(function_type) {
                            plan_call(module, s, func_index, 1)
                        } else {
                            Err(Trap::IndirectCallTypeMismatch)
                        },
                    },
                },
            },
        },
        Instruction::Block(_)
        | Instruction::Loop(_)
        | Instruction::If(_)
        | Instruction::Else
        | Instruction::End => plan_block(module, s, instr),
        Instruction::Drop
        | Instruction::Select
        | Instruction::GetLocal(_)
        | Instruction::SetLocal(_)
        | Instruction::TeeLocal(_)
        | Instruction::GetGlobal(_)
        | Instruction::SetGlobal(_) => plan_variable(s, instr),
        Instruction::Load(_, _)
        | Instruction::Store(_, _)
        | Instruction::CurrentMemory
        | Instruction::GrowMemory => plan_memory(s, instr),
        Instruction::Const(_)
        | Instruction::I32Unary(_)
        | Instruction::I32Binary(_)
        | Instruction::I32Compare(_)
        | Instruction::I32Eqz
        | Instruction::I64Unary(_)
        | Instruction::I64Binary(_)
        | Instruction::I64Compare(_)
        | Instruction::I64Eqz
        | Instruction::Convert(_) => plan_numeric(s, instr),
    }
}

/// The position of the instruction after the one at `pos`.
pub open spec fn next_position(pos: CodePosition) -> CodePosition {
    CodePosition { func_index: pos.func_index, instr_index: (pos.instr_index + 1) as u32 }
}

/// `s` with its innermost frame replaced.
pub open spec fn with_frame(s: VmState, frame: FrameState) -> VmState {
    VmState { frames: s.frames.update(s.frames.len() - 1, frame), ..s }
}

/// The state in which an effect leaves `s`.
pub open spec fn apply_effect(s: VmState, effect: Effect) -> VmState {
    let frame = s.frames.last();
    match effect {
        Effect::SetLocal(index, v) => with_frame(
            s,
            FrameState { locals: frame.locals.update(index as int, v), ..frame },
        ),
        Effect::SetGlobal(index, v) => VmState { globals: s.globals.update(index as int, v), ..s },
        Effect::Store(addr, width, bits) => VmState {
            memory: Some(
                MemoryState {
                    data: write_at(s.memory->0.data, addr as int, store_bytes(width, bits)),
                    ..s.memory->0
                },
            ),
            ..s
        },
        Effect::Grow(delta) => VmState {
            memory: Some(
                MemoryState {
                    data: s.memory->0.data + zero_bytes((delta * PAGE_SIZE) as nat),
                    ..s.memory->0
                },
            ),
            ..s
        },
        Effect::PushLabel(label) => with_frame(
            s,
            FrameState { labels: frame.labels.push(label), ..frame },
        ),
        Effect::PopLabel => with_frame(s, FrameState { labels: frame.labels.drop_last(), ..frame }),
    }
}

/// `stack` without its `pops` topmost values, cut back to `height`, with the
/// `carry` values that were then on top put back.
pub open spec fn unwind(stack: Seq<Value>, pops: usize, height: nat, carry: usize) -> Seq<Value> {
    let rest = stack.take(stack.len() - pops);
    rest.take(height as int) + rest.skip(rest.len() - carry)
}

/// The state in which an action leaves `s`. The action is one that `plan`
/// gave for `s`, and no call of an imported function.
pub open spec fn apply(module: &Module, s: VmState, action: Action) -> VmState {
    let n = s.value_stack.len();
    let frame = s.frames.last();
    match action {
        Action::Step { pops, push, effect, access } => {
            let rest = s.value_stack.take(n - pops);
            let stepped = VmState {
                ip: next_position(s.ip),
                value_stack: match push {
                    Some(v) => rest.push(v),
                    None => rest,
                },
                ..s
            };
            match effect {
                Some(effect) => apply_effect(stepped, effect),
                None => stepped,
            }
        },
        Action::Jump { pops, labels_kept, height, carry, target, enter } => {
            let kept = frame.labels.take(labels_kept as int);
            with_frame(
                VmState {
                    ip: CodePosition { func_index: s.ip.func_index, instr_index: target },
                    value_stack: unwind(s.value_stack, pops, height as nat, carry),
                    ..s
                },
                FrameState {
                    labels: match enter {
                        Some(label) => kept.push(label),
                        None => kept,
                    },
                    ..frame
                },
            )
        },
        Action::Return { pops, carry } => VmState {
            ip: if s.frames.len() == 1 {
                s.ip
            } else {
                frame.ret_addr
            },
            value_stack: unwind(s.value_stack, pops, frame.stack_base, carry),
            frames: s.frames.drop_last(),
            ..s
        },
        Action::Call { pops, func, params } => VmState {
            ip: CodePosition { func_index: func, instr_index: 0 },
            value_stack: s.value_stack.take(n - pops - params),
            frames: s.frames.push(
                FrameState {
                    locals: s.value_stack.subrange(n - pops - params, n - pops) + default_values(
                        module.functions@[func as int].locals@,
                    ),
                    ret_addr: next_position(s.ip),
                    stack_base: (n - pops - params) as nat,
                    labels: Seq::empty(),
                },
            ),
            ..s
        },
        Action::Import { pops, func, params } => s,
    }
}

/// The number of bytes of the memory; none where there is no memory.
pub open spec fn memory_len(s: VmState) -> nat {
    match s.memory {
        Some(memory) => memory.data.len(),
        None => 0,
    }
}

/// Whether a handler's answer fits the machine: it has no more globals and
/// no more bytes than the machine has.
pub open spec fn reply_fits(s: VmState, reply: ImportReply) -> bool {
    reply.globals@.len() <= s.globals.len() && reply.memory@.len() <= memory_len(s)
}

/// The state after a call of an imported function that was answered with
/// `reply`: the `pops` values on top and the arguments below them are gone
/// from the stack, the value returned is on it, and the globals and bytes of
/// the answer stand in place of the first globals and bytes of the machine.
pub open spec fn apply_reply(s: VmState, pops: usize, params: usize, reply: ImportReply) -> VmState {
    let rest = s.value_stack.take(s.value_stack.len() - pops - params);
    VmState {
        ip: next_position(s.ip),
        value_stack: match reply.return_value {
            Some(v) => rest.push(v),
            None => rest,
        },
        globals: reply.globals@ + s.globals.skip(reply.globals@.len() as int),
        memory: match s.memory {
            Some(memory) => Some(
                MemoryState {
                    data: reply.memory@ + memory.data.skip(reply.memory@.len() as int),
                    ..memory
                },
            ),
            None => None,
        },
        ..s
    }
}

/// What a handler is handed in state `s` for a call of the imported
/// function `func` whose `params` arguments lie `pops` values below the top
/// of the stack: the arguments, the globals and the bytes of the memory, as
/// they are.
pub open spec fn request_for(s: VmState, func: u32, pops: usize, params: usize)
    -> ImportRequestView {
    ImportRequestView {
        func_index: func,
        args: s.value_stack.subrange(
            s.value_stack.len() - pops - params,
            s.value_stack.len() - pops,
        ),
        globals: s.globals,
        memory: match s.memory {
            Some(memory) => Some(memory.data),
            None => None,
        },
    }
}

/// The watchpoint that an access fires: the one with the least index.
pub open spec fn watchpoint_hit(breakpoints: &Breakpoints, access: Option<Access>) -> Option<u32> {
    match access {
        Some(Access::Global(index, write)) => breakpoints.spec_find_global(index, write),
        Some(Access::Memory(addr, len, write)) => breakpoints.spec_find_memory(
            addr as int,
            len as int,
            write,
        ),
        None => None,
    }
}

/// Why the machine stops after an instruction that was executed and left it
/// in state `after`, if it stops: the outermost function returned; or the
/// instruction fired a watchpoint; or the instruction pointer arrived at a
/// code breakpoint.
pub open spec fn stop_after(breakpoints: &Breakpoints, after: VmState, access: Option<Access>)
    -> Option<Trap> {
    if after.frames.len() == 0 {
        Some(Trap::ExecutionFinished)
    } else {
        match watchpoint_hit(breakpoints, access) {
            Some(index) => Some(Trap::WatchpointReached(index)),
            None => match breakpoints.spec_find_code(after.ip) {
                Some(index) => Some(Trap::BreakpointReached(index)),
                None => None,
            },
        }
    }
}

/// The state a dispatch leaves, and why the machine stops there, if it does.
#[verifier::ext_equal]
pub struct Outcome {
    pub state: VmState,
    pub trap: Option<Trap>,
}

/// What an action comes to in state `s`. `reply` is what the handler
/// answered, should the action be a call of an imported function: without an
/// answer that fits, the call is not made, and the machine stops as it is,
/// with `NoMemory` where that was the answer.
pub open spec fn perform(
    module: &Module,
    breakpoints: &Breakpoints,
    s: VmState,
    action: Action,
    reply: ImportAnswer,
) -> Outcome {
    match action {
        Action::Import { pops, func, params } => match reply {
            Ok(reply) => if reply_fits(s, reply) {
                let after = apply_reply(s, pops, params, reply);
                Outcome { state: after, trap: stop_after(breakpoints, after, None) }
            } else {
                Outcome { state: s, trap: Some(Trap::UnsupportedCallToImportedFunction(func)) }
            },
            Err(ImportError::NoMemory) => Outcome { state: s, trap: Some(Trap::NoMemory) },
            Err(ImportError::Unsupported) => Outcome {
                state: s,
                trap: Some(Trap::UnsupportedCallToImportedFunction(func)),
            },
        },
        Action::Step { pops, push, effect, access } => {
            let after = apply(module, s, action);
            Outcome { state: after, trap: stop_after(breakpoints, after, access) }
        },
        _ => {
            let after = apply(module, s, action);
            Outcome { state: after, trap: stop_after(breakpoints, after, None) }
        },
    }
}

/// One dispatch: what the machine does with the instruction at its
/// instruction pointer. A machine without a frame has finished. An
/// instruction that fails leaves the state as it was. One that is executed
/// moves the instruction pointer on and may stop the machine behind it.
/// `reply` is the handler's answer, used by a call of an imported function
/// only.
pub open spec fn dispatch(
    module: &Module,
    breakpoints: &Breakpoints,
    s: VmState,
    reply: ImportAnswer,
) -> Outcome {
    if s.frames.len() == 0 {
        Outcome { state: s, trap: Some(Trap::ExecutionFinished) }
    } else {
        match module.spec_instr_at(s.ip) {
            None => Outcome { state: s, trap: Some(Trap::NoInstruction) },
            Some(instr) => match plan(module, s, instr) {
                Err(trap) => Outcome { state: s, trap: Some(trap) },
                Ok(action) => perform(module, breakpoints, s, action, reply),
            },
        }
    }
}

/// What the dispatch in state `s` asks the handler: the request of the call,
/// where the instruction at the instruction pointer calls an imported
/// function and the call can be made; nothing else.
pub open spec fn asked(module: &Module, s: VmState) -> Option<ImportRequestView> {
    if s.frames.len() == 0 {
        None
    } else {
        match module.spec_instr_at(s.ip) {
            None => None,
            Some(instr) => match plan(module, s, instr) {
                Ok(Action::Import { pops, func, params }) => Some(
                    request_for(s, func, pops, params),
                ),
                _ => None,
            },
        }
    }
}

/// Whether `reply` is what `handler` answers to the dispatch in state `s`,
/// being `after` from then on. A handler that is not asked stays as it is,
/// and the reply counts for nothing.
pub open spec fn handler_answers<F: ImportFunctionHandler>(
    module: &Module,
    s: VmState,
    handler: F,
    reply: ImportAnswer,
    after: F,
) -> bool {
    match asked(module, s) {
        Some(request) => handler.answers(request, reply, after),
        None => after == handler,
    }
}

/// The state after as many dispatches as there are `replies`, each with its
/// reply, none of which stopped the machine; nothing if one did.
pub open spec fn advance(
    module: &Module,
    breakpoints: &Breakpoints,
    s: VmState,
    replies: Seq<ImportAnswer>,
) -> Option<VmState>
    decreases replies.len(),
{
    if replies.len() == 0 {
        Some(s)
    } else {
        match advance(module, breakpoints, s, replies.drop_last()) {
            Some(before) => {
                let outcome = dispatch(module, breakpoints, before, replies.last());
                if outcome.trap is None {
                    Some(outcome.state)
                } else {
                    None
                }
            },
            None => None,
        }
    }
}

/// Whether the machine can carry an action out in state `s`: the values it
/// pops are on the stack, and what it writes to is there. Every action that
/// `plan` gives for `s` is such.
pub open spec fn action_ok(module: &Module, s: VmState, action: Action) -> bool {
    let n = s.value_stack.len();
    let frame = s.frames.last();
    &&& s.frames.len() > 0
    &&& match action {
        Action::Step { pops, push, effect, access } => {
            &&& pops <= n
            &&& s.ip.instr_index < u32::MAX
            &&& match effect {
                Some(Effect::SetLocal(index, _)) => index < frame.locals.len(),
                Some(Effect::SetGlobal(index, _)) => index < s.globals.len(),
                Some(Effect::Store(addr, width, _)) => s.memory is Some && addr
                    + width.spec_bytes() <= s.memory->0.data.len(),
                Some(Effect::Grow(delta)) => s.memory is Some && s.memory->0.data.len() + delta
                    * PAGE_SIZE <= usize::MAX,
                Some(Effect::PushLabel(_)) => true,
                Some(Effect::PopLabel) => frame.labels.len() > 0,
                None => true,
            }
        },
        Action::Jump { pops, labels_kept, height, carry, target, enter } => {
            &&& height + carry + pops <= n
            &&& labels_kept <= frame.labels.len()
        },
        Action::Return { pops, carry } => frame.stack_base + carry + pops <= n,
        Action::Call { pops, func, params } => {
            &&& func < module.functions@.len()
            &&& pops + params <= n
            &&& s.ip.instr_index < u32::MAX
        },
        Action::Import { pops, func, params } => {
            &&& pops + params <= n
            &&& s.ip.instr_index < u32::MAX
        },
    }
}

/// The locals of a function that is entered from outside with `args`: each
/// parameter has its argument, or the zero of its type where `args` has
/// none for it; arguments beyond the parameters are left out; the declared
/// locals are zero.
pub open spec fn entry_locals(func: Function, args: Seq<Value>) -> Seq<Value> {
    Seq::new(
        func.params@.len(),
        |i: int|
            if i < args.len() {
                args[i]
            } else {
                Value::spec_default(func.params@[i])
            },
    ) + default_values(func.locals@)
}

/// The state after function `func` was entered from outside with `args`:
/// a new frame stands on the function stack, which returns to where the
/// instruction pointer was, and the instruction pointer is at the
/// function's first instruction.
pub open spec fn enter(module: &Module, s: VmState, func: u32, args: Seq<Value>) -> VmState {
    VmState {
        ip: CodePosition { func_index: func, instr_index: 0 },
        frames: s.frames.push(
            FrameState {
                locals: entry_locals(module.functions@[func as int], args),
                ret_addr: s.ip,
                stack_base: s.value_stack.len(),
                labels: Seq::empty(),
            },
        ),
        ..s
    }
}

/// Whether the machine, dispatching from `s` with `replies`, has more than
/// `floor` active calls after each of the dispatches, none of which stopped it.
pub open spec fn stays_above(
    module: &Module,
    breakpoints: &Breakpoints,
    s: VmState,
    replies: Seq<ImportAnswer>,
    floor: nat,
) -> bool
    decreases replies.len(),
{
    replies.len() == 0 || {
        &&& stays_above(module, breakpoints, s, replies.drop_last(), floor)
        &&& advance(module, breakpoints, s, replies) matches Some(after)
        &&& after.depth() > floor
    }
}

/// Whether a run from `s` that dispatches one instruction for each of
/// `replies`, and no more than `limit`, ends with `outcome`. A run goes on
/// while the machine does not stop and has more than `floor` active calls.
/// It ends with the dispatch that stops the machine, or with the first that
/// leaves no more than `floor` active calls, and then with no trap; or it
/// gives up with `StepLimitReached`, after `limit` dispatches.
pub open spec fn ends_run(
    module: &Module,
    breakpoints: &Breakpoints,
    s: VmState,
    replies: Seq<ImportAnswer>,
    floor: nat,
    limit: nat,
    outcome: Outcome,
) -> bool {
    &&& replies.len() <= limit
    &&& if outcome.trap == Some(Trap::StepLimitReached) {
        &&& replies.len() == limit
        &&& stays_above(module, breakpoints, s, replies, floor)
        &&& advance(module, breakpoints, s, replies) == Some(outcome.state)
    } else {
        &&& replies.len() >= 1
        &&& stays_above(module, breakpoints, s, replies.drop_last(), floor)
        &&& advance(module, breakpoints, s, replies.drop_last()) matches Some(before)
        &&& dispatch(module, breakpoints, before, replies.last()) == outcome
        &&& outcome.trap is None ==> outcome.state.depth() <= floor
    }
}

/// One call less than `depth`, where there is a call.
pub open spec fn one_less(depth: nat) -> nat {
    if depth >= 1 {
        (depth - 1) as nat
    } else {
        0
    }
}

/// Whether `replies` are what the handler answered in a run from `s` that
/// dispatches one instruction for each of them, where `handlers` are the
/// handler before each dispatch, and after the last.
pub open spec fn answered<F: ImportFunctionHandler>(
    module: &Module,
    breakpoints: &Breakpoints,
    s: VmState,
    replies: Seq<ImportAnswer>,
    handlers: Seq<F>,
) -> bool
    decreases replies.len(),
{
    &&& handlers.len() == replies.len() + 1
    &&& replies.len() == 0 || {
        &&& answered(module, breakpoints, s, replies.drop_last(), handlers.drop_last())
        &&& match advance(module, breakpoints, s, replies.drop_last()) {
            Some(before) => handler_answers(
                module,
                before,
                handlers[replies.len() - 1],
                replies.last(),
                handlers.last(),
            ),
            None => true,
        }
    }
}

/// Whether a run from `s` with `handler`, which goes on while the machine
/// does not stop and has more than `floor` active calls, and dispatches no
/// more than `limit` instructions, ends in state `after` with `trap`, the
/// handler being `after_handler` then: there are replies with which it
/// does, each of them the handler's answer to the call that asked for it.
pub open spec fn runs_to_depth<F: ImportFunctionHandler>(
    module: &Module,
    breakpoints: &Breakpoints,
    s: VmState,
    handler: F,
    floor: nat,
    limit: nat,
    after: VmState,
    after_handler: F,
    trap: Option<Trap>,
) -> bool {
    exists|replies: Seq<ImportAnswer>, handlers: Seq<F>|
        #![trigger
            ends_run(module, breakpoints, s, replies, floor, limit, Outcome { state: after, trap }),
            answered(module, breakpoints, s, replies, handlers)]
        {
            &&& ends_run(module, breakpoints, s, replies, floor, limit, Outcome { state: after, trap })
            &&& answered(module, breakpoints, s, replies, handlers)
            &&& handlers.first() == handler
            &&& handlers.last() == after_handler
        }
}

/// Whether a run from `s` to the next stop, of no more than `limit`
/// dispatches, ends in state `after` with `trap`.
pub open spec fn runs_to_stop<F: ImportFunctionHandler>(
    module: &Module,
    breakpoints: &Breakpoints,
    s: VmState,
    handler: F,
    limit: nat,
    after: VmState,
    after_handler: F,
    trap: Trap,
) -> bool {
    runs_to_depth(module, breakpoints, s, handler, 0, limit, after, after_handler, Some(trap))
}

/// Whether going on, after an instruction was executed outside the machine
/// and left it in state `s`, comes to `trap` and leaves state `after`. The
/// machine stops as it does behind an instruction of its own: where no call
/// is active any more, or at a code breakpoint. Else, where the operation
/// that was under way runs to a floor and more calls are active than that,
/// the machine runs on to the floor. Else nothing happens: the operation has
/// ended.
pub open spec fn resumes<F: ImportFunctionHandler>(
    module: &Module,
    breakpoints: &Breakpoints,
    s: VmState,
    handler: F,
    floor: Option<usize>,
    limit: nat,
    after: VmState,
    after_handler: F,
    trap: Option<Trap>,
) -> bool {
    match stop_after(breakpoints, s, None) {
        Some(stop) => trap == Some(stop) && after == s && after_handler == handler,
        None => match floor {
            Some(floor) => if s.depth() > floor {
                runs_to_depth(
                    module,
                    breakpoints,
                    s,
                    handler,
                    floor as nat,
                    limit,
                    after,
                    after_handler,
                    trap,
                )
            } else {
                trap is None && after == s && after_handler == handler
            },
            None => trap is None && after == s && after_handler == handler,
        },
    }
}

/// Whether starting the module in state `s` comes to `result` and leaves
/// state `after`: where the module names a start function that it has, the
/// function is entered without arguments and the machine runs to the next
/// stop; else nothing happens but the failure.
pub open spec fn starts<F: ImportFunctionHandler>(
    module: &Module,
    breakpoints: &Breakpoints,
    s: VmState,
    handler: F,
    limit: nat,
    after: VmState,
    after_handler: F,
    result: Result<Trap, InitError>,
) -> bool {
    match module.start_func {
        Some(func) => if func < module.functions@.len() {
            result is Ok && runs_to_stop(
                module,
                breakpoints,
                enter(module, s, func, Seq::empty()),
                handler,
                limit,
                after,
                after_handler,
                result->Ok_0,
            )
        } else {
            result == Err::<Trap, InitError>(InitError::NoStartFunction) && after == s
                && after_handler == handler
        },
        None => result == Err::<Trap, InitError>(InitError::NoStartFunction) && after == s
            && after_handler == handler,
    }
}

/// Whether calling function `index` from outside in state `s`, with `args`,
/// comes to `trap` and leaves state `after`. A function that the module does
/// not have, or has only imported, is not called. Another is entered and
/// run until its call has returned, which `ExecutionFinished` reports, or
/// until the machine stops.
pub open spec fn runs_func<F: ImportFunctionHandler>(
    module: &Module,
    breakpoints: &Breakpoints,
    s: VmState,
    handler: F,
    limit: nat,
    index: u32,
    args: Seq<Value>,
    after: VmState,
    after_handler: F,
    trap: Trap,
) -> bool {
    match module.spec_get_func(index) {
        None => trap == Trap::NoFunctionWithIndex(index) && after == s && after_handler == handler,
        Some(func) => if func.is_imported {
            trap == Trap::UnsupportedCallToImportedFunction(index) && after == s && after_handler
                == handler
        } else {
            let entered = enter(module, s, index, args);
            ||| runs_to_depth(
                module,
                breakpoints,
                entered,
                handler,
                s.depth(),
                limit,
                after,
                after_handler,
                Some(trap),
            )
            ||| trap == Trap::ExecutionFinished && runs_to_depth(
                module,
                breakpoints,
                entered,
                handler,
                s.depth(),
                limit,
                after,
                after_handler,
                None,
            )
        },
    }
}

} // verus!
