use vstd::prelude::*;

use crate::vm::CodePosition;
use crate::wasm::value::{Value, ValueType};

verus! {

/// The number of bytes in a page of memory.
pub const PAGE_SIZE: u32 = 65536;

/// The most pages a memory can have.
pub const MAX_PAGES: u32 = 65536;

/// What a block leaves on the stack.
#[derive(Clone, Copy, Debug, PartialEq, Eq, Structural)]
pub enum BlockType {
    NoResult,
    Value(ValueType),
}

impl BlockType {
    /// The number of values the block leaves on the stack.
    pub open spec fn spec_arity(self) -> nat {
        match self {
            BlockType::NoResult => 0,
            BlockType::Value(_) => 1,
        }
    }

    pub fn arity(self) -> (n: usize)
        ensures
            n == self.spec_arity(),
    {
        match self {
            BlockType::NoResult => 0,
            BlockType::Value(_) => 1,
        }
    }
}

/// An integer operation with one operand.
#[derive(Clone, Copy, Debug, PartialEq, Eq, Structural)]
pub enum IntUnOp {
    Clz,
    Ctz,
    Popcnt,
}

/// An integer operation with two operands.
#[derive(Clone, Copy, Debug, PartialEq, Eq, Structural)]
pub enum IntBinOp {
    Add,
    Sub,
    Mul,
    DivS,
    DivU,
    RemS,
    RemU,
    And,
    Or,
    Xor,
    Shl,
    ShrS,
    ShrU,
    Rotl,
    Rotr,
}

/// A comparison of two integers.
#[derive(Clone, Copy, Debug, PartialEq, Eq, Structural)]
pub enum IntRelOp {
    Eq,
    Ne,
    LtS,
    LtU,
    GtS,
    GtU,
    LeS,
    LeU,
    GeS,
    GeU,
}

/// A conversion between value types that involves no float arithmetic.
#[derive(Clone, Copy, Debug, PartialEq, Eq, Structural)]
pub enum ConvertOp {
    I32WrapI64,
    I64ExtendSI32,
    I64ExtendUI32,
    I32ReinterpretF32,
    I64ReinterpretF64,
    F32ReinterpretI32,
    F64ReinterpretI64,
}

/// The number of bytes that a memory access touches.
#[derive(Clone, Copy, Debug, PartialEq, Eq, Structural)]
pub enum MemWidth {
    B8,
    B16,
    B32,
    B64,
}

impl MemWidth {
    pub open spec fn spec_bytes(self) -> nat {
        match self {
            MemWidth::B8 => 1,
            MemWidth::B16 => 2,
            MemWidth::B32 => 4,
            MemWidth::B64 => 8,
        }
    }

    pub fn bytes(self) -> (n: usize)
        ensures
            n == self.spec_bytes(),
    {
        match self {
            MemWidth::B8 => 1,
            MemWidth::B16 => 2,
            MemWidth::B32 => 4,
            MemWidth::B64 => 8,
        }
    }
}

/// A load: `width` bytes are read, sign- or zero-extended to 64 bits, and
/// the low bits of that become a value of type `value_type`.
#[derive(Clone, Copy, Debug, PartialEq, Eq, Structural)]
pub struct LoadOp {
    pub value_type: ValueType,
    pub width: MemWidth,
    pub signed: bool,
}

/// A store: the low `width` bytes of a value of type `value_type` are written.
#[derive(Clone, Copy, Debug, PartialEq, Eq, Structural)]
pub struct StoreOp {
    pub value_type: ValueType,
    pub width: MemWidth,
}

/// An instruction of the machine. Float arithmetic and what else the machine
/// does not execute are `Unsupported`.
#[derive(Clone, Debug)]
pub enum Instruction {
    Unreachable,
    Nop,
    Block(BlockType),
    Loop(BlockType),
    If(BlockType),
    Else,
    End,
    Br(u32),
    BrIf(u32),
    BrTable(Vec<u32>, u32),
    Return,
    Call(u32),
    /// A call of the function that the table has for an index, which must
    /// have the type with this index.
    CallIndirect(u32),
    Drop,
    Select,
    GetLocal(u32),
    SetLocal(u32),
    TeeLocal(u32),
    GetGlobal(u32),
    SetGlobal(u32),
    Load(LoadOp, u32),
    Store(StoreOp, u32),
    CurrentMemory,
    GrowMemory,
    Const(Value),
    I32Unary(IntUnOp),
    I32Binary(IntBinOp),
    I32Compare(IntRelOp),
    I32Eqz,
    I64Unary(IntUnOp),
    I64Binary(IntBinOp),
    I64Compare(IntRelOp),
    I64Eqz,
    Convert(ConvertOp),
    Unsupported,
}

/// The type of a function: the types of its parameters and of its result.
pub struct FunctionType {
    pub params: Vec<ValueType>,
    pub return_type: Option<ValueType>,
}

/// A function of a module. An imported function has no instructions: a call
/// of it is fulfilled from outside the machine.
pub struct Function {
    pub params: Vec<ValueType>,
    pub return_type: Option<ValueType>,
    pub is_imported: bool,
    pub locals: Vec<ValueType>,
    pub instructions: Vec<Instruction>,
}

/// The initial value of a global or the offset of a data segment: a
/// constant, or the value of an earlier global.
#[derive(Clone, Copy, Debug, PartialEq, Eq, Structural)]
pub enum InitExpr {
    Const(Value),
    Global(u32),
}

/// A global of a module.
#[derive(Clone, Copy, Debug, PartialEq, Eq, Structural)]
pub struct Global {
    pub value_type: ValueType,
    pub is_mutable: bool,
    pub init_expr: InitExpr,
}

/// The memory of a module: its initial size and its limit, in pages.
#[derive(Clone, Copy, Debug, PartialEq, Eq, Structural)]
pub struct MemoryType {
    pub initial_pages: u32,
    pub max_pages: Option<u32>,
}

/// The table of a module: the number of elements it has at the start.
#[derive(Clone, Copy, Debug, PartialEq, Eq, Structural)]
pub struct TableType {
    pub initial: u32,
}

/// Functions that are in the table from the start, at an offset.
pub struct TableInit {
    pub offset: InitExpr,
    pub entries: Vec<u32>,
}

/// Bytes that are in memory from the start, at an offset.
pub struct MemoryInit {
    pub offset: InitExpr,
    pub data: Vec<u8>,
}

/// A parsed module: what a machine is built from and runs. It does not
/// change once it is loaded.
pub struct Module {
    pub types: Vec<FunctionType>,
    pub functions: Vec<Function>,
    pub globals: Vec<Global>,
    pub table: Option<TableType>,
    pub table_inits: Vec<TableInit>,
    pub memory: Option<MemoryType>,
    pub memory_inits: Vec<MemoryInit>,
    pub start_func: Option<u32>,
}

impl Function {
    /// Whether the function has a type: the same parameters and result.
    pub open spec fn spec_has_type(&self, function_type: FunctionType) -> bool {
        self.params@ == function_type.params@ && self.return_type == function_type.return_type
    }

    pub fn has_type(&self, function_type: &FunctionType) -> (r: bool)
        ensures
            r == self.spec_has_type(*function_type),
    {
        if self.params.len() != function_type.params.len() {
            return false;
        }
        let mut i: usize = 0;
        while i < self.params.len()
            invariant
                i <= self.params@.len(),
                self.params@.len() == function_type.params@.len(),
                self.params@.take(i as int) == function_type.params@.take(i as int),
            decreases self.params@.len() - i,
        {
            if self.params[i] != function_type.params[i] {
                return false;
            }
            i = i + 1;
        }
        assert(self.params@.take(i as int) =~= self.params@);
        assert(function_type.params@.take(i as int) =~= function_type.params@);
        match (self.return_type, function_type.return_type) {
            (Some(a), Some(b)) => a == b,
            (None, None) => true,
            _ => false,
        }
    }
}

impl Module {
    /// The function type with this index, if the module has it.
    pub open spec fn spec_get_type(&self, index: u32) -> Option<FunctionType> {
        if index < self.types@.len() {
            Some(self.types@[index as int])
        } else {
            None
        }
    }

    pub fn get_type(&self, index: u32) -> (r: Option<&FunctionType>)
        ensures
            r is Some <==> index < self.types@.len(),
            r matches Some(function_type) ==> *function_type == self.types@[index as int],
    {
        if (index as usize) < self.types.len() {
            Some(&self.types[index as usize])
        } else {
            None
        }
    }

    /// The function with this index, if the module has it.
    pub open spec fn spec_get_func(&self, index: u32) -> Option<Function> {
        if index < self.functions@.len() {
            Some(self.functions@[index as int])
        } else {
            None
        }
    }

    /// The instructions of a function that an instruction pointer can reach:
    /// those whose successor still has an index of 32 bits.
    pub open spec fn code(&self, func_index: u32) -> Seq<Instruction> {
        match self.spec_get_func(func_index) {
            Some(func) => if func.instructions@.len() < u32::MAX {
                func.instructions@
            } else {
                func.instructions@.take(u32::MAX as int)
            },
            None => Seq::empty(),
        }
    }

    /// The instruction at a position, if there is one.
    pub open spec fn spec_instr_at(&self, pos: CodePosition) -> Option<Instruction> {
        if pos.instr_index < self.code(pos.func_index).len() {
            Some(self.code(pos.func_index)[pos.instr_index as int])
        } else {
            None
        }
    }

    /// Whether a position names an instruction of the module.
    pub open spec fn has_position(&self, pos: CodePosition) -> bool {
        &&& pos.func_index < self.functions@.len()
        &&& pos.instr_index < self.functions@[pos.func_index as int].instructions@.len()
    }

    pub fn get_func(&self, index: u32) -> (r: Option<&Function>)
        ensures
            r is Some <==> index < self.functions@.len(),
            r matches Some(func) ==> *func == self.functions@[index as int],
    {
        if (index as usize) < self.functions.len() {
            Some(&self.functions[index as usize])
        } else {
            None
        }
    }

    /// The instruction at a position that an instruction pointer can hold.
    pub fn instr_at(&self, pos: CodePosition) -> (r: Option<&Instruction>)
        ensures
            r is Some <==> self.spec_instr_at(pos) is Some,
            r matches Some(instr) ==> *instr == self.spec_instr_at(pos)->0,
    {
        match self.get_func(pos.func_index) {
            Some(func) => {
                if (pos.instr_index as usize) < func.instructions.len() && pos.instr_index
                    < u32::MAX {
                    Some(&func.instructions[pos.instr_index as usize])
                } else {
                    None
                }
            },
            None => None,
        }
    }
}

} // verus!
