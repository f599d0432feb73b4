//! The state in which a machine starts: the initial values of the globals
//! and the initial contents of the memory.

use vstd::prelude::*;

use crate::vm::semantics::{write_at, zero_bytes};
use crate::vm::state::{Memory, MemoryState, VmState};
use crate::vm::{CodePosition, InitError};
use crate::wasm::module::{
    Global, InitExpr, MemoryInit, Module, TableInit, MAX_PAGES, PAGE_SIZE,
};
use crate::wasm::value::{Value, ValueType};

verus! {

/// The value of an initial-value expression, given the globals that have
/// their values already.
pub open spec fn spec_eval_init(expr: InitExpr, globals: Seq<Value>) -> Result<Value, InitError> {
    match expr {
        InitExpr::Const(v) => Ok(v),
        InitExpr::Global(index) => if index < globals.len() {
            Ok(globals[index as int])
        } else {
            Err(InitError::UnknownGlobal(index))
        },
    }
}

/// The initial values of the first `count` globals: each is the value of its
/// expression, which may refer to the globals before it, and has the type of
/// the global. The first global that fails decides the error.
pub open spec fn spec_init_globals(globals: Seq<Global>, count: nat) -> Result<
    Seq<Value>,
    InitError,
>
    decreases count,
{
    if count == 0 {
        Ok(Seq::empty())
    } else {
        match spec_init_globals(globals, (count - 1) as nat) {
            Err(error) => Err(error),
            Ok(values) => match spec_eval_init(globals[count - 1].init_expr, values) {
                Err(error) => Err(error),
                Ok(v) => if v.spec_value_type() == globals[count - 1].value_type {
                    Ok(values.push(v))
                } else {
                    Err(
                        InitError::MismatchedType {
                            expected: globals[count - 1].value_type,
                            found: v.spec_value_type(),
                        },
                    )
                },
            },
        }
    }
}

/// The memory with the first `count` data segments written into it, in
/// their order: the offset of each is a 32-bit integer, read as unsigned, and
/// the segment lies in the memory.
pub open spec fn spec_init_data(
    data: Seq<u8>,
    inits: Seq<MemoryInit>,
    globals: Seq<Value>,
    count: nat,
) -> Result<Seq<u8>, InitError>
    decreases count,
{
    if count == 0 {
        Ok(data)
    } else {
        match spec_init_data(data, inits, globals, (count - 1) as nat) {
            Err(error) => Err(error),
            Ok(written) => match spec_eval_init(inits[count - 1].offset, globals) {
                Err(error) => Err(error),
                Ok(Value::I32(offset)) => if (offset as u32) + inits[count - 1].data@.len()
                    <= written.len() {
                    Ok(write_at(written, (offset as u32) as int, inits[count - 1].data@))
                } else {
                    Err(InitError::DataSegmentOutOfBounds)
                },
                Ok(v) => Err(
                    InitError::MismatchedType {
                        expected: ValueType::I32,
                        found: v.spec_value_type(),
                    },
                ),
            },
        }
    }
}

/// The memory a machine starts with: none if the module has none and no
/// data; else the initial pages of zeros with the data segments written into
/// them.
pub open spec fn spec_init_memory(module: &Module, globals: Seq<Value>) -> Result<
    Option<MemoryState>,
    InitError,
> {
    match module.memory {
        None => if module.memory_inits@.len() == 0 {
            Ok(None)
        } else {
            Err(InitError::DataSegmentOutOfBounds)
        },
        Some(memory) => if memory.initial_pages > MAX_PAGES || memory.initial_pages * PAGE_SIZE
            > usize::MAX {
            Err(InitError::MemoryTooLarge)
        } else {
            match spec_init_data(
                zero_bytes((memory.initial_pages * PAGE_SIZE) as nat),
                module.memory_inits@,
                globals,
                module.memory_inits@.len(),
            ) {
                Err(error) => Err(error),
                Ok(data) => Ok(Some(MemoryState { data, max_pages: memory.max_pages })),
            }
        },
    }
}

/// A table of `count` elements without a function.
pub open spec fn empty_table(count: nat) -> Seq<Option<u32>> {
    Seq::new(count, |i: int| None::<u32>)
}

/// `table` with the functions `entries` in the elements from `at` on.
pub open spec fn write_elements(table: Seq<Option<u32>>, at: int, entries: Seq<u32>) -> Seq<
    Option<u32>,
> {
    table.take(at) + entries.map_values(|func: u32| Some(func)) + table.skip(at + entries.len())
}

/// The table with the first `count` element segments written into it, in
/// their order: the offset of each is a 32-bit integer, read as unsigned, and
/// the segment lies in the table.
pub open spec fn spec_init_elements(
    table: Seq<Option<u32>>,
    inits: Seq<TableInit>,
    globals: Seq<Value>,
    count: nat,
) -> Result<Seq<Option<u32>>, InitError>
    decreases count,
{
    if count == 0 {
        Ok(table)
    } else {
        match spec_init_elements(table, inits, globals, (count - 1) as nat) {
            Err(error) => Err(error),
            Ok(written) => match spec_eval_init(inits[count - 1].offset, globals) {
                Err(error) => Err(error),
                Ok(Value::I32(offset)) => if (offset as u32) + inits[count - 1].entries@.len()
                    <= written.len() {
                    Ok(write_elements(written, (offset as u32) as int, inits[count - 1].entries@))
                } else {
                    Err(InitError::ElementSegmentOutOfBounds)
                },
                Ok(v) => Err(
                    InitError::MismatchedType {
                        expected: ValueType::I32,
                        found: v.spec_value_type(),
                    },
                ),
            },
        }
    }
}

/// The table a machine starts with: none if the module has none and no
/// elements; else the initial elements without functions, with the element
/// segments written into them.
pub open spec fn spec_init_table(module: &Module, globals: Seq<Value>) -> Result<
    Option<Seq<Option<u32>>>,
    InitError,
> {
    match module.table {
        None => if module.table_inits@.len() == 0 {
            Ok(None)
        } else {
            Err(InitError::ElementSegmentOutOfBounds)
        },
        Some(table) => if table.initial > usize::MAX {
            Err(InitError::TableTooLarge)
        } else {
            match spec_init_elements(
                empty_table(table.initial as nat),
                module.table_inits@,
                globals,
                module.table_inits@.len(),
            ) {
                Err(error) => Err(error),
                Ok(elements) => Ok(Some(elements)),
            }
        },
    }
}

/// The state in which a machine for a module starts: no call is active, the
/// stack is empty, and the globals, the memory and the table have their
/// initial values. Of several things that are wrong with the module the
/// globals are reported first, then the memory, then the table.
pub open spec fn spec_initial_state(module: &Module) -> Result<VmState, InitError> {
    match spec_init_globals(module.globals@, module.globals@.len()) {
        Err(error) => Err(error),
        Ok(globals) => match spec_init_memory(module, globals) {
            Err(error) => Err(error),
            Ok(memory) => match spec_init_table(module, globals) {
                Err(error) => Err(error),
                Ok(table) => Ok(
                    VmState {
                        ip: CodePosition { func_index: 0, instr_index: 0 },
                        value_stack: Seq::empty(),
                        frames: Seq::empty(),
                        globals,
                        memory,
                        table,
                    },
                ),
            },
        },
    }
}

/// The value of an initial-value expression.
pub fn eval_init(expr: InitExpr, globals: &Vec<Value>) -> (r: Result<Value, InitError>)
    ensures
        r == spec_eval_init(expr, globals@),
{
    match expr {
        InitExpr::Const(v) => Ok(v),
        InitExpr::Global(index) => if (index as usize) < globals.len() {
            Ok(globals[index as usize])
        } else {
            Err(InitError::UnknownGlobal(index))
        },
    }
}

/// The initial values of the globals of a module.
pub fn init_globals(module: &Module) -> (r: Result<Vec<Value>, InitError>)
    ensures
        match spec_init_globals(module.globals@, module.globals@.len()) {
            Ok(values) => r is Ok && r->Ok_0@ == values,
            Err(error) => r == Err::<Vec<Value>, InitError>(error),
        },
{
    let mut values: Vec<Value> = Vec::new();
    let mut i: usize = 0;
    while i < module.globals.len()
        invariant
            i <= module.globals@.len(),
            spec_init_globals(module.globals@, i as nat) == Ok::<Seq<Value>, InitError>(values@),
        decreases module.globals@.len() - i,
    {
        let global = module.globals[i];
        proof {
            reveal_with_fuel(spec_init_globals, 2);
        }
        match eval_init(global.init_expr, &values) {
            Err(error) => {
                proof {
                    lemma_init_globals_fails(module.globals@, (i + 1) as nat, module.globals@.len());
                }
                return Err(error);
            },
            Ok(v) => {
                let found = v.value_type();
                if found != global.value_type {
                    proof {
                        lemma_init_globals_fails(
                            module.globals@,
                            (i + 1) as nat,
                            module.globals@.len(),
                        );
                    }
                    return Err(InitError::MismatchedType { expected: global.value_type, found });
                }
                values.push(v);
            },
        }
        i = i + 1;
    }
    Ok(values)
}

/// Once the first globals fail, so do all of them, with the same error.
pub proof fn lemma_init_globals_fails(globals: Seq<Global>, count: nat, more: nat)
    requires
        count <= more,
        spec_init_globals(globals, count) is Err,
    ensures
        spec_init_globals(globals, more) == spec_init_globals(globals, count),
    decreases more,
{
    if count < more {
        lemma_init_globals_fails(globals, count, (more - 1) as nat);
    }
}

/// Once the first data segments fail, so do all of them, with the same error.
pub proof fn lemma_init_data_fails(
    data: Seq<u8>,
    inits: Seq<MemoryInit>,
    globals: Seq<Value>,
    count: nat,
    more: nat,
)
    requires
        count <= more,
        spec_init_data(data, inits, globals, count) is Err,
    ensures
        spec_init_data(data, inits, globals, more) == spec_init_data(data, inits, globals, count),
    decreases more,
{
    if count < more {
        lemma_init_data_fails(data, inits, globals, count, (more - 1) as nat);
    }
}

/// The memory a machine starts with for a module, the globals having
/// their initial values.
#[verifier::loop_isolation(false)]
pub fn init_memory(module: &Module, globals: &Vec<Value>) -> (r: Result<Option<Memory>, InitError>)
    ensures
        match spec_init_memory(module, globals@) {
            Ok(Some(memory)) => r matches Ok(Some(built)) && built@ == memory,
            Ok(None) => r matches Ok(None),
            Err(error) => r matches Err(e) && e == error,
        },
{
    let memory_type = match module.memory {
        Some(memory_type) => memory_type,
        None => {
            if module.memory_inits.len() == 0 {
                return Ok(None);
            } else {
                return Err(InitError::DataSegmentOutOfBounds);
            }
        },
    };
    if memory_type.initial_pages > MAX_PAGES || (memory_type.initial_pages as u64) * (
    PAGE_SIZE as u64) > usize::MAX as u64 {
        return Err(InitError::MemoryTooLarge);
    }
    let size: usize = (memory_type.initial_pages as usize) * (PAGE_SIZE as usize);
    let mut data: Vec<u8> = vec![0u8; size];
    let ghost zeros = zero_bytes((memory_type.initial_pages * PAGE_SIZE) as nat);
    assert(data@ =~= zeros);
    let mut i: usize = 0;
    while i < module.memory_inits.len()
        invariant
            i <= module.memory_inits@.len(),
            data@.len() == zeros.len(),
            spec_init_data(zeros, module.memory_inits@, globals@, i as nat) == Ok::<
                Seq<u8>,
                InitError,
            >(data@),
        decreases module.memory_inits@.len() - i,
    {
        let init = &module.memory_inits[i];
        proof {
            reveal_with_fuel(spec_init_data, 2);
        }
        match eval_init(init.offset, globals) {
            Err(error) => {
                proof {
                    lemma_init_data_fails(
                        zeros,
                        module.memory_inits@,
                        globals@,
                        (i + 1) as nat,
                        module.memory_inits@.len(),
                    );
                }
                return Err(error);
            },
            Ok(Value::I32(offset)) => {
                let start = (offset as u32) as u64;
                if init.data.len() <= data.len() && start <= (data.len() - init.data.len()) as u64 {
                    let base: usize = start as usize;
                    let mut k: usize = 0;
                    let ghost before = data@;
                    while k < init.data.len()
                        invariant
                            k <= init.data@.len(),
                            data@.len() == before.len(),
                            base + init.data@.len() <= data@.len(),
                            forall|j: int|
                                0 <= j < data@.len() ==> #[trigger] data@[j] == if base <= j < base
                                    + k {
                                    init.data@[j - base]
                                } else {
                                    before[j]
                                },
                        decreases init.data@.len() - k,
                    {
                        data.set(base + k, init.data[k]);
                        k = k + 1;
                    }
                    assert(data@ =~= write_at(before, base as int, init.data@));
                } else {
                    proof {
                        lemma_init_data_fails(
                            zeros,
                            module.memory_inits@,
                            globals@,
                            (i + 1) as nat,
                            module.memory_inits@.len(),
                        );
                    }
                    return Err(InitError::DataSegmentOutOfBounds);
                }
            },
            Ok(v) => {
                proof {
                    lemma_init_data_fails(
                        zeros,
                        module.memory_inits@,
                        globals@,
                        (i + 1) as nat,
                        module.memory_inits@.len(),
                    );
                }
                return Err(
                    InitError::MismatchedType { expected: ValueType::I32, found: v.value_type() },
                );
            },
        }
        i = i + 1;
    }
    Ok(Some(Memory { data, max_pages: memory_type.max_pages }))
}

/// Once the first element segments fail, so do all of them, with the same
/// error.
pub proof fn lemma_init_elements_fails(
    table: Seq<Option<u32>>,
    inits: Seq<TableInit>,
    globals: Seq<Value>,
    count: nat,
    more: nat,
)
    requires
        count <= more,
        spec_init_elements(table, inits, globals, count) is Err,
    ensures
        spec_init_elements(table, inits, globals, more) == spec_init_elements(
            table,
            inits,
            globals,
            count,
        ),
    decreases more,
{
    if count < more {
        lemma_init_elements_fails(table, inits, globals, count, (more - 1) as nat);
    }
}

/// The table a machine starts with for a module, the globals having their
/// initial values.
#[verifier::loop_isolation(false)]
pub fn init_table(module: &Module, globals: &Vec<Value>) -> (r: Result<
    Option<Vec<Option<u32>>>,
    InitError,
>)
    ensures
        match spec_init_table(module, globals@) {
            Ok(Some(table)) => r matches Ok(Some(built)) && built@ == table,
            Ok(None) => r matches Ok(None),
            Err(error) => r matches Err(e) && e == error,
        },
{
    let table_type = match module.table {
        Some(table_type) => table_type,
        None => {
            if module.table_inits.len() == 0 {
                return Ok(None);
            } else {
                return Err(InitError::ElementSegmentOutOfBounds);
            }
        },
    };
    if table_type.initial as u64 > usize::MAX as u64 {
        return Err(InitError::TableTooLarge);
    }
    let size: usize = table_type.initial as usize;
    let mut table: Vec<Option<u32>> = Vec::new();
    let ghost blank = empty_table(table_type.initial as nat);
    while table.len() < size
        invariant
            table@.len() <= size,
            forall|k: int| 0 <= k < table@.len() ==> #[trigger] table@[k] is None,
        decreases size - table@.len(),
    {
        table.push(None);
    }
    assert(table@ =~= blank);
    let mut i: usize = 0;
    while i < module.table_inits.len()
        invariant
            i <= module.table_inits@.len(),
            table@.len() == blank.len(),
            spec_init_elements(blank, module.table_inits@, globals@, i as nat) == Ok::<
                Seq<Option<u32>>,
                InitError,
            >(table@),
        decreases module.table_inits@.len() - i,
    {
        let init = &module.table_inits[i];
        proof {
            reveal_with_fuel(spec_init_elements, 2);
        }
        match eval_init(init.offset, globals) {
            Err(error) => {
                proof {
                    lemma_init_elements_fails(
                        blank,
                        module.table_inits@,
                        globals@,
                        (i + 1) as nat,
                        module.table_inits@.len(),
                    );
                }
                return Err(error);
            },
            Ok(Value::I32(offset)) => {
                let start = (offset as u32) as u64;
                if init.entries.len() <= table.len() && start <= (table.len()
                    - init.entries.len()) as u64 {
                    let base: usize = start as usize;
                    let mut k: usize = 0;
                    let ghost before = table@;
                    while k < init.entries.len()
                        invariant
                            k <= init.entries@.len(),
                            table@.len() == before.len(),
                            base + init.entries@.len() <= table@.len(),
                            forall|j: int|
                                0 <= j < table@.len() ==> #[trigger] table@[j] == if base <= j
                                    < base + k {
                                    Some(init.entries@[j - base])
                                } else {
                                    before[j]
                                },
                        decreases init.entries@.len() - k,
                    {
                        table.set(base + k, Some(init.entries[k]));
                        k = k + 1;
                    }
                    assert(table@ =~= write_elements(before, base as int, init.entries@));
                } else {
                    proof {
                        lemma_init_elements_fails(
                            blank,
                            module.table_inits@,
                            globals@,
                            (i + 1) as nat,
                            module.table_inits@.len(),
                        );
                    }
                    return Err(InitError::ElementSegmentOutOfBounds);
                }
            },
            Ok(v) => {
                proof {
                    lemma_init_elements_fails(
                        blank,
                        module.table_inits@,
                        globals@,
                        (i + 1) as nat,
                        module.table_inits@.len(),
                    );
                }
                return Err(
                    InitError::MismatchedType { expected: ValueType::I32, found: v.value_type() },
                );
            },
        }
        i = i + 1;
    }
    Ok(Some(table))
}

} // verus!
