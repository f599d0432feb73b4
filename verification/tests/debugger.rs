use wasmdbg::debugger::FrameLocals;
use wasmdbg::vm::{CodePosition, InitError, Trap};
use wasmdbg::wasm::module::{Function, Global, InitExpr, Instruction, IntBinOp, MemoryType, Module};
use wasmdbg::wire::RunCodeType;
use wasmdbg::{
    Breakpoint, DebugInfo, Debugger, DebuggerError, DefaultImportFunctionHandler, Value,
    ValueType, WatchpointTrigger,
};

type Session = Debugger<DefaultImportFunctionHandler>;

fn function(params: Vec<ValueType>, return_type: Option<ValueType>, instructions: Vec<Instruction>) -> Function {
    Function { params, return_type, is_imported: false, locals: vec![], instructions }
}

fn three_instructions() -> Module {
    Module {
        functions: vec![function(
            vec![],
            Some(ValueType::I32),
            vec![Instruction::Const(Value::I32(1)), Instruction::Nop, Instruction::End],
        )],
        types: vec![],
        globals: vec![],
        table: None,
        table_inits: vec![],
        memory: None,
        memory_inits: vec![],
        start_func: Some(0),
    }
}

fn three_deep() -> Module {
    Module {
        functions: vec![
            function(vec![], None, vec![Instruction::Nop, Instruction::Call(1), Instruction::End]),
            function(
                vec![],
                None,
                vec![
                    Instruction::Const(Value::I32(5)),
                    Instruction::Call(2),
                    Instruction::Nop,
                    Instruction::End,
                ],
            ),
            function(
                vec![ValueType::I32],
                None,
                vec![Instruction::Nop, Instruction::Nop, Instruction::End],
            ),
        ],
        globals: vec![
            Global { value_type: ValueType::I32, is_mutable: true, init_expr: InitExpr::Const(Value::I32(0)) },
            Global { value_type: ValueType::I32, is_mutable: true, init_expr: InitExpr::Const(Value::I32(0)) },
            Global { value_type: ValueType::I32, is_mutable: true, init_expr: InitExpr::Const(Value::I32(0)) },
        ],
        types: vec![],
        table: None,
        table_inits: vec![],
        memory: Some(MemoryType { initial_pages: 1, max_pages: None }),
        memory_inits: vec![],
        start_func: Some(0),
    }
}

fn loaded(module: Module) -> Session {
    let mut session = Session::new();
    session.load_file(String::from("module.wasm"), module, None);
    session
}

#[test]
fn new_session_has_nothing_loaded() {
    let mut session = Session::new();
    assert!(session.file().is_none());
    assert!(session.vm().is_none());
    assert_eq!(session.start(), Err(DebuggerError::NoFileLoaded));
    assert_eq!(session.run(), Err(DebuggerError::NoFileLoaded));
    assert_eq!(session.call(0, &vec![]), Err(DebuggerError::NoFileLoaded));
    assert_eq!(session.continue_execution(), Err(DebuggerError::NoRunningInstance));
    assert_eq!(session.execute_step(), Err(DebuggerError::NoRunningInstance));
    assert_eq!(session.execute_step_over(), Err(DebuggerError::NoRunningInstance));
    assert_eq!(session.execute_step_out(), Err(DebuggerError::NoRunningInstance));
    assert_eq!(session.backtrace(), Err(DebuggerError::NoRunningInstance));
    assert_eq!(session.globals().err(), Some(DebuggerError::NoRunningInstance));
    assert_eq!(session.value_stack().err(), Some(DebuggerError::NoRunningInstance));
    assert_eq!(session.memory().err(), Some(DebuggerError::NoRunningInstance));
    assert_eq!(session.locals(-1).err(), Some(DebuggerError::NoRunningInstance));
    assert_eq!(session.breakpoints().err(), Some(DebuggerError::NoFileLoaded));
    assert_eq!(
        session.add_breakpoint(Breakpoint::Code(CodePosition::new(0, 0))),
        Err(DebuggerError::NoFileLoaded)
    );
    assert_eq!(session.delete_breakpoint(0), Err(DebuggerError::NoFileLoaded));
    assert_eq!(session.clear_breakpoints(), Err(DebuggerError::NoFileLoaded));
    assert_eq!(session.get_vm().err(), Some(DebuggerError::NoRunningInstance));
    assert_eq!(session.get_file().err(), Some(DebuggerError::NoFileLoaded));
    assert_eq!(session.get_vm_mut().err(), Some(DebuggerError::NoRunningInstance));
    assert_eq!(session.get_file_mut().err(), Some(DebuggerError::NoFileLoaded));
    assert_eq!(session.reset_vm(), Ok(()));
    assert_eq!(session.function_name(0), None);
    assert_eq!(session.local_name(0, 0), None);
}

#[test]
fn load_replaces_the_file_and_discards_the_machine() {
    let mut session = loaded(three_instructions());
    assert_eq!(session.get_file().unwrap().file_path(), "module.wasm");
    assert_eq!(session.add_breakpoint(Breakpoint::Code(CodePosition::new(0, 1))), Ok(0));
    assert_eq!(session.start(), Ok(Some(Trap::BreakpointReached(0))));
    assert!(session.vm().is_some());
    session.load_file(String::from("other.wasm"), three_deep(), None);
    assert!(session.vm().is_none());
    assert_eq!(session.get_file().unwrap().file_path(), "other.wasm");
    assert_eq!(session.breakpoints().unwrap().len(), 0);
    assert_eq!(session.add_breakpoint(Breakpoint::Code(CodePosition::new(2, 2))), Ok(0));
    assert_eq!(session.continue_execution(), Err(DebuggerError::NoRunningInstance));
}

#[test]
fn start_stops_at_a_breakpoint_and_backtrace_shows_it() {
    let mut session = loaded(three_instructions());
    assert_eq!(session.add_breakpoint(Breakpoint::Code(CodePosition::new(0, 1))), Ok(0));
    assert_eq!(session.start(), Ok(Some(Trap::BreakpointReached(0))));
    assert_eq!(session.backtrace(), Ok(vec![CodePosition::new(0, 1)]));
    assert_eq!(session.value_stack().unwrap(), &vec![Value::I32(1)]);
    assert_eq!(session.continue_execution(), Ok(Trap::ExecutionFinished));
    assert_eq!(session.backtrace(), Ok(vec![CodePosition::new(0, 2)]));
}

#[test]
fn breakpoints_survive_a_restart() {
    let mut session = loaded(three_instructions());
    assert_eq!(session.add_breakpoint(Breakpoint::Code(CodePosition::new(0, 1))), Ok(0));
    assert_eq!(session.start(), Ok(Some(Trap::BreakpointReached(0))));
    assert_eq!(session.reset_vm(), Ok(()));
    assert!(session.vm().is_none());
    assert_eq!(session.run(), Ok(Trap::BreakpointReached(0)));
    assert_eq!(session.start(), Ok(Some(Trap::BreakpointReached(0))));
    assert_eq!(session.backtrace(), Ok(vec![CodePosition::new(0, 1)]));
}

#[test]
fn refused_breakpoint_uses_up_no_index() {
    let mut session = loaded(three_deep());
    assert_eq!(
        session.add_breakpoint(Breakpoint::Code(CodePosition::new(0, 3))),
        Err(DebuggerError::InvalidBreakpointPosition)
    );
    assert_eq!(
        session.add_breakpoint(Breakpoint::Code(CodePosition::new(3, 0))),
        Err(DebuggerError::InvalidBreakpointPosition)
    );
    assert_eq!(
        session.add_breakpoint(Breakpoint::Global(WatchpointTrigger::Write, 3)),
        Err(DebuggerError::InvalidWatchpointGlobal)
    );
    assert_eq!(session.breakpoints().unwrap().len(), 0);
    assert_eq!(session.breakpoints().unwrap().next_index(), 0);
    assert_eq!(session.add_breakpoint(Breakpoint::Code(CodePosition::new(0, 2))), Ok(0));
    assert_eq!(session.add_breakpoint(Breakpoint::Global(WatchpointTrigger::Write, 2)), Ok(1));
    assert_eq!(
        session.add_breakpoint(Breakpoint::Memory(WatchpointTrigger::Write, 0xffff_fff0, 64)),
        Ok(2)
    );
    assert_eq!(
        session.breakpoints().unwrap().get(1),
        Some(Breakpoint::Global(WatchpointTrigger::Write, 2))
    );
}

#[test]
fn deleting_a_breakpoint_that_is_not_there_is_no_error() {
    let mut session = loaded(three_instructions());
    assert_eq!(session.delete_breakpoint(0), Ok(false));
    assert_eq!(session.delete_breakpoint(17), Ok(false));
    assert_eq!(session.add_breakpoint(Breakpoint::Code(CodePosition::new(0, 1))), Ok(0));
    assert_eq!(session.delete_breakpoint(1), Ok(false));
    assert_eq!(session.delete_breakpoint(0), Ok(true));
    assert_eq!(session.delete_breakpoint(0), Ok(false));
    assert_eq!(session.start(), Ok(Some(Trap::ExecutionFinished)));
}

#[test]
fn clear_breakpoints_deletes_all() {
    let mut session = loaded(three_instructions());
    assert_eq!(session.add_breakpoint(Breakpoint::Code(CodePosition::new(0, 1))), Ok(0));
    assert_eq!(session.add_breakpoint(Breakpoint::Code(CodePosition::new(0, 2))), Ok(1));
    assert_eq!(session.clear_breakpoints(), Ok(()));
    assert_eq!(session.breakpoints().unwrap().len(), 0);
    assert_eq!(session.start(), Ok(Some(Trap::ExecutionFinished)));
    assert_eq!(session.add_breakpoint(Breakpoint::Code(CodePosition::new(0, 1))), Ok(2));
}

#[test]
fn backtrace_three_calls_deep() {
    let mut session = loaded(three_deep());
    assert_eq!(session.add_breakpoint(Breakpoint::Code(CodePosition::new(2, 1))), Ok(0));
    assert_eq!(session.start(), Ok(Some(Trap::BreakpointReached(0))));
    let backtrace = session.backtrace().unwrap();
    assert_eq!(
        backtrace,
        vec![CodePosition::new(2, 1), CodePosition::new(1, 2), CodePosition::new(0, 2)]
    );
    let frames = session.get_vm().unwrap().function_stack();
    assert_eq!(frames.len(), 3);
    assert_eq!(backtrace[1], frames[2].ret_addr);
    assert_eq!(backtrace[2], frames[1].ret_addr);
}

#[test]
fn locals_by_level() {
    let mut session = loaded(three_deep());
    assert_eq!(session.add_breakpoint(Breakpoint::Code(CodePosition::new(1, 1))), Ok(0));
    assert_eq!(session.add_breakpoint(Breakpoint::Code(CodePosition::new(2, 1))), Ok(1));
    assert_eq!(session.start(), Ok(Some(Trap::BreakpointReached(0))));
    assert_eq!(session.backtrace(), Ok(vec![CodePosition::new(1, 1), CodePosition::new(0, 2)]));
    let innermost: FrameLocals = session.locals(-1).unwrap().unwrap();
    assert_eq!(innermost.func_index, 1);
    assert!(innermost.locals.is_empty());
    let outer = session.locals(-2).unwrap().unwrap();
    assert_eq!(outer.func_index, 0);
    assert!(session.locals(-3).unwrap().is_none());
    assert!(session.locals(0).unwrap().is_none());
    assert!(session.locals(1).unwrap().is_none());
    assert!(session.locals(i32::MIN).unwrap().is_none());
    assert_eq!(session.continue_execution(), Ok(Trap::BreakpointReached(1)));
    let called = session.locals(-1).unwrap().unwrap();
    assert_eq!(called.func_index, 2);
    assert_eq!(called.locals, vec![Value::I32(5)]);
    assert_eq!(session.locals(-2).unwrap().unwrap().func_index, 1);
    assert_eq!(session.locals(-3).unwrap().unwrap().func_index, 0);
    assert!(session.locals(-4).unwrap().is_none());
}

#[test]
fn stepping_through_the_session() {
    let mut session = loaded(three_instructions());
    assert_eq!(session.add_breakpoint(Breakpoint::Code(CodePosition::new(0, 1))), Ok(0));
    assert_eq!(session.start(), Ok(Some(Trap::BreakpointReached(0))));
    assert_eq!(session.execute_step(), Ok(None));
    assert_eq!(session.backtrace(), Ok(vec![CodePosition::new(0, 2)]));
    assert_eq!(session.execute_step(), Ok(Some(Trap::ExecutionFinished)));
    assert_eq!(session.execute_step_over(), Ok(Some(Trap::ExecutionFinished)));
    assert_eq!(session.execute_step_out(), Ok(Some(Trap::ExecutionFinished)));
}

#[test]
fn step_over_and_out_in_the_session() {
    let mut session = loaded(three_deep());
    assert_eq!(session.add_breakpoint(Breakpoint::Code(CodePosition::new(0, 1))), Ok(0));
    assert_eq!(session.start(), Ok(Some(Trap::BreakpointReached(0))));
    assert_eq!(session.execute_step_over(), Ok(None));
    assert_eq!(session.backtrace(), Ok(vec![CodePosition::new(0, 2)]));
    assert_eq!(session.add_breakpoint(Breakpoint::Code(CodePosition::new(2, 0))), Ok(1));
    assert_eq!(session.start(), Ok(Some(Trap::BreakpointReached(0))));
    assert_eq!(session.execute_step_over(), Ok(Some(Trap::BreakpointReached(1))));
    assert_eq!(
        session.backtrace(),
        Ok(vec![CodePosition::new(2, 0), CodePosition::new(1, 2), CodePosition::new(0, 2)])
    );
    assert_eq!(session.execute_step_out(), Ok(None));
    assert_eq!(session.backtrace(), Ok(vec![CodePosition::new(1, 2), CodePosition::new(0, 2)]));
    assert_eq!(session.execute_step_out(), Ok(None));
    assert_eq!(session.backtrace(), Ok(vec![CodePosition::new(0, 2)]));
    assert_eq!(session.execute_step_out(), Ok(Some(Trap::ExecutionFinished)));
}

#[test]
fn call_sets_up_a_machine_if_there_is_none() {
    let mut module = three_instructions();
    module.functions.push(function(
        vec![ValueType::I32, ValueType::I32],
        Some(ValueType::I32),
        vec![
            Instruction::GetLocal(0),
            Instruction::GetLocal(1),
            Instruction::I32Binary(IntBinOp::Mul),
            Instruction::End,
        ],
    ));
    module.start_func = None;
    let mut session = loaded(module);
    assert_eq!(session.start(), Err(DebuggerError::InitError(InitError::NoStartFunction)));
    assert!(session.vm().is_none());
    assert_eq!(session.call(1, &vec![Value::I32(6), Value::I32(7)]), Ok(Trap::ExecutionFinished));
    assert_eq!(session.value_stack().unwrap(), &vec![Value::I32(42)]);
    assert_eq!(session.call(1, &vec![Value::I32(6)]), Ok(Trap::ExecutionFinished));
    assert_eq!(session.value_stack().unwrap(), &vec![Value::I32(42), Value::I32(0)]);
    assert_eq!(session.call(5, &vec![]), Ok(Trap::NoFunctionWithIndex(5)));
}

#[test]
fn failed_start_leaves_the_session_as_it_was() {
    let mut module = three_instructions();
    module.globals = vec![Global {
        value_type: ValueType::I64,
        is_mutable: false,
        init_expr: InitExpr::Const(Value::I32(1)),
    }];
    let mut session = loaded(module);
    let error = DebuggerError::InitError(InitError::MismatchedType {
        expected: ValueType::I64,
        found: ValueType::I32,
    });
    assert_eq!(session.start(), Err(error));
    assert_eq!(session.run(), Err(error));
    assert_eq!(session.call(0, &vec![]), Err(error));
    assert!(session.vm().is_none());
    assert!(session.file().is_some());
}

#[test]
fn globals_and_memory_of_the_machine() {
    let mut session = loaded(three_deep());
    assert_eq!(session.start(), Ok(Some(Trap::ExecutionFinished)));
    assert_eq!(session.globals().unwrap(), &vec![Value::I32(0), Value::I32(0), Value::I32(0)]);
    assert_eq!(session.memory().unwrap().data().len(), 65536);
    let mut without = loaded(three_instructions());
    assert_eq!(without.start(), Ok(Some(Trap::ExecutionFinished)));
    assert_eq!(without.memory().err(), Some(DebuggerError::NoMemory));
    assert!(without.globals().unwrap().is_empty());
}

#[test]
fn machine_and_file_can_be_changed_through_the_session() {
    let mut session = loaded(three_instructions());
    assert_eq!(session.start(), Ok(Some(Trap::ExecutionFinished)));
    session.get_vm_mut().unwrap().set_step_limit(5);
    assert_eq!(session.get_vm().unwrap().step_limit(), 5);
    let index = session
        .get_file_mut()
        .unwrap()
        .breakpoints_and_unlock()
        .add_breakpoint(Breakpoint::Code(CodePosition::new(9, 9)));
    assert_eq!(index, 0);
    assert_eq!(session.breakpoints().unwrap().len(), 1);
}

#[test]
fn names_come_from_the_debug_info() {
    let info = DebugInfo::from_names(
        &vec![(0, String::from("main")), (2, String::from("leaf"))],
        &vec![(2, vec![(0, String::from("count"))])],
    );
    let mut session = Session::new();
    session.load_file(String::from("module.wasm"), three_deep(), Some(info));
    assert_eq!(session.function_name(0), Some(&String::from("main")));
    assert_eq!(session.function_name(1), None);
    assert_eq!(session.function_name(2), Some(&String::from("leaf")));
    assert_eq!(session.local_name(2, 0), Some(&String::from("count")));
    assert_eq!(session.local_name(2, 1), None);
    assert_eq!(session.local_name(0, 0), None);
}

#[test]
fn run_code_runs_in_the_way_asked_for() {
    let mut session = Session::new();
    assert_eq!(session.run_code(RunCodeType::Start), Err(DebuggerError::NoFileLoaded));
    assert_eq!(session.run_code(RunCodeType::Step), Err(DebuggerError::NoRunningInstance));
    assert_eq!(session.run_code(RunCodeType::Continue), Err(DebuggerError::NoRunningInstance));
    let mut session = loaded(three_deep());
    assert_eq!(session.add_breakpoint(Breakpoint::Code(CodePosition::new(0, 1))), Ok(0));
    assert_eq!(session.add_breakpoint(Breakpoint::Code(CodePosition::new(2, 0))), Ok(1));
    assert_eq!(session.run_code(RunCodeType::StepOver), Err(DebuggerError::NoRunningInstance));
    assert_eq!(session.run_code(RunCodeType::Start), Ok(Some(Trap::BreakpointReached(0))));
    assert_eq!(session.run_code(RunCodeType::Step), Ok(None));
    assert_eq!(session.backtrace(), Ok(vec![CodePosition::new(1, 0), CodePosition::new(0, 2)]));
    assert_eq!(session.run_code(RunCodeType::StepOver), Ok(None));
    assert_eq!(session.backtrace(), Ok(vec![CodePosition::new(1, 1), CodePosition::new(0, 2)]));
    assert_eq!(session.run_code(RunCodeType::Continue), Ok(Some(Trap::BreakpointReached(1))));
    assert_eq!(session.run_code(RunCodeType::StepOut), Ok(None));
    assert_eq!(session.backtrace(), Ok(vec![CodePosition::new(1, 2), CodePosition::new(0, 2)]));
    assert_eq!(session.run_code(RunCodeType::Continue), Ok(Some(Trap::ExecutionFinished)));
}

#[test]
fn resume_after_outside_step_goes_on_in_the_session() {
    let mut module = three_instructions();
    module.functions[0].instructions = vec![
        Instruction::Unsupported,
        Instruction::Const(Value::I32(1)),
        Instruction::Nop,
        Instruction::End,
    ];
    let mut session = Session::new();
    assert_eq!(session.resume_after_outside_step(Some(0)), Err(DebuggerError::NoRunningInstance));
    session.load_file(String::from("outside.wasm"), module, None);
    assert_eq!(session.add_breakpoint(Breakpoint::Code(CodePosition::new(0, 2))), Ok(0));
    assert_eq!(session.start(), Ok(Some(Trap::UnsupportedInstruction)));
    session.get_vm_mut().unwrap().set_ip(CodePosition::new(0, 1));
    assert_eq!(session.resume_after_outside_step(None), Ok(None));
    assert_eq!(session.resume_after_outside_step(Some(0)), Ok(Some(Trap::BreakpointReached(0))));
    assert_eq!(session.backtrace(), Ok(vec![CodePosition::new(0, 2)]));
    assert_eq!(session.value_stack(), Ok(&vec![Value::I32(1)]));
    assert_eq!(session.resume_after_outside_step(Some(0)), Ok(Some(Trap::BreakpointReached(0))));
}

#[test]
fn floor_of_an_operation_follows_the_active_calls() {
    let mut session = Session::new();
    assert_eq!(session.floor_of(RunCodeType::StepOver), Some(0));
    assert_eq!(session.floor_of(RunCodeType::StepOut), Some(0));
    session.load_file(String::from("deep.wasm"), three_deep(), None);
    assert_eq!(session.add_breakpoint(Breakpoint::Code(CodePosition::new(2, 1))), Ok(0));
    assert_eq!(session.start(), Ok(Some(Trap::BreakpointReached(0))));
    assert_eq!(session.floor_of(RunCodeType::Step), None);
    assert_eq!(session.floor_of(RunCodeType::StepOver), Some(3));
    assert_eq!(session.floor_of(RunCodeType::StepOut), Some(2));
    assert_eq!(session.floor_of(RunCodeType::Start), Some(0));
    assert_eq!(session.floor_of(RunCodeType::Continue), Some(0));
}
