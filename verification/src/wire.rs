//! Values as they are exchanged with front ends and handlers.

use vstd::prelude::*;

use crate::debugger::DebuggerResult;
use crate::vm::Trap;
use crate::wasm::value::{F32, F64};

verus! {

/// What a transmitted value holds. Floats travel as their bits.
#[derive(Clone, Copy, Debug, PartialEq, Eq, Structural)]
pub enum ValueKind {
    I32(i32),
    I64(i64),
    F32(u32),
    F64(u64),
}

/// A value in a message. A message may come without the value set.
#[derive(Clone, Copy, Debug, PartialEq, Eq, Structural)]
pub struct Value {
    pub value: Option<ValueKind>,
}

impl Value {
    /// The message form of a value of the machine.
    pub open spec fn spec_from_value(value: crate::wasm::value::Value) -> Value {
        Value {
            value: Some(
                match value {
                    crate::wasm::value::Value::I32(v) => ValueKind::I32(v),
                    crate::wasm::value::Value::I64(v) => ValueKind::I64(v),
                    crate::wasm::value::Value::F32(v) => ValueKind::F32(v.bits),
                    crate::wasm::value::Value::F64(v) => ValueKind::F64(v.bits),
                },
            ),
        }
    }

    /// The value of the machine that a message holds, if the value is set.
    pub open spec fn spec_to_value(self) -> crate::wasm::value::Value {
        match self.value->0 {
            ValueKind::I32(v) => crate::wasm::value::Value::I32(v),
            ValueKind::I64(v) => crate::wasm::value::Value::I64(v),
            ValueKind::F32(bits) => crate::wasm::value::Value::F32(F32 { bits }),
            ValueKind::F64(bits) => crate::wasm::value::Value::F64(F64 { bits }),
        }
    }

    /// The message form of a value of the machine: the value is set, and
    /// reading it gives the value back.
    pub fn from_value(value: &crate::wasm::value::Value) -> (message: Value)
        ensures
            message == Value::spec_from_value(*value),
            message.value is Some,
            message.spec_to_value() == *value,
    {
        Value {
            value: Some(
                match value {
                    crate::wasm::value::Value::I32(v) => ValueKind::I32(*v),
                    crate::wasm::value::Value::I64(v) => ValueKind::I64(*v),
                    crate::wasm::value::Value::F32(v) => ValueKind::F32(v.to_bits()),
                    crate::wasm::value::Value::F64(v) => ValueKind::F64(v.to_bits()),
                },
            ),
        }
    }

    /// The value of the machine that a message holds. The value is set.
    pub fn to_value(&self) -> (value: crate::wasm::value::Value)
        requires
            self.value is Some,
        ensures
            value == self.spec_to_value(),
            Value::spec_from_value(value) == *self,
    {
        match self.value {
            Some(ValueKind::I32(v)) => crate::wasm::value::Value::I32(v),
            Some(ValueKind::I64(v)) => crate::wasm::value::Value::I64(v),
            Some(ValueKind::F32(bits)) => crate::wasm::value::Value::F32(F32::from_bits(bits)),
            Some(ValueKind::F64(bits)) => crate::wasm::value::Value::F64(F64::from_bits(bits)),
            None => crate::wasm::value::Value::I32(0),
        }
    }
}

/// The ways in which a front end can have the machine run.
#[derive(Clone, Copy, Debug, PartialEq, Eq, Structural)]
pub enum RunCodeType {
    Start,
    Step,
    StepOut,
    StepOver,
    Continue,
}

/// How an operation ended, as a front end is told.
#[derive(Clone, Copy, Debug, PartialEq, Eq, Structural)]
pub enum Status {
    /// The operation was carried out; the machine may have paused.
    Okay,
    /// The operation failed, or the machine stopped on a fault.
    Nok,
    /// The execution finished.
    Finish,
}

/// The status of an operation that ran the machine: `Finish` where the
/// execution finished; `Okay` where the machine paused at a breakpoint or a
/// watchpoint, or went on without a trap; `Nok` for every other trap and for
/// every error of the session.
pub open spec fn spec_run_status(result: DebuggerResult<Option<Trap>>) -> Status {
    match result {
        Ok(Some(Trap::ExecutionFinished)) => Status::Finish,
        Ok(Some(Trap::WatchpointReached(_))) => Status::Okay,
        Ok(Some(Trap::BreakpointReached(_))) => Status::Okay,
        Ok(Some(_)) => Status::Nok,
        Ok(None) => Status::Okay,
        Err(_) => Status::Nok,
    }
}

/// The status of an operation that ran the machine.
pub fn run_status(result: &DebuggerResult<Option<Trap>>) -> (status: Status)
    ensures
        status == spec_run_status(*result),
{
    match result {
        Ok(Some(Trap::ExecutionFinished)) => Status::Finish,
        Ok(Some(Trap::WatchpointReached(_))) => Status::Okay,
        Ok(Some(Trap::BreakpointReached(_))) => Status::Okay,
        Ok(Some(_)) => Status::Nok,
        Ok(None) => Status::Okay,
        Err(_) => Status::Nok,
    }
}

/// The status of deleting a breakpoint: `Okay` where one was deleted, `Nok`
/// where there was none or the session failed.
pub open spec fn spec_delete_status(result: DebuggerResult<bool>) -> Status {
    match result {
        Ok(true) => Status::Okay,
        _ => Status::Nok,
    }
}

/// The status of deleting a breakpoint.
pub fn delete_status(result: &DebuggerResult<bool>) -> (status: Status)
    ensures
        status == spec_delete_status(*result),
{
    match result {
        Ok(true) => Status::Okay,
        _ => Status::Nok,
    }
}

} // verus!
