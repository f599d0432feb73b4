//! An interpreter for WebAssembly-like modules that can be paused, stepped
//! and inspected: values and integer arithmetic, the module that a machine
//! runs, the registry of breakpoints and watchpoints, the machine with its
//! stepping operations, and the debugging session that ties them together.

pub mod breakpoints;
pub mod debugger;
pub mod debuginfo;
pub mod file;
pub mod vm;
pub mod wasm;
pub mod wire;

pub use breakpoints::{Breakpoint, Breakpoints, WatchpointTrigger};
pub use debugger::{Debugger, DebuggerError, DebuggerResult};
pub use debuginfo::DebugInfo;
pub use file::File;
pub use vm::import_func::{
    DefaultImportFunctionHandler, ImportAnswer, ImportError, ImportFunctionHandler, ImportReply,
    ImportRequest, NeedsMemory,
};
pub use wasm::endian::{ExtendTo, LittleEndianConvert, WrapTo};
pub use wasm::integer::Integer;
pub use wasm::value::{Number, Value, ValueType, F32, F64};

use vstd::prelude::*;

verus! {

/// The session with the handler that fulfils no call of an imported function.
pub type DefaultDebugger = Debugger<DefaultImportFunctionHandler>;

} // verus!
