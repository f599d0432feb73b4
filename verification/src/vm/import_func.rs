//! Calls of imported functions: what the machine hands out and takes back.

use vstd::prelude::*;

use crate::wasm::value::Value;

verus! {

/// What a handler gets for a call of an imported function: the function's
/// index, the arguments of the call, the globals and the bytes of the memory
/// (none where the machine has no memory).
#[derive(Debug)]
pub struct ImportRequest {
    pub func_index: u32,
    pub args: Vec<Value>,
    pub globals: Vec<Value>,
    pub memory: Option<Vec<u8>>,
}

/// A request as plain values.
#[verifier::ext_equal]
pub ghost struct ImportRequestView {
    pub func_index: u32,
    pub args: Seq<Value>,
    pub globals: Seq<Value>,
    pub memory: Option<Seq<u8>>,
}

impl View for ImportRequest {
    type V = ImportRequestView;

    open spec fn view(&self) -> ImportRequestView {
        ImportRequestView {
            func_index: self.func_index,
            args: self.args@,
            globals: self.globals@,
            memory: match self.memory {
                Some(memory) => Some(memory@),
                None => None,
            },
        }
    }
}

/// What a handler answers: the value the call returns, if it returns one,
/// and globals and memory bytes that replace the first globals and bytes of
/// the machine.
#[derive(Debug)]
pub struct ImportReply {
    pub return_value: Option<Value>,
    pub globals: Vec<Value>,
    pub memory: Vec<u8>,
}

/// Why a handler could not fulfil a call: it does not support the call, or
/// it needs the memory of a machine that has none.
#[derive(Clone, Copy, Debug)]
pub enum ImportError {
    Unsupported,
    NoMemory,
}

/// A handler's answer to a call.
pub type ImportAnswer = Result<ImportReply, ImportError>;

/// Fulfils the calls of imported functions. The machine calls the handler
/// and waits for its answer; it relies on nothing about the answer, and
/// treats one that does not fit the machine like a call that is not
/// supported.
pub trait ImportFunctionHandler: Sized {
    /// Whether this handler, asked `request`, may answer `reply` and be
    /// `after` from then on. Where a handler says nothing of its answers,
    /// it may give any.
    open spec fn answers(&self, request: ImportRequestView, reply: ImportAnswer, after: Self)
        -> bool {
        true
    }

    fn handle_import_function(&mut self, request: &ImportRequest) -> (reply: Result<
        ImportReply,
        ImportError,
    >)
        ensures
            old(self).answers(request@, reply, *final(self)),
    ;
}

/// The handler that fulfils no call.
#[derive(Debug)]
pub struct DefaultImportFunctionHandler {}

impl Default for DefaultImportFunctionHandler {
    fn default() -> Self {
        DefaultImportFunctionHandler {  }
    }
}

impl ImportFunctionHandler for DefaultImportFunctionHandler {
    open spec fn answers(&self, request: ImportRequestView, reply: ImportAnswer, after: Self)
        -> bool {
        reply == Err::<ImportReply, ImportError>(ImportError::Unsupported) && after == *self
    }

    fn handle_import_function(&mut self, request: &ImportRequest) -> (reply: Result<
        ImportReply,
        ImportError,
    >) {
        Err(ImportError::Unsupported)
    }
}

/// A handler that needs the memory of the machine. A call on a machine
/// without memory fails with `NoMemory` before the handler inside is asked,
/// which stays as it is; any other call goes to the handler inside.
#[derive(Debug)]
pub struct NeedsMemory<F: ImportFunctionHandler> {
    pub handler: F,
}

impl<F: ImportFunctionHandler + Default> Default for NeedsMemory<F> {
    fn default() -> Self {
        NeedsMemory { handler: F::default() }
    }
}

impl<F: ImportFunctionHandler> ImportFunctionHandler for NeedsMemory<F> {
    open spec fn answers(&self, request: ImportRequestView, reply: ImportAnswer, after: Self)
        -> bool {
        if request.memory is None {
            reply == Err::<ImportReply, ImportError>(ImportError::NoMemory) && after == *self
        } else {
            self.handler.answers(request, reply, after.handler)
        }
    }

    fn handle_import_function(&mut self, request: &ImportRequest) -> (reply: Result<
        ImportReply,
        ImportError,
    >) {
        if request.memory.is_none() {
            Err(ImportError::NoMemory)
        } else {
            self.handler.handle_import_function(request)
        }
    }
}

} // verus!
