//! A loaded file: a module and the breakpoints that are set in it.

use vstd::prelude::*;

use crate::breakpoints::{Breakpoint, Breakpoints};
use crate::wasm::module::Module;

verus! {

/// A loaded file: the path it was loaded from, its module, and its own
/// registry of breakpoints, which outlives every machine that runs the module.
pub struct File {
    file_path: String,
    module: Module,
    breakpoints: Breakpoints,
}

impl File {
    /// The path the file was loaded from.
    pub closed spec fn spec_file_path(&self) -> String {
        self.file_path
    }

    /// The module of the file.
    pub closed spec fn spec_module(&self) -> Module {
        self.module
    }

    /// The breakpoints that are set in the file.
    pub closed spec fn spec_breakpoints(&self) -> Breakpoints {
        self.breakpoints
    }

    /// A file with a module and no breakpoints.
    pub fn new(file_path: String, module: Module) -> (file: File)
        ensures
            file.spec_file_path() == file_path,
            file.spec_module() == module,
            file.spec_breakpoints()@ == Map::<u32, Breakpoint>::empty(),
            file.spec_breakpoints().spec_next_index() == 0,
    {
        File { file_path, module, breakpoints: Breakpoints::new() }
    }

    pub fn file_path(&self) -> (path: &String)
        ensures
            *path == self.spec_file_path(),
    {
        &self.file_path
    }

    pub fn module(&self) -> (module: &Module)
        ensures
            *module == self.spec_module(),
    {
        &self.module
    }

    pub fn breakpoints(&self) -> (breakpoints: &Breakpoints)
        ensures
            *breakpoints == self.spec_breakpoints(),
    {
        &self.breakpoints
    }

    /// The registry of breakpoints, to change it.
    pub fn breakpoints_and_unlock(&mut self) -> (breakpoints: &mut Breakpoints)
        ensures
            *breakpoints == old(self).spec_breakpoints(),
            final(self).spec_breakpoints() == *final(breakpoints),
            final(self).spec_module() == old(self).spec_module(),
            final(self).spec_file_path() == old(self).spec_file_path(),
    {
        &mut self.breakpoints
    }
}

} // verus!
