//! Running a machine: to the next stop, over a call, out of a call.

use vstd::prelude::*;

use crate::breakpoints::Breakpoints;
use crate::vm::import_func::{ImportAnswer, ImportFunctionHandler};
use crate::vm::machine::VM;
use crate::vm::runs::{
    enters_call, lemma_dispatch_keeps_call, lemma_dispatch_no_limit, lemma_run_finishes,
    lemma_run_has_replies, lemma_step_out_depth, lemma_step_out_returns, lemma_step_over_returns,
};
use crate::vm::semantics::{
    advance, answered, dispatch, ends_run, handler_answers, next_position, one_less, resumes,
    runs_func, runs_to_depth, runs_to_stop, starts, stays_above, Outcome,
};
use crate::vm::{InitError, Trap};
use crate::wasm::module::Module;
use crate::wasm::value::Value;

verus! {

impl<F: ImportFunctionHandler> VM<F> {
    /// Dispatches instructions until the machine stops or no more than
    /// `floor` calls are active, and no more instructions than the step
    /// limit. At least one instruction is dispatched, unless the limit is
    /// zero. Returns why the machine stopped, or nothing where it did not.
    pub fn run_to_depth(&mut self, module: &Module, breakpoints: &Breakpoints, floor: usize) -> (trap:
        Option<Trap>)
        ensures
            runs_to_depth(
                module,
                breakpoints,
                old(self)@,
                old(self).spec_handler(),
                floor as nat,
                old(self).spec_step_limit() as nat,
                final(self)@,
                final(self).spec_handler(),
                trap,
            ),
            final(self).spec_step_limit() == old(self).spec_step_limit(),
    {
        let limit = self.step_limit();
        let mut steps: u64 = 0;
        let ghost mut replies: Seq<ImportAnswer> = Seq::empty();
        let ghost mut handlers: Seq<F> = seq![self.spec_handler()];
        loop
            invariant
                limit == old(self).spec_step_limit(),
                self.spec_step_limit() == limit,
                steps == replies.len(),
                steps <= limit,
                stays_above(module, breakpoints, old(self)@, replies, floor as nat),
                advance(module, breakpoints, old(self)@, replies) == Some(self@),
                answered(module, breakpoints, old(self)@, replies, handlers),
                handlers.first() == old(self).spec_handler(),
                handlers.last() == self.spec_handler(),
            decreases limit - steps,
        {
            if steps >= limit {
                assert(ends_run(
                    module,
                    breakpoints,
                    old(self)@,
                    replies,
                    floor as nat,
                    limit as nat,
                    Outcome { state: self@, trap: Some(Trap::StepLimitReached) },
                ));
                return Some(Trap::StepLimitReached);
            }
            let ghost before = self@;
            let ghost asked = self.spec_handler();
            let trap = self.execute_step(module, breakpoints);
            proof {
                let reply = choose|reply: ImportAnswer|
                    {
                        &&& #[trigger] dispatch(module, breakpoints, before, reply) == (Outcome {
                            state: self@,
                            trap,
                        })
                        &&& handler_answers(module, before, asked, reply, self.spec_handler())
                    };
                let longer = replies.push(reply);
                let more = handlers.push(self.spec_handler());
                assert(longer.drop_last() =~= replies);
                assert(more.drop_last() =~= handlers);
                lemma_dispatch_no_limit(module, breakpoints, before, reply);
                assert(answered(module, breakpoints, old(self)@, longer, more));
                replies = longer;
                handlers = more;
            }
            steps = steps + 1;
            if trap.is_some() {
                assert(ends_run(
                    module,
                    breakpoints,
                    old(self)@,
                    replies,
                    floor as nat,
                    limit as nat,
                    Outcome { state: self@, trap },
                ));
                return trap;
            }
            if self.depth() <= floor {
                assert(ends_run(
                    module,
                    breakpoints,
                    old(self)@,
                    replies,
                    floor as nat,
                    limit as nat,
                    Outcome { state: self@, trap },
                ));
                return None;
            }
        }
    }

    /// Runs on until the machine stops.
    ///
    /// The first instruction is dispatched whether or not a breakpoint is
    /// set on it; after that the machine stops where `dispatch` says it does,
    /// and nowhere else. If it has not stopped after as many instructions as
    /// the step limit, the run gives up with `StepLimitReached`.
    pub fn continue_execution(&mut self, module: &Module, breakpoints: &Breakpoints) -> (trap: Trap)
        ensures
            runs_to_stop(
                module,
                breakpoints,
                old(self)@,
                old(self).spec_handler(),
                old(self).spec_step_limit() as nat,
                final(self)@,
                final(self).spec_handler(),
                trap,
            ),
            final(self).spec_step_limit() == old(self).spec_step_limit(),
    {
        match self.run_to_depth(module, breakpoints, 0) {
            Some(trap) => trap,
            None => {
                proof {
                    let replies = lemma_run_has_replies(
                        module,
                        breakpoints,
                        old(self)@,
                        old(self).spec_handler(),
                        0,
                        old(self).spec_step_limit() as nat,
                        self@,
                        self.spec_handler(),
                        None,
                    );
                    let before = advance(module, breakpoints, old(self)@, replies.drop_last())->0;
                    lemma_dispatch_keeps_call(module, breakpoints, before, replies.last());
                }
                vstd::pervasive::unreached()
            },
        }
    }

    /// Steps over the instruction at the instruction pointer: dispatches
    /// it and, if it was a call, whatever the call runs, until the machine
    /// has no more calls active than before. Returns nothing then: after a
    /// call, the machine stands behind the instruction that made it, with as
    /// many calls active as before. Where the machine stops before that, in
    /// the call or at the instruction itself, returns why.
    pub fn execute_step_over(&mut self, module: &Module, breakpoints: &Breakpoints) -> (trap:
        Option<Trap>)
        ensures
            runs_to_depth(
                module,
                breakpoints,
                old(self)@,
                old(self).spec_handler(),
                old(self)@.depth(),
                old(self).spec_step_limit() as nat,
                final(self)@,
                final(self).spec_handler(),
                trap,
            ),
            trap is None ==> final(self)@.depth() <= old(self)@.depth(),
            trap is None && enters_call(module, old(self)@) ==> final(self)@.depth() == old(
                self,
            )@.depth() && final(self)@.ip == next_position(old(self)@.ip),
            final(self).spec_step_limit() == old(self).spec_step_limit(),
    {
        let floor = self.depth();
        let trap = self.run_to_depth(module, breakpoints, floor);
        proof {
            let replies = lemma_run_has_replies(
                module,
                breakpoints,
                old(self)@,
                old(self).spec_handler(),
                floor as nat,
                old(self).spec_step_limit() as nat,
                self@,
                self.spec_handler(),
                trap,
            );
            if trap is None && enters_call(module, old(self)@) {
                lemma_step_over_returns(
                    module,
                    breakpoints,
                    old(self)@,
                    replies,
                    old(self).spec_step_limit() as nat,
                    Outcome { state: self@, trap },
                );
            }
        }
        trap
    }

    /// Steps out of the current call: dispatches instructions until the
    /// call has returned and one call less is active. Returns nothing then:
    /// the machine goes on at the return address of the call. Where the
    /// machine stops before that, returns why; it always does when the call
    /// is the outermost, whose return finishes the execution.
    pub fn execute_step_out(&mut self, module: &Module, breakpoints: &Breakpoints) -> (trap: Option<
        Trap,
    >)
        ensures
            runs_to_depth(
                module,
                breakpoints,
                old(self)@,
                old(self).spec_handler(),
                one_less(old(self)@.depth()),
                old(self).spec_step_limit() as nat,
                final(self)@,
                final(self).spec_handler(),
                trap,
            ),
            trap is None ==> final(self)@.depth() == old(self)@.depth() - 1,
            trap is None ==> final(self)@.ip == old(self)@.frames.last().ret_addr,
            old(self)@.depth() <= 1 ==> trap is Some,
            final(self)@.depth() == 0 && old(self).spec_step_limit() >= 1 ==> trap == Some(
                Trap::ExecutionFinished,
            ),
            final(self).spec_step_limit() == old(self).spec_step_limit(),
    {
        let depth = self.depth();
        let floor = if depth >= 1 {
            depth - 1
        } else {
            0
        };
        let trap = self.run_to_depth(module, breakpoints, floor);
        proof {
            let replies = lemma_run_has_replies(
                module,
                breakpoints,
                old(self)@,
                old(self).spec_handler(),
                floor as nat,
                old(self).spec_step_limit() as nat,
                self@,
                self.spec_handler(),
                trap,
            );
            lemma_step_out_depth(
                module,
                breakpoints,
                old(self)@,
                replies,
                old(self).spec_step_limit() as nat,
                Outcome { state: self@, trap },
            );
            if trap is None {
                lemma_step_out_returns(
                    module,
                    breakpoints,
                    old(self)@,
                    replies,
                    old(self).spec_step_limit() as nat,
                    Outcome { state: self@, trap },
                );
            }
            if self@.depth() == 0 && old(self).spec_step_limit() >= 1 {
                lemma_run_finishes(
                    module,
                    breakpoints,
                    old(self)@,
                    replies,
                    floor as nat,
                    old(self).spec_step_limit() as nat,
                    Outcome { state: self@, trap },
                );
            }
        }
        trap
    }

    /// Goes on after an instruction that the machine does not execute was
    /// executed for it from outside, and the instruction pointer was moved
    /// behind it. `floor` is the floor to which the operation that was under
    /// way runs; a single step has none. The machine stops if no call is
    /// active or a code breakpoint is set where it stands; else it runs on
    /// to the floor if it is above it; else the operation has ended, and
    /// nothing happens. A run to the floor of no calls always ends with the
    /// reason for which the machine stopped.
    pub fn resume_after_outside_step(
        &mut self,
        module: &Module,
        breakpoints: &Breakpoints,
        floor: Option<usize>,
    ) -> (trap: Option<Trap>)
        ensures
            resumes(
                module,
                breakpoints,
                old(self)@,
                old(self).spec_handler(),
                floor,
                old(self).spec_step_limit() as nat,
                final(self)@,
                final(self).spec_handler(),
                trap,
            ),
            floor == Some(0usize) ==> trap is Some,
            final(self).spec_step_limit() == old(self).spec_step_limit(),
    {
        match self.stop_after(breakpoints, None) {
            Some(stop) => Some(stop),
            None => match floor {
                Some(floor) => if floor == 0 {
                    Some(self.continue_execution(module, breakpoints))
                } else if self.depth() > floor {
                    self.run_to_depth(module, breakpoints, floor)
                } else {
                    None
                },
                None => None,
            },
        }
    }

    /// Starts the module: enters its start function and runs until the
    /// machine stops. Fails, and leaves the machine as it is, where the
    /// module names no start function that it has.
    pub fn start(&mut self, module: &Module, breakpoints: &Breakpoints) -> (r: Result<
        Trap,
        InitError,
    >)
        ensures
            starts(
                module,
                breakpoints,
                old(self)@,
                old(self).spec_handler(),
                old(self).spec_step_limit() as nat,
                final(self)@,
                final(self).spec_handler(),
                r,
            ),
            final(self).spec_step_limit() == old(self).spec_step_limit(),
    {
        match module.start_func {
            Some(func) => {
                if (func as usize) < module.functions.len() {
                    let args: Vec<Value> = Vec::new();
                    self.enter(module, func, &args);
                    Ok(self.continue_execution(module, breakpoints))
                } else {
                    Err(InitError::NoStartFunction)
                }
            },
            None => Err(InitError::NoStartFunction),
        }
    }

    /// Runs the module: starts it if no call is active, and runs on from
    /// where the machine is if one is.
    pub fn run(&mut self, module: &Module, breakpoints: &Breakpoints) -> (r: Result<
        Trap,
        InitError,
    >)
        ensures
            if old(self)@.depth() > 0 {
                r is Ok && runs_to_stop(
                    module,
                    breakpoints,
                    old(self)@,
                    old(self).spec_handler(),
                    old(self).spec_step_limit() as nat,
                    final(self)@,
                    final(self).spec_handler(),
                    r->Ok_0,
                )
            } else {
                starts(
                    module,
                    breakpoints,
                    old(self)@,
                    old(self).spec_handler(),
                    old(self).spec_step_limit() as nat,
                    final(self)@,
                    final(self).spec_handler(),
                    r,
                )
            },
            final(self).spec_step_limit() == old(self).spec_step_limit(),
    {
        if self.depth() > 0 {
            Ok(self.continue_execution(module, breakpoints))
        } else {
            self.start(module, breakpoints)
        }
    }

    /// Calls a function of the module from outside, with `args` for its
    /// parameters, and runs until the call has returned or the machine
    /// stops. A parameter without an argument is zero, and arguments beyond
    /// the parameters are left out. The call returns to where the machine
    /// was; `ExecutionFinished` says that it has returned.
    pub fn run_func(
        &mut self,
        module: &Module,
        breakpoints: &Breakpoints,
        index: u32,
        args: &Vec<Value>,
    ) -> (trap: Trap)
        ensures
            runs_func(
                module,
                breakpoints,
                old(self)@,
                old(self).spec_handler(),
                old(self).spec_step_limit() as nat,
                index,
                args@,
                final(self)@,
                final(self).spec_handler(),
                trap,
            ),
            final(self).spec_step_limit() == old(self).spec_step_limit(),
    {
        match module.get_func(index) {
            None => Trap::NoFunctionWithIndex(index),
            Some(func) => {
                if func.is_imported {
                    Trap::UnsupportedCallToImportedFunction(index)
                } else {
                    let floor = self.depth();
                    self.enter(module, index, args);
                    match self.run_to_depth(module, breakpoints, floor) {
                        Some(trap) => trap,
                        None => Trap::ExecutionFinished,
                    }
                }
            },
        }
    }
}

} // verus!
