//! What holds of the runs of a machine: of single dispatches, of steps over
//! and out of calls, of runs with and without answers of a handler.

use vstd::prelude::*;

use crate::breakpoints::Breakpoints;
use crate::vm::import_func::{
    DefaultImportFunctionHandler, ImportAnswer, ImportError, ImportFunctionHandler,
    ImportRequestView, NeedsMemory,
};
use crate::vm::semantics::{
    advance, answered, apply, asked, dispatch, ends_run, enter, handler_answers, next_position,
    one_less, plan, runs_to_depth, runs_to_stop, starts, stays_above, watchpoint_hit, Action,
    Outcome,
};
use crate::vm::state::VmState;
use crate::vm::{CodePosition, InitError, Trap};
use crate::wasm::module::Module;

verus! {

/// A dispatch that does not stop the machine leaves a call active.
pub proof fn lemma_dispatch_keeps_call(
    module: &Module,
    breakpoints: &Breakpoints,
    s: VmState,
    reply: ImportAnswer,
)
    requires
        dispatch(module, breakpoints, s, reply).trap is None,
    ensures
        dispatch(module, breakpoints, s, reply).state.depth() >= 1,
{
}

/// A dispatch ends at most one call.
pub proof fn lemma_dispatch_depth(
    module: &Module,
    breakpoints: &Breakpoints,
    s: VmState,
    reply: ImportAnswer,
)
    ensures
        dispatch(module, breakpoints, s, reply).state.depth() + 1 >= s.depth(),
{
}

/// No dispatch stops the machine for the step limit: only a run does.
pub proof fn lemma_dispatch_no_limit(
    module: &Module,
    breakpoints: &Breakpoints,
    s: VmState,
    reply: ImportAnswer,
)
    ensures
        dispatch(module, breakpoints, s, reply).trap != Some(Trap::StepLimitReached),
{
}

/// A run that stays above a floor stays above every lower floor.
pub proof fn lemma_stays_above_lower(
    module: &Module,
    breakpoints: &Breakpoints,
    s: VmState,
    replies: Seq<ImportAnswer>,
    floor: nat,
    lower: nat,
)
    requires
        lower <= floor,
        stays_above(module, breakpoints, s, replies, floor),
    ensures
        stays_above(module, breakpoints, s, replies, lower),
    decreases replies.len(),
{
    if replies.len() > 0 {
        lemma_stays_above_lower(module, breakpoints, s, replies.drop_last(), floor, lower);
    }
}

/// Where a run that stops at a floor ends because the machine stopped, the
/// run to the next stop ends in the same way: with the same trap, in the same
/// state, after the same dispatches. So a step over a call, or out of one,
/// stops at a breakpoint or watchpoint in the call only if running on from
/// the same state stops there too.
pub proof fn lemma_stop_is_next_stop(
    module: &Module,
    breakpoints: &Breakpoints,
    s: VmState,
    replies: Seq<ImportAnswer>,
    floor: nat,
    limit: nat,
    outcome: Outcome,
)
    requires
        ends_run(module, breakpoints, s, replies, floor, limit, outcome),
        outcome.trap is Some,
    ensures
        ends_run(module, breakpoints, s, replies, 0, limit, outcome),
{
    if outcome.trap == Some(Trap::StepLimitReached) {
        lemma_stays_above_lower(module, breakpoints, s, replies, floor, 0);
    } else {
        lemma_stays_above_lower(module, breakpoints, s, replies.drop_last(), floor, 0);
    }
}

/// A run that ends without a trap at the floor one below the calls it began
/// with ends with exactly one call less. There is no such run from a state
/// with at most one call: that one ends because the machine stopped.
pub proof fn lemma_step_out_depth(
    module: &Module,
    breakpoints: &Breakpoints,
    s: VmState,
    replies: Seq<ImportAnswer>,
    limit: nat,
    outcome: Outcome,
)
    requires
        ends_run(
            module,
            breakpoints,
            s,
            replies,
            one_less(s.depth()),
            limit,
            outcome,
        ),
    ensures
        outcome.trap is None ==> s.depth() >= 2 && outcome.state.depth() == s.depth() - 1,
{
    if outcome.trap is None {
        let before = advance(module, breakpoints, s, replies.drop_last())->0;
        lemma_dispatch_depth(module, breakpoints, before, replies.last());
        lemma_dispatch_keeps_call(module, breakpoints, before, replies.last());
    }
}

/// A step over an instruction that enters no call is one dispatch: a run
/// to the floor of the calls that are active ends with the first dispatch, if
/// that stops the machine or leaves no more calls active than there were.
pub proof fn lemma_step_over_plain_instruction(
    module: &Module,
    breakpoints: &Breakpoints,
    s: VmState,
    reply: ImportAnswer,
    limit: nat,
)
    requires
        limit >= 1,
        dispatch(module, breakpoints, s, reply).trap is Some || dispatch(
            module,
            breakpoints,
            s,
            reply,
        ).state.depth() <= s.depth(),
    ensures
        ends_run(
            module,
            breakpoints,
            s,
            seq![reply],
            s.depth(),
            limit,
            dispatch(module, breakpoints, s, reply),
        ),
{
    let replies = seq![reply];
    assert(replies.drop_last() =~= Seq::<ImportAnswer>::empty());
    lemma_dispatch_no_limit(module, breakpoints, s, reply);
}

/// A run is determined by the state it starts from and by the replies of
/// the handler: with the same replies it ends in one way only.
pub proof fn lemma_run_follows_replies(
    module: &Module,
    breakpoints: &Breakpoints,
    s: VmState,
    replies: Seq<ImportAnswer>,
    floor: nat,
    limit: nat,
    one: Outcome,
    other: Outcome,
)
    requires
        ends_run(module, breakpoints, s, replies, floor, limit, one),
        ends_run(module, breakpoints, s, replies, floor, limit, other),
    ensures
        one == other,
{
    if replies.len() > 0 {
        let before = advance(module, breakpoints, s, replies.drop_last());
        if let Some(before) = before {
            lemma_dispatch_no_limit(module, breakpoints, before, replies.last());
        }
    }
}

/// Whether no function of the module is imported.
pub open spec fn has_no_imports(module: &Module) -> bool {
    forall|index: int|
        0 <= index < module.functions@.len() ==> !(#[trigger] module.functions@[index]).is_imported
}

/// In a module without imported functions no dispatch asks the handler: it
/// comes to the same whatever the reply.
pub proof fn lemma_dispatch_without_imports(
    module: &Module,
    breakpoints: &Breakpoints,
    s: VmState,
    first: ImportAnswer,
    second: ImportAnswer,
)
    requires
        has_no_imports(module),
    ensures
        dispatch(module, breakpoints, s, first) == dispatch(module, breakpoints, s, second),
{
}

/// In a module without imported functions the state after a number of
/// dispatches is the same whatever the replies.
pub proof fn lemma_advance_without_imports(
    module: &Module,
    breakpoints: &Breakpoints,
    s: VmState,
    first: Seq<ImportAnswer>,
    second: Seq<ImportAnswer>,
)
    requires
        has_no_imports(module),
        first.len() == second.len(),
    ensures
        advance(module, breakpoints, s, first) == advance(module, breakpoints, s, second),
    decreases first.len(),
{
    if first.len() > 0 {
        lemma_advance_without_imports(
            module,
            breakpoints,
            s,
            first.drop_last(),
            second.drop_last(),
        );
        if let Some(before) = advance(module, breakpoints, s, first.drop_last()) {
            lemma_dispatch_without_imports(
                module,
                breakpoints,
                before,
                first.last(),
                second.last(),
            );
        }
    }
}

/// A run that stays above a floor has, after each of its dispatches, a state
/// with more calls than the floor.
pub proof fn lemma_stays_above_prefix(
    module: &Module,
    breakpoints: &Breakpoints,
    s: VmState,
    replies: Seq<ImportAnswer>,
    floor: nat,
    count: nat,
)
    requires
        stays_above(module, breakpoints, s, replies, floor),
        1 <= count <= replies.len(),
    ensures
        advance(module, breakpoints, s, replies.take(count as int)) is Some,
        advance(module, breakpoints, s, replies.take(count as int))->0.depth() > floor,
    decreases replies.len(),
{
    if count == replies.len() {
        assert(replies.take(count as int) =~= replies);
    } else {
        lemma_stays_above_prefix(module, breakpoints, s, replies.drop_last(), floor, count);
        assert(replies.drop_last().take(count as int) =~= replies.take(count as int));
    }
}

/// Of two runs of a module without imported functions, from the same state
/// and to the same floor and limit, neither makes fewer dispatches.
proof fn lemma_run_not_shorter(
    module: &Module,
    breakpoints: &Breakpoints,
    s: VmState,
    first: Seq<ImportAnswer>,
    second: Seq<ImportAnswer>,
    floor: nat,
    limit: nat,
    one: Outcome,
    other: Outcome,
)
    requires
        has_no_imports(module),
        ends_run(module, breakpoints, s, first, floor, limit, one),
        ends_run(module, breakpoints, s, second, floor, limit, other),
    ensures
        first.len() >= second.len(),
{
    if first.len() < second.len() {
        let shorter = second.drop_last();
        lemma_stays_above_prefix(module, breakpoints, s, shorter, floor, first.len());
        lemma_advance_without_imports(
            module,
            breakpoints,
            s,
            first,
            shorter.take(first.len() as int),
        );
    }
}

/// The run of a module without imported functions is determined: what it
/// ends with depends on the state it starts from, on the breakpoints, on the
/// floor and on the limit, and on nothing else.
pub proof fn lemma_run_is_determined(
    module: &Module,
    breakpoints: &Breakpoints,
    s: VmState,
    first: Seq<ImportAnswer>,
    second: Seq<ImportAnswer>,
    floor: nat,
    limit: nat,
    one: Outcome,
    other: Outcome,
)
    requires
        has_no_imports(module),
        ends_run(module, breakpoints, s, first, floor, limit, one),
        ends_run(module, breakpoints, s, second, floor, limit, other),
    ensures
        one == other,
        first.len() == second.len(),
{
    lemma_run_not_shorter(module, breakpoints, s, first, second, floor, limit, one, other);
    lemma_run_not_shorter(module, breakpoints, s, second, first, floor, limit, other, one);
    lemma_advance_without_imports(module, breakpoints, s, first, second);
    if first.len() > 0 {
        lemma_advance_without_imports(
            module,
            breakpoints,
            s,
            first.drop_last(),
            second.drop_last(),
        );
        let before = advance(module, breakpoints, s, first.drop_last());
        if let Some(before) = before {
            lemma_dispatch_without_imports(
                module,
                breakpoints,
                before,
                first.last(),
                second.last(),
            );
            lemma_dispatch_no_limit(module, breakpoints, before, first.last());
        }
    }
}

/// A step over a call, or out of one, that ends because the machine stopped
/// ends as running on from the same state does: with the same trap, in the
/// same state, after the same answers of the handler. So it stops at a
/// breakpoint in the call exactly if the breakpoint is reached.
pub proof fn lemma_step_stop_is_run_stop<F: ImportFunctionHandler>(
    module: &Module,
    breakpoints: &Breakpoints,
    s: VmState,
    handler: F,
    floor: nat,
    limit: nat,
    after: VmState,
    after_handler: F,
    trap: Trap,
)
    requires
        runs_to_depth(module, breakpoints, s, handler, floor, limit, after, after_handler, Some(trap)),
    ensures
        runs_to_stop(module, breakpoints, s, handler, limit, after, after_handler, trap),
{
    let outcome = Outcome { state: after, trap: Some(trap) };
    let (replies, handlers) = choose|replies: Seq<ImportAnswer>, handlers: Seq<F>|
        #![trigger
            ends_run(module, breakpoints, s, replies, floor, limit, outcome),
            answered(module, breakpoints, s, replies, handlers)]
        {
            &&& ends_run(module, breakpoints, s, replies, floor, limit, outcome)
            &&& answered(module, breakpoints, s, replies, handlers)
            &&& handlers.first() == handler
            &&& handlers.last() == after_handler
        };
    lemma_stop_is_next_stop(module, breakpoints, s, replies, floor, limit, outcome);
    assert(ends_run(module, breakpoints, s, replies, 0, limit, outcome) && answered(
        module,
        breakpoints,
        s,
        replies,
        handlers,
    ));
}

/// A run with a handler ends as `ends_run` says, for some replies: those
/// that the handler gave.
pub proof fn lemma_run_has_replies<F: ImportFunctionHandler>(
    module: &Module,
    breakpoints: &Breakpoints,
    s: VmState,
    handler: F,
    floor: nat,
    limit: nat,
    after: VmState,
    after_handler: F,
    trap: Option<Trap>,
) -> (replies: Seq<ImportAnswer>)
    requires
        runs_to_depth(module, breakpoints, s, handler, floor, limit, after, after_handler, trap),
    ensures
        ends_run(module, breakpoints, s, replies, floor, limit, Outcome { state: after, trap }),
{
    let outcome = Outcome { state: after, trap };
    let (replies, handlers) = choose|replies: Seq<ImportAnswer>, handlers: Seq<F>|
        #![trigger
            ends_run(module, breakpoints, s, replies, floor, limit, outcome),
            answered(module, breakpoints, s, replies, handlers)]
        {
            &&& ends_run(module, breakpoints, s, replies, floor, limit, outcome)
            &&& answered(module, breakpoints, s, replies, handlers)
            &&& handlers.first() == handler
            &&& handlers.last() == after_handler
        };
    replies
}

/// In a module without imported functions a run ends in one way only,
/// whatever the handler.
pub proof fn lemma_runs_to_one_end<F: ImportFunctionHandler>(
    module: &Module,
    breakpoints: &Breakpoints,
    s: VmState,
    handler: F,
    floor: nat,
    limit: nat,
    after: VmState,
    after_handler: F,
    trap: Option<Trap>,
    other_after: VmState,
    other_handler: F,
    other_trap: Option<Trap>,
)
    requires
        has_no_imports(module),
        runs_to_depth(module, breakpoints, s, handler, floor, limit, after, after_handler, trap),
        runs_to_depth(
            module,
            breakpoints,
            s,
            handler,
            floor,
            limit,
            other_after,
            other_handler,
            other_trap,
        ),
    ensures
        after == other_after,
        trap == other_trap,
{
    let one = Outcome { state: after, trap };
    let other = Outcome { state: other_after, trap: other_trap };
    let first = lemma_run_has_replies(
        module,
        breakpoints,
        s,
        handler,
        floor,
        limit,
        after,
        after_handler,
        trap,
    );
    let second = lemma_run_has_replies(
        module,
        breakpoints,
        s,
        handler,
        floor,
        limit,
        other_after,
        other_handler,
        other_trap,
    );
    lemma_run_is_determined(module, breakpoints, s, first, second, floor, limit, one, other);
}

/// What a dispatch does to the calls. Every call that is active before and
/// after it keeps its return address. Where it ends a call and leaves
/// another active, the machine goes on at the return address of the call
/// that ended. Where it begins a call, the call returns behind the
/// instruction that was dispatched.
pub proof fn lemma_dispatch_calls(
    module: &Module,
    breakpoints: &Breakpoints,
    s: VmState,
    reply: ImportAnswer,
)
    ensures
        ({
            let after = dispatch(module, breakpoints, s, reply).state;
            &&& forall|i: int|
                0 <= i < s.depth() && i < after.depth() ==> (#[trigger] after.frames[i]).ret_addr
                    == s.frames[i].ret_addr
            &&& 1 <= after.depth() < s.depth() ==> after.ip == s.frames.last().ret_addr
            &&& after.depth() > s.depth() ==> after.depth() == s.depth() + 1
                && after.frames.last().ret_addr == next_position(s.ip)
        }),
{
}

/// While a run stays above a floor, the call that would take the machine
/// to the floor by returning stays active and keeps its return address.
pub proof fn lemma_run_keeps_return_address(
    module: &Module,
    breakpoints: &Breakpoints,
    s: VmState,
    replies: Seq<ImportAnswer>,
    floor: nat,
)
    requires
        floor < s.depth(),
        stays_above(module, breakpoints, s, replies, floor),
        advance(module, breakpoints, s, replies) is Some,
    ensures
        ({
            let after = advance(module, breakpoints, s, replies)->0;
            after.depth() > floor && after.frames[floor as int].ret_addr
                == s.frames[floor as int].ret_addr
        }),
    decreases replies.len(),
{
    if replies.len() > 0 {
        let before = advance(module, breakpoints, s, replies.drop_last())->0;
        lemma_run_keeps_return_address(module, breakpoints, s, replies.drop_last(), floor);
        lemma_dispatch_calls(module, breakpoints, before, replies.last());
    }
}

/// A step out that ends without a trap has returned from the call that was
/// innermost: exactly that call has ended, and the machine goes on at its
/// return address, in the function that called.
pub proof fn lemma_step_out_returns(
    module: &Module,
    breakpoints: &Breakpoints,
    s: VmState,
    replies: Seq<ImportAnswer>,
    limit: nat,
    outcome: Outcome,
)
    requires
        ends_run(
            module,
            breakpoints,
            s,
            replies,
            one_less(s.depth()),
            limit,
            outcome,
        ),
        outcome.trap is None,
    ensures
        s.depth() >= 2,
        outcome.state.depth() == s.depth() - 1,
        outcome.state.ip == s.frames.last().ret_addr,
{
    lemma_step_out_depth(module, breakpoints, s, replies, limit, outcome);
    let floor = (s.depth() - 1) as nat;
    let before = advance(module, breakpoints, s, replies.drop_last())->0;
    lemma_run_keeps_return_address(module, breakpoints, s, replies.drop_last(), floor);
    lemma_dispatch_depth(module, breakpoints, before, replies.last());
    lemma_dispatch_calls(module, breakpoints, before, replies.last());
}

/// The action that the instruction at the instruction pointer comes to in
/// state `s`, where there is one.
pub open spec fn next_action(module: &Module, s: VmState) -> Option<Action> {
    if s.depth() == 0 {
        None
    } else {
        match module.spec_instr_at(s.ip) {
            Some(instr) => match plan(module, s, instr) {
                Ok(action) => Some(action),
                Err(_) => None,
            },
            None => None,
        }
    }
}

/// Whether the instruction at the instruction pointer calls a function of
/// the module that is not imported, and the call can be made.
pub open spec fn enters_call(module: &Module, s: VmState) -> bool {
    next_action(module, s) matches Some(action) && action is Call
}

/// After a call was entered, and while the run stays above the floor of the
/// calls that were active before, the call stays active, and returns behind
/// the instruction that made it.
pub proof fn lemma_call_keeps_return_address(
    module: &Module,
    breakpoints: &Breakpoints,
    s: VmState,
    replies: Seq<ImportAnswer>,
)
    requires
        enters_call(module, s),
        replies.len() >= 1,
        stays_above(module, breakpoints, s, replies, s.depth()),
        advance(module, breakpoints, s, replies) is Some,
    ensures
        ({
            let after = advance(module, breakpoints, s, replies)->0;
            after.depth() > s.depth() && after.frames[s.depth() as int].ret_addr == next_position(
                s.ip,
            )
        }),
    decreases replies.len(),
{
    let before = advance(module, breakpoints, s, replies.drop_last())->0;
    if replies.len() > 1 {
        lemma_call_keeps_return_address(module, breakpoints, s, replies.drop_last());
    }
    lemma_dispatch_calls(module, breakpoints, before, replies.last());
}

/// A step over a call that ends without a trap has run the call to its
/// return: as many calls are active as before, and the machine stands
/// behind the instruction that made the call.
pub proof fn lemma_step_over_returns(
    module: &Module,
    breakpoints: &Breakpoints,
    s: VmState,
    replies: Seq<ImportAnswer>,
    limit: nat,
    outcome: Outcome,
)
    requires
        enters_call(module, s),
        ends_run(module, breakpoints, s, replies, s.depth(), limit, outcome),
        outcome.trap is None,
    ensures
        outcome.state.depth() == s.depth(),
        outcome.state.ip == next_position(s.ip),
{
    let before = advance(module, breakpoints, s, replies.drop_last())->0;
    if replies.len() > 1 {
        lemma_call_keeps_return_address(module, breakpoints, s, replies.drop_last());
    }
    lemma_dispatch_depth(module, breakpoints, before, replies.last());
    lemma_dispatch_calls(module, breakpoints, before, replies.last());
}

/// A run of at least one dispatch that ends with no call active ends
/// because the outermost call returned: with `ExecutionFinished`.
pub proof fn lemma_run_finishes(
    module: &Module,
    breakpoints: &Breakpoints,
    s: VmState,
    replies: Seq<ImportAnswer>,
    floor: nat,
    limit: nat,
    outcome: Outcome,
)
    requires
        ends_run(module, breakpoints, s, replies, floor, limit, outcome),
        limit >= 1,
        outcome.state.depth() == 0,
    ensures
        outcome.trap == Some(Trap::ExecutionFinished),
{
}

/// The first dispatch of a run that goes on does not stop the machine.
pub proof fn lemma_advance_first(
    module: &Module,
    breakpoints: &Breakpoints,
    s: VmState,
    replies: Seq<ImportAnswer>,
)
    requires
        replies.len() >= 1,
        advance(module, breakpoints, s, replies) is Some,
    ensures
        dispatch(module, breakpoints, s, replies[0]).trap is None,
    decreases replies.len(),
{
    if replies.len() > 1 {
        lemma_advance_first(module, breakpoints, s, replies.drop_last());
        assert(replies.drop_last()[0] == replies[0]);
    } else {
        assert(advance(module, breakpoints, s, replies.drop_last()) == Some(s));
        assert(replies.last() == replies[0]);
    }
}

/// A run ends with its first dispatch where that stops the machine, and the
/// handler is not asked: in the state that the dispatch leaves, and for its
/// reason. So a start stops at a breakpoint that is set behind the first
/// instruction of the start function, and a continuation at a watchpoint
/// that the instruction at the instruction pointer fires, with the index of
/// that breakpoint or watchpoint.
pub proof fn lemma_run_ends_at_first_stop<F: ImportFunctionHandler>(
    module: &Module,
    breakpoints: &Breakpoints,
    s: VmState,
    handler: F,
    floor: nat,
    limit: nat,
    after: VmState,
    after_handler: F,
    trap: Option<Trap>,
    reply: ImportAnswer,
)
    requires
        runs_to_depth(module, breakpoints, s, handler, floor, limit, after, after_handler, trap),
        limit >= 1,
        asked(module, s) is None,
        dispatch(module, breakpoints, s, reply).trap is Some,
    ensures
        dispatch(module, breakpoints, s, reply) == (Outcome { state: after, trap }),
        after_handler == handler,
{
    let outcome = Outcome { state: after, trap };
    let (replies, handlers) = choose|replies: Seq<ImportAnswer>, handlers: Seq<F>|
        #![trigger
            ends_run(module, breakpoints, s, replies, floor, limit, outcome),
            answered(module, breakpoints, s, replies, handlers)]
        {
            &&& ends_run(module, breakpoints, s, replies, floor, limit, outcome)
            &&& answered(module, breakpoints, s, replies, handlers)
            &&& handlers.first() == handler
            &&& handlers.last() == after_handler
        };
    assert(dispatch(module, breakpoints, s, replies[0]) == dispatch(
        module,
        breakpoints,
        s,
        reply,
    ));
    if trap == Some(Trap::StepLimitReached) {
        lemma_advance_first(module, breakpoints, s, replies);
    } else if replies.len() > 1 {
        lemma_advance_first(module, breakpoints, s, replies.drop_last());
        assert(replies.drop_last()[0] == replies[0]);
    } else {
        assert(replies.drop_last().len() == 0);
        assert(handlers.drop_last().len() == 1);
    }
}

/// A run stops at a watchpoint that its first instruction fires: where the
/// instruction at the instruction pointer is executed, and what it reads or
/// writes is watched, the run ends behind that instruction, with the least
/// index of the watchpoints that watch the access. The instruction has had
/// its effect.
pub proof fn lemma_run_stops_at_watchpoint<F: ImportFunctionHandler>(
    module: &Module,
    breakpoints: &Breakpoints,
    s: VmState,
    handler: F,
    floor: nat,
    limit: nat,
    after: VmState,
    after_handler: F,
    trap: Option<Trap>,
    index: u32,
)
    requires
        runs_to_depth(module, breakpoints, s, handler, floor, limit, after, after_handler, trap),
        limit >= 1,
        next_action(module, s) matches Some(Action::Step { access, .. }) && watchpoint_hit(
            breakpoints,
            access,
        ) == Some(index),
    ensures
        trap == Some(Trap::WatchpointReached(index)),
        after == apply(module, s, next_action(module, s)->0),
        after_handler == handler,
{
    lemma_run_ends_at_first_stop(
        module,
        breakpoints,
        s,
        handler,
        floor,
        limit,
        after,
        after_handler,
        trap,
        Err(ImportError::Unsupported),
    );
}

/// A start stops at a breakpoint behind the first instruction of the start
/// function: where that instruction is executed and goes on to the next,
/// fires no watchpoint, and a code breakpoint is set on the second
/// instruction, the start ends with the least index of the breakpoints set
/// there, the instruction pointer at the second instruction, which has not
/// been executed.
pub proof fn lemma_start_stops_at_breakpoint<F: ImportFunctionHandler>(
    module: &Module,
    breakpoints: &Breakpoints,
    s: VmState,
    handler: F,
    limit: nat,
    after: VmState,
    after_handler: F,
    result: Result<Trap, InitError>,
    index: u32,
)
    requires
        starts(module, breakpoints, s, handler, limit, after, after_handler, result),
        limit >= 1,
        module.start_func matches Some(func) && func < module.functions@.len() && ({
            let entered = enter(module, s, func, Seq::empty());
            &&& next_action(module, entered) matches Some(Action::Step { access, .. })
                && watchpoint_hit(breakpoints, access) is None
            &&& breakpoints.spec_find_code(CodePosition { func_index: func, instr_index: 1 })
                == Some(index)
        }),
    ensures
        result == Ok::<Trap, InitError>(Trap::BreakpointReached(index)),
        after.ip == (CodePosition { func_index: module.start_func->0, instr_index: 1 }),
        after == apply(
            module,
            enter(module, s, module.start_func->0, Seq::empty()),
            next_action(module, enter(module, s, module.start_func->0, Seq::empty()))->0,
        ),
{
    let entered = enter(module, s, module.start_func->0, Seq::empty());
    lemma_run_ends_at_first_stop(
        module,
        breakpoints,
        entered,
        handler,
        0,
        limit,
        after,
        after_handler,
        Some(result->Ok_0),
        Err(ImportError::Unsupported),
    );
}

/// Whether handlers of this type answer in one way only: asked the same,
/// a handler gives the same answer, and is the same handler after it.
pub open spec fn answers_in_one_way<F: ImportFunctionHandler>() -> bool {
    forall|
        handler: F,
        request: ImportRequestView,
        reply: ImportAnswer,
        after: F,
        other_reply: ImportAnswer,
        other_after: F,
    |
        #![trigger
            handler.answers(request, reply, after),
            handler.answers(request, other_reply, other_after)]
        handler.answers(request, reply, after) && handler.answers(
            request,
            other_reply,
            other_after,
        ) ==> reply == other_reply && after == other_after
}

/// A dispatch that does not ask the handler comes to the same whatever the
/// reply.
pub proof fn lemma_dispatch_unasked(
    module: &Module,
    breakpoints: &Breakpoints,
    s: VmState,
    first: ImportAnswer,
    second: ImportAnswer,
)
    requires
        asked(module, s) is None,
    ensures
        dispatch(module, breakpoints, s, first) == dispatch(module, breakpoints, s, second),
{
}

/// What the handler answered in a run, it answered in each beginning of
/// the run.
pub proof fn lemma_answered_prefix<F: ImportFunctionHandler>(
    module: &Module,
    breakpoints: &Breakpoints,
    s: VmState,
    replies: Seq<ImportAnswer>,
    handlers: Seq<F>,
    count: nat,
)
    requires
        answered(module, breakpoints, s, replies, handlers),
        count <= replies.len(),
    ensures
        answered(
            module,
            breakpoints,
            s,
            replies.take(count as int),
            handlers.take(count as int + 1),
        ),
    decreases replies.len(),
{
    if count == replies.len() {
        assert(replies.take(count as int) =~= replies);
        assert(handlers.take(count as int + 1) =~= handlers);
    } else {
        lemma_answered_prefix(
            module,
            breakpoints,
            s,
            replies.drop_last(),
            handlers.drop_last(),
            count,
        );
        assert(replies.drop_last().take(count as int) =~= replies.take(count as int));
        assert(handlers.drop_last().take(count as int + 1) =~= handlers.take(count as int + 1));
    }
}

/// With a handler that answers in one way only, the state after a number
/// of dispatches, and the handler then, are the same in every run from the
/// same state with the same handler.
pub proof fn lemma_advance_with_one_handler<F: ImportFunctionHandler>(
    module: &Module,
    breakpoints: &Breakpoints,
    s: VmState,
    first: Seq<ImportAnswer>,
    first_handlers: Seq<F>,
    second: Seq<ImportAnswer>,
    second_handlers: Seq<F>,
)
    requires
        answers_in_one_way::<F>(),
        first.len() == second.len(),
        answered(module, breakpoints, s, first, first_handlers),
        answered(module, breakpoints, s, second, second_handlers),
        first_handlers.first() == second_handlers.first(),
    ensures
        advance(module, breakpoints, s, first) == advance(module, breakpoints, s, second),
        advance(module, breakpoints, s, first) is Some ==> first_handlers.last()
            == second_handlers.last(),
    decreases first.len(),
{
    if first.len() > 0 {
        lemma_advance_with_one_handler(
            module,
            breakpoints,
            s,
            first.drop_last(),
            first_handlers.drop_last(),
            second.drop_last(),
            second_handlers.drop_last(),
        );
        if let Some(before) = advance(module, breakpoints, s, first.drop_last()) {
            lemma_dispatch_with_one_handler(
                module,
                breakpoints,
                before,
                first_handlers.drop_last().last(),
                first.last(),
                first_handlers.last(),
                second.last(),
                second_handlers.last(),
            );
        }
    }
}

/// With a handler that answers in one way only, a dispatch comes to one
/// thing only, and leaves one handler.
pub proof fn lemma_dispatch_with_one_handler<F: ImportFunctionHandler>(
    module: &Module,
    breakpoints: &Breakpoints,
    s: VmState,
    handler: F,
    reply: ImportAnswer,
    after: F,
    other_reply: ImportAnswer,
    other_after: F,
)
    requires
        answers_in_one_way::<F>(),
        handler_answers(module, s, handler, reply, after),
        handler_answers(module, s, handler, other_reply, other_after),
    ensures
        dispatch(module, breakpoints, s, reply) == dispatch(module, breakpoints, s, other_reply),
        after == other_after,
{
    if asked(module, s) is None {
        lemma_dispatch_unasked(module, breakpoints, s, reply, other_reply);
    }
}

/// Of two runs with a handler that answers in one way only, from the same
/// state and to the same floor and limit, neither makes fewer dispatches.
proof fn lemma_handled_run_not_shorter<F: ImportFunctionHandler>(
    module: &Module,
    breakpoints: &Breakpoints,
    s: VmState,
    first: Seq<ImportAnswer>,
    first_handlers: Seq<F>,
    second: Seq<ImportAnswer>,
    second_handlers: Seq<F>,
    floor: nat,
    limit: nat,
    one: Outcome,
    other: Outcome,
)
    requires
        answers_in_one_way::<F>(),
        ends_run(module, breakpoints, s, first, floor, limit, one),
        ends_run(module, breakpoints, s, second, floor, limit, other),
        answered(module, breakpoints, s, first, first_handlers),
        answered(module, breakpoints, s, second, second_handlers),
        first_handlers.first() == second_handlers.first(),
    ensures
        first.len() >= second.len(),
{
    if first.len() < second.len() {
        let count = first.len();
        let shorter = second.drop_last();
        lemma_stays_above_prefix(module, breakpoints, s, shorter, floor, count);
        assert(shorter.take(count as int) =~= second.take(count as int));
        lemma_answered_prefix(module, breakpoints, s, second, second_handlers, count);
        lemma_advance_with_one_handler(
            module,
            breakpoints,
            s,
            first,
            first_handlers,
            second.take(count as int),
            second_handlers.take(count as int + 1),
        );
    }
}

/// A run with a handler that answers in one way only is determined: what it
/// ends with, and the handler then, depend on the state and the handler it
/// starts with, on the breakpoints, on the floor and on the limit, and on
/// nothing else. So where a step over a call stops at a breakpoint in the
/// call, running on from the same state stops at that breakpoint too, and
/// nowhere else.
pub proof fn lemma_handled_run_is_determined<F: ImportFunctionHandler>(
    module: &Module,
    breakpoints: &Breakpoints,
    s: VmState,
    handler: F,
    floor: nat,
    limit: nat,
    after: VmState,
    after_handler: F,
    trap: Option<Trap>,
    other_after: VmState,
    other_handler: F,
    other_trap: Option<Trap>,
)
    requires
        answers_in_one_way::<F>(),
        runs_to_depth(module, breakpoints, s, handler, floor, limit, after, after_handler, trap),
        runs_to_depth(
            module,
            breakpoints,
            s,
            handler,
            floor,
            limit,
            other_after,
            other_handler,
            other_trap,
        ),
    ensures
        after == other_after,
        trap == other_trap,
        after_handler == other_handler,
{
    let one = Outcome { state: after, trap };
    let other = Outcome { state: other_after, trap: other_trap };
    let (first, hs) = choose|replies: Seq<ImportAnswer>, handlers: Seq<F>|
        #![trigger
            ends_run(module, breakpoints, s, replies, floor, limit, one),
            answered(module, breakpoints, s, replies, handlers)]
        {
            &&& ends_run(module, breakpoints, s, replies, floor, limit, one)
            &&& answered(module, breakpoints, s, replies, handlers)
            &&& handlers.first() == handler
            &&& handlers.last() == after_handler
        };
    let (second, others) = choose|replies: Seq<ImportAnswer>, handlers: Seq<F>|
        #![trigger
            ends_run(module, breakpoints, s, replies, floor, limit, other),
            answered(module, breakpoints, s, replies, handlers)]
        {
            &&& ends_run(module, breakpoints, s, replies, floor, limit, other)
            &&& answered(module, breakpoints, s, replies, handlers)
            &&& handlers.first() == handler
            &&& handlers.last() == other_handler
        };
    lemma_handled_run_not_shorter(
        module,
        breakpoints,
        s,
        first,
        hs,
        second,
        others,
        floor,
        limit,
        one,
        other,
    );
    lemma_handled_run_not_shorter(
        module,
        breakpoints,
        s,
        second,
        others,
        first,
        hs,
        floor,
        limit,
        other,
        one,
    );
    lemma_advance_with_one_handler(module, breakpoints, s, first, hs, second, others);
    if first.len() > 0 {
        lemma_advance_with_one_handler(
            module,
            breakpoints,
            s,
            first.drop_last(),
            hs.drop_last(),
            second.drop_last(),
            others.drop_last(),
        );
        if let Some(before) = advance(module, breakpoints, s, first.drop_last()) {
            lemma_dispatch_with_one_handler(
                module,
                breakpoints,
                before,
                hs.drop_last().last(),
                first.last(),
                hs.last(),
                second.last(),
                others.last(),
            );
        }
    }
}

/// With a handler that answers in one way only: where a step over a call,
/// or out of one, stops the machine, running on from the same state stops
/// it for the same reason, in the same state.
pub proof fn lemma_step_stops_where_run_stops<F: ImportFunctionHandler>(
    module: &Module,
    breakpoints: &Breakpoints,
    s: VmState,
    handler: F,
    floor: nat,
    limit: nat,
    after: VmState,
    after_handler: F,
    trap: Trap,
    run_after: VmState,
    run_handler: F,
    run_trap: Trap,
)
    requires
        answers_in_one_way::<F>(),
        runs_to_depth(module, breakpoints, s, handler, floor, limit, after, after_handler, Some(trap)),
        runs_to_stop(module, breakpoints, s, handler, limit, run_after, run_handler, run_trap),
    ensures
        run_after == after,
        run_trap == trap,
        run_handler == after_handler,
{
    lemma_step_stop_is_run_stop(
        module,
        breakpoints,
        s,
        handler,
        floor,
        limit,
        after,
        after_handler,
        trap,
    );
    lemma_handled_run_is_determined(
        module,
        breakpoints,
        s,
        handler,
        0,
        limit,
        after,
        after_handler,
        Some(trap),
        run_after,
        run_handler,
        Some(run_trap),
    );
}

/// The handler that fulfils no call answers in one way only, and so does a
/// handler that needs the memory if the handler inside does.
pub proof fn lemma_handlers_answer_in_one_way<F: ImportFunctionHandler>()
    ensures
        answers_in_one_way::<DefaultImportFunctionHandler>(),
        answers_in_one_way::<F>() ==> answers_in_one_way::<NeedsMemory<F>>(),
{
    if answers_in_one_way::<F>() {
        assert forall|
            handler: NeedsMemory<F>,
            request: ImportRequestView,
            reply: ImportAnswer,
            after: NeedsMemory<F>,
            other_reply: ImportAnswer,
            other_after: NeedsMemory<F>,
        |
            #![trigger
                handler.answers(request, reply, after),
                handler.answers(request, other_reply, other_after)]
            handler.answers(request, reply, after) && handler.answers(
                request,
                other_reply,
                other_after,
            ) implies reply == other_reply && after == other_after by {
            if request.memory is Some {
                assert(handler.handler.answers(request, reply, after.handler));
                assert(handler.handler.answers(request, other_reply, other_after.handler));
            }
        }
    }
}

/// A machine without memory does not ask a handler that needs the memory:
/// a call of an imported function stops the machine as it is, with
/// `NoMemory`, and the handler stays as it is.
pub proof fn lemma_call_without_memory<F: ImportFunctionHandler>(
    module: &Module,
    breakpoints: &Breakpoints,
    s: VmState,
    handler: NeedsMemory<F>,
    reply: ImportAnswer,
    after: NeedsMemory<F>,
)
    requires
        asked(module, s) is Some,
        s.memory is None,
        handler_answers(module, s, handler, reply, after),
    ensures
        dispatch(module, breakpoints, s, reply) == (Outcome {
            state: s,
            trap: Some(Trap::NoMemory),
        }),
        after == handler,
{
}

/// The handler that fulfils no call: every call of an imported function
/// stops the machine as it is, with `UnsupportedCallToImportedFunction` and
/// the index of the function, whether or not the machine has a memory.
pub proof fn lemma_call_without_handler(
    module: &Module,
    breakpoints: &Breakpoints,
    s: VmState,
    handler: DefaultImportFunctionHandler,
    reply: ImportAnswer,
    after: DefaultImportFunctionHandler,
)
    requires
        asked(module, s) is Some,
        handler_answers(module, s, handler, reply, after),
    ensures
        dispatch(module, breakpoints, s, reply) == (Outcome {
            state: s,
            trap: Some(Trap::UnsupportedCallToImportedFunction(asked(module, s)->0.func_index)),
        }),
{
}

} // verus!
