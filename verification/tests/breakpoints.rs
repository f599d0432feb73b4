use wasmdbg::vm::CodePosition;
use wasmdbg::{Breakpoint, Breakpoints, WatchpointTrigger};

#[test]
fn indices_are_given_out_in_order() {
    let mut breakpoints = Breakpoints::new();
    assert_eq!(breakpoints.next_index(), 0);
    assert_eq!(breakpoints.add_breakpoint(Breakpoint::Code(CodePosition::new(0, 1))), 0);
    assert_eq!(breakpoints.add_breakpoint(Breakpoint::Global(WatchpointTrigger::Write, 2)), 1);
    assert_eq!(breakpoints.add_breakpoint(Breakpoint::Memory(WatchpointTrigger::Read, 8, 4)), 2);
    assert_eq!(breakpoints.next_index(), 3);
    assert_eq!(breakpoints.len(), 3);
    assert_eq!(breakpoints.get(0), Some(Breakpoint::Code(CodePosition::new(0, 1))));
    assert_eq!(breakpoints.get(1), Some(Breakpoint::Global(WatchpointTrigger::Write, 2)));
    assert_eq!(breakpoints.get(3), None);
}

#[test]
fn deleted_indices_are_not_given_out_again() {
    let mut breakpoints = Breakpoints::new();
    breakpoints.add_breakpoint(Breakpoint::Code(CodePosition::new(0, 0)));
    breakpoints.add_breakpoint(Breakpoint::Code(CodePosition::new(0, 1)));
    assert!(breakpoints.delete_breakpoint(1));
    assert_eq!(breakpoints.add_breakpoint(Breakpoint::Code(CodePosition::new(0, 2))), 2);
    assert_eq!(breakpoints.get(1), None);
    assert_eq!(breakpoints.len(), 2);
}

#[test]
fn deleting_what_is_not_there_gives_false() {
    let mut breakpoints = Breakpoints::new();
    assert!(!breakpoints.delete_breakpoint(0));
    assert!(!breakpoints.delete_breakpoint(u32::MAX));
    breakpoints.add_breakpoint(Breakpoint::Code(CodePosition::new(0, 0)));
    assert!(!breakpoints.delete_breakpoint(1));
    assert!(breakpoints.delete_breakpoint(0));
    assert!(!breakpoints.delete_breakpoint(0));
    assert_eq!(breakpoints.len(), 0);
}

#[test]
fn clearing_keeps_the_next_index() {
    let mut breakpoints = Breakpoints::new();
    breakpoints.add_breakpoint(Breakpoint::Code(CodePosition::new(0, 0)));
    breakpoints.add_breakpoint(Breakpoint::Code(CodePosition::new(0, 1)));
    breakpoints.clear();
    assert_eq!(breakpoints.len(), 0);
    assert_eq!(breakpoints.get(0), None);
    assert_eq!(breakpoints.find_code(CodePosition::new(0, 0)), None);
    assert_eq!(breakpoints.add_breakpoint(Breakpoint::Code(CodePosition::new(0, 1))), 2);
}

#[test]
fn find_code_gives_the_least_index() {
    let mut breakpoints = Breakpoints::new();
    breakpoints.add_breakpoint(Breakpoint::Code(CodePosition::new(1, 1)));
    breakpoints.add_breakpoint(Breakpoint::Code(CodePosition::new(0, 5)));
    breakpoints.add_breakpoint(Breakpoint::Code(CodePosition::new(0, 5)));
    assert_eq!(breakpoints.find_code(CodePosition::new(0, 5)), Some(1));
    assert_eq!(breakpoints.find_code(CodePosition::new(1, 1)), Some(0));
    assert_eq!(breakpoints.find_code(CodePosition::new(5, 0)), None);
    breakpoints.delete_breakpoint(1);
    assert_eq!(breakpoints.find_code(CodePosition::new(0, 5)), Some(2));
}

#[test]
fn global_watchpoints_fire_on_their_kind_of_access() {
    let mut breakpoints = Breakpoints::new();
    breakpoints.add_breakpoint(Breakpoint::Global(WatchpointTrigger::Read, 2));
    breakpoints.add_breakpoint(Breakpoint::Global(WatchpointTrigger::Write, 2));
    breakpoints.add_breakpoint(Breakpoint::Global(WatchpointTrigger::ReadWrite, 3));
    assert_eq!(breakpoints.find_global(2, false), Some(0));
    assert_eq!(breakpoints.find_global(2, true), Some(1));
    assert_eq!(breakpoints.find_global(3, false), Some(2));
    assert_eq!(breakpoints.find_global(3, true), Some(2));
    assert_eq!(breakpoints.find_global(4, true), None);
}

#[test]
fn memory_watchpoints_fire_on_overlap() {
    let mut breakpoints = Breakpoints::new();
    breakpoints.add_breakpoint(Breakpoint::Memory(WatchpointTrigger::Write, 8, 4));
    assert_eq!(breakpoints.find_memory(8, 1, true), Some(0));
    assert_eq!(breakpoints.find_memory(11, 1, true), Some(0));
    assert_eq!(breakpoints.find_memory(12, 1, true), None);
    assert_eq!(breakpoints.find_memory(4, 4, true), None);
    assert_eq!(breakpoints.find_memory(4, 5, true), Some(0));
    assert_eq!(breakpoints.find_memory(0, 100, true), Some(0));
    assert_eq!(breakpoints.find_memory(8, 4, false), None);
}

#[test]
fn triggers_say_what_fires_them() {
    assert!(WatchpointTrigger::Read.is_read());
    assert!(!WatchpointTrigger::Read.is_write());
    assert!(!WatchpointTrigger::Write.is_read());
    assert!(WatchpointTrigger::Write.is_write());
    assert!(WatchpointTrigger::ReadWrite.is_read());
    assert!(WatchpointTrigger::ReadWrite.is_write());
}
