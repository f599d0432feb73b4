//! The registry of breakpoints and watchpoints of a loaded file.

use vstd::prelude::*;

use crate::vm::CodePosition;

verus! {

/// The kind of access that makes a watchpoint fire.
#[derive(Clone, Copy, Debug, PartialEq, Eq, Structural)]
pub enum WatchpointTrigger {
    Read,
    Write,
    ReadWrite,
}

impl WatchpointTrigger {
    pub open spec fn spec_is_read(self) -> bool {
        self == WatchpointTrigger::Read || self == WatchpointTrigger::ReadWrite
    }

    pub open spec fn spec_is_write(self) -> bool {
        self == WatchpointTrigger::Write || self == WatchpointTrigger::ReadWrite
    }

    /// Whether an access fires the trigger: a write if `write` holds, else a read.
    pub open spec fn fires_on(self, write: bool) -> bool {
        if write {
            self.spec_is_write()
        } else {
            self.spec_is_read()
        }
    }

    #[verifier::when_used_as_spec(spec_is_read)]
    pub fn is_read(self) -> (r: bool)
        ensures
            r == self.spec_is_read(),
    {
        match self {
            WatchpointTrigger::Read => true,
            WatchpointTrigger::Write => false,
            WatchpointTrigger::ReadWrite => true,
        }
    }

    #[verifier::when_used_as_spec(spec_is_write)]
    pub fn is_write(self) -> (r: bool)
        ensures
            r == self.spec_is_write(),
    {
        match self {
            WatchpointTrigger::Read => false,
            WatchpointTrigger::Write => true,
            WatchpointTrigger::ReadWrite => true,
        }
    }
}

/// Something that pauses a machine: a code position it arrives at, a region
/// of memory (first address and length) it accesses, or a global it accesses.
#[derive(Clone, Copy, Debug, PartialEq, Eq, Structural)]
pub enum Breakpoint {
    Code(CodePosition),
    Memory(WatchpointTrigger, u32, u32),
    Global(WatchpointTrigger, u32),
}

impl Breakpoint {
    /// Whether this is a code breakpoint at `pos`.
    pub open spec fn is_code_at(self, pos: CodePosition) -> bool {
        self == Breakpoint::Code(pos)
    }

    /// Whether this is a watchpoint that an access to global `index` fires.
    pub open spec fn watches_global(self, index: u32, write: bool) -> bool {
        self matches Breakpoint::Global(trigger, watched) && watched == index && trigger.fires_on(
            write,
        )
    }

    /// Whether this is a watchpoint that an access to the `len` bytes from
    /// `addr` on fires: the access and the watched region share a byte.
    pub open spec fn watches_memory(self, addr: int, len: int, write: bool) -> bool {
        self matches Breakpoint::Memory(trigger, start, size) && start < addr + len && addr < start
            + size && trigger.fires_on(write)
    }
}

/// Whether `index` is the least index in `map` whose breakpoint satisfies `pred`.
pub open spec fn is_least_match(
    map: Map<u32, Breakpoint>,
    pred: spec_fn(Breakpoint) -> bool,
    index: u32,
) -> bool {
    &&& map.dom().contains(index)
    &&& pred(map[index])
    &&& forall|other: u32| #[trigger] map.dom().contains(other) && pred(map[other]) ==> index <= other
}

/// The least index in `map` whose breakpoint satisfies `pred`, if there is one.
pub open spec fn least_match(map: Map<u32, Breakpoint>, pred: spec_fn(Breakpoint) -> bool) -> Option<
    u32,
> {
    if exists|index: u32| is_least_match(map, pred, index) {
        Some(choose|index: u32| is_least_match(map, pred, index))
    } else {
        None
    }
}

/// A least match is the only one: `least_match` gives it.
pub proof fn lemma_least_match_is(
    map: Map<u32, Breakpoint>,
    pred: spec_fn(Breakpoint) -> bool,
    index: u32,
)
    requires
        is_least_match(map, pred, index),
    ensures
        least_match(map, pred) == Some(index),
{
}

/// Where no breakpoint satisfies `pred`, `least_match` gives none.
pub proof fn lemma_least_match_none(map: Map<u32, Breakpoint>, pred: spec_fn(Breakpoint) -> bool)
    requires
        forall|index: u32| #[trigger] map.dom().contains(index) ==> !pred(map[index]),
    ensures
        least_match(map, pred) is None,
{
}

/// Once a breakpoint is deleted, none is set under its index: deleting it
/// again finds nothing.
pub proof fn lemma_deleted_is_absent(map: Map<u32, Breakpoint>, index: u32)
    ensures
        !map.remove(index).dom().contains(index),
        map.remove(index).remove(index) == map.remove(index),
{
}

/// The breakpoints and watchpoints of a file, each under the index it was
/// given when it was added. Indices are handed out in increasing order and
/// never again: the index of a deleted breakpoint stays unused.
pub struct Breakpoints {
    slots: Vec<Option<Breakpoint>>,
}

impl Breakpoints {
    /// The breakpoints that are set, by index.
    pub closed spec fn view(&self) -> Map<u32, Breakpoint> {
        Map::new(
            |index: u32| index < self.slots@.len() && self.slots@[index as int] is Some,
            |index: u32| self.slots@[index as int]->0,
        )
    }

    /// The index that the next breakpoint will get.
    pub closed spec fn spec_next_index(&self) -> nat {
        self.slots@.len()
    }

    /// The least index of a code breakpoint at `pos`.
    pub open spec fn spec_find_code(&self, pos: CodePosition) -> Option<u32> {
        least_match(self@, |b: Breakpoint| b.is_code_at(pos))
    }

    /// The least index of a watchpoint that an access to global `index` fires.
    pub open spec fn spec_find_global(&self, index: u32, write: bool) -> Option<u32> {
        least_match(self@, |b: Breakpoint| b.watches_global(index, write))
    }

    /// The least index of a watchpoint that an access to the `len` bytes
    /// from `addr` on fires.
    pub open spec fn spec_find_memory(&self, addr: int, len: int, write: bool) -> Option<u32> {
        least_match(self@, |b: Breakpoint| b.watches_memory(addr, len, write))
    }

    /// No breakpoint is set under an index that was never given out.
    pub proof fn lemma_not_given_out_is_absent(&self, index: u32)
        requires
            index >= self.spec_next_index(),
        ensures
            !self@.dom().contains(index),
    {
    }

    /// An empty registry, whose first breakpoint will get index 0.
    pub fn new() -> (r: Breakpoints)
        ensures
            r@ == Map::<u32, Breakpoint>::empty(),
            r.spec_next_index() == 0,
    {
        Breakpoints { slots: Vec::new() }
    }

    /// The index that the next breakpoint will get.
    pub fn next_index(&self) -> (r: usize)
        ensures
            r == self.spec_next_index(),
    {
        self.slots.len()
    }

    /// The breakpoint with this index, if it is set.
    pub fn get(&self, index: u32) -> (r: Option<Breakpoint>)
        ensures
            r is Some <==> self@.dom().contains(index),
            r matches Some(b) ==> b == self@[index],
    {
        if (index as usize) < self.slots.len() {
            self.slots[index as usize]
        } else {
            None
        }
    }

    /// The number of breakpoints that are set.
    pub fn len(&self) -> (r: usize)
        ensures
            r == self@.dom().len(),
    {
        let mut count: usize = 0;
        let mut i: usize = 0;
        let ghost mut seen = Set::<u32>::empty();
        while i < self.slots.len() && i <= u32::MAX as usize
            invariant
                i <= self.slots@.len(),
                i <= u32::MAX + 1,
                count <= i,
                seen.finite(),
                seen.len() == count,
                seen =~= Set::new(|index: u32| index < i && self@.dom().contains(index)),
            decreases self.slots@.len() - i,
        {
            if self.slots[i].is_some() {
                count = count + 1;
                proof {
                    seen = seen.insert(i as u32);
                }
            }
            i = i + 1;
        }
        assert(seen =~= self@.dom());
        count
    }

    /// Adds a breakpoint and returns its index: the next one.
    pub fn add_breakpoint(&mut self, breakpoint: Breakpoint) -> (index: u32)
        requires
            old(self).spec_next_index() < u32::MAX,
        ensures
            index == old(self).spec_next_index(),
            final(self).spec_next_index() == index + 1,
            final(self)@ == old(self)@.insert(index, breakpoint),
    {
        let index = self.slots.len() as u32;
        self.slots.push(Some(breakpoint));
        index
    }

    /// Deletes the breakpoint with this index. Returns whether there was one.
    pub fn delete_breakpoint(&mut self, index: u32) -> (existed: bool)
        ensures
            existed == old(self)@.dom().contains(index),
            final(self)@ == old(self)@.remove(index),
            final(self).spec_next_index() == old(self).spec_next_index(),
    {
        if (index as usize) < self.slots.len() {
            let existed = self.slots[index as usize].is_some();
            self.slots.set(index as usize, None);
            existed
        } else {
            false
        }
    }

    /// Deletes every breakpoint. The indices they had are not handed out again.
    pub fn clear(&mut self)
        ensures
            final(self)@ == Map::<u32, Breakpoint>::empty(),
            final(self).spec_next_index() == old(self).spec_next_index(),
    {
        let mut i: usize = 0;
        while i < self.slots.len()
            invariant
                i <= self.slots@.len(),
                self.slots@.len() == old(self).slots@.len(),
                forall|k: int| 0 <= k < i ==> self.slots@[k] is None,
            decreases self.slots@.len() - i,
        {
            self.slots.set(i, None);
            i = i + 1;
        }
    }

    /// The least index of a code breakpoint at `pos`.
    pub fn find_code(&self, pos: CodePosition) -> (r: Option<u32>)
        ensures
            r == self.spec_find_code(pos),
    {
        let ghost pred = |b: Breakpoint| b.is_code_at(pos);
        let mut i: usize = 0;
        while i < self.slots.len() && i <= u32::MAX as usize
            invariant
                i <= self.slots@.len(),
                i <= u32::MAX + 1,
                pred == (|b: Breakpoint| b.is_code_at(pos)),
                forall|k: u32| k < i && #[trigger] self@.dom().contains(k) ==> !pred(self@[k]),
            decreases self.slots@.len() - i,
        {
            match self.slots[i] {
                Some(Breakpoint::Code(at)) => {
                    if at.func_index == pos.func_index && at.instr_index == pos.instr_index {
                        proof {
                            lemma_least_match_is(self@, pred, i as u32);
                        }
                        return Some(i as u32);
                    }
                },
                _ => {},
            }
            i = i + 1;
        }
        proof {
            lemma_least_match_none(self@, pred);
        }
        None
    }

    /// The least index of a watchpoint that an access to global `index`
    /// fires: a write if `write` holds, else a read.
    pub fn find_global(&self, index: u32, write: bool) -> (r: Option<u32>)
        ensures
            r == self.spec_find_global(index, write),
    {
        let ghost pred = |b: Breakpoint| b.watches_global(index, write);
        let mut i: usize = 0;
        while i < self.slots.len() && i <= u32::MAX as usize
            invariant
                i <= self.slots@.len(),
                i <= u32::MAX + 1,
                pred == (|b: Breakpoint| b.watches_global(index, write)),
                forall|k: u32| k < i && #[trigger] self@.dom().contains(k) ==> !pred(self@[k]),
            decreases self.slots@.len() - i,
        {
            match self.slots[i] {
                Some(Breakpoint::Global(trigger, watched)) => {
                    let fires = if write {
                        trigger.is_write()
                    } else {
                        trigger.is_read()
                    };
                    if watched == index && fires {
                        proof {
                            lemma_least_match_is(self@, pred, i as u32);
                        }
                        return Some(i as u32);
                    }
                },
                _ => {},
            }
            i = i + 1;
        }
        proof {
            lemma_least_match_none(self@, pred);
        }
        None
    }

    /// The least index of a watchpoint that an access to the `len` bytes
    /// from `addr` on fires: a write if `write` holds, else a read.
    pub fn find_memory(&self, addr: u64, len: u64, write: bool) -> (r: Option<u32>)
        ensures
            r == self.spec_find_memory(addr as int, len as int, write),
    {
        let ghost pred = |b: Breakpoint| b.watches_memory(addr as int, len as int, write);
        let mut i: usize = 0;
        while i < self.slots.len() && i <= u32::MAX as usize
            invariant
                i <= self.slots@.len(),
                i <= u32::MAX + 1,
                pred == (|b: Breakpoint| b.watches_memory(addr as int, len as int, write)),
                forall|k: u32| k < i && #[trigger] self@.dom().contains(k) ==> !pred(self@[k]),
            decreases self.slots@.len() - i,
        {
            match self.slots[i] {
                Some(Breakpoint::Memory(trigger, start, size)) => {
                    let fires = if write {
                        trigger.is_write()
                    } else {
                        trigger.is_read()
                    };
                    let end = addr as u128 + len as u128;
                    if (start as u128) < end && addr < start as u64 + size as u64 && fires {
                        proof {
                            lemma_least_match_is(self@, pred, i as u32);
                        }
                        return Some(i as u32);
                    }
                },
                _ => {},
            }
            i = i + 1;
        }
        proof {
            lemma_least_match_none(self@, pred);
        }
        None
    }
}

} // verus!
