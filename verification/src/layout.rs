//! The memory layout of processes: one stack of `STACK_SIZE` bytes per
//! process, with the process's `ProcInfo` in its first four bytes.
//!
//! - Forking a new process allocates a stack.
//! - Stacks lie at even intervals of `STACK_SIZE`.
//! - Free stack space has a zeroed stack pointer, and so do running
//!   processes.
//! - `STACK_SIZE` is a power of two, so that a process finds its `ProcInfo`
//!   from its stack pointer.

use vstd::prelude::*;
use crate::attiny85_defs::{stack_pointer, IoRegisters, Reg16};
use crate::registers::{lemma_register_addresses, SP};

verus! {

/// Size of each process's stack, in bytes.
pub const STACK_SIZE: usize = 0x80;

/// Start (highest address) of the first process's stack.
pub const FIRST_STACK: usize = 0x260;

/// One stack size below the lowest stack: where the walk over the stacks
/// starts.
pub const STACKS_BASE: usize = 0x60;

/// `fork` gives up once the candidate stack lies below this address.
pub const FORK_LIMIT: usize = 0x90;

/// Number of stacks.
pub const NUM_STACKS: usize = 4;

/// Whether `addr` is the start of a process stack.
pub open spec fn is_stack(addr: int) -> bool {
    &&& STACKS_BASE < addr <= FIRST_STACK
    &&& (addr - STACKS_BASE) % (STACK_SIZE as int) == 0
}

/// Position of the stack starting at `addr` in the process table, lowest
/// address first.
pub open spec fn slot(addr: int) -> int {
    (addr - STACKS_BASE) / (STACK_SIZE as int) - 1
}

/// Start of the stack in position `i` of the process table.
pub open spec fn stack_at(i: int) -> int {
    STACKS_BASE + STACK_SIZE * (i + 1)
}

/// The stacks, lowest address first.
pub proof fn lemma_stacks()
    ensures
        forall|a: int| is_stack(a) <==> (a == 0xE0 || a == 0x160 || a == 0x1E0 || a == 0x260),
        slot(0xE0) == 0 && slot(0x160) == 1 && slot(0x1E0) == 2 && slot(0x260) == 3,
        stack_at(0) == 0xE0 && stack_at(1) == 0x160 && stack_at(2) == 0x1E0 && stack_at(3) == 0x260,
{
}

/// The control block kept at the start of every process stack.
#[derive(Clone, Copy, Debug, PartialEq, Eq, Structural)]
pub struct ProcInfo {
    /// Saved stack pointer; zero while the process runs or the slot is free.
    pub sp: u16,
    /// Whether a process owns this stack.
    pub alive: bool,
    /// Timer ticks the process still sleeps.
    pub asleep: u8,
}

/// The control block of a free stack.
pub open spec fn dead_info() -> ProcInfo {
    ProcInfo { sp: 0, alive: false, asleep: 0 }
}

/// The control block of a freshly forked process.
pub open spec fn fresh_info() -> ProcInfo {
    ProcInfo { sp: 0, alive: true, asleep: 0 }
}

impl ProcInfo {
    /// The control block of a free stack.
    pub fn dead() -> (info: Self)
        ensures
            info == dead_info(),
    {
        ProcInfo { sp: 0x0000, alive: false, asleep: 0 }
    }

    /// Switches from the process of `self` to that of `to`: the current
    /// stack pointer is saved in `self`, `to` is marked running, and the
    /// stack pointer to resume `to` at is returned.
    pub fn switch_to(&mut self, to: &mut Self, current_sp: u16) -> (dest_sp: u16)
        ensures
            dest_sp == old(to).sp,
            *final(to) == (ProcInfo { sp: 0, ..*old(to) }),
            *final(self) == (ProcInfo { sp: current_sp, ..*old(self) }),
    {
        let dest_sp = to.sp;
        to.sp = 0;
        self.sp = current_sp;
        dest_sp
    }

    /// Claims the free stack with the highest address for a new process and
    /// returns the address its code starts with (that of its control block),
    /// or `None` when every stack is taken.
    pub fn fork(table: &mut ProcTable) -> (stack_loc: Option<usize>)
        ensures
            match stack_loc {
                Some(loc) => {
                    &&& is_stack(loc + 4)
                    &&& !old(table).info(loc + 4).alive
                    &&& forall|b: int|
                        is_stack(b) && b > loc + 4 ==> #[trigger] old(table).info(b).alive
                    &&& final(table)@ == old(table)@.update(slot(loc + 4), fresh_info())
                },
                None => {
                    &&& forall|b: int| is_stack(b) ==> #[trigger] old(table).info(b).alive
                    &&& final(table)@ == old(table)@
                },
            },
    {
        let mut addr: usize = FIRST_STACK;
        while is_occupied(table, addr)
            invariant
                is_stack(addr as int),
                addr >= FORK_LIMIT,
                table@ == old(table)@,
                forall|b: int| is_stack(b) && b > addr ==> #[trigger] table.info(b).alive,
            decreases addr,
        {
            addr -= STACK_SIZE;
            if addr < FORK_LIMIT {
                return None;
            }
        }
        table.set(addr, ProcInfo { sp: 0x0000, alive: true, asleep: 0 });
        Some(ProcInfo::at(addr))
    }

    /// Address of the control block of the stack starting at `stack_addr`.
    pub fn at(stack_addr: usize) -> (info_addr: usize)
        requires
            stack_addr >= 4,
        ensures
            info_addr == stack_addr - 4,
    {
        stack_addr - 4
    }
}

/// The control blocks of all stacks, lowest stack first.
#[derive(Clone, Copy)]
pub struct ProcTable {
    pub infos: [ProcInfo; 4],
}

impl View for ProcTable {
    type V = Seq<ProcInfo>;

    open spec fn view(&self) -> Seq<ProcInfo> {
        self.infos@
    }
}

impl ProcTable {
    /// The control block of the stack starting at `addr`.
    pub open spec fn info(self, addr: int) -> ProcInfo {
        self@[slot(addr)]
    }

    /// A table whose stacks are all free.
    pub fn all_dead() -> (table: Self)
        ensures
            forall|a: int| is_stack(a) ==> #[trigger] table.info(a) == dead_info(),
    {
        let d = ProcInfo::dead();
        let table = ProcTable { infos: [d, d, d, d] };
        proof {
            lemma_stacks();
        }
        table
    }

    /// The control block of the stack starting at `addr`.
    pub fn get(&self, addr: usize) -> (info: ProcInfo)
        requires
            is_stack(addr as int),
        ensures
            info == self.info(addr as int),
    {
        self.infos[(addr - STACKS_BASE) / STACK_SIZE - 1]
    }

    /// Replaces the control block of the stack starting at `addr`.
    pub fn set(&mut self, addr: usize, info: ProcInfo)
        requires
            is_stack(addr as int),
        ensures
            final(self)@ == old(self)@.update(slot(addr as int), info),
            forall|a: int|
                is_stack(a) ==> #[trigger] final(self).info(a) == if a == addr {
                    info
                } else {
                    old(self).info(a)
                },
    {
        proof {
            lemma_stacks();
        }
        self.infos[(addr - STACKS_BASE) / STACK_SIZE - 1] = info;
    }

    /// Sets how many timer ticks the process on the stack at `addr` sleeps.
    pub fn set_asleep(&mut self, addr: usize, ticks: u8)
        requires
            is_stack(addr as int),
        ensures
            final(self)@ == old(self)@.update(
                slot(addr as int),
                ProcInfo { asleep: ticks, ..old(self).info(addr as int) },
            ),
    {
        let info = self.get(addr);
        self.set(addr, ProcInfo { asleep: ticks, ..info });
    }
}

/// The start of the stack that holds the stack pointer `sp`: the stack
/// whose `STACK_SIZE` bytes lie at or above `sp` and below its start, and
/// the first stack for any `sp` above the others.
pub open spec fn stack_of(sp: int) -> int {
    if sp >= FIRST_STACK - STACK_SIZE {
        FIRST_STACK as int
    } else {
        STACKS_BASE + STACK_SIZE * ((sp - STACKS_BASE) / (STACK_SIZE as int) + 1)
    }
}

/// A process whose stack pointer lies within its own stack finds its own
/// stack; the first stack also takes every stack pointer above it.
pub proof fn lemma_stack_of_own_stack(s: int, sp: int)
    requires
        is_stack(s),
        s - STACK_SIZE <= sp,
        sp < s || s == FIRST_STACK,
    ensures
        stack_of(sp) == s,
{
    lemma_stacks();
}

/// Address of the control block of the running process, found from the
/// stack pointer.
pub fn get_proc_info_addr(regs: &IoRegisters) -> (info_addr: usize)
    requires
        stack_pointer(*regs) >= STACKS_BASE,
    ensures
        info_addr == stack_of(stack_pointer(*regs)) - 4,
        is_stack(info_addr + 4),
{
    proof {
        lemma_register_addresses();
    }
    let sp = SP::get(regs) as usize;
    let mut next_stack_addr: usize = FIRST_STACK - STACK_SIZE;
    while next_stack_addr > sp
        invariant
            STACKS_BASE <= sp,
            STACKS_BASE <= next_stack_addr <= FIRST_STACK - STACK_SIZE,
            (next_stack_addr - STACKS_BASE) % (STACK_SIZE as int) == 0,
            next_stack_addr == FIRST_STACK - STACK_SIZE || next_stack_addr + STACK_SIZE > sp,
        decreases next_stack_addr,
    {
        next_stack_addr -= STACK_SIZE;
    }
    let this_stack_start = next_stack_addr + STACK_SIZE;
    ProcInfo::at(this_stack_start)
}

/// Walks the stack starts from the lowest up.
pub struct StacksIter {
    addr: usize,
}

impl StacksIter {
    /// The last address handed out, or `STACKS_BASE` before the first.
    pub closed spec fn addr(self) -> usize {
        self.addr
    }

    /// Moves to the next stack and returns its start, or `None` once past
    /// the first stack.
    pub fn next(&mut self) -> (next: Option<usize>)
        requires
            old(self).addr() + STACK_SIZE <= usize::MAX,
        ensures
            final(self).addr() == old(self).addr() + STACK_SIZE,
            next == if final(self).addr() > FIRST_STACK {
                None
            } else {
                Some(final(self).addr())
            },
    {
        self.addr += STACK_SIZE;
        if self.addr > FIRST_STACK {
            None
        } else {
            Some(self.addr)
        }
    }
}

impl Default for StacksIter {
    fn default() -> (it: Self)
        ensures
            it.addr() == STACKS_BASE,
    {
        StacksIter { addr: 0x60 }
    }
}

/// Whether the process on the stack at `addr` is suspended, i.e. has a
/// saved stack pointer.
pub fn is_suspended(table: &ProcTable, addr: usize) -> (suspended: bool)
    requires
        is_stack(addr as int),
    ensures
        suspended == (table.info(addr as int).sp != 0),
{
    table.get(addr).sp != 0
}

/// Whether a process owns the stack at `addr`.
pub fn is_occupied(table: &ProcTable, addr: usize) -> (occupied: bool)
    requires
        is_stack(addr as int),
    ensures
        occupied == table.info(addr as int).alive,
{
    table.get(addr).alive
}

} // verus!
