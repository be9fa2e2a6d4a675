//! Start-up, the timer set-up, and the decisions the timer interrupt makes:
//! the sleep bookkeeping and the choice of the next process to run.

use vstd::prelude::*;
use crate::attiny85_defs::{
    enter_critical, io_index, leave_critical, sei, sreg_saved,
    stack_pointer, IoRegisters, Mask, Reg16, Reg8, SREG_ADDRESS,
};
use crate::layout::{
    dead_info, get_proc_info_addr, is_occupied, is_stack, lemma_stacks, slot, stack_of,
    ProcInfo, ProcTable, StacksIter, FIRST_STACK, STACKS_BASE, STACK_SIZE,
};
use crate::registers::{
    lemma_register_addresses, CS00, CS01, OCIE0A, OCR0A, PORTB, PORTB0, SP, TCCR0A, TCCR0B,
    TIMSK, WGM01,
};
use core::ops::{BitOr, BitXor};

verus! {

/// Whether the process on the stack at `addr` may run: it is alive and
/// does not sleep.
pub open spec fn awake(table: ProcTable, addr: int) -> bool {
    table.info(addr).alive && table.info(addr).asleep == 0
}

/// Whether no process may run.
pub open spec fn none_awake(table: ProcTable) -> bool {
    forall|b: int| is_stack(b) ==> !#[trigger] awake(table, b)
}

/// Whether `s` lies above `bound` and no awake stack lies between them.
pub open spec fn lowest_awake_above(table: ProcTable, bound: int, s: int) -> bool {
    &&& s > bound
    &&& forall|b: int| is_stack(b) && #[trigger] awake(table, b) && b > bound ==> s <= b
}

/// Whether no awake stack lies above `bound`.
pub open spec fn none_awake_above(table: ProcTable, bound: int) -> bool {
    forall|b: int| is_stack(b) && #[trigger] awake(table, b) ==> b <= bound
}

/// Whether no awake stack lies below `s`.
pub open spec fn lowest_awake(table: ProcTable, s: int) -> bool {
    forall|b: int| is_stack(b) && #[trigger] awake(table, b) ==> s <= b
}

/// Whether `s` is the stack to run next when the stacks up to `bound`
/// have had their turn: the lowest awake stack above `bound`, or, when
/// there is none, the lowest awake stack.
pub open spec fn is_next_stack(table: ProcTable, bound: int, s: int) -> bool {
    &&& is_stack(s)
    &&& awake(table, s)
    &&& (lowest_awake_above(table, bound, s) || (none_awake_above(table, bound) && lowest_awake(
        table,
        s,
    )))
}

/// The next stack is unique.
pub proof fn lemma_next_stack_unique(table: ProcTable, bound: int, s: int, t: int)
    requires
        is_next_stack(table, bound, s),
        is_next_stack(table, bound, t),
    ensures
        s == t,
{
}

/// The choice depends only on which stack the running process is on, not
/// on where in that stack its stack pointer lies: it is the lowest awake
/// stack above the running one, or the lowest awake stack when there is
/// none above.
pub proof fn lemma_choice_depends_on_running_stack(table: ProcTable, s: int, sp: int, n: int)
    requires
        is_stack(s),
        s - STACK_SIZE <= sp < s,
    ensures
        is_next_stack(table, sp + STACK_SIZE, n) <==> is_next_stack(table, s, n),
{
    lemma_stacks();
    assert forall|b: int| is_stack(b) implies (b > sp + STACK_SIZE <==> b > s) by {}
}

/// The stack chosen after the process on stack `s` while the table stays
/// as it is.
pub open spec fn next_after(table: ProcTable, s: int) -> int {
    choose|n: int| is_next_stack(table, s, n)
}

/// The lowest awake stack, when some stack is awake.
spec fn lowest_awake_stack(table: ProcTable) -> int {
    if awake(table, 0xE0) {
        0xE0
    } else if awake(table, 0x160) {
        0x160
    } else if awake(table, 0x1E0) {
        0x1E0
    } else {
        0x260
    }
}

/// The lowest awake stack above `x`, or the lowest awake stack.
spec fn wrapping_awake_above(table: ProcTable, x: int) -> int {
    if x < 0xE0 && awake(table, 0xE0) {
        0xE0
    } else if x < 0x160 && awake(table, 0x160) {
        0x160
    } else if x < 0x1E0 && awake(table, 0x1E0) {
        0x1E0
    } else if x < 0x260 && awake(table, 0x260) {
        0x260
    } else {
        lowest_awake_stack(table)
    }
}

proof fn lemma_next_after_wraps(table: ProcTable, x: int, b: int)
    requires
        is_stack(x),
        is_stack(b),
        awake(table, b),
    ensures
        next_after(table, x) == wrapping_awake_above(table, x),
{
    lemma_stacks();
    let w = wrapping_awake_above(table, x);
    assert(is_next_stack(table, x, w));
    lemma_next_stack_unique(table, x, w, next_after(table, x));
}

/// Round robin: while the table stays as it is, every awake process runs
/// within four switches, whichever process runs now.
pub proof fn lemma_every_awake_process_gets_its_turn(table: ProcTable, s: int, b: int)
    requires
        is_stack(s),
        is_stack(b),
        awake(table, b),
    ensures
        ({
            let n1 = next_after(table, s);
            let n2 = next_after(table, n1);
            let n3 = next_after(table, n2);
            let n4 = next_after(table, n3);
            b == n1 || b == n2 || b == n3 || b == n4
        }),
{
    lemma_stacks();
    let n1 = next_after(table, s);
    lemma_next_after_wraps(table, s, b);
    lemma_next_after_wraps(table, n1, b);
    let n2 = next_after(table, n1);
    lemma_next_after_wraps(table, n2, b);
    let n3 = next_after(table, n2);
    lemma_next_after_wraps(table, n3, b);
}

/// Chooses the stack to run after the process whose stack pointer is
/// `current_stack`: the next awake process above it, round robin.
pub fn next_stack(table: &ProcTable, current_stack: usize) -> (next: Option<usize>)
    requires
        current_stack + STACK_SIZE <= usize::MAX,
    ensures
        match next {
            Some(s) => is_next_stack(*table, current_stack + STACK_SIZE, s as int),
            None => none_awake(*table),
        },
{
    proof {
        lemma_stacks();
    }
    let bound = current_stack + STACK_SIZE;
    let mut it = StacksIter::default();
    let mut first: Option<usize> = None;
    let mut found: Option<usize> = None;
    loop
        invariant_except_break
            STACKS_BASE <= it.addr() <= FIRST_STACK,
            (it.addr() - STACKS_BASE) % (STACK_SIZE as int) == 0,
            found is None,
        invariant
            bound == current_stack + STACK_SIZE,
            forall|a: int| is_stack(a) <==> (a == 0xE0 || a == 0x160 || a == 0x1E0 || a == 0x260),
            match first {
                Some(f) => {
                    &&& is_stack(f as int)
                    &&& awake(*table, f as int)
                    &&& forall|b: int| is_stack(b) && #[trigger] awake(*table, b) ==> f <= b
                },
                None => forall|b: int|
                    is_stack(b) && b <= it.addr() ==> !#[trigger] awake(*table, b),
            },
            found is None ==> forall|b: int|
                is_stack(b) && b <= it.addr() && #[trigger] awake(*table, b) ==> b <= bound,
        ensures
            match found {
                Some(x) => {
                    &&& is_stack(x as int)
                    &&& awake(*table, x as int)
                    &&& x > bound
                    &&& forall|b: int|
                        is_stack(b) && #[trigger] awake(*table, b) && b > bound ==> x <= b
                },
                None => forall|b: int| is_stack(b) && #[trigger] awake(*table, b) ==> b <= bound,
            },
            first is None ==> none_awake(*table),
        decreases FIRST_STACK - it.addr(),
    {
        match it.next() {
            None => {
                break ;
            },
            Some(addr) => {
                if is_occupied(table, addr) && table.get(addr).asleep == 0 {
                    if first.is_none() {
                        first = Some(addr);
                    }
                    if addr > bound {
                        found = Some(addr);
                        break ;
                    }
                }
            },
        }
    }
    match found {
        Some(addr) => Some(addr),
        None => first,
    }
}

/// What the scheduler asks of the processor.
#[derive(Debug)]
pub enum SchedulerAction {
    /// No process may run: wait for an interrupt.
    Wait,
    /// Save the stack pointer in the control block at `from_info` and
    /// resume the process on the stack at `to_stack` at stack pointer `to_sp`.
    Switch { from_info: usize, to_stack: usize, to_sp: u16 },
}

/// Decides which process runs next, round robin over the awake processes,
/// from the stack pointer of the running one.
pub fn run_scheduler(regs: &IoRegisters, table: &ProcTable) -> (action: SchedulerAction)
    requires
        stack_pointer(*regs) >= STACKS_BASE || none_awake(*table),
    ensures
        match action {
            SchedulerAction::Wait => none_awake(*table),
            SchedulerAction::Switch { from_info, to_stack, to_sp } => {
                &&& is_next_stack(*table, stack_pointer(*regs) + STACK_SIZE, to_stack as int)
                &&& to_sp == table.info(to_stack as int).sp
                &&& from_info == stack_of(stack_pointer(*regs)) - 4
            },
        },
{
    proof {
        lemma_register_addresses();
    }
    let current_stack = SP::get(regs) as usize;
    match next_stack(table, current_stack) {
        Some(to_stack) => {
            let to_sp = table.get(to_stack).sp;
            let from_info = get_proc_info_addr(regs);
            SchedulerAction::Switch { from_info, to_stack, to_sp }
        },
        None => SchedulerAction::Wait,
    }
}

/// A control block after one timer tick: a living process that sleeps
/// sleeps one tick less.
pub open spec fn tick_info(info: ProcInfo) -> ProcInfo {
    if info.alive && info.asleep != 0 {
        ProcInfo { asleep: (info.asleep - 1) as u8, ..info }
    } else {
        info
    }
}

/// A control block after `n` timer ticks.
pub open spec fn ticks_info(info: ProcInfo, n: nat) -> ProcInfo
    decreases n,
{
    if n == 0 {
        info
    } else {
        tick_info(ticks_info(info, (n - 1) as nat))
    }
}

/// After `n` ticks a living process sleeps `n` ticks less, down to zero,
/// and nothing else of any control block has changed.
pub proof fn lemma_ticks(info: ProcInfo, n: nat)
    ensures
        ticks_info(info, n) == (if info.alive {
            ProcInfo { asleep: (if info.asleep >= n { info.asleep - n } else { 0 }) as u8, ..info }
        } else {
            info
        }),
    decreases n,
{
    if n > 0 {
        lemma_ticks(info, (n - 1) as nat);
    }
}

/// Counts one timer tick down from the sleep of every living process.
pub fn do_bookkeeping(table: &mut ProcTable)
    ensures
        forall|a: int| is_stack(a) ==> #[trigger] final(table).info(a) == tick_info(old(table).info(a)),
{
    proof {
        lemma_stacks();
    }
    let mut it = StacksIter::default();
    loop
        invariant_except_break
            STACKS_BASE <= it.addr() <= FIRST_STACK,
            (it.addr() - STACKS_BASE) % (STACK_SIZE as int) == 0,
        invariant
            forall|a: int| is_stack(a) <==> (a == 0xE0 || a == 0x160 || a == 0x1E0 || a == 0x260),
            forall|a: int|
                is_stack(a) ==> #[trigger] table.info(a) == if a <= it.addr() {
                    tick_info(old(table).info(a))
                } else {
                    old(table).info(a)
                },
        ensures
            forall|a: int| is_stack(a) ==> #[trigger] table.info(a) == tick_info(old(table).info(a)),
        decreases FIRST_STACK - it.addr(),
    {
        match it.next() {
            None => {
                break ;
            },
            Some(addr) => {
                if is_occupied(table, addr) {
                    let info = table.get(addr);
                    if info.asleep != 0 {
                        table.set(addr, ProcInfo { asleep: info.asleep - 1, ..info });
                    }
                }
            },
        }
    }
}

/// Marks every stack but the first free, as start-up does before `main`
/// runs on the first stack.
pub fn reset_proc_infos(table: &mut ProcTable)
    ensures
        forall|a: int|
            is_stack(a) && a != FIRST_STACK ==> #[trigger] final(table).info(a) == dead_info(),
        final(table).info(FIRST_STACK as int) == old(table).info(FIRST_STACK as int),
{
    proof {
        lemma_stacks();
    }
    let mut it = StacksIter::default();
    loop
        invariant_except_break
            STACKS_BASE <= it.addr() < FIRST_STACK,
            (it.addr() - STACKS_BASE) % (STACK_SIZE as int) == 0,
        invariant
            forall|a: int| is_stack(a) <==> (a == 0xE0 || a == 0x160 || a == 0x1E0 || a == 0x260),
            forall|a: int|
                is_stack(a) && a != FIRST_STACK && a <= it.addr() ==> #[trigger] table.info(a)
                    == dead_info(),
            table.info(FIRST_STACK as int) == old(table).info(FIRST_STACK as int),
        ensures
            it.addr() == FIRST_STACK,
        decreases FIRST_STACK - it.addr(),
    {
        match it.next() {
            None => {
                break ;
            },
            Some(addr) => {
                if addr == FIRST_STACK {
                    break ;
                }
                table.set(addr, ProcInfo::dead());
            },
        }
    }
}

/// The registers after the timer set-up: compare match interrupt A of
/// timer 0 enabled, a compare value of 200, clear-timer-on-compare mode,
/// a prescaler of 64, and interrupts enabled.
pub open spec fn timers_initialised(regs: Seq<u8>) -> Seq<u8> {
    regs.update(io_index(0x59), regs[io_index(0x59)] | OCIE0A).update(io_index(0x49), 200).update(
        io_index(0x4A),
        regs[io_index(0x4A)] | WGM01,
    ).update(io_index(0x53), regs[io_index(0x53)] | CS01 | CS00).update(
        io_index(SREG_ADDRESS as int),
        sreg_saved(regs[io_index(SREG_ADDRESS as int)]),
    )
}

/// Whatever the registers held before, the timer set-up leaves the
/// compare match interrupt of timer 0 enabled, a compare value of 200,
/// clear-timer-on-compare mode and a prescaler of 64 selected, and
/// interrupts enabled, while every other bit of those registers and every
/// other register keeps its value. Setting up a second time changes
/// nothing.
pub proof fn lemma_timer_setup(regs: Seq<u8>)
    requires
        regs.len() == 64,
    ensures
        ({
            let after = timers_initialised(regs);
            &&& after.len() == 64
            &&& after[io_index(0x59)] & OCIE0A == OCIE0A
            &&& after[io_index(0x59)] & !OCIE0A == regs[io_index(0x59)] & !OCIE0A
            &&& after[io_index(0x49)] == 200
            &&& after[io_index(0x4A)] & WGM01 == WGM01
            &&& after[io_index(0x4A)] & !WGM01 == regs[io_index(0x4A)] & !WGM01
            &&& after[io_index(0x53)] & (CS01 | CS00) == CS01 | CS00
            &&& after[io_index(0x53)] & !(CS01 | CS00) == regs[io_index(0x53)] & !(CS01 | CS00)
            &&& after[io_index(SREG_ADDRESS as int)] & 0x80u8 == 0x80u8
            &&& after[io_index(SREG_ADDRESS as int)] & 0x7Fu8 == regs[io_index(
                SREG_ADDRESS as int,
            )] & 0x7Fu8
            &&& forall|i: int|
                0 <= i < 64 && i != io_index(0x59) && i != io_index(0x49) && i != io_index(0x4A)
                    && i != io_index(0x53) && i != io_index(SREG_ADDRESS as int) ==> #[trigger] after[i]
                    == regs[i]
            &&& timers_initialised(after) == after
        }),
{
    let after = timers_initialised(regs);
    let t = regs[io_index(0x59)];
    let a = regs[io_index(0x4A)];
    let b = regs[io_index(0x53)];
    let sr = regs[io_index(SREG_ADDRESS as int)];
    assert((t | 0x10u8) & 0x10u8 == 0x10u8) by (bit_vector);
    assert((t | 0x10u8) & !0x10u8 == t & !0x10u8) by (bit_vector);
    assert((a | 0x02u8) & 0x02u8 == 0x02u8) by (bit_vector);
    assert((a | 0x02u8) & !0x02u8 == a & !0x02u8) by (bit_vector);
    assert((b | 0x02u8 | 0x01u8) & (0x02u8 | 0x01u8) == 0x02u8 | 0x01u8) by (bit_vector);
    assert((b | 0x02u8 | 0x01u8) & !(0x02u8 | 0x01u8) == b & !(0x02u8 | 0x01u8)) by (bit_vector);
    assert((sr | 0x80u8) & 0x80u8 == 0x80u8) by (bit_vector);
    assert((sr | 0x80u8) & 0x7Fu8 == sr & 0x7Fu8) by (bit_vector);
    assert((t | 0x10u8) | 0x10u8 == t | 0x10u8) by (bit_vector);
    assert((a | 0x02u8) | 0x02u8 == a | 0x02u8) by (bit_vector);
    assert((b | 0x02u8 | 0x01u8) | 0x02u8 | 0x01u8 == b | 0x02u8 | 0x01u8) by (bit_vector);
    assert((sr | 0x80u8) | 0x80u8 == sr | 0x80u8) by (bit_vector);
    assert(timers_initialised(after) =~= after);
}

/// Sets up timer 0 to interrupt every 200 counts of 64 clocks (3.2 ms at
/// 4 MHz) and enables interrupts.
pub fn init_timers(regs: &mut IoRegisters)
    ensures
        final(regs)@ == timers_initialised(old(regs)@),
        final(regs).reg(0x59) & OCIE0A == OCIE0A,
        final(regs).reg(0x53) & (CS01 | CS00) == CS01 | CS00,
        timers_initialised(final(regs)@) == final(regs)@,
{
    proof {
        lemma_timer_setup(old(regs)@);
        lemma_register_addresses();
        lemma_set_interrupt_flag_twice(old(regs).reg(SREG_ADDRESS as int));
    }
    let f = |old: Mask<TIMSK>| -> (r: Mask<TIMSK>)
        ensures
            r.value == (old.value | OCIE0A),
    {
        old.bitor(Mask::new(OCIE0A))
    };
    TIMSK::modify(regs, f);
    sei(regs);
    OCR0A::set(regs, 200);
    let g = |old: Mask<TCCR0A>| -> (r: Mask<TCCR0A>)
        ensures
            r.value == (old.value | WGM01),
    {
        old.bitor(Mask::new(WGM01))
    };
    TCCR0A::modify(regs, g);
    let h = |old: Mask<TCCR0B>| -> (r: Mask<TCCR0B>)
        ensures
            r.value == (old.value | CS01 | CS00),
    {
        old.bitor(Mask::new(CS01)).bitor(Mask::new(CS00))
    };
    TCCR0B::modify(regs, h);
}

/// Setting the interrupt flag a second time changes nothing.
proof fn lemma_set_interrupt_flag_twice(sreg: u8)
    ensures
        sreg_saved(sreg_saved(sreg)) == sreg_saved(sreg),
        sreg_saved(sreg) | 0x80u8 == sreg_saved(sreg),
{
    assert((sreg | 0x80u8) | 0x80u8 == sreg | 0x80u8) by (bit_vector);
}

/// Ends the running process: its stack is marked free and the scheduler
/// chooses who runs instead.
pub fn die(regs: &IoRegisters, table: &mut ProcTable) -> (action: SchedulerAction)
    requires
        stack_pointer(*regs) >= STACKS_BASE,
    ensures
        final(table)@ == old(table)@.update(slot(stack_of(stack_pointer(*regs))), dead_info()),
        match action {
            SchedulerAction::Wait => none_awake(*final(table)),
            SchedulerAction::Switch { from_info, to_stack, to_sp } => {
                &&& is_next_stack(*final(table), stack_pointer(*regs) + STACK_SIZE, to_stack as int)
                &&& to_sp == final(table).info(to_stack as int).sp
                &&& from_info == stack_of(stack_pointer(*regs)) - 4
            },
        },
{
    let info_addr = get_proc_info_addr(regs);
    table.set(info_addr + 4, ProcInfo::dead());
    run_scheduler(regs, table)
}

/// What the timer interrupt does: with interrupts disabled it counts a tick
/// off every sleeping process and chooses the next process; the status
/// register is then restored with interrupts enabled.
pub fn timer_interrupt(regs: &mut IoRegisters, table: &mut ProcTable) -> (action: SchedulerAction)
    requires
        stack_pointer(*old(regs)) >= STACKS_BASE,
    ensures
        final(regs)@ == old(regs)@.update(
            io_index(SREG_ADDRESS as int),
            sreg_saved(old(regs).reg(SREG_ADDRESS as int)),
        ),
        forall|a: int| is_stack(a) ==> #[trigger] final(table).info(a) == tick_info(old(table).info(a)),
        match action {
            SchedulerAction::Wait => none_awake(*final(table)),
            SchedulerAction::Switch { from_info, to_stack, to_sp } => {
                &&& is_next_stack(*final(table), stack_pointer(*old(regs)) + STACK_SIZE, to_stack as int)
                &&& to_sp == final(table).info(to_stack as int).sp
                &&& from_info == stack_of(stack_pointer(*old(regs))) - 4
            },
        },
{
    let saved = enter_critical(regs);
    assert(stack_pointer(*regs) == stack_pointer(*old(regs)));
    do_bookkeeping(table);
    let action = run_scheduler(regs, table);
    leave_critical(regs, saved);
    proof {
        crate::attiny85_defs::lemma_cleared_then_restored(old(regs).reg(SREG_ADDRESS as int));
    }
    action
}

/// The timer interrupt of the interrupt test build: every 250th tick it
/// toggles pin 0 of port B. Returns the new tick count.
pub fn test_interrupt_tick(counter: u8, regs: &mut IoRegisters) -> (next: u8)
    requires
        counter < 255,
    ensures
        counter + 1 == 250 ==> next == 0 && final(regs)@ == old(regs)@.update(
            io_index(PORTB::ADDRESS as int),
            old(regs).reg(PORTB::ADDRESS as int) ^ PORTB0,
        ).update(
            io_index(SREG_ADDRESS as int),
            sreg_saved(old(regs).reg(SREG_ADDRESS as int)),
        ),
        counter + 1 != 250 ==> next == counter + 1 && final(regs)@ == old(regs)@,
{
    proof {
        lemma_register_addresses();
    }
    let counter = counter + 1;
    if counter == 250 {
        let f = |old: Mask<PORTB>| -> (r: Mask<PORTB>)
            ensures
                r.value == (old.value ^ PORTB0),
        {
            old.bitxor(Mask::new(PORTB0))
        };
        PORTB::modify(regs, f);
        0
    } else {
        counter
    }
}

} // verus!
