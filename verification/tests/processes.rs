use lib::attiny85_defs::{IoRegisters, Reg16, Reg8};
use lib::interface::{delay_ms, fork};
use lib::interrupts::{
    die, do_bookkeeping, init_timers, next_stack, reset_proc_infos, run_scheduler,
    test_interrupt_tick, timer_interrupt, SchedulerAction,
};
use lib::layout::{
    get_proc_info_addr, is_occupied, is_suspended, ProcInfo, ProcTable, StacksIter, FIRST_STACK,
    STACK_SIZE,
};
use lib::process::ProcContext;
use lib::registers::{OCR0A, PORTB, SP, SREG, TCCR0A, TCCR0B, TIMSK};

fn running() -> ProcInfo {
    ProcInfo { sp: 0, alive: true, asleep: 0 }
}

fn sleeping(ticks: u8) -> ProcInfo {
    ProcInfo { sp: 0x100, alive: true, asleep: ticks }
}

fn regs_with_sp(sp: u16) -> IoRegisters {
    let mut regs = IoRegisters::zeroed();
    SP::set(&mut regs, sp);
    regs
}

#[test]
fn stacks_iter_walks_every_stack_once() {
    let mut it = StacksIter::default();
    assert_eq!(it.next(), Some(0xE0));
    assert_eq!(it.next(), Some(0x160));
    assert_eq!(it.next(), Some(0x1E0));
    assert_eq!(it.next(), Some(0x260));
    assert_eq!(it.next(), None);
    assert_eq!(it.next(), None);
}

#[test]
fn layout_constants() {
    assert_eq!(STACK_SIZE, 0x80);
    assert_eq!(FIRST_STACK, 0x260);
    assert_eq!(ProcInfo::at(0x260), 0x25C);
    assert_eq!(ProcInfo::at(0xE0), 0xDC);
}

#[test]
fn dead_info_is_free_and_not_suspended() {
    let d = ProcInfo::dead();
    assert_eq!(d, ProcInfo { sp: 0, alive: false, asleep: 0 });
    let table = ProcTable::all_dead();
    for addr in [0xE0usize, 0x160, 0x1E0, 0x260] {
        assert!(!is_occupied(&table, addr));
        assert!(!is_suspended(&table, addr));
    }
}

#[test]
fn occupied_and_suspended_read_the_control_block() {
    let mut table = ProcTable::all_dead();
    table.set(0x160, sleeping(3));
    assert!(is_occupied(&table, 0x160));
    assert!(is_suspended(&table, 0x160));
    table.set(0x1E0, running());
    assert!(is_occupied(&table, 0x1E0));
    assert!(!is_suspended(&table, 0x1E0));
}

#[test]
fn proc_info_addr_follows_stack_pointer() {
    assert_eq!(get_proc_info_addr(&regs_with_sp(0x25B)), 0x25C);
    assert_eq!(get_proc_info_addr(&regs_with_sp(0x1E0)), 0x25C);
    assert_eq!(get_proc_info_addr(&regs_with_sp(0xFFFF)), 0x25C);
    assert_eq!(get_proc_info_addr(&regs_with_sp(0x1DF)), 0x1DC);
    assert_eq!(get_proc_info_addr(&regs_with_sp(0x160)), 0x1DC);
    assert_eq!(get_proc_info_addr(&regs_with_sp(0x15F)), 0x15C);
    assert_eq!(get_proc_info_addr(&regs_with_sp(0xE0)), 0x15C);
    assert_eq!(get_proc_info_addr(&regs_with_sp(0xDF)), 0xDC);
    assert_eq!(get_proc_info_addr(&regs_with_sp(0x60)), 0xDC);
}

#[test]
fn fork_takes_highest_free_stack_until_full() {
    let mut table = ProcTable::all_dead();
    assert_eq!(ProcInfo::fork(&mut table), Some(0x25C));
    assert_eq!(table.get(0x260), running());
    assert_eq!(ProcInfo::fork(&mut table), Some(0x1DC));
    table.set(0x1E0, ProcInfo::dead());
    assert_eq!(ProcInfo::fork(&mut table), Some(0x1DC));
    assert_eq!(ProcInfo::fork(&mut table), Some(0x15C));
    assert_eq!(ProcInfo::fork(&mut table), Some(0xDC));
    assert_eq!(table.get(0xE0), running());
    let before = [table.get(0xE0), table.get(0x160), table.get(0x1E0), table.get(0x260)];
    assert_eq!(ProcInfo::fork(&mut table), None);
    let after = [table.get(0xE0), table.get(0x160), table.get(0x1E0), table.get(0x260)];
    assert_eq!(before, after);
}

#[test]
fn fork_sets_up_timers() {
    let mut regs = IoRegisters::zeroed();
    TCCR0B::set(&mut regs, 0x40);
    let mut table = ProcTable::all_dead();
    table.set(0x260, running());
    assert_eq!(fork(&mut regs, &mut table), Some(0x1DC));
    assert_eq!(TIMSK::get(&regs), 0x10);
    assert_eq!(OCR0A::get(&regs), 200);
    assert_eq!(TCCR0A::get(&regs), 0x02);
    assert_eq!(TCCR0B::get(&regs), 0x43);
    assert_eq!(SREG::get(&regs), 0x80);
    assert!(is_occupied(&table, 0x1E0));
}

#[test]
fn init_timers_keeps_status_bits() {
    let mut regs = IoRegisters::zeroed();
    SREG::set(&mut regs, 0x03);
    init_timers(&mut regs);
    assert_eq!(SREG::get(&regs), 0x83);
    assert_eq!(OCR0A::get(&regs), 200);
}

#[test]
fn switch_to_saves_and_resumes() {
    let mut from = running();
    let mut to = sleeping(0);
    let dest = from.switch_to(&mut to, 0x1D0);
    assert_eq!(dest, 0x100);
    assert_eq!(from.sp, 0x1D0);
    assert_eq!(to.sp, 0);
    assert!(to.alive);
}

#[test]
fn context_switch_saves_stack_pointer() {
    let mut ctx = ProcContext::new(0);
    let dest = ctx.switch_to(ProcContext::new(0x155), 0x240);
    assert_eq!(dest, 0x155);
    assert_eq!(ctx.sp, 0x240);
}

#[test]
fn next_stack_round_robin() {
    let mut table = ProcTable::all_dead();
    table.set(0xE0, sleeping(0));
    table.set(0x1E0, sleeping(0));
    table.set(0x260, running());
    // running on the 0x160 stack: the next awake above is 0x1E0
    assert_eq!(next_stack(&table, 0x150), Some(0x1E0));
    // running on the 0x1E0 stack: next is 0x260
    assert_eq!(next_stack(&table, 0x1D0), Some(0x260));
    // running on the first stack: wrap round to the lowest
    assert_eq!(next_stack(&table, 0x250), Some(0xE0));
    // the choice does not depend on where in the stack the pointer is
    assert_eq!(next_stack(&table, 0x1E0 - 0x80), Some(0x260));
    assert_eq!(next_stack(&table, 0x1DB), Some(0x260));
}

#[test]
fn next_stack_skips_sleeping_and_dead() {
    let mut table = ProcTable::all_dead();
    table.set(0xE0, sleeping(2));
    table.set(0x160, ProcInfo { sp: 0x120, alive: false, asleep: 0 });
    table.set(0x1E0, sleeping(0));
    assert_eq!(next_stack(&table, 0x250), Some(0x1E0));
    assert_eq!(next_stack(&table, 0x1D0), Some(0x1E0));
    table.set(0x1E0, sleeping(1));
    assert_eq!(next_stack(&table, 0x250), None);
}

#[test]
fn run_scheduler_waits_when_nobody_is_awake() {
    let table = ProcTable::all_dead();
    let regs = regs_with_sp(0x250);
    assert!(matches!(run_scheduler(&regs, &table), SchedulerAction::Wait));
}

#[test]
fn run_scheduler_switches_to_next() {
    let mut table = ProcTable::all_dead();
    table.set(0x260, running());
    table.set(0x160, ProcInfo { sp: 0x140, alive: true, asleep: 0 });
    let regs = regs_with_sp(0x250);
    match run_scheduler(&regs, &table) {
        SchedulerAction::Switch { from_info, to_stack, to_sp } => {
            assert_eq!(from_info, 0x25C);
            assert_eq!(to_stack, 0x160);
            assert_eq!(to_sp, 0x140);
        }
        SchedulerAction::Wait => panic!("expected a switch"),
    }
}

#[test]
fn bookkeeping_counts_down_living_sleepers() {
    let mut table = ProcTable::all_dead();
    table.set(0xE0, sleeping(2));
    table.set(0x160, ProcInfo { sp: 0, alive: false, asleep: 5 });
    table.set(0x1E0, running());
    table.set(0x260, sleeping(1));
    do_bookkeeping(&mut table);
    assert_eq!(table.get(0xE0).asleep, 1);
    assert_eq!(table.get(0x160).asleep, 5);
    assert_eq!(table.get(0x1E0).asleep, 0);
    assert_eq!(table.get(0x260).asleep, 0);
    do_bookkeeping(&mut table);
    assert_eq!(table.get(0xE0).asleep, 0);
    assert_eq!(table.get(0x260).asleep, 0);
    assert_eq!(table.get(0xE0).sp, 0x100);
}

#[test]
fn reset_frees_all_but_the_first_stack() {
    let mut table = ProcTable::all_dead();
    table.set(0xE0, sleeping(2));
    table.set(0x160, sleeping(0));
    table.set(0x1E0, running());
    table.set(0x260, sleeping(7));
    reset_proc_infos(&mut table);
    assert_eq!(table.get(0xE0), ProcInfo::dead());
    assert_eq!(table.get(0x160), ProcInfo::dead());
    assert_eq!(table.get(0x1E0), ProcInfo::dead());
    assert_eq!(table.get(0x260), sleeping(7));
}

#[test]
fn die_frees_own_stack() {
    let mut table = ProcTable::all_dead();
    table.set(0x1E0, running());
    table.set(0x260, sleeping(0));
    let regs = regs_with_sp(0x1C0);
    match die(&regs, &mut table) {
        SchedulerAction::Switch { from_info, to_stack, to_sp } => {
            assert_eq!(from_info, 0x1DC);
            assert_eq!(to_stack, 0x260);
            assert_eq!(to_sp, 0x100);
        }
        SchedulerAction::Wait => panic!("expected a switch"),
    }
    assert_eq!(table.get(0x1E0), ProcInfo::dead());
}

#[test]
fn die_of_last_process_waits() {
    let mut table = ProcTable::all_dead();
    table.set(0x260, running());
    let regs = regs_with_sp(0x240);
    assert!(matches!(die(&regs, &mut table), SchedulerAction::Wait));
    assert!(!is_occupied(&table, 0x260));
}

#[test]
fn timer_interrupt_ticks_then_schedules() {
    let mut table = ProcTable::all_dead();
    table.set(0x260, running());
    table.set(0xE0, sleeping(1));
    let mut regs = regs_with_sp(0x240);
    SREG::set(&mut regs, 0x02);
    match timer_interrupt(&mut regs, &mut table) {
        SchedulerAction::Switch { to_stack, .. } => assert_eq!(to_stack, 0xE0),
        SchedulerAction::Wait => panic!("expected a switch"),
    }
    assert_eq!(table.get(0xE0).asleep, 0);
    assert_eq!(SREG::get(&regs), 0x82);
    assert_eq!(SP::get(&regs), 0x240);
}

#[test]
fn test_tick_toggles_every_250th() {
    let mut regs = IoRegisters::zeroed();
    let mut counter = 0u8;
    for _ in 0..249 {
        counter = test_interrupt_tick(counter, &mut regs);
    }
    assert_eq!(counter, 249);
    assert_eq!(PORTB::get(&regs), 0);
    counter = test_interrupt_tick(counter, &mut regs);
    assert_eq!(counter, 0);
    assert_eq!(PORTB::get(&regs), 1);
    for _ in 0..250 {
        counter = test_interrupt_tick(counter, &mut regs);
    }
    assert_eq!(PORTB::get(&regs), 0);
}

#[test]
fn delay_plan_chunks() {
    assert_eq!(delay_ms(0), vec![0]);
    assert_eq!(delay_ms(3), vec![0]);
    assert_eq!(delay_ms(4), vec![1]);
    assert_eq!(delay_ms(1020), vec![255]);
    assert_eq!(delay_ms(1023), vec![255]);
    assert_eq!(delay_ms(1024), vec![255, 1]);
    assert_eq!(delay_ms(2040), vec![255, 255]);
    assert_eq!(delay_ms(2044), vec![255, 255, 1]);
}

#[test]
fn delay_plan_adds_up() {
    for ms in [0u16, 1, 250, 999, 1024, 4096, 40000, 65535] {
        let plan = delay_ms(ms);
        let sum: u32 = plan.iter().map(|&c| c as u32).sum();
        assert_eq!(sum, (ms / 4) as u32);
        assert!(plan[..plan.len() - 1].iter().all(|&c| c == 255));
    }
    assert_eq!(delay_ms(65535).len(), 65);
}

#[test]
fn set_asleep_changes_only_sleep() {
    let mut table = ProcTable::all_dead();
    table.set(0x160, running());
    table.set_asleep(0x160, 9);
    assert_eq!(table.get(0x160), ProcInfo { sp: 0, alive: true, asleep: 9 });
}

#[test]
fn test_tick_counts_past_250_without_toggling() {
    let mut regs = IoRegisters::zeroed();
    assert_eq!(test_interrupt_tick(250, &mut regs), 251);
    assert_eq!(test_interrupt_tick(253, &mut regs), 254);
    assert_eq!(PORTB::get(&regs), 0);
    assert_eq!(SREG::get(&regs), 0);
}

#[test]
fn every_awake_process_gets_its_turn() {
    let mut table = ProcTable::all_dead();
    table.set(0xE0, sleeping(0));
    table.set(0x160, sleeping(4));
    table.set(0x1E0, sleeping(0));
    table.set(0x260, running());
    // Start on the 0x160 stack and follow the scheduler's choices, running
    // each chosen process somewhere inside its own stack.
    let mut current = 0x160usize;
    let mut seen = Vec::new();
    for _ in 0..4 {
        let next = next_stack(&table, current - 0x20).expect("somebody is awake");
        seen.push(next);
        current = next;
    }
    assert_eq!(seen, vec![0x1E0, 0x260, 0xE0, 0x1E0]);
}
