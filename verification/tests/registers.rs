use lib::attiny85_defs::{cli, sei, uninterrupted, IoRegisters, Mask, Reg16, Reg8};
use lib::registers::{
    ADC, CS00, CS01, DDRB, I, OCIE0A, OCR0A, PORTB, PORTB0, PORTB3, SP, SPH, SPL, SREG, TCCR0A,
    TCCR0B, TIMSK, WGM01,
};

fn io(addr: usize) -> usize {
    addr - 0x20
}

#[test]
fn mask_operators_act_bitwise() {
    let a: Mask<PORTB> = Mask::new(0b1100_1010);
    let b: Mask<PORTB> = Mask::new(0b0101_0110);
    assert_eq!((a | b).value, 0b1101_1110);
    assert_eq!((a & b).value, 0b0100_0010);
    assert_eq!((a ^ b).value, 0b1001_1100);
    assert_eq!((!a).value, 0b0011_0101);
    assert_eq!((!!a).value, a.value);
    let c = a.clone();
    assert_eq!(c.value, a.value);
}

#[test]
fn register_constants_have_their_bits() {
    assert_eq!(I, 0x80);
    assert_eq!(OCIE0A, 0x10);
    assert_eq!(WGM01, 0x02);
    assert_eq!(CS01 | CS00, 0x03);
    assert_eq!(PORTB0, 0x01);
    assert_eq!(PORTB3, 0x08);
    assert_eq!(SREG::ADDRESS, 0x5F);
    assert_eq!(PORTB::ADDRESS, 0x38);
    assert_eq!(DDRB::ADDRESS, 0x37);
    assert_eq!(SP::ADDRESS, SPL::ADDRESS);
    assert_eq!(ADC::ADDRESS, 0x24);
}

#[test]
fn read_gives_back_last_write() {
    let mut regs = IoRegisters::zeroed();
    PORTB::set(&mut regs, 0x5A);
    assert_eq!(PORTB::get(&regs), 0x5A);
    DDRB::set(&mut regs, 0x1F);
    assert_eq!(PORTB::get(&regs), 0x5A);
    assert_eq!(DDRB::get(&regs), 0x1F);
    assert_eq!(regs.bytes[io(0x38)], 0x5A);
}

#[test]
fn register_pair_is_little_endian() {
    let mut regs = IoRegisters::zeroed();
    SP::set(&mut regs, 0x025F);
    assert_eq!(SPL::get(&regs), 0x5F);
    assert_eq!(SPH::get(&regs), 0x02);
    assert_eq!(SP::get(&regs), 0x025F);
    ADC::set(&mut regs, 0xABCD);
    assert_eq!(ADC::get(&regs), 0xABCD);
    assert_eq!(regs.bytes[io(0x24)], 0xCD);
    assert_eq!(regs.bytes[io(0x25)], 0xAB);
}

#[test]
fn modify_sets_bits_and_enables_interrupts() {
    let mut regs = IoRegisters::zeroed();
    TIMSK::set(&mut regs, 0x02);
    SREG::set(&mut regs, 0x03);
    TIMSK::modify(&mut regs, |old| old | Mask::new(OCIE0A));
    assert_eq!(TIMSK::get(&regs), 0x12);
    assert_eq!(SREG::get(&regs), 0x83);
}

#[test]
fn modify_sees_register_before_change() {
    let mut regs = IoRegisters::zeroed();
    PORTB::set(&mut regs, 0b0000_1111);
    PORTB::modify(&mut regs, |old| old & !Mask::new(0b0000_0101));
    assert_eq!(PORTB::get(&regs), 0b0000_1010);
}

#[test]
fn modify_of_status_register_sees_interrupts_disabled() {
    let mut regs = IoRegisters::zeroed();
    SREG::set(&mut regs, 0x81);
    let mut seen = 0u8;
    SREG::modify(&mut regs, |old| {
        seen = old.value;
        old
    });
    assert_eq!(seen, 0x01);
    assert_eq!(SREG::get(&regs), 0x81);
}

#[test]
fn sei_and_cli_switch_the_interrupt_flag() {
    let mut regs = IoRegisters::zeroed();
    SREG::set(&mut regs, 0x42);
    sei(&mut regs);
    assert_eq!(SREG::get(&regs), 0xC2);
    cli(&mut regs);
    assert_eq!(SREG::get(&regs), 0x42);
}

#[test]
fn uninterrupted_runs_with_interrupts_off_and_restores() {
    let mut regs = IoRegisters::zeroed();
    SREG::set(&mut regs, 0x02);
    uninterrupted(&mut regs, |mut r| {
        assert_eq!(SREG::get(&r), 0x02);
        PORTB::set(&mut r, 0x07);
        SREG::set(&mut r, 0x01);
        r
    });
    assert_eq!(PORTB::get(&regs), 0x07);
    assert_eq!(SREG::get(&regs), 0x83);
}

#[test]
fn uninterrupted_sets_interrupt_flag_even_if_clear_on_entry() {
    let mut regs = IoRegisters::zeroed();
    uninterrupted(&mut regs, |r| r);
    assert_eq!(SREG::get(&regs), 0x80);
}

#[test]
fn timer_registers_each_hold_their_own_value() {
    let mut regs = IoRegisters::zeroed();
    OCR0A::set(&mut regs, 200);
    TCCR0A::set(&mut regs, 1);
    TCCR0B::set(&mut regs, 2);
    assert_eq!(OCR0A::get(&regs), 200);
    assert_eq!(TCCR0A::get(&regs), 1);
    assert_eq!(TCCR0B::get(&regs), 2);
}
