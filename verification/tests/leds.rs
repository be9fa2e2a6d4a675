use lib::attiny85_defs::{IoRegisters, Reg8};
use lib::registers::{DDRB, PORTB, SREG};
use lib::util::{Pin, CPU_SPEED_HZ, LED};

#[test]
fn pin_masks_are_single_bits() {
    let pins = [Pin::Pin0, Pin::Pin1, Pin::Pin2, Pin::Pin3, Pin::Pin4, Pin::Pin5];
    let expected = [0x01u8, 0x02, 0x04, 0x08, 0x10, 0x20];
    for (pin, bit) in pins.iter().zip(expected.iter()) {
        assert_eq!(pin.to_portb_mask().value, *bit);
        assert_eq!(pin.to_ddrb_mask().value, *bit);
    }
}

#[test]
fn new_led_makes_its_pin_an_output() {
    let mut regs = IoRegisters::zeroed();
    DDRB::set(&mut regs, 0x01);
    let _led = LED::new(&mut regs, Pin::Pin2);
    assert_eq!(DDRB::get(&regs), 0x05);
    assert_eq!(PORTB::get(&regs), 0x00);
    assert_eq!(SREG::get(&regs), 0x80);
}

#[test]
fn led_on_sets_only_its_bit() {
    let mut regs = IoRegisters::zeroed();
    PORTB::set(&mut regs, 0x21);
    let led = LED::new(&mut regs, Pin::Pin3);
    led.on(&mut regs);
    assert_eq!(PORTB::get(&regs), 0x29);
    led.on(&mut regs);
    assert_eq!(PORTB::get(&regs), 0x29);
}

#[test]
fn led_off_clears_only_its_bit() {
    let mut regs = IoRegisters::zeroed();
    PORTB::set(&mut regs, 0x3F);
    let led = LED::new(&mut regs, Pin::Pin0);
    led.off(&mut regs);
    assert_eq!(PORTB::get(&regs), 0x3E);
    led.off(&mut regs);
    assert_eq!(PORTB::get(&regs), 0x3E);
}

#[test]
fn led_last_switch_counts() {
    let mut regs = IoRegisters::zeroed();
    let green = LED::new(&mut regs, Pin::Pin2);
    let orange = LED::new(&mut regs, Pin::Pin0);
    assert_eq!(DDRB::get(&regs), 0x05);
    green.on(&mut regs);
    orange.on(&mut regs);
    green.off(&mut regs);
    assert_eq!(PORTB::get(&regs), 0x01);
    green.on(&mut regs);
    assert_eq!(PORTB::get(&regs), 0x05);
    orange.off(&mut regs);
    assert_eq!(PORTB::get(&regs), 0x04);
}

#[test]
fn cpu_speed_is_four_megahertz() {
    assert_eq!(CPU_SPEED_HZ, 4_000_000);
}
