//! Port B pins and the LEDs wired to them.

use vstd::prelude::*;
use core::ops::{BitAnd, BitOr, Not};
use crate::attiny85_defs::{
    io_index, sreg_saved, IoRegisters, Mask, Reg8, SREG_ADDRESS,
};
use crate::registers::{
    lemma_register_addresses,
    DDB0, DDB1, DDB2, DDB3, DDB4, DDB5, DDRB, PORTB, PORTB0, PORTB1, PORTB2, PORTB3, PORTB4,
    PORTB5,
};

verus! {

/// Clock frequency of the processor, in hertz.
pub const CPU_SPEED_HZ: u32 = 4_000_000;

/// A pin of port B.
#[derive(Clone, Copy, Debug, PartialEq, Eq, Structural)]
pub enum Pin {
    Pin0,
    Pin1,
    Pin2,
    Pin3,
    Pin4,
    Pin5,
}

/// The number of the bit that stands for `pin` in the port B registers.
pub open spec fn pin_number(pin: Pin) -> u8 {
    match pin {
        Pin::Pin0 => 0,
        Pin::Pin1 => 1,
        Pin::Pin2 => 2,
        Pin::Pin3 => 3,
        Pin::Pin4 => 4,
        Pin::Pin5 => 5,
    }
}

/// The single bit that stands for `pin` in the port B registers.
pub open spec fn pin_bit(pin: Pin) -> u8 {
    1u8 << pin_number(pin)
}

impl Pin {
    /// The bit of `PORTB` that drives this pin.
    pub fn to_portb_mask(self) -> (m: Mask<PORTB>)
        ensures
            m.value == pin_bit(self),
    {
        proof {
            lemma_pin_bits();
        }
        match self {
            Pin::Pin0 => Mask::new(PORTB0),
            Pin::Pin1 => Mask::new(PORTB1),
            Pin::Pin2 => Mask::new(PORTB2),
            Pin::Pin3 => Mask::new(PORTB3),
            Pin::Pin4 => Mask::new(PORTB4),
            Pin::Pin5 => Mask::new(PORTB5),
        }
    }

    /// The bit of `DDRB` that makes this pin an output.
    pub fn to_ddrb_mask(self) -> (m: Mask<DDRB>)
        ensures
            m.value == pin_bit(self),
    {
        proof {
            lemma_pin_bits();
        }
        match self {
            Pin::Pin0 => Mask::new(DDB0),
            Pin::Pin1 => Mask::new(DDB1),
            Pin::Pin2 => Mask::new(DDB2),
            Pin::Pin3 => Mask::new(DDB3),
            Pin::Pin4 => Mask::new(DDB4),
            Pin::Pin5 => Mask::new(DDB5),
        }
    }
}

/// The value of each pin's bit.
pub proof fn lemma_pin_bits()
    ensures
        pin_bit(Pin::Pin0) == 0x01,
        pin_bit(Pin::Pin1) == 0x02,
        pin_bit(Pin::Pin2) == 0x04,
        pin_bit(Pin::Pin3) == 0x08,
        pin_bit(Pin::Pin4) == 0x10,
        pin_bit(Pin::Pin5) == 0x20,
{
    assert(1u8 << 0u8 == 0x01u8) by (bit_vector);
    assert(1u8 << 1u8 == 0x02u8) by (bit_vector);
    assert(1u8 << 2u8 == 0x04u8) by (bit_vector);
    assert(1u8 << 3u8 == 0x08u8) by (bit_vector);
    assert(1u8 << 4u8 == 0x10u8) by (bit_vector);
    assert(1u8 << 5u8 == 0x20u8) by (bit_vector);
}

/// Two different pins never share a bit of port B.
pub proof fn lemma_pins_disjoint(p: Pin, q: Pin)
    requires
        p != q,
    ensures
        pin_bit(p) & pin_bit(q) == 0,
{
    lemma_pin_bits();
    let a = pin_bit(p);
    let b = pin_bit(q);
    assert(a & b == 0) by (bit_vector)
        requires
            a != b,
            a == 1 || a == 2 || a == 4 || a == 8 || a == 16 || a == 32,
            b == 1 || b == 2 || b == 4 || b == 8 || b == 16 || b == 32,
    ;
}

/// Port B with `bit` set, as `LED::on` leaves it.
pub open spec fn portb_on(portb: u8, bit: u8) -> u8 {
    portb | bit
}

/// Port B with `bit` cleared, as `LED::off` leaves it.
pub open spec fn portb_off(portb: u8, bit: u8) -> u8 {
    portb & !bit
}

/// After `on` the LED's bit is set, after `off` it is clear.
pub proof fn lemma_on_off_bit(portb: u8, pin: Pin)
    ensures
        portb_on(portb, pin_bit(pin)) & pin_bit(pin) == pin_bit(pin),
        portb_off(portb, pin_bit(pin)) & pin_bit(pin) == 0,
{
    let b = pin_bit(pin);
    assert((portb | b) & b == b) by (bit_vector);
    assert((portb & !b) & b == 0) by (bit_vector);
}

/// Switching an LED leaves the bits of every other pin as they were.
pub proof fn lemma_other_pins_unchanged(portb: u8, pin: Pin, other: Pin)
    requires
        pin != other,
    ensures
        portb_on(portb, pin_bit(pin)) & pin_bit(other) == portb & pin_bit(other),
        portb_off(portb, pin_bit(pin)) & pin_bit(other) == portb & pin_bit(other),
{
    lemma_pins_disjoint(pin, other);
    let b = pin_bit(pin);
    let c = pin_bit(other);
    assert((portb | b) & c == portb & c) by (bit_vector)
        requires
            b & c == 0,
    ;
    assert((portb & !b) & c == portb & c) by (bit_vector)
        requires
            b & c == 0,
    ;
}

/// Switching an LED off undoes switching it on, and the other way round:
/// only the last switch counts.
pub proof fn lemma_last_switch_counts(portb: u8, bit: u8)
    ensures
        portb_off(portb_on(portb, bit), bit) == portb_off(portb, bit),
        portb_on(portb_off(portb, bit), bit) == portb_on(portb, bit),
        portb_on(portb_on(portb, bit), bit) == portb_on(portb, bit),
        portb_off(portb_off(portb, bit), bit) == portb_off(portb, bit),
{
    assert((portb | bit) & !bit == portb & !bit) by (bit_vector);
    assert((portb & !bit) | bit == portb | bit) by (bit_vector);
    assert((portb | bit) | bit == portb | bit) by (bit_vector);
    assert((portb & !bit) & !bit == portb & !bit) by (bit_vector);
}

/// An LED driven by one pin of port B.
#[derive(Clone, Copy)]
pub struct LED {
    portb_mask: Mask<PORTB>,
}

impl LED {
    /// The bit of port B that drives this LED.
    pub closed spec fn bit(self) -> u8 {
        self.portb_mask.value
    }

    /// Makes `pin` an output and returns the LED it drives.
    pub fn new(regs: &mut IoRegisters, pin: Pin) -> (led: Self)
        ensures
            led.bit() == pin_bit(pin),
            final(regs)@ == old(regs)@.update(
                io_index(DDRB::ADDRESS as int),
                old(regs).reg(DDRB::ADDRESS as int) | pin_bit(pin),
            ).update(
                io_index(SREG_ADDRESS as int),
                sreg_saved(old(regs).reg(SREG_ADDRESS as int)),
            ),
    {
        proof {
            lemma_register_addresses();
        }
        let ddb = pin.to_ddrb_mask();
        let f = |old: Mask<DDRB>| -> (r: Mask<DDRB>)
            ensures
                r.value == (old.value | ddb.value),
        {
            old.bitor(ddb)
        };
        DDRB::modify(regs, f);
        LED { portb_mask: pin.to_portb_mask() }
    }

    /// Drives the LED's pin high.
    pub fn on(self, regs: &mut IoRegisters)
        ensures
            final(regs)@ == old(regs)@.update(
                io_index(PORTB::ADDRESS as int),
                portb_on(old(regs).reg(PORTB::ADDRESS as int), self.bit()),
            ).update(
                io_index(SREG_ADDRESS as int),
                sreg_saved(old(regs).reg(SREG_ADDRESS as int)),
            ),
    {
        proof {
            lemma_register_addresses();
        }
        let m = self.portb_mask;
        let f = |old: Mask<PORTB>| -> (r: Mask<PORTB>)
            ensures
                r.value == (old.value | m.value),
        {
            old.bitor(m)
        };
        PORTB::modify(regs, f);
    }

    /// Drives the LED's pin low.
    pub fn off(self, regs: &mut IoRegisters)
        ensures
            final(regs)@ == old(regs)@.update(
                io_index(PORTB::ADDRESS as int),
                portb_off(old(regs).reg(PORTB::ADDRESS as int), self.bit()),
            ).update(
                io_index(SREG_ADDRESS as int),
                sreg_saved(old(regs).reg(SREG_ADDRESS as int)),
            ),
    {
        proof {
            lemma_register_addresses();
        }
        let m = self.portb_mask;
        let f = |old: Mask<PORTB>| -> (r: Mask<PORTB>)
            ensures
                r.value == (old.value & !m.value),
        {
            old.bitand(m.not())
        };
        PORTB::modify(regs, f);
    }
}

} // verus!
