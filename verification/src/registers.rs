//! The ATtiny85 I/O register map: one marker type per register and one
//! constant per named bit.

use vstd::prelude::*;
use crate::attiny85_defs::{Reg8, Reg16};

verus! {

/// The I/O register at data address 0x5F.
#[allow(non_camel_case_types)]
pub struct SREG;

impl Reg8 for SREG {
    const ADDRESS: usize = 0x5F;
}

/// Bit 7 of `SREG`.
pub const I: u8 = 0b1000_0000;
/// Bit 6 of `SREG`.
pub const T: u8 = 0b0100_0000;
/// Bit 5 of `SREG`.
pub const H: u8 = 0b0010_0000;
/// Bit 4 of `SREG`.
pub const S: u8 = 0b0001_0000;
/// Bit 3 of `SREG`.
pub const V: u8 = 0b0000_1000;
/// Bit 2 of `SREG`.
pub const N: u8 = 0b0000_0100;
/// Bit 1 of `SREG`.
pub const Z: u8 = 0b0000_0010;
/// Bit 0 of `SREG`.
pub const C: u8 = 0b0000_0001;

/// The I/O register at data address 0x5E.
#[allow(non_camel_case_types)]
pub struct SPH;

impl Reg8 for SPH {
    const ADDRESS: usize = 0x5E;
}

/// Bit 2 of `SPH`.
pub const SP10: u8 = 0b0000_0100;
/// Bit 1 of `SPH`.
pub const SP9: u8 = 0b0000_0010;
/// Bit 0 of `SPH`.
pub const SP8: u8 = 0b0000_0001;

/// The I/O register at data address 0x5D.
#[allow(non_camel_case_types)]
pub struct SPL;

impl Reg8 for SPL {
    const ADDRESS: usize = 0x5D;
}

/// Bit 7 of `SPL`.
pub const SP7: u8 = 0b1000_0000;
/// Bit 6 of `SPL`.
pub const SP6: u8 = 0b0100_0000;
/// Bit 5 of `SPL`.
pub const SP5: u8 = 0b0010_0000;
/// Bit 4 of `SPL`.
pub const SP4: u8 = 0b0001_0000;
/// Bit 3 of `SPL`.
pub const SP3: u8 = 0b0000_1000;
/// Bit 2 of `SPL`.
pub const SP2: u8 = 0b0000_0100;
/// Bit 1 of `SPL`.
pub const SP1: u8 = 0b0000_0010;
/// Bit 0 of `SPL`.
pub const SP0: u8 = 0b0000_0001;

/// The I/O register at data address 0x5B.
#[allow(non_camel_case_types)]
pub struct GIMSK;

impl Reg8 for GIMSK {
    const ADDRESS: usize = 0x5B;
}

/// Bit 6 of `GIMSK`.
pub const INT0: u8 = 0b0100_0000;
/// Bit 5 of `GIMSK`.
pub const PCIE: u8 = 0b0010_0000;

/// The I/O register at data address 0x5A.
#[allow(non_camel_case_types)]
pub struct GIFR;

impl Reg8 for GIFR {
    const ADDRESS: usize = 0x5A;
}

/// Bit 6 of `GIFR`.
pub const INTF0: u8 = 0b0100_0000;
/// Bit 5 of `GIFR`.
pub const PCIF: u8 = 0b0010_0000;

/// The I/O register at data address 0x59.
#[allow(non_camel_case_types)]
pub struct TIMSK;

impl Reg8 for TIMSK {
    const ADDRESS: usize = 0x59;
}

/// Bit 6 of `TIMSK`.
pub const OCIE1A: u8 = 0b0100_0000;
/// Bit 5 of `TIMSK`.
pub const OCIE1B: u8 = 0b0010_0000;
/// Bit 4 of `TIMSK`.
pub const OCIE0A: u8 = 0b0001_0000;
/// Bit 3 of `TIMSK`.
pub const OCIE0B: u8 = 0b0000_1000;
/// Bit 2 of `TIMSK`.
pub const TOIE1: u8 = 0b0000_0100;
/// Bit 1 of `TIMSK`.
pub const TOIE0: u8 = 0b0000_0010;

/// The I/O register at data address 0x58.
#[allow(non_camel_case_types)]
pub struct TIFR;

impl Reg8 for TIFR {
    const ADDRESS: usize = 0x58;
}

/// Bit 6 of `TIFR`.
pub const OCF1A: u8 = 0b0100_0000;
/// Bit 5 of `TIFR`.
pub const OCF1B: u8 = 0b0010_0000;
/// Bit 4 of `TIFR`.
pub const OCF0A: u8 = 0b0001_0000;
/// Bit 3 of `TIFR`.
pub const OCF0B: u8 = 0b0000_1000;
/// Bit 2 of `TIFR`.
pub const TOV1: u8 = 0b0000_0100;
/// Bit 1 of `TIFR`.
pub const TOV0: u8 = 0b0000_0010;

/// The I/O register at data address 0x57.
#[allow(non_camel_case_types)]
pub struct SPMCSR;

impl Reg8 for SPMCSR {
    const ADDRESS: usize = 0x57;
}

/// Bit 5 of `SPMCSR`.
pub const RSIG: u8 = 0b0010_0000;
/// Bit 4 of `SPMCSR`.
pub const CTPB: u8 = 0b0001_0000;
/// Bit 3 of `SPMCSR`.
pub const RFLB: u8 = 0b0000_1000;
/// Bit 2 of `SPMCSR`.
pub const PGWRT: u8 = 0b0000_0100;
/// Bit 1 of `SPMCSR`.
pub const PGERS: u8 = 0b0000_0010;
/// Bit 0 of `SPMCSR`.
pub const SPMEN: u8 = 0b0000_0001;

/// The I/O register at data address 0x55.
#[allow(non_camel_case_types)]
pub struct MCUCR;

impl Reg8 for MCUCR {
    const ADDRESS: usize = 0x55;
}

/// Bit 7 of `MCUCR`.
pub const BODS: u8 = 0b1000_0000;
/// Bit 6 of `MCUCR`.
pub const PUD: u8 = 0b0100_0000;
/// Bit 5 of `MCUCR`.
pub const SE: u8 = 0b0010_0000;
/// Bit 4 of `MCUCR`.
pub const SM1: u8 = 0b0001_0000;
/// Bit 3 of `MCUCR`.
pub const SM0: u8 = 0b0000_1000;
/// Bit 2 of `MCUCR`.
pub const BODSE: u8 = 0b0000_0100;
/// Bit 1 of `MCUCR`.
pub const ISC01: u8 = 0b0000_0010;
/// Bit 0 of `MCUCR`.
pub const ISC00: u8 = 0b0000_0001;

/// The I/O register at data address 0x54.
#[allow(non_camel_case_types)]
pub struct MCUSR;

impl Reg8 for MCUSR {
    const ADDRESS: usize = 0x54;
}

/// Bit 3 of `MCUSR`.
pub const WDRF: u8 = 0b0000_1000;
/// Bit 2 of `MCUSR`.
pub const BORF: u8 = 0b0000_0100;
/// Bit 1 of `MCUSR`.
pub const EXTRF: u8 = 0b0000_0010;
/// Bit 0 of `MCUSR`.
pub const PORF: u8 = 0b0000_0001;

/// The I/O register at data address 0x53.
#[allow(non_camel_case_types)]
pub struct TCCR0B;

impl Reg8 for TCCR0B {
    const ADDRESS: usize = 0x53;
}

/// Bit 7 of `TCCR0B`.
pub const FOC0A: u8 = 0b1000_0000;
/// Bit 6 of `TCCR0B`.
pub const FOC0B: u8 = 0b0100_0000;
/// Bit 3 of `TCCR0B`.
pub const WGM02: u8 = 0b0000_1000;
/// Bit 2 of `TCCR0B`.
pub const CS02: u8 = 0b0000_0100;
/// Bit 1 of `TCCR0B`.
pub const CS01: u8 = 0b0000_0010;
/// Bit 0 of `TCCR0B`.
pub const CS00: u8 = 0b0000_0001;

/// The I/O register at data address 0x52.
#[allow(non_camel_case_types)]
pub struct TCNT0;

impl Reg8 for TCNT0 {
    const ADDRESS: usize = 0x52;
}

/// The I/O register at data address 0x51.
#[allow(non_camel_case_types)]
pub struct OSCCAL;

impl Reg8 for OSCCAL {
    const ADDRESS: usize = 0x51;
}

/// The I/O register at data address 0x50.
#[allow(non_camel_case_types)]
pub struct TCCR1;

impl Reg8 for TCCR1 {
    const ADDRESS: usize = 0x50;
}

/// Bit 7 of `TCCR1`.
pub const CTC1: u8 = 0b1000_0000;
/// Bit 6 of `TCCR1`.
pub const PWM1A: u8 = 0b0100_0000;
/// Bit 5 of `TCCR1`.
pub const COM1A1: u8 = 0b0010_0000;
/// Bit 4 of `TCCR1`.
pub const COM1A0: u8 = 0b0001_0000;
/// Bit 3 of `TCCR1`.
pub const CS13: u8 = 0b0000_1000;
/// Bit 2 of `TCCR1`.
pub const CS12: u8 = 0b0000_0100;
/// Bit 1 of `TCCR1`.
pub const CS11: u8 = 0b0000_0010;
/// Bit 0 of `TCCR1`.
pub const CS10: u8 = 0b0000_0001;

/// The I/O register at data address 0x4F.
#[allow(non_camel_case_types)]
pub struct TCNT1;

impl Reg8 for TCNT1 {
    const ADDRESS: usize = 0x4F;
}

/// The I/O register at data address 0x4E.
#[allow(non_camel_case_types)]
pub struct OCR1A;

impl Reg8 for OCR1A {
    const ADDRESS: usize = 0x4E;
}

/// The I/O register at data address 0x4D.
#[allow(non_camel_case_types)]
pub struct OCR1C;

impl Reg8 for OCR1C {
    const ADDRESS: usize = 0x4D;
}

/// The I/O register at data address 0x4C.
#[allow(non_camel_case_types)]
pub struct GTCCR;

impl Reg8 for GTCCR {
    const ADDRESS: usize = 0x4C;
}

/// Bit 7 of `GTCCR`.
pub const TSM: u8 = 0b1000_0000;
/// Bit 6 of `GTCCR`.
pub const PWM1B: u8 = 0b0100_0000;
/// Bit 5 of `GTCCR`.
pub const COM1B1: u8 = 0b0010_0000;
/// Bit 4 of `GTCCR`.
pub const COM1B0: u8 = 0b0001_0000;
/// Bit 3 of `GTCCR`.
pub const FOC1B: u8 = 0b0000_1000;
/// Bit 2 of `GTCCR`.
pub const FOC1A: u8 = 0b0000_0100;
/// Bit 1 of `GTCCR`.
pub const PSR1: u8 = 0b0000_0010;
/// Bit 0 of `GTCCR`.
pub const PSR0: u8 = 0b0000_0001;

/// The I/O register at data address 0x4B.
#[allow(non_camel_case_types)]
pub struct OCR1B;

impl Reg8 for OCR1B {
    const ADDRESS: usize = 0x4B;
}

/// The I/O register at data address 0x4A.
#[allow(non_camel_case_types)]
pub struct TCCR0A;

impl Reg8 for TCCR0A {
    const ADDRESS: usize = 0x4A;
}

/// Bit 7 of `TCCR0A`.
pub const COM0A1: u8 = 0b1000_0000;
/// Bit 6 of `TCCR0A`.
pub const COM0A0: u8 = 0b0100_0000;
/// Bit 5 of `TCCR0A`.
pub const COM0B1: u8 = 0b0010_0000;
/// Bit 4 of `TCCR0A`.
pub const COM0B0: u8 = 0b0001_0000;
/// Bit 1 of `TCCR0A`.
pub const WGM01: u8 = 0b0000_0010;
/// Bit 0 of `TCCR0A`.
pub const WGM00: u8 = 0b0000_0001;

/// The I/O register at data address 0x49.
#[allow(non_camel_case_types)]
pub struct OCR0A;

impl Reg8 for OCR0A {
    const ADDRESS: usize = 0x49;
}

/// The I/O register at data address 0x48.
#[allow(non_camel_case_types)]
pub struct OCR0B;

impl Reg8 for OCR0B {
    const ADDRESS: usize = 0x48;
}

/// The I/O register at data address 0x47.
#[allow(non_camel_case_types)]
pub struct PLLCSR;

impl Reg8 for PLLCSR {
    const ADDRESS: usize = 0x47;
}

/// Bit 7 of `PLLCSR`.
pub const LSM: u8 = 0b1000_0000;
/// Bit 2 of `PLLCSR`.
pub const PCKE: u8 = 0b0000_0100;
/// Bit 1 of `PLLCSR`.
pub const PLLE: u8 = 0b0000_0010;
/// Bit 0 of `PLLCSR`.
pub const PLOCK: u8 = 0b0000_0001;

/// The I/O register at data address 0x46.
#[allow(non_camel_case_types)]
pub struct CLKPR;

impl Reg8 for CLKPR {
    const ADDRESS: usize = 0x46;
}

/// Bit 7 of `CLKPR`.
pub const CLKPCE: u8 = 0b1000_0000;
/// Bit 3 of `CLKPR`.
pub const CLKPS3: u8 = 0b0000_1000;
/// Bit 2 of `CLKPR`.
pub const CLKPS2: u8 = 0b0000_0100;
/// Bit 1 of `CLKPR`.
pub const CLKPS1: u8 = 0b0000_0010;
/// Bit 0 of `CLKPR`.
pub const CLKPS0: u8 = 0b0000_0001;

/// The I/O register at data address 0x45.
#[allow(non_camel_case_types)]
pub struct DT1A;

impl Reg8 for DT1A {
    const ADDRESS: usize = 0x45;
}

/// Bit 7 of `DT1A`.
pub const DT1AH3: u8 = 0b1000_0000;
/// Bit 6 of `DT1A`.
pub const DT1AH2: u8 = 0b0100_0000;
/// Bit 5 of `DT1A`.
pub const DT1AH1: u8 = 0b0010_0000;
/// Bit 4 of `DT1A`.
pub const DT1AH0: u8 = 0b0001_0000;
/// Bit 3 of `DT1A`.
pub const DT1AL3: u8 = 0b0000_1000;
/// Bit 2 of `DT1A`.
pub const DT1AL2: u8 = 0b0000_0100;
/// Bit 1 of `DT1A`.
pub const DT1AL1: u8 = 0b0000_0010;
/// Bit 0 of `DT1A`.
pub const DT1AL0: u8 = 0b0000_0001;

/// The I/O register at data address 0x44.
#[allow(non_camel_case_types)]
pub struct DT1B;

impl Reg8 for DT1B {
    const ADDRESS: usize = 0x44;
}

/// Bit 7 of `DT1B`.
pub const DT1BH3: u8 = 0b1000_0000;
/// Bit 6 of `DT1B`.
pub const DT1BH2: u8 = 0b0100_0000;
/// Bit 5 of `DT1B`.
pub const DT1BH1: u8 = 0b0010_0000;
/// Bit 4 of `DT1B`.
pub const DT1BH0: u8 = 0b0001_0000;
/// Bit 3 of `DT1B`.
pub const DT1BL3: u8 = 0b0000_1000;
/// Bit 2 of `DT1B`.
pub const DT1BL2: u8 = 0b0000_0100;
/// Bit 1 of `DT1B`.
pub const DT1BL1: u8 = 0b0000_0010;
/// Bit 0 of `DT1B`.
pub const DT1BL0: u8 = 0b0000_0001;

/// The I/O register at data address 0x43.
#[allow(non_camel_case_types)]
pub struct DTPS1;

impl Reg8 for DTPS1 {
    const ADDRESS: usize = 0x43;
}

/// Bit 1 of `DTPS1`.
pub const DTPS11: u8 = 0b0000_0010;
/// Bit 0 of `DTPS1`.
pub const DTPS10: u8 = 0b0000_0001;

/// The I/O register at data address 0x42.
#[allow(non_camel_case_types)]
pub struct DWDR;

impl Reg8 for DWDR {
    const ADDRESS: usize = 0x42;
}

/// The I/O register at data address 0x41.
#[allow(non_camel_case_types)]
pub struct WDTCR;

impl Reg8 for WDTCR {
    const ADDRESS: usize = 0x41;
}

/// Bit 7 of `WDTCR`.
pub const WDIF: u8 = 0b1000_0000;
/// Bit 6 of `WDTCR`.
pub const WDIE: u8 = 0b0100_0000;
/// Bit 5 of `WDTCR`.
pub const WDP3: u8 = 0b0010_0000;
/// Bit 4 of `WDTCR`.
pub const WDCE: u8 = 0b0001_0000;
/// Bit 3 of `WDTCR`.
pub const WDE: u8 = 0b0000_1000;
/// Bit 2 of `WDTCR`.
pub const WDP2: u8 = 0b0000_0100;
/// Bit 1 of `WDTCR`.
pub const WDP1: u8 = 0b0000_0010;
/// Bit 0 of `WDTCR`.
pub const WDP0: u8 = 0b0000_0001;

/// The I/O register at data address 0x40.
#[allow(non_camel_case_types)]
pub struct PRR;

impl Reg8 for PRR {
    const ADDRESS: usize = 0x40;
}

/// Bit 3 of `PRR`.
pub const PRTIM1: u8 = 0b0000_1000;
/// Bit 2 of `PRR`.
pub const PRTIM0: u8 = 0b0000_0100;
/// Bit 1 of `PRR`.
pub const PRUS1: u8 = 0b0000_0010;
/// Bit 0 of `PRR`.
pub const PRADC: u8 = 0b0000_0001;

/// The I/O register at data address 0x3F.
#[allow(non_camel_case_types)]
pub struct EEARH;

impl Reg8 for EEARH {
    const ADDRESS: usize = 0x3F;
}

/// The I/O register at data address 0x3E.
#[allow(non_camel_case_types)]
pub struct EEARL;

impl Reg8 for EEARL {
    const ADDRESS: usize = 0x3E;
}

/// The I/O register at data address 0x3D.
#[allow(non_camel_case_types)]
pub struct EEDR;

impl Reg8 for EEDR {
    const ADDRESS: usize = 0x3D;
}

/// The I/O register at data address 0x3C.
#[allow(non_camel_case_types)]
pub struct EECR;

impl Reg8 for EECR {
    const ADDRESS: usize = 0x3C;
}

/// Bit 5 of `EECR`.
pub const EEPM1: u8 = 0b0010_0000;
/// Bit 4 of `EECR`.
pub const EEPM0: u8 = 0b0001_0000;
/// Bit 3 of `EECR`.
pub const EERIE: u8 = 0b0000_1000;
/// Bit 2 of `EECR`.
pub const EEMPE: u8 = 0b0000_0100;
/// Bit 1 of `EECR`.
pub const EEPE: u8 = 0b0000_0010;
/// Bit 0 of `EECR`.
pub const EERE: u8 = 0b0000_0001;

/// The I/O register at data address 0x38.
#[allow(non_camel_case_types)]
pub struct PORTB;

impl Reg8 for PORTB {
    const ADDRESS: usize = 0x38;
}

/// Bit 5 of `PORTB`.
pub const PORTB5: u8 = 0b0010_0000;
/// Bit 4 of `PORTB`.
pub const PORTB4: u8 = 0b0001_0000;
/// Bit 3 of `PORTB`.
pub const PORTB3: u8 = 0b0000_1000;
/// Bit 2 of `PORTB`.
pub const PORTB2: u8 = 0b0000_0100;
/// Bit 1 of `PORTB`.
pub const PORTB1: u8 = 0b0000_0010;
/// Bit 0 of `PORTB`.
pub const PORTB0: u8 = 0b0000_0001;

/// The I/O register at data address 0x37.
#[allow(non_camel_case_types)]
pub struct DDRB;

impl Reg8 for DDRB {
    const ADDRESS: usize = 0x37;
}

/// Bit 5 of `DDRB`.
pub const DDB5: u8 = 0b0010_0000;
/// Bit 4 of `DDRB`.
pub const DDB4: u8 = 0b0001_0000;
/// Bit 3 of `DDRB`.
pub const DDB3: u8 = 0b0000_1000;
/// Bit 2 of `DDRB`.
pub const DDB2: u8 = 0b0000_0100;
/// Bit 1 of `DDRB`.
pub const DDB1: u8 = 0b0000_0010;
/// Bit 0 of `DDRB`.
pub const DDB0: u8 = 0b0000_0001;

/// The I/O register at data address 0x36.
#[allow(non_camel_case_types)]
pub struct PINB;

impl Reg8 for PINB {
    const ADDRESS: usize = 0x36;
}

/// Bit 5 of `PINB`.
pub const PINB5: u8 = 0b0010_0000;
/// Bit 4 of `PINB`.
pub const PINB4: u8 = 0b0001_0000;
/// Bit 3 of `PINB`.
pub const PINB3: u8 = 0b0000_1000;
/// Bit 2 of `PINB`.
pub const PINB2: u8 = 0b0000_0100;
/// Bit 1 of `PINB`.
pub const PINB1: u8 = 0b0000_0010;
/// Bit 0 of `PINB`.
pub const PINB0: u8 = 0b0000_0001;

/// The I/O register at data address 0x35.
#[allow(non_camel_case_types)]
pub struct PCMSK;

impl Reg8 for PCMSK {
    const ADDRESS: usize = 0x35;
}

/// Bit 5 of `PCMSK`.
pub const PCINT5: u8 = 0b0010_0000;
/// Bit 4 of `PCMSK`.
pub const PCINT4: u8 = 0b0001_0000;
/// Bit 3 of `PCMSK`.
pub const PCINT3: u8 = 0b0000_1000;
/// Bit 2 of `PCMSK`.
pub const PCINT2: u8 = 0b0000_0100;
/// Bit 1 of `PCMSK`.
pub const PCINT1: u8 = 0b0000_0010;
/// Bit 0 of `PCMSK`.
pub const PCINT0: u8 = 0b0000_0001;

/// The I/O register at data address 0x34.
#[allow(non_camel_case_types)]
pub struct DIDR0;

impl Reg8 for DIDR0 {
    const ADDRESS: usize = 0x34;
}

/// Bit 5 of `DIDR0`.
pub const ADC0D: u8 = 0b0010_0000;
/// Bit 4 of `DIDR0`.
pub const ADC2D: u8 = 0b0001_0000;
/// Bit 3 of `DIDR0`.
pub const ADC3D: u8 = 0b0000_1000;
/// Bit 2 of `DIDR0`.
pub const ADC1D: u8 = 0b0000_0100;
/// Bit 1 of `DIDR0`.
pub const AIN1D: u8 = 0b0000_0010;
/// Bit 0 of `DIDR0`.
pub const AIN0D: u8 = 0b0000_0001;

/// The I/O register at data address 0x33.
#[allow(non_camel_case_types)]
pub struct GPIOR2;

impl Reg8 for GPIOR2 {
    const ADDRESS: usize = 0x33;
}

/// The I/O register at data address 0x32.
#[allow(non_camel_case_types)]
pub struct GPIOR1;

impl Reg8 for GPIOR1 {
    const ADDRESS: usize = 0x32;
}

/// The I/O register at data address 0x31.
#[allow(non_camel_case_types)]
pub struct GPIOR0;

impl Reg8 for GPIOR0 {
    const ADDRESS: usize = 0x31;
}

/// The I/O register at data address 0x30.
#[allow(non_camel_case_types)]
pub struct USIBR;

impl Reg8 for USIBR {
    const ADDRESS: usize = 0x30;
}

/// The I/O register at data address 0x2F.
#[allow(non_camel_case_types)]
pub struct USIDR;

impl Reg8 for USIDR {
    const ADDRESS: usize = 0x2F;
}

/// The I/O register at data address 0x2E.
#[allow(non_camel_case_types)]
pub struct USISR;

impl Reg8 for USISR {
    const ADDRESS: usize = 0x2E;
}

/// Bit 7 of `USISR`.
pub const USISIF: u8 = 0b1000_0000;
/// Bit 6 of `USISR`.
pub const USIOIF: u8 = 0b0100_0000;
/// Bit 5 of `USISR`.
pub const USIPF: u8 = 0b0010_0000;
/// Bit 4 of `USISR`.
pub const USIDC: u8 = 0b0001_0000;
/// Bit 3 of `USISR`.
pub const USICNT3: u8 = 0b0000_1000;
/// Bit 2 of `USISR`.
pub const USICNT2: u8 = 0b0000_0100;
/// Bit 1 of `USISR`.
pub const USICNT1: u8 = 0b0000_0010;
/// Bit 0 of `USISR`.
pub const USICNT0: u8 = 0b0000_0001;

/// The I/O register at data address 0x2D.
#[allow(non_camel_case_types)]
pub struct USICR;

impl Reg8 for USICR {
    const ADDRESS: usize = 0x2D;
}

/// Bit 7 of `USICR`.
pub const USISIE: u8 = 0b1000_0000;
/// Bit 6 of `USICR`.
pub const USIOIE: u8 = 0b0100_0000;
/// Bit 5 of `USICR`.
pub const USIWM1: u8 = 0b0010_0000;
/// Bit 4 of `USICR`.
pub const USIWM0: u8 = 0b0001_0000;
/// Bit 3 of `USICR`.
pub const USICS1: u8 = 0b0000_1000;
/// Bit 2 of `USICR`.
pub const USICS0: u8 = 0b0000_0100;
/// Bit 1 of `USICR`.
pub const USICLK: u8 = 0b0000_0010;
/// Bit 0 of `USICR`.
pub const USITC: u8 = 0b0000_0001;

/// The I/O register at data address 0x28.
#[allow(non_camel_case_types)]
pub struct ACSR;

impl Reg8 for ACSR {
    const ADDRESS: usize = 0x28;
}

/// Bit 7 of `ACSR`.
pub const ACD: u8 = 0b1000_0000;
/// Bit 6 of `ACSR`.
pub const ACBG: u8 = 0b0100_0000;
/// Bit 5 of `ACSR`.
pub const ACO: u8 = 0b0010_0000;
/// Bit 4 of `ACSR`.
pub const ACI: u8 = 0b0001_0000;
/// Bit 3 of `ACSR`.
pub const ACIE: u8 = 0b0000_1000;
/// Bit 1 of `ACSR`.
pub const ACIS1: u8 = 0b0000_0010;
/// Bit 0 of `ACSR`.
pub const ACIS0: u8 = 0b0000_0001;

/// The I/O register at data address 0x27.
#[allow(non_camel_case_types)]
pub struct ADMUX;

impl Reg8 for ADMUX {
    const ADDRESS: usize = 0x27;
}

/// Bit 7 of `ADMUX`.
pub const REFS1: u8 = 0b1000_0000;
/// Bit 6 of `ADMUX`.
pub const REFS0: u8 = 0b0100_0000;
/// Bit 5 of `ADMUX`.
pub const ADLAR: u8 = 0b0010_0000;
/// Bit 4 of `ADMUX`.
pub const REFS2: u8 = 0b0001_0000;
/// Bit 3 of `ADMUX`.
pub const MUX3: u8 = 0b0000_1000;
/// Bit 2 of `ADMUX`.
pub const MUX2: u8 = 0b0000_0100;
/// Bit 1 of `ADMUX`.
pub const MUX1: u8 = 0b0000_0010;
/// Bit 0 of `ADMUX`.
pub const MUX0: u8 = 0b0000_0001;

/// The I/O register at data address 0x26.
#[allow(non_camel_case_types)]
pub struct ADCSRA;

impl Reg8 for ADCSRA {
    const ADDRESS: usize = 0x26;
}

/// Bit 7 of `ADCSRA`.
pub const ADEN: u8 = 0b1000_0000;
/// Bit 6 of `ADCSRA`.
pub const ADSC: u8 = 0b0100_0000;
/// Bit 5 of `ADCSRA`.
pub const ADATE: u8 = 0b0010_0000;
/// Bit 4 of `ADCSRA`.
pub const ADIF: u8 = 0b0001_0000;
/// Bit 3 of `ADCSRA`.
pub const ADIE: u8 = 0b0000_1000;
/// Bit 2 of `ADCSRA`.
pub const ADPS2: u8 = 0b0000_0100;
/// Bit 1 of `ADCSRA`.
pub const ADPS1: u8 = 0b0000_0010;
/// Bit 0 of `ADCSRA`.
pub const ADPS0: u8 = 0b0000_0001;

/// The I/O register at data address 0x25.
#[allow(non_camel_case_types)]
pub struct ADCH;

impl Reg8 for ADCH {
    const ADDRESS: usize = 0x25;
}

/// The I/O register at data address 0x24.
#[allow(non_camel_case_types)]
pub struct ADCL;

impl Reg8 for ADCL {
    const ADDRESS: usize = 0x24;
}

/// The I/O register at data address 0x23.
#[allow(non_camel_case_types)]
pub struct ADCSRB;

impl Reg8 for ADCSRB {
    const ADDRESS: usize = 0x23;
}

/// Bit 7 of `ADCSRB`.
pub const BIN: u8 = 0b1000_0000;
/// Bit 6 of `ADCSRB`.
pub const ACME: u8 = 0b0100_0000;
/// Bit 5 of `ADCSRB`.
pub const IPR: u8 = 0b0010_0000;
/// Bit 2 of `ADCSRB`.
pub const ADTS2: u8 = 0b0000_0100;
/// Bit 1 of `ADCSRB`.
pub const ADTS1: u8 = 0b0000_0010;
/// Bit 0 of `ADCSRB`.
pub const ADTS0: u8 = 0b0000_0001;

// 16-bit register pairs: the low byte sits at the lower address.

/// The ADC data register pair (ADCL, ADCH).
#[allow(non_camel_case_types)]
pub struct ADC;

impl Reg16 for ADC {
    const ADDRESS: usize = ADCL::ADDRESS;
}

/// The EEPROM address register pair (EEARL, EEARH).
#[allow(non_camel_case_types)]
pub struct EEAR;

impl Reg16 for EEAR {
    const ADDRESS: usize = EEARL::ADDRESS;
}

/// The stack pointer register pair (SPL, SPH).
#[allow(non_camel_case_types)]
pub struct SP;

impl Reg16 for SP {
    const ADDRESS: usize = SPL::ADDRESS;
}

/// The data address of every register; each lies in the I/O register file.
pub proof fn lemma_register_addresses()
    ensures
        SREG::ADDRESS == 0x5F,
        SPH::ADDRESS == 0x5E,
        SPL::ADDRESS == 0x5D,
        GIMSK::ADDRESS == 0x5B,
        GIFR::ADDRESS == 0x5A,
        TIMSK::ADDRESS == 0x59,
        TIFR::ADDRESS == 0x58,
        SPMCSR::ADDRESS == 0x57,
        MCUCR::ADDRESS == 0x55,
        MCUSR::ADDRESS == 0x54,
        TCCR0B::ADDRESS == 0x53,
        TCNT0::ADDRESS == 0x52,
        OSCCAL::ADDRESS == 0x51,
        TCCR1::ADDRESS == 0x50,
        TCNT1::ADDRESS == 0x4F,
        OCR1A::ADDRESS == 0x4E,
        OCR1C::ADDRESS == 0x4D,
        GTCCR::ADDRESS == 0x4C,
        OCR1B::ADDRESS == 0x4B,
        TCCR0A::ADDRESS == 0x4A,
        OCR0A::ADDRESS == 0x49,
        OCR0B::ADDRESS == 0x48,
        PLLCSR::ADDRESS == 0x47,
        CLKPR::ADDRESS == 0x46,
        DT1A::ADDRESS == 0x45,
        DT1B::ADDRESS == 0x44,
        DTPS1::ADDRESS == 0x43,
        DWDR::ADDRESS == 0x42,
        WDTCR::ADDRESS == 0x41,
        PRR::ADDRESS == 0x40,
        EEARH::ADDRESS == 0x3F,
        EEARL::ADDRESS == 0x3E,
        EEDR::ADDRESS == 0x3D,
        EECR::ADDRESS == 0x3C,
        PORTB::ADDRESS == 0x38,
        DDRB::ADDRESS == 0x37,
        PINB::ADDRESS == 0x36,
        PCMSK::ADDRESS == 0x35,
        DIDR0::ADDRESS == 0x34,
        GPIOR2::ADDRESS == 0x33,
        GPIOR1::ADDRESS == 0x32,
        GPIOR0::ADDRESS == 0x31,
        USIBR::ADDRESS == 0x30,
        USIDR::ADDRESS == 0x2F,
        USISR::ADDRESS == 0x2E,
        USICR::ADDRESS == 0x2D,
        ACSR::ADDRESS == 0x28,
        ADMUX::ADDRESS == 0x27,
        ADCSRA::ADDRESS == 0x26,
        ADCH::ADDRESS == 0x25,
        ADCL::ADDRESS == 0x24,
        ADCSRB::ADDRESS == 0x23,
        ADC::ADDRESS == ADCL::ADDRESS,
        EEAR::ADDRESS == EEARL::ADDRESS,
        SP::ADDRESS == SPL::ADDRESS,
{
}

} // verus!
