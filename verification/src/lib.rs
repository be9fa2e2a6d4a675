//! A small preemptive kernel for the ATtiny85, with the processor's I/O
//! registers, the process table and the scheduler modelled as plain values.

pub mod attiny85_defs;
pub mod registers;
pub mod util;
pub mod layout;
pub mod interrupts;
pub mod interface;
pub mod process;
