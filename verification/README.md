# ATtiny85 kernel

A small preemptive kernel for the ATtiny85: processes with their own stacks,
a timer interrupt that counts down sleeping processes and switches round
robin between the awake ones, and LEDs on port B.

The library (`src/`) holds the kernel's logic over plain values, verified
with Verus:

- `attiny85_defs`: register masks, the `Reg8`/`Reg16` access traits and the
  model of the I/O register file, with interrupt-free read-modify-write.
- `registers`: the register map (addresses and named bits).
- `layout`: process stacks, control blocks, the process table and `fork`.
- `interrupts`: start-up reset, timer set-up, sleep bookkeeping, the
  scheduler's choice, `die` and the timer interrupt.
- `interface`: sleep plans for `delay_ms` and `fork` with timer set-up.
- `util`: port B pins and LEDs.
- `process`: saved process contexts.

`app/` is the processor side: volatile access to registers and control
blocks, the context-switch routines, busy waiting and the blinking program.
