//! Register masks, the register access traits and the model of the I/O
//! register file they act on.

use vstd::prelude::*;
use core::marker::PhantomData;
use core::ops::{BitAnd, BitOr, BitXor, Not};
use crate::registers::I;

verus! {

/// First data address of the I/O register file.
pub const IO_START: usize = 0x20;

/// Number of I/O registers.
pub const IO_SIZE: usize = 64;

/// Data address of the status register.
pub const SREG_ADDRESS: usize = 0x5F;

/// Whether `addr` is the data address of an I/O register.
pub open spec fn is_io_address(addr: int) -> bool {
    IO_START <= addr < IO_START + IO_SIZE
}

/// Position of the register at data address `addr` in the register file.
pub open spec fn io_index(addr: int) -> int {
    addr - IO_START
}

/// The I/O registers (data addresses 0x20 up to 0x5F), one byte each.
#[derive(Clone, Copy)]
pub struct IoRegisters {
    pub bytes: [u8; 64],
}

impl View for IoRegisters {
    type V = Seq<u8>;

    open spec fn view(&self) -> Seq<u8> {
        self.bytes@
    }
}

impl IoRegisters {
    /// The byte held by the register at data address `addr`.
    pub open spec fn reg(self, addr: int) -> u8 {
        self@[io_index(addr)]
    }

    /// A register file with every register cleared.
    pub fn zeroed() -> (regs: Self)
        ensures
            regs@ == Seq::new(64, |i: int| 0u8),
    {
        let regs = IoRegisters { bytes: [0u8; 64] };
        assert(regs@ =~= Seq::new(64, |i: int| 0u8));
        regs
    }

    /// Reads the register at data address `addr`.
    pub fn read(&self, addr: usize) -> (v: u8)
        requires
            is_io_address(addr as int),
        ensures
            v == self.reg(addr as int),
    {
        self.bytes[addr - IO_START]
    }

    /// Writes `v` to the register at data address `addr`.
    pub fn write(&mut self, addr: usize, v: u8)
        requires
            is_io_address(addr as int),
        ensures
            final(self)@ == old(self)@.update(io_index(addr as int), v),
    {
        self.bytes[addr - IO_START] = v;
    }
}

/// Reading a register gives back what was last written to it, and a write
/// leaves every other register as it was.
pub proof fn lemma_read_after_write(regs: IoRegisters, after: IoRegisters, addr: int, v: u8)
    requires
        is_io_address(addr),
        after@ == regs@.update(io_index(addr), v),
    ensures
        after.reg(addr) == v,
        forall|b: int| is_io_address(b) && b != addr ==> #[trigger] after.reg(b) == regs.reg(b),
{
}

/// Reading a register pair gives back the sixteen-bit value last written to
/// it.
pub proof fn lemma_pair_read_after_write(regs: IoRegisters, after: IoRegisters, addr: int, v: u16)
    requires
        is_io_address(addr),
        is_io_address(addr + 1),
        after@ == regs@.update(io_index(addr), (v % 256) as u8).update(
            io_index(addr + 1),
            (v / 256) as u8,
        ),
    ensures
        after.reg(addr) + 256 * after.reg(addr + 1) == v,
{
}

/// The status register with its global interrupt flag cleared, as the
/// `cli` instruction leaves it.
pub open spec fn sreg_cleared(sreg: u8) -> u8 {
    sreg & !I
}

/// The value saved on entry to a critical section: the status register
/// read at entry, with the interrupt flag set.
pub open spec fn sreg_saved(entry: u8) -> u8 {
    entry | I
}

/// The registers once a critical section has been entered.
pub open spec fn entered(regs: Seq<u8>) -> Seq<u8> {
    regs.update(
        io_index(SREG_ADDRESS as int),
        sreg_cleared(regs[io_index(SREG_ADDRESS as int)]),
    )
}

/// The registers once a critical section that saved `saved` is left: the
/// saved bits are set again in the status register.
pub open spec fn left(regs: Seq<u8>, saved: u8) -> Seq<u8> {
    regs.update(
        io_index(SREG_ADDRESS as int),
        regs[io_index(SREG_ADDRESS as int)] | saved,
    )
}

/// Disables interrupts and returns what `leave_critical` restores.
pub(crate) fn enter_critical(regs: &mut IoRegisters) -> (saved: u8)
    ensures
        saved == sreg_saved(old(regs).reg(SREG_ADDRESS as int)),
        final(regs)@ == entered(old(regs)@),
{
    let entry = regs.read(SREG_ADDRESS);
    cli(regs);
    entry | I
}

/// Sets the bits of `saved` again in the status register.
pub(crate) fn leave_critical(regs: &mut IoRegisters, saved: u8)
    ensures
        final(regs)@ == left(old(regs)@, saved),
{
    let current = regs.read(SREG_ADDRESS);
    regs.write(SREG_ADDRESS, current | saved);
}

/// Sets the global interrupt flag, as the `sei` instruction does.
pub fn sei(regs: &mut IoRegisters)
    ensures
        final(regs)@ == old(regs)@.update(
            io_index(SREG_ADDRESS as int),
            old(regs).reg(SREG_ADDRESS as int) | I,
        ),
{
    let current = regs.read(SREG_ADDRESS);
    regs.write(SREG_ADDRESS, current | I);
}

/// Clears the global interrupt flag, as the `cli` instruction does.
pub fn cli(regs: &mut IoRegisters)
    ensures
        final(regs)@ == old(regs)@.update(
            io_index(SREG_ADDRESS as int),
            sreg_cleared(old(regs).reg(SREG_ADDRESS as int)),
        ),
{
    let current = regs.read(SREG_ADDRESS);
    regs.write(SREG_ADDRESS, current & !I);
}

/// The stack pointer held in the register pair SPL, SPH.
pub open spec fn stack_pointer(regs: IoRegisters) -> int {
    regs.reg(0x5D) + 256 * regs.reg(0x5E)
}

/// Runs `f` on the register file with interrupts disabled, then sets the
/// status bits read on entry again, together with the interrupt flag.
pub fn uninterrupted<F: FnOnce(IoRegisters) -> IoRegisters>(regs: &mut IoRegisters, f: F)
    requires
        forall|r: IoRegisters| r@ == entered(old(regs)@) ==> f.requires((r,)),
    ensures
        exists|r: IoRegisters, out: IoRegisters|
            {
                &&& r@ == entered(old(regs)@)
                &&& f.ensures((r,), out)
                &&& final(regs)@ == left(out@, sreg_saved(old(regs).reg(SREG_ADDRESS as int)))
            },
{
    let saved = enter_critical(regs);
    let inside = *regs;
    let out = f(inside);
    *regs = out;
    leave_critical(regs, saved);
}

/// An eight-bit value tagged with the register `T` it is meant for.
pub struct Mask<T> {
    pub value: u8,
    pub phantom: PhantomData<T>,
}

/// The mask of register `T` that holds `value`.
pub open spec fn mask_of<T>(value: u8) -> Mask<T> {
    Mask { value, phantom: PhantomData }
}

impl<T> Mask<T> {
    /// The mask that holds `value`.
    pub fn new(value: u8) -> (m: Self)
        ensures
            m.value == value,
    {
        Mask { value, phantom: PhantomData }
    }
}

impl<T> Clone for Mask<T> {
    fn clone(&self) -> (m: Self)
        ensures
            m.value == self.value,
    {
        Mask { value: self.value, phantom: PhantomData }
    }
}

impl<T> Copy for Mask<T> {

}

impl<T> BitAnd for Mask<T> {
    type Output = Self;

    fn bitand(self, rhs: Self) -> (m: Self) {
        Mask { value: self.value & rhs.value, phantom: PhantomData }
    }
}

impl<T> vstd::std_specs::ops::BitAndSpecImpl for Mask<T> {
    open spec fn obeys_bitand_spec() -> bool {
        true
    }

    open spec fn bitand_req(self, rhs: Self) -> bool {
        true
    }

    open spec fn bitand_spec(self, rhs: Self) -> Self {
        mask_of(self.value & rhs.value)
    }
}

impl<T> BitOr for Mask<T> {
    type Output = Self;

    fn bitor(self, rhs: Self) -> (m: Self) {
        Mask { value: self.value | rhs.value, phantom: PhantomData }
    }
}

impl<T> vstd::std_specs::ops::BitOrSpecImpl for Mask<T> {
    open spec fn obeys_bitor_spec() -> bool {
        true
    }

    open spec fn bitor_req(self, rhs: Self) -> bool {
        true
    }

    open spec fn bitor_spec(self, rhs: Self) -> Self {
        mask_of(self.value | rhs.value)
    }
}

impl<T> BitXor for Mask<T> {
    type Output = Self;

    fn bitxor(self, rhs: Self) -> (m: Self) {
        Mask { value: self.value ^ rhs.value, phantom: PhantomData }
    }
}

impl<T> vstd::std_specs::ops::BitXorSpecImpl for Mask<T> {
    open spec fn obeys_bitxor_spec() -> bool {
        true
    }

    open spec fn bitxor_req(self, rhs: Self) -> bool {
        true
    }

    open spec fn bitxor_spec(self, rhs: Self) -> Self {
        mask_of(self.value ^ rhs.value)
    }
}

impl<T> Not for Mask<T> {
    type Output = Self;

    fn not(self) -> (m: Self) {
        Mask { value: !self.value, phantom: PhantomData }
    }
}

impl<T> vstd::std_specs::ops::NotSpecImpl for Mask<T> {
    open spec fn obeys_not_spec() -> bool {
        true
    }

    open spec fn not_req(self) -> bool {
        true
    }

    open spec fn not_spec(self) -> Self {
        mask_of(!self.value)
    }
}

/// Clearing the interrupt flag and then setting the saved bits again
/// gives the saved value.
pub proof fn lemma_cleared_then_restored(sreg: u8)
    ensures
        sreg_cleared(sreg) | sreg_saved(sreg) == sreg_saved(sreg),
{
    assert((sreg & !0x80u8) | (sreg | 0x80u8) == sreg | 0x80u8) by (bit_vector);
}

/// Leaving a critical section always leaves interrupts enabled.
pub proof fn lemma_interrupts_enabled_after(current: u8, entry: u8)
    ensures
        (current | sreg_saved(entry)) & I == I,
{
    assert((current | (entry | 0x80u8)) & 0x80u8 == 0x80u8) by (bit_vector);
}

/// Inverting a mask twice gives the mask back.
pub proof fn lemma_not_involutive(v: u8)
    ensures
        !(!v) == v,
{
    assert(!(!v) == v) by (bit_vector);
}

/// The value a read-modify-write of the register at `addr` hands to its
/// function: the register as it is once interrupts are disabled.
pub open spec fn modify_input(regs: Seq<u8>, addr: int) -> u8 {
    entered(regs)[io_index(addr)]
}

/// The registers after a read-modify-write of the register at `addr` that
/// wrote `written`.
pub open spec fn modify_output(regs: Seq<u8>, addr: int, written: u8) -> Seq<u8> {
    left(
        entered(regs).update(io_index(addr), written),
        sreg_saved(regs[io_index(SREG_ADDRESS as int)]),
    )
}

/// An eight-bit I/O register at a fixed data address.
pub trait Reg8: Sized {
    /// The register's data address.
    const ADDRESS: usize;

    /// Reads the register.
    fn get(regs: &IoRegisters) -> (v: u8)
        requires
            is_io_address(Self::ADDRESS as int),
        ensures
            v == regs.reg(Self::ADDRESS as int),
    {
        regs.read(Self::ADDRESS)
    }

    /// Writes `new_val` to the register.
    fn set(regs: &mut IoRegisters, new_val: u8)
        requires
            is_io_address(Self::ADDRESS as int),
        ensures
            final(regs)@ == old(regs)@.update(io_index(Self::ADDRESS as int), new_val),
    {
        regs.write(Self::ADDRESS, new_val)
    }

    /// Replaces the register's value `old` by `f(old)` with interrupts
    /// disabled, then restores the status register as `uninterrupted` does.
    fn modify<F>(regs: &mut IoRegisters, f: F) where F: FnOnce(Mask<Self>) -> Mask<Self>
        requires
            is_io_address(Self::ADDRESS as int),
            f.requires((mask_of::<Self>(modify_input(old(regs)@, Self::ADDRESS as int)),)),
        ensures
            exists|r: Mask<Self>|
                {
                    &&& f.ensures(
                        (mask_of::<Self>(modify_input(old(regs)@, Self::ADDRESS as int)),),
                        r,
                    )
                    &&& final(regs)@ == modify_output(old(regs)@, Self::ADDRESS as int, r.value)
                },
            Self::ADDRESS != SREG_ADDRESS ==> modify_input(old(regs)@, Self::ADDRESS as int)
                == old(regs).reg(Self::ADDRESS as int),
            Self::ADDRESS != SREG_ADDRESS ==> forall|w: u8|
                #[trigger] modify_output(old(regs)@, Self::ADDRESS as int, w) == old(regs)@.update(
                    io_index(Self::ADDRESS as int),
                    w,
                ).update(
                    io_index(SREG_ADDRESS as int),
                    sreg_saved(old(regs).reg(SREG_ADDRESS as int)),
                ),
    {
        proof {
            if Self::ADDRESS != SREG_ADDRESS {
                assert forall|w: u8|
                    #[trigger] modify_output(old(regs)@, Self::ADDRESS as int, w) == old(regs)@.update(
                        io_index(Self::ADDRESS as int),
                        w,
                    ).update(
                        io_index(SREG_ADDRESS as int),
                        sreg_saved(old(regs).reg(SREG_ADDRESS as int)),
                    ) by {
                    lemma_cleared_then_restored(old(regs).reg(SREG_ADDRESS as int));
                }
            }
        }
        let ghost start = old(regs)@;
        let saved = enter_critical(regs);
        let old_val: Mask<Self> = Mask { value: Self::get(regs), phantom: PhantomData };
        assert(old_val.value == modify_input(start, Self::ADDRESS as int));
        assert(old_val == mask_of::<Self>(modify_input(start, Self::ADDRESS as int)));
        let new_val = f(old_val);
        Self::set(regs, new_val.value);
        leave_critical(regs, saved);
        assert(regs@ == modify_output(start, Self::ADDRESS as int, new_val.value));
    }
}

/// A sixteen-bit I/O register pair; the low byte sits at `ADDRESS`, the
/// high byte right above it.
pub trait Reg16: Sized {
    /// Data address of the low byte.
    const ADDRESS: usize;

    /// Reads the register pair.
    fn get(regs: &IoRegisters) -> (v: u16)
        requires
            is_io_address(Self::ADDRESS as int),
            is_io_address(Self::ADDRESS + 1),
        ensures
            v == regs.reg(Self::ADDRESS as int) + 256 * regs.reg(Self::ADDRESS + 1),
    {
        let low = regs.read(Self::ADDRESS);
        let high = regs.read(Self::ADDRESS + 1);
        let v = (low as u16) | ((high as u16) << 8u16);
        assert(v == low + 256 * high) by (bit_vector)
            requires
                v == (low as u16) | ((high as u16) << 8u16),
        ;
        v
    }

    /// Writes `new_val` to the register pair.
    fn set(regs: &mut IoRegisters, new_val: u16)
        requires
            is_io_address(Self::ADDRESS as int),
            is_io_address(Self::ADDRESS + 1),
        ensures
            final(regs)@ == old(regs)@.update(
                io_index(Self::ADDRESS as int),
                (new_val % 256) as u8,
            ).update(io_index(Self::ADDRESS + 1), (new_val / 256) as u8),
    {
        let low = (new_val & 0xFF) as u8;
        let high = (new_val >> 8u16) as u8;
        assert(low == new_val % 256 && high == new_val / 256) by (bit_vector)
            requires
                low == (new_val & 0xFF) as u8,
                high == (new_val >> 8u16) as u8,
        ;
        regs.write(Self::ADDRESS, low);
        regs.write(Self::ADDRESS + 1, high);
    }
}

} // verus!
