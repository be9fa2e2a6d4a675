//! The saved context of a process: the stack pointer it resumes at.

use vstd::prelude::*;

verus! {

/// The context a suspended process resumes from.
#[derive(Clone, Copy, Debug, PartialEq, Eq, Structural)]
pub struct ProcContext {
    pub sp: u16,
}

impl ProcContext {
    /// The context that resumes at stack pointer `sp`.
    pub fn new(sp: u16) -> (ctx: Self)
        ensures
            ctx.sp == sp,
    {
        ProcContext { sp: sp }
    }

    /// Switches from this context to `to`: the current stack pointer is
    /// saved here, and the stack pointer to resume `to` at is returned.
    pub fn switch_to(&mut self, to: ProcContext, current_sp: u16) -> (dest_sp: u16)
        ensures
            final(self).sp == current_sp,
            dest_sp == to.sp,
    {
        self.sp = current_sp;
        to.sp
    }
}

} // verus!
