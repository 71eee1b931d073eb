//! What the driver asks its environment to do.

use vstd::prelude::*;

use crate::regs::Reg;

verus! {

/// One thing to do to the hardware, or the news that there is nothing to do.
///
/// The driver hands out one action at a time. Its environment performs the
/// action and then steps the driver, passing the word that was read if the
/// action was a [`Action::Read`], and anything otherwise.
#[derive(Clone, Copy, Debug, PartialEq, Eq, Structural)]
pub enum Action {
    /// Turn the converter's clock on.
    EnableClock,
    /// Reset the converter; its registers return to zero.
    ResetPeripheral,
    /// Turn the converter's clock off.
    DisableClock,
    /// Block for about this many microseconds.
    DelayUs(u32),
    /// Read the register and pass the word to the next step.
    Read(Reg),
    /// Write the word to the register.
    Write(Reg, u32),
    /// Clear a pending completion interrupt at the interrupt controller.
    UnpendInterrupt,
    /// Enable the completion interrupt at the interrupt controller.
    EnableInterrupt,
    /// Put the task's resumption callback into the wake slot.
    RegisterWaker,
    /// Suspend the task until the callback is invoked.
    Suspend,
    /// Invoke the callback in the wake slot, if there is one.
    Wake,
    /// Nothing to perform: a conversion has finished with this raw code.
    Sample(u16),
    /// Nothing to perform.
    Idle,
}

/// Where a read-modify-write of a register stands.
#[derive(Clone, Copy, Debug, PartialEq, Eq, Structural)]
pub enum Rmw {
    /// The read is in flight.
    Fetch,
    /// The write of this word is in flight.
    Store(u32),
}

impl Rmw {
    /// The request in flight, for a read-modify-write of `reg`.
    pub open spec fn request(self, reg: Reg) -> Action {
        match self {
            Rmw::Fetch => Action::Read(reg),
            Rmw::Store(word) => Action::Write(reg, word),
        }
    }

    /// The request in flight, for a read-modify-write of `reg`.
    pub fn pending(self, reg: Reg) -> (action: Action)
        ensures
            action == self.request(reg),
    {
        match self {
            Rmw::Fetch => Action::Read(reg),
            Rmw::Store(word) => Action::Write(reg, word),
        }
    }
}

} // verus!
