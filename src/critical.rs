//! The critical-section guard: interrupts are off while it is held, and the
//! earlier interrupt state comes back when it is released.
use vstd::prelude::*;

verus! {

/// The processor's global interrupt-enable state.
#[derive(Debug, PartialEq, Eq, Structural)]
pub struct Cpu {
    pub interrupts_enabled: bool,
}

/// Proof of holding the critical section. Only [`Cpu::acquire`] makes one,
/// and [`Cpu::release`] takes it back.
#[derive(Debug)]
pub struct CriticalSection {
    saved: bool,
}

impl CriticalSection {
    /// The interrupt state that release restores.
    pub closed spec fn saved(self) -> bool {
        self.saved
    }
}

impl Cpu {
    /// A processor in the given interrupt state.
    pub fn new(interrupts_enabled: bool) -> (r: Cpu)
        ensures
            r.interrupts_enabled == interrupts_enabled,
    {
        Cpu { interrupts_enabled }
    }

    /// Disables interrupts and remembers whether they were on.
    pub fn acquire(&mut self) -> (cs: CriticalSection)
        ensures
            !final(self).interrupts_enabled,
            cs.saved() == old(self).interrupts_enabled,
    {
        let saved = self.interrupts_enabled;
        self.interrupts_enabled = false;
        CriticalSection { saved }
    }

    /// Restores the interrupt state from before `cs` was acquired.
    pub fn release(&mut self, cs: CriticalSection)
        ensures
            final(self).interrupts_enabled == cs.saved(),
    {
        self.interrupts_enabled = cs.saved;
    }
}

} // verus!
