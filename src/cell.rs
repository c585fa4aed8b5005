//! A cell shared between the foreground and the interrupt handler: empty at
//! start, filled once, then only mutated in place. Every access takes a
//! critical-section token.
use vstd::prelude::*;
use crate::critical::CriticalSection;

verus! {

/// What publishing `x` into a cell that holds `v` gives: whether it is
/// accepted, and what the cell holds afterwards.
pub open spec fn publish_outcome<T>(v: Option<T>, x: T) -> (bool, Option<T>) {
    match v {
        None => (true, Some(x)),
        Some(_) => (false, v),
    }
}

/// A cell that was filled once stays filled, and refuses any later value.
pub proof fn law_publish_once<T>(v: Option<T>, a: T, b: T)
    ensures
        !publish_outcome(publish_outcome(v, a).1, b).0,
        publish_outcome(publish_outcome(v, a).1, b).1 == publish_outcome(v, a).1,
{
}

/// Holds at most one value; filled at most once.
#[derive(Debug)]
pub struct SharedCell<T> {
    slot: Option<T>,
}

impl<T> View for SharedCell<T> {
    type V = Option<T>;

    closed spec fn view(&self) -> Option<T> {
        self.slot
    }
}

impl<T> SharedCell<T> {
    /// An empty cell.
    pub fn new() -> (r: SharedCell<T>)
        ensures
            r@ is None,
    {
        SharedCell { slot: None }
    }

    /// Stores `v` into an empty cell. An occupied cell is left as it is and
    /// `v` is handed back.
    pub fn publish(&mut self, _cs: &CriticalSection, v: T) -> (r: Result<(), T>)
        ensures
            (r is Ok, final(self)@) == publish_outcome(old(self)@, v),
            r is Ok <==> old(self)@ is None,
            r is Ok ==> final(self)@ == Some(v),
            r is Err ==> final(self)@ == old(self)@ && r == Err::<(), T>(v),
    {
        if self.slot.is_some() {
            return Err(v);
        }
        self.slot = Some(v);
        Ok(())
    }

    /// Whether the cell holds a value.
    pub fn is_occupied(&self, _cs: &CriticalSection) -> (r: bool)
        ensures
            r == self@ is Some,
    {
        self.slot.is_some()
    }

    /// Mutable access to the value, where there is one. The cell afterwards
    /// holds whatever the value became.
    pub fn get_mut(&mut self, _cs: &CriticalSection) -> (r: Option<&mut T>)
        ensures
            r is None <==> old(self)@ is None,
            r matches Some(m) ==> old(self)@ == Some(*m) && final(self)@ == Some(*final(m)),
            r is None ==> final(self)@ is None,
    {
        self.slot.as_mut()
    }
}

} // verus!
