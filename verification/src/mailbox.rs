use vstd::prelude::*;

verus! {

/// Whether a watched value has changed since it was last read. A new flag
/// counts as changed, so that the first read sees the value.
#[derive(Clone, Copy, Debug)]
pub struct ChangeFlag {
    dirty: bool,
}

impl ChangeFlag {
    /// Whether a change is waiting to be read.
    pub closed spec fn is_dirty(&self) -> bool {
        self.dirty
    }

    /// A flag with a change waiting.
    pub fn new() -> (f: Self)
        ensures
            f.is_dirty(),
    {
        ChangeFlag { dirty: true }
    }

    /// Records a change. Returns whether it is the first since the last read,
    /// that is, whether a reader has to be woken.
    pub fn mark_changed(&mut self) -> (wake: bool)
        ensures
            final(self).is_dirty(),
            wake == !old(self).is_dirty(),
    {
        let was = self.dirty;
        self.dirty = true;
        !was
    }

    /// Reads the change: returns whether one was waiting, and clears it.
    pub fn take_change(&mut self) -> (changed: bool)
        ensures
            !final(self).is_dirty(),
            changed == old(self).is_dirty(),
    {
        let was = self.dirty;
        self.dirty = false;
        was
    }
}

} // verus!
