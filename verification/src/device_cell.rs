//! The shared device cell: a single mutually-exclusive slot holding the
//! device pair, reachable from both the initialization context and the
//! interrupt context.
//!
//! Every operation on the cell stands for an access made with the interrupt
//! source masked (a critical section), so the initializer and the interrupt
//! handler never observe the slot concurrently. Because `withdraw` leaves the
//! slot empty, two contexts can never both succeed in withdrawing the same
//! handle: whichever runs second finds `None`.

use vstd::prelude::*;

use crate::hardware::DeviceHandle;

verus! {

/// A single-slot container for the device pair. The slot is empty only in
/// the window between a `withdraw` and the matching `restore`.
pub struct DeviceCell {
    slot: Option<DeviceHandle>,
}

impl DeviceCell {
    /// What the cell holds.
    pub closed spec fn contents(self) -> Option<DeviceHandle> {
        self.slot
    }

    /// A cell with nothing installed.
    pub fn empty() -> (c: DeviceCell)
        ensures
            c.contents() is None,
    {
        DeviceCell { slot: None }
    }

    /// Whether a handle is currently installed.
    pub fn is_occupied(&self) -> (r: bool)
        ensures
            r == (self.contents() is Some),
    {
        self.slot.is_some()
    }

    /// Store a handle into an empty cell. Defensively a silent no-op when a
    /// handle is already installed; by design that can only be attempted
    /// once, at startup.
    pub fn install(&mut self, handle: DeviceHandle)
        ensures
            old(self).contents() is None ==> final(self).contents() == Some(handle),
            old(self).contents() is Some ==> *final(self) == *old(self),
    {
        if self.slot.is_none() {
            self.slot = Some(handle);
        }
    }

    /// Remove and return whatever is present, leaving the cell empty. A
    /// second withdrawal before a restore necessarily returns `None`: two
    /// contexts can never both obtain the handle.
    pub fn withdraw(&mut self) -> (r: Option<DeviceHandle>)
        ensures
            final(self).contents() is None,
            r == old(self).contents(),
            old(self).contents() is None ==> *final(self) == *old(self),
    {
        self.slot.take()
    }

    /// Reinstall a handle at the end of a servicing, making it the cell's
    /// contents whatever was there before.
    pub fn restore(&mut self, handle: DeviceHandle)
        ensures
            final(self).contents() == Some(handle),
    {
        self.slot = Some(handle);
    }
}

} // verus!
