//! Touch slot identity: correlation of multi-touch contact points.

use vstd::prelude::*;

verus! {

/// Slot of a touch event.
///
/// Touch events are grouped by slots, usually to identify different fingers
/// on a multi-touch enabled input device.  Events should only be interpreted
/// in the context of other events on the same slot: all events belonging to
/// one physical contact carry the identical slot value from the down event
/// through the matching up or cancel event, and a slot id is not reused
/// while its contact is live.
#[derive(Debug, Clone, Copy, PartialEq, Eq, Hash, Structural)]
pub struct TouchSlot {
    id: u64,
}

impl TouchSlot {
    /// The backend-assigned identity of this slot, scoped to one device.
    pub closed spec fn id_spec(&self) -> u64 {
        self.id
    }

    /// Construct a slot from its id.
    ///
    /// Intended for backend implementations: consumers receive slot values
    /// through touch events and never build them.
    pub fn new(id: u64) -> (slot: TouchSlot)
        ensures
            slot.id_spec() == id,
    {
        TouchSlot { id }
    }
}

} // verus!
