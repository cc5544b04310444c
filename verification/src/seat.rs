//! Seat identity: a group of input devices treated as one user session.

use vstd::prelude::*;
use vstd::std_specs::cmp::PartialEqSpec;

verus! {

/// Capabilities a [`Seat`] currently offers.
#[derive(Debug, Clone, Copy, PartialEq, Eq, Hash, Structural)]
pub struct SeatCapabilities {
    /// The seat has a pointer device.
    pub pointer: bool,
    /// The seat has a keyboard device.
    pub keyboard: bool,
    /// The seat has a touchscreen device.
    pub touch: bool,
}

/// A seat describes a group of input devices and at least one graphics
/// device belonging together.
///
/// By default only one seat exists on most systems, but multi-seat
/// configurations are possible and should be treated as separate users,
/// each with their own focus, input and cursor.
///
/// Two seat values referring to the same id are always equal and hash
/// identically, but the capability flags of a copied `Seat` are a
/// point-in-time snapshot and are not updated afterwards.  Always refer to
/// the `Seat` given by a callback for up-to-date capabilities.
#[derive(Debug, Clone, Copy)]
pub struct Seat {
    id: u64,
    capabilities: SeatCapabilities,
}

impl Seat {
    /// The durable identity of this seat, assigned by the backend.
    pub closed spec fn id_spec(&self) -> u64 {
        self.id
    }

    /// The capability snapshot carried by this seat value.
    pub closed spec fn capabilities_spec(&self) -> SeatCapabilities {
        self.capabilities
    }

    /// Construct a seat from its id and initial capability set.
    ///
    /// Intended for backend implementations: consumers receive seat values
    /// through handler callbacks and never build them.
    pub fn new(id: u64, capabilities: SeatCapabilities) -> (seat: Seat)
        ensures
            seat.id_spec() == id,
            seat.capabilities_spec() == capabilities,
    {
        Seat { id, capabilities }
    }

    /// Get the current capabilities of this `Seat`.
    pub fn capabilities(&self) -> (caps: &SeatCapabilities)
        ensures
            *caps == self.capabilities_spec(),
    {
        &self.capabilities
    }

    /// Get a mutable view of the capability set, so a backend can update it
    /// in place as devices attach or detach.  The id never changes.
    pub fn capabilities_mut(&mut self) -> (caps: &mut SeatCapabilities)
        ensures
            *caps == old(self).capabilities_spec(),
            final(self).capabilities_spec() == *final(caps),
            final(self).id_spec() == old(self).id_spec(),
    {
        &mut self.capabilities
    }
}

impl PartialEq for Seat {
    /// Seat equality goes by id alone: the capability flags are a mutable,
    /// time-varying projection, while the id is the durable key a consumer
    /// uses to track a seat across callbacks.
    fn eq(&self, other: &Seat) -> (r: bool)
        ensures
            r == (self.id_spec() == other.id_spec()),
    {
        self.id == other.id
    }
}

impl vstd::std_specs::cmp::PartialEqSpecImpl for Seat {
    open spec fn obeys_eq_spec() -> bool {
        true
    }

    open spec fn eq_spec(&self, other: &Seat) -> bool {
        self.id_spec() == other.id_spec()
    }
}

impl Eq for Seat {
}

impl core::hash::Hash for Seat {
    /// Relies on u64's `Hash` impl: only the id is fed to the hasher, so
    /// seats that compare equal (same id) hash identically whatever their
    /// capability snapshots.
    #[verifier::external_body]
    fn hash<H: core::hash::Hasher>(&self, state: &mut H) {
        self.id.hash(state);
    }
}

/// Seat equality ignores the capability snapshots: two seat values are
/// equal exactly when their ids match.
pub proof fn lemma_seat_equality_is_id_equality(a: Seat, b: Seat)
    ensures
        a.eq_spec(&b) <==> a.id_spec() == b.id_spec(),
{
}

} // verus!
