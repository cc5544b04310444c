//! Seat and touch slot identity.

use std::collections::hash_map::DefaultHasher;
use std::hash::Hash;
use std::hash::Hasher;

use input_core::Seat;
use input_core::SeatCapabilities;
use input_core::TouchSlot;

fn hash_of<T: Hash>(value: &T) -> u64 {
    let mut hasher = DefaultHasher::new();
    value.hash(&mut hasher);
    hasher.finish()
}

#[test]
fn seat_equality_ignores_capabilities() {
    let a = Seat::new(7, SeatCapabilities { pointer: true, keyboard: true, touch: false });
    let b = Seat::new(7, SeatCapabilities { pointer: false, keyboard: false, touch: true });
    let c = Seat::new(8, SeatCapabilities { pointer: true, keyboard: true, touch: false });
    assert_eq!(a, b);
    assert!(a == b);
    assert!(a != c);
    assert!(b != c);
}

#[test]
fn seat_hash_consistent_with_equality() {
    let a = Seat::new(7, SeatCapabilities { pointer: true, keyboard: true, touch: false });
    let b = Seat::new(7, SeatCapabilities { pointer: false, keyboard: false, touch: true });
    assert_eq!(a, b);
    assert_eq!(hash_of(&a), hash_of(&b));
}

#[test]
fn seat_capabilities_snapshot() {
    let caps = SeatCapabilities { pointer: true, keyboard: false, touch: true };
    let seat = Seat::new(3, caps);
    assert_eq!(*seat.capabilities(), caps);
}

#[test]
fn seat_capabilities_update_keeps_identity() {
    let mut seat = Seat::new(9, SeatCapabilities { pointer: false, keyboard: false, touch: false });
    let same = seat;
    seat.capabilities_mut().keyboard = true;
    assert!(seat.capabilities().keyboard);
    assert!(!seat.capabilities().pointer);
    assert_eq!(seat, same);
    assert_eq!(hash_of(&seat), hash_of(&same));
}

#[test]
fn touch_slot_equality_by_id() {
    let a = TouchSlot::new(3);
    let b = TouchSlot::new(3);
    let c = TouchSlot::new(4);
    assert_eq!(a, b);
    assert!(a != c);
    assert_eq!(hash_of(&a), hash_of(&b));
}
