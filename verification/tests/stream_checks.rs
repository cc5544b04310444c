//! Stream well-formedness: scroll termination and touch slot discipline.

use input_core::Axis;
use input_core::AxisSource;
use input_core::InputRecord;
use input_core::Seat;
use input_core::SeatCapabilities;
use input_core::TouchSlot;
use input_core::check_finger_scrolls_terminated;
use input_core::check_touch_discipline;
use input_core::check_touch_stream;
use input_core::check_touch_uniformity;

fn seat() -> Seat {
    Seat::new(1, SeatCapabilities { pointer: true, keyboard: false, touch: true })
}

fn axis(time: u32, source: AxisSource, amount: i64) -> InputRecord {
    InputRecord::PointerAxis { seat: seat(), time, axis: Axis::Vertical, source, amount }
}

fn down(time: u32, slot: Option<TouchSlot>) -> InputRecord {
    InputRecord::TouchDown { seat: seat(), time, slot, x: 0, y: 0 }
}

fn motion(time: u32, slot: Option<TouchSlot>) -> InputRecord {
    InputRecord::TouchMotion { seat: seat(), time, slot, x: 1, y: 1 }
}

fn up(time: u32, slot: Option<TouchSlot>) -> InputRecord {
    InputRecord::TouchUp { seat: seat(), time, slot }
}

fn cancel(time: u32, slot: Option<TouchSlot>) -> InputRecord {
    InputRecord::TouchCancel { seat: seat(), time, slot }
}

#[test]
fn finger_sequence_with_zero_terminator_passes() {
    let events = vec![
        axis(1, AxisSource::Finger, 3),
        axis(2, AxisSource::Finger, 1),
        axis(3, AxisSource::Finger, 0),
    ];
    assert!(check_finger_scrolls_terminated(&events));
}

#[test]
fn finger_sequence_without_terminator_fails() {
    let events = vec![axis(1, AxisSource::Finger, 3), axis(2, AxisSource::Finger, 1)];
    assert!(!check_finger_scrolls_terminated(&events));
}

#[test]
fn wheel_sequence_needs_no_terminator() {
    let events = vec![axis(1, AxisSource::Wheel, 3), axis(2, AxisSource::Wheel, 2)];
    assert!(check_finger_scrolls_terminated(&events));
}

#[test]
fn finger_run_interrupted_by_wheel_must_end_with_zero() {
    let terminated = vec![
        axis(1, AxisSource::Finger, 2),
        axis(2, AxisSource::Finger, 0),
        axis(3, AxisSource::Wheel, 5),
    ];
    assert!(check_finger_scrolls_terminated(&terminated));
    let unterminated = vec![axis(1, AxisSource::Finger, 2), axis(2, AxisSource::Wheel, 5)];
    assert!(!check_finger_scrolls_terminated(&unterminated));
}

#[test]
fn empty_stream_is_terminated_and_coherent() {
    let events: Vec<InputRecord> = vec![];
    assert!(check_finger_scrolls_terminated(&events));
    assert!(check_touch_stream(&events));
}

#[test]
fn single_contact_sequence_is_coherent() {
    let s1 = Some(TouchSlot::new(1));
    let events = vec![down(1, s1), motion(2, s1), motion(3, s1), up(4, s1)];
    assert!(check_touch_discipline(&events));
    assert!(check_touch_uniformity(&events));
    assert!(check_touch_stream(&events));
}

#[test]
fn motion_on_unknown_slot_breaks_discipline() {
    let s1 = Some(TouchSlot::new(1));
    let s2 = Some(TouchSlot::new(2));
    let events = vec![down(1, s1), motion(2, s2), up(3, s1)];
    assert!(!check_touch_discipline(&events));
    assert!(!check_touch_stream(&events));
}

#[test]
fn slot_reuse_while_live_breaks_discipline() {
    let s1 = Some(TouchSlot::new(1));
    let events = vec![down(1, s1), down(2, s1)];
    assert!(!check_touch_discipline(&events));
}

#[test]
fn slot_released_by_cancel_can_be_reused() {
    let s1 = Some(TouchSlot::new(1));
    let events = vec![down(1, s1), cancel(2, s1), down(3, s1), up(4, s1)];
    assert!(check_touch_discipline(&events));
}

#[test]
fn interleaved_contacts_are_coherent() {
    let s1 = Some(TouchSlot::new(1));
    let s2 = Some(TouchSlot::new(2));
    let events = vec![down(1, s1), down(2, s2), motion(3, s1), up(4, s2), cancel(5, s1)];
    assert!(check_touch_discipline(&events));
    assert!(check_touch_stream(&events));
}

#[test]
fn slotless_device_stream_is_coherent() {
    let events = vec![down(1, None), motion(2, None), up(3, None)];
    assert!(check_touch_discipline(&events));
    assert!(check_touch_uniformity(&events));
    assert!(check_touch_stream(&events));
}

#[test]
fn mixing_present_and_absent_slots_breaks_uniformity() {
    let s1 = Some(TouchSlot::new(1));
    let events = vec![down(1, s1), up(2, s1), down(3, None), up(4, None)];
    assert!(check_touch_discipline(&events));
    assert!(!check_touch_uniformity(&events));
    assert!(!check_touch_stream(&events));
}

#[test]
fn up_without_down_breaks_discipline() {
    let s1 = Some(TouchSlot::new(1));
    let events = vec![up(1, s1)];
    assert!(!check_touch_discipline(&events));
}

#[test]
fn nondecreasing_times_pass() {
    let s1 = Some(TouchSlot::new(1));
    let events = vec![
        InputRecord::SeatCreated(seat()),
        down(1, s1),
        motion(1, s1),
        motion(4, s1),
        up(4, s1),
    ];
    assert!(input_core::check_times_nondecreasing(&events));
}

#[test]
fn decreasing_times_detected() {
    let s1 = Some(TouchSlot::new(1));
    let events = vec![down(5, s1), motion(3, s1), up(6, s1)];
    assert!(!input_core::check_times_nondecreasing(&events));
}

#[test]
fn untimed_records_do_not_order() {
    let events = vec![InputRecord::SeatCreated(seat()), InputRecord::InputConfigChanged];
    assert!(input_core::check_times_nondecreasing(&events));
}

#[test]
fn non_touch_records_do_not_affect_touch_checks() {
    let s1 = Some(TouchSlot::new(1));
    let events = vec![
        down(1, s1),
        axis(2, AxisSource::Finger, 0),
        InputRecord::TouchFrame { seat: seat(), time: 3 },
        up(4, s1),
    ];
    assert!(check_touch_stream(&events));
    assert!(check_finger_scrolls_terminated(&events));
}
