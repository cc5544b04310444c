//! The virtual backend's pump operation and the handler contract.

use input_core::Axis;
use input_core::AxisSource;
use input_core::CollectingHandler;
use input_core::InputBackend;
use input_core::InputRecord;
use input_core::KeyState;
use input_core::MouseButton;
use input_core::MouseButtonState;
use input_core::Seat;
use input_core::SeatCapabilities;
use input_core::TouchSlot;
use input_core::VirtualBackend;
use input_core::VirtualBackendError;

fn keyboard_seat() -> Seat {
    Seat::new(7, SeatCapabilities { pointer: false, keyboard: true, touch: false })
}

#[test]
fn keyboard_scenario_on_seat_seven() {
    let seat = keyboard_seat();
    let mut backend: VirtualBackend<CollectingHandler> = VirtualBackend::new();
    backend.set_handler(CollectingHandler::new());
    backend.enqueue(InputRecord::SeatCreated(seat));
    backend.enqueue(InputRecord::KeyboardKey {
        seat,
        time: 1,
        key_code: 30,
        state: KeyState::Pressed,
        count: 1,
    });
    backend.enqueue(InputRecord::KeyboardKey {
        seat,
        time: 2,
        key_code: 30,
        state: KeyState::Released,
        count: 0,
    });
    assert_eq!(backend.dispatch_new_events(), Ok(()));

    let handler = backend.get_handler().unwrap();
    let records = handler.records();
    assert_eq!(records.len(), 3);
    match records[0] {
        InputRecord::SeatCreated(s) => {
            assert_eq!(s, seat);
            assert!(s.capabilities().keyboard);
        }
        _ => panic!("the seat must be announced before its first key event"),
    }
    match records[1] {
        InputRecord::KeyboardKey { seat: s, key_code, state, count, .. } => {
            assert_eq!(s, seat);
            assert_eq!(key_code, 30);
            assert_eq!(state, KeyState::Pressed);
            assert_eq!(count, 1);
        }
        _ => panic!("the first key event must be the press"),
    }
    match records[2] {
        InputRecord::KeyboardKey { seat: s, key_code, state, count, .. } => {
            assert_eq!(s, seat);
            assert_eq!(key_code, 30);
            assert_eq!(state, KeyState::Released);
            assert_eq!(count, 0);
        }
        _ => panic!("the second key event must be the release"),
    }
    assert!(!records.iter().any(|r| matches!(r, InputRecord::SeatDestroyed(_))));
}

#[test]
fn handler_swap_and_clear() {
    let seat = keyboard_seat();
    let press = InputRecord::KeyboardKey {
        seat,
        time: 1,
        key_code: 30,
        state: KeyState::Pressed,
        count: 1,
    };
    let release = InputRecord::KeyboardKey {
        seat,
        time: 2,
        key_code: 30,
        state: KeyState::Released,
        count: 0,
    };

    let mut backend: VirtualBackend<CollectingHandler> = VirtualBackend::new();
    backend.set_handler(CollectingHandler::new());
    backend.enqueue(press);
    assert_eq!(backend.dispatch_new_events(), Ok(()));
    assert_eq!(backend.get_handler().unwrap().records().len(), 1);

    backend.set_handler(CollectingHandler::new());
    backend.enqueue(release);
    assert_eq!(backend.dispatch_new_events(), Ok(()));
    let records = backend.get_handler().unwrap().records();
    assert_eq!(records.len(), 1);
    assert_eq!(records[0], release);

    backend.clear_handler();
    assert!(backend.get_handler().is_none());
}

#[test]
fn pump_without_handler_buffers_activity() {
    let seat = keyboard_seat();
    let press = InputRecord::KeyboardKey {
        seat,
        time: 1,
        key_code: 30,
        state: KeyState::Pressed,
        count: 1,
    };
    let mut backend: VirtualBackend<CollectingHandler> = VirtualBackend::new();
    backend.enqueue(press);
    assert_eq!(backend.dispatch_new_events(), Ok(()));
    backend.set_handler(CollectingHandler::new());
    assert_eq!(backend.dispatch_new_events(), Ok(()));
    let records = backend.get_handler().unwrap().records();
    assert_eq!(records.len(), 1);
    assert_eq!(records[0], press);
}

#[test]
fn failing_source_reports_error_and_delivers_nothing() {
    let seat = keyboard_seat();
    let mut backend: VirtualBackend<CollectingHandler> = VirtualBackend::new();
    backend.set_handler(CollectingHandler::new());
    backend.enqueue(InputRecord::SeatCreated(seat));
    backend.set_failing(true);
    assert_eq!(backend.dispatch_new_events(), Err(VirtualBackendError::SourceUnavailable));
    assert_eq!(backend.get_handler().unwrap().records().len(), 0);
    backend.set_failing(false);
    assert_eq!(backend.dispatch_new_events(), Ok(()));
    assert_eq!(backend.get_handler().unwrap().records().len(), 1);
}

#[test]
fn config_mutation_and_change_notification() {
    let mut backend: VirtualBackend<CollectingHandler> = VirtualBackend::new();
    assert!(!backend.input_config().tap_to_click);
    backend.input_config().tap_to_click = true;
    assert!(backend.input_config().tap_to_click);

    backend.set_handler(CollectingHandler::new());
    backend.enqueue(InputRecord::InputConfigChanged);
    assert_eq!(backend.dispatch_new_events(), Ok(()));
    let records = backend.get_handler().unwrap().records();
    assert_eq!(records.len(), 1);
    assert_eq!(records[0], InputRecord::InputConfigChanged);
}

#[test]
fn boxed_handler_forwards_unchanged() {
    let seat = keyboard_seat();
    let press = InputRecord::KeyboardKey {
        seat,
        time: 1,
        key_code: 30,
        state: KeyState::Pressed,
        count: 1,
    };
    let mut backend: VirtualBackend<Box<CollectingHandler>> = VirtualBackend::new();
    backend.set_handler(Box::new(CollectingHandler::new()));
    backend.enqueue(InputRecord::SeatCreated(seat));
    backend.enqueue(press);
    assert_eq!(backend.dispatch_new_events(), Ok(()));
    let handler = backend.get_handler().unwrap();
    let records = handler.records();
    assert_eq!(records.len(), 2);
    assert_eq!(records[0], InputRecord::SeatCreated(seat));
    assert_eq!(records[1], press);
}

#[test]
fn every_record_kind_is_delivered_in_order() {
    let seat = Seat::new(2, SeatCapabilities { pointer: true, keyboard: true, touch: true });
    let slot = Some(TouchSlot::new(4));
    let activity = vec![
        InputRecord::SeatCreated(seat),
        InputRecord::SeatChanged(seat),
        InputRecord::KeyboardKey {
            seat,
            time: 1,
            key_code: 16,
            state: KeyState::Pressed,
            count: 1,
        },
        InputRecord::PointerMotion { seat, time: 2, delta_x: 3, delta_y: 4 },
        InputRecord::PointerMotionAbsolute { seat, time: 3, x: 100, y: 200 },
        InputRecord::PointerButton {
            seat,
            time: 4,
            button: MouseButton::Middle,
            state: MouseButtonState::Pressed,
        },
        InputRecord::PointerAxis {
            seat,
            time: 5,
            axis: Axis::Horizontal,
            source: AxisSource::Continuous,
            amount: -2,
        },
        InputRecord::TouchDown { seat, time: 6, slot, x: 10, y: 20 },
        InputRecord::TouchMotion { seat, time: 7, slot, x: 11, y: 21 },
        InputRecord::TouchUp { seat, time: 8, slot },
        InputRecord::TouchDown { seat, time: 9, slot, x: 12, y: 22 },
        InputRecord::TouchCancel { seat, time: 10, slot },
        InputRecord::TouchFrame { seat, time: 11 },
        InputRecord::InputConfigChanged,
        InputRecord::SeatDestroyed(seat),
    ];
    let mut backend: VirtualBackend<CollectingHandler> = VirtualBackend::new();
    backend.set_handler(CollectingHandler::new());
    for record in &activity {
        backend.enqueue(*record);
    }
    assert_eq!(backend.dispatch_new_events(), Ok(()));
    let records = backend.get_handler().unwrap().records();
    assert_eq!(records.len(), activity.len());
    for (observed, fed) in records.iter().zip(activity.iter()) {
        assert_eq!(observed, fed);
    }
}
