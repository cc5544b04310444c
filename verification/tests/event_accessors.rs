//! The event taxonomy's accessors and derived accessors.

use input_core::Axis;
use input_core::AxisSource;
use input_core::Event;
use input_core::KeyState;
use input_core::KeyboardKeyEvent;
use input_core::MouseButton;
use input_core::MouseButtonState;
use input_core::PointerAxisEvent;
use input_core::PointerButtonEvent;
use input_core::PointerMotionAbsoluteEvent;
use input_core::PointerMotionEvent;
use input_core::TouchCancelEvent;
use input_core::TouchDownEvent;
use input_core::TouchMotionEvent;
use input_core::TouchSlot;
use input_core::TouchUpEvent;
use input_core::VirtualKeyboardKeyEvent;
use input_core::VirtualPointerAxisEvent;
use input_core::VirtualPointerButtonEvent;
use input_core::VirtualPointerMotionAbsoluteEvent;
use input_core::VirtualPointerMotionEvent;
use input_core::VirtualTouchCancelEvent;
use input_core::VirtualTouchDownEvent;
use input_core::VirtualTouchMotionEvent;
use input_core::VirtualTouchUpEvent;
use input_core::scale_to_space;

#[test]
fn keyboard_event_accessors() {
    let event = VirtualKeyboardKeyEvent::new(2, 30, KeyState::Pressed, 1);
    assert_eq!(event.time(), 2);
    assert_eq!(event.key_code(), 30);
    assert_eq!(event.state(), KeyState::Pressed);
    assert_eq!(event.count(), 1);
}

#[test]
fn pointer_button_event_accessors() {
    let event = VirtualPointerButtonEvent::new(4, MouseButton::Other(9), MouseButtonState::Pressed);
    assert_eq!(event.time(), 4);
    assert_eq!(event.button(), MouseButton::Other(9));
    assert_eq!(event.state(), MouseButtonState::Pressed);
}

#[test]
fn pointer_axis_event_accessors() {
    let event = VirtualPointerAxisEvent::new(6, Axis::Horizontal, AxisSource::Wheel, -3);
    assert_eq!(event.time(), 6);
    assert_eq!(event.axis(), Axis::Horizontal);
    assert_eq!(event.source(), AxisSource::Wheel);
    assert_eq!(event.amount(), -3);
}

#[test]
fn pointer_motion_delta_matches_components() {
    let event = VirtualPointerMotionEvent::new(5, 10, 20);
    assert_eq!(event.delta(), (event.delta_x(), event.delta_y()));
    assert_eq!(event.delta(), (10, 20));
}

#[test]
fn absolute_position_tuple_matches_components() {
    let event = VirtualPointerMotionAbsoluteEvent::new(1, 0x8000_0000, 0x4000_0000);
    assert_eq!(event.position(), (event.x(), event.y()));
    assert_eq!(event.position(), (0x8000_0000, 0x4000_0000));
}

#[test]
fn absolute_position_transformed_componentwise_and_bounded() {
    let event = VirtualPointerMotionAbsoluteEvent::new(1, 0x8000_0000, 0x4000_0000);
    let space = (1920u32, 1080u32);
    let transformed = event.position_transformed(space);
    assert_eq!(transformed, (event.x_transformed(space.0), event.y_transformed(space.1)));
    assert_eq!(transformed, (960, 270));
    assert!(transformed.0 < space.0);
    assert!(transformed.1 < space.1);
}

#[test]
fn touch_down_position_and_transform() {
    let slot = Some(TouchSlot::new(1));
    let event = VirtualTouchDownEvent::new(3, slot, 0xFFFF_FFFF, 0);
    assert_eq!(event.slot(), slot);
    assert_eq!(event.position(), (0xFFFF_FFFF, 0));
    let transformed = event.position_transformed((100, 100));
    assert_eq!(transformed, (event.x_transformed(100), event.y_transformed(100)));
    assert_eq!(transformed, (99, 0));
    assert!(transformed.0 < 100 && transformed.1 < 100);
}

#[test]
fn touch_motion_position_and_transform() {
    let event = VirtualTouchMotionEvent::new(4, None, 0, 0x8000_0000);
    assert_eq!(event.slot(), None);
    assert_eq!(event.position(), (0, 0x8000_0000));
    assert_eq!(event.position_transformed((640, 480)), (0, 240));
}

#[test]
fn touch_up_and_cancel_accessors() {
    let slot = Some(TouchSlot::new(5));
    let up = VirtualTouchUpEvent::new(8, slot);
    assert_eq!(up.time(), 8);
    assert_eq!(up.slot(), slot);
    let cancel = VirtualTouchCancelEvent::new(9, None);
    assert_eq!(cancel.time(), 9);
    assert_eq!(cancel.slot(), None);
}

#[test]
fn scale_to_space_formula() {
    assert_eq!(scale_to_space(0, 100, 7), 0);
    assert_eq!(scale_to_space(50, 100, 7), 3);
    assert_eq!(scale_to_space(99, 100, 7), 6);
    assert_eq!(scale_to_space(0x8000_0000, 0x1_0000_0000, 1920), 960);
}

#[test]
fn unit_stub_events_report_fixed_values() {
    assert_eq!(Event::time(&()), 0);
    assert_eq!(KeyboardKeyEvent::key_code(&()), 0);
    assert_eq!(KeyboardKeyEvent::state(&()), KeyState::Released);
    assert_eq!(PointerButtonEvent::button(&()), MouseButton::Left);
    assert_eq!(PointerAxisEvent::amount(&()), 0);
    assert_eq!(PointerMotionEvent::delta(&()), (0, 0));
    assert_eq!(PointerMotionAbsoluteEvent::position_transformed(&(), (10, 10)), (0, 0));
    assert_eq!(TouchDownEvent::slot(&()), None);
    assert_eq!(TouchMotionEvent::slot(&()), None);
    assert_eq!(TouchUpEvent::slot(&()), None);
    assert_eq!(TouchCancelEvent::slot(&()), None);
}
