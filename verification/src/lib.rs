//! Backend-agnostic delivery of human-input events.
//!
//! A concrete input source (an evdev reader, a windowing-system backend, a
//! virtual source for tests) implements an input-backend contract; the
//! consumer implements a handler contract and installs it into the backend.
//! Each call to the backend's pump operation reads pending device activity,
//! resolves it into seat/event pairs and drives the handler synchronously,
//! one callback per event, in device-activity order.
//!
//! Every event kind is a capability interface rather than a concrete record,
//! so each backend keeps its own representation; the derived accessors
//! (position tuples, coordinate transforms) are default methods written once
//! against the primitive accessors.  Contracts throughout are stated over the
//! specification-level accessors, so a consumer can reason about what a
//! conforming backend delivers without seeing its representation.

mod seat;
mod touch;
mod event;
mod record;
mod backend;
mod handler;
mod transform;
mod stream;
mod virtual_source;

pub use seat::Seat;
pub use seat::SeatCapabilities;
pub use seat::lemma_seat_equality_is_id_equality;
pub use touch::TouchSlot;
pub use event::Event;
pub use event::KeyState;
pub use event::KeyboardKeyEvent;
pub use event::MouseButton;
pub use event::MouseButtonState;
pub use event::PointerButtonEvent;
pub use event::Axis;
pub use event::AxisSource;
pub use event::PointerAxisEvent;
pub use event::PointerMotionEvent;
pub use event::PointerMotionAbsoluteEvent;
pub use event::TouchDownEvent;
pub use event::TouchMotionEvent;
pub use event::TouchUpEvent;
pub use event::TouchCancelEvent;
pub use event::TouchFrameEvent;
pub use record::InputRecord;
pub use record::HandlerLog;
pub use backend::InputBackend;
pub use backend::InputShapes;
pub use handler::InputHandler;
pub use handler::CollectingHandler;
pub use transform::scale_to_space;
pub use transform::scaled;
pub use transform::lemma_scaled_bounded;
pub use transform::lemma_scaled_monotonic;
pub use stream::check_finger_scrolls_terminated;
pub use stream::check_touch_discipline;
pub use stream::check_touch_stream;
pub use stream::check_touch_uniformity;
pub use stream::record_axis_amount;
pub use stream::record_is_finger_axis;
pub use stream::record_touch_slot;
pub use stream::record_time_of;
pub use stream::check_times_nondecreasing;
pub use stream::time_of;
pub use stream::times_nondecreasing;
pub use stream::is_finger_axis;
pub use stream::axis_amount;
pub use stream::finger_scrolls_terminated;
pub use stream::lemma_finger_sequence_ends_with_zero;
pub use stream::lemma_finger_free_stream_terminated;
pub use stream::touch_slot_of;
pub use stream::is_touch_with_slot;
pub use stream::is_touch_without_slot;
pub use stream::touch_slots_uniform;
pub use stream::touch_live_step;
pub use stream::touch_live_after;
pub use stream::touch_discipline_ok;
pub use stream::touch_stream_coherent;
pub use stream::is_down_with;
pub use stream::is_release_with;
pub use stream::lemma_discipline_prefix;
pub use stream::lemma_no_slot_reuse_while_live;
pub use virtual_source::VIRTUAL_NATIVE_SPACE;
pub use virtual_source::VirtualBackend;
pub use virtual_source::VirtualBackendError;
pub use virtual_source::VirtualConfig;
pub use virtual_source::VirtualKeyboardKeyEvent;
pub use virtual_source::VirtualPointerAxisEvent;
pub use virtual_source::VirtualPointerButtonEvent;
pub use virtual_source::VirtualPointerMotionAbsoluteEvent;
pub use virtual_source::VirtualPointerMotionEvent;
pub use virtual_source::VirtualTouchCancelEvent;
pub use virtual_source::VirtualTouchDownEvent;
pub use virtual_source::VirtualTouchFrameEvent;
pub use virtual_source::VirtualTouchMotionEvent;
pub use virtual_source::VirtualTouchUpEvent;
