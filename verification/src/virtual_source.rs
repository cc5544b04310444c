//! A virtual input backend: a concrete, fully verified event source.
//!
//! The virtual backend reads no real device.  Its pending activity is fed
//! to it explicitly as [`InputRecord`] values, and its pump operation
//! resolves each record into a seat and a concrete event value and drives
//! the installed handler, exactly as the backend contract demands.  It
//! serves embedders that synthesize input and test harnesses that need a
//! backend with fully known behaviour.
//!
//! Its absolute-position events sample in a native space of `2^32` cells
//! per axis and transform proportionally into the target space.

use vstd::prelude::*;

use crate::backend::InputBackend;
use crate::backend::InputShapes;
use crate::event::Axis;
use crate::event::AxisSource;
use crate::event::Event;
use crate::event::KeyState;
use crate::event::KeyboardKeyEvent;
use crate::event::MouseButton;
use crate::event::MouseButtonState;
use crate::event::PointerAxisEvent;
use crate::event::PointerButtonEvent;
use crate::event::PointerMotionEvent;
use crate::event::PointerMotionAbsoluteEvent;
use crate::event::TouchCancelEvent;
use crate::event::TouchDownEvent;
use crate::event::TouchFrameEvent;
use crate::event::TouchMotionEvent;
use crate::event::TouchUpEvent;
use crate::handler::InputHandler;
use crate::record::HandlerLog;
use crate::record::InputRecord;
use crate::touch::TouchSlot;
use crate::transform::lemma_scaled_bounded;
use crate::transform::lemma_scaled_monotonic;
use crate::transform::scale_to_space;
use crate::transform::scaled;

verus! {

/// Size of the native coordinate space of the virtual backend's
/// position-bearing events: one axis samples in `[0, 2^32)`.
pub const VIRTUAL_NATIVE_SPACE: u64 = 0x1_0000_0000;

/// Keyboard event of the virtual backend.
#[derive(Debug, Clone, Copy)]
pub struct VirtualKeyboardKeyEvent {
    time: u32,
    key_code: u32,
    state: KeyState,
    count: u32,
}

impl VirtualKeyboardKeyEvent {
    /// Build a keyboard event from its raw values.
    pub fn new(time: u32, key_code: u32, state: KeyState, count: u32) -> (event: Self)
        ensures
            event.time_spec() == time,
            event.key_code_spec() == key_code,
            event.state_spec() == state,
            event.count_spec() == count,
    {
        VirtualKeyboardKeyEvent { time, key_code, state, count }
    }
}

impl Event for VirtualKeyboardKeyEvent {
    closed spec fn time_spec(&self) -> u32 {
        self.time
    }

    fn time(&self) -> u32 {
        self.time
    }
}

impl KeyboardKeyEvent for VirtualKeyboardKeyEvent {
    closed spec fn key_code_spec(&self) -> u32 {
        self.key_code
    }

    closed spec fn state_spec(&self) -> KeyState {
        self.state
    }

    closed spec fn count_spec(&self) -> u32 {
        self.count
    }

    fn key_code(&self) -> u32 {
        self.key_code
    }

    fn state(&self) -> KeyState {
        self.state
    }

    fn count(&self) -> u32 {
        self.count
    }
}

/// Pointer button event of the virtual backend.
#[derive(Debug, Clone, Copy)]
pub struct VirtualPointerButtonEvent {
    time: u32,
    button: MouseButton,
    state: MouseButtonState,
}

impl VirtualPointerButtonEvent {
    /// Build a pointer button event from its raw values.
    pub fn new(time: u32, button: MouseButton, state: MouseButtonState) -> (event: Self)
        ensures
            event.time_spec() == time,
            event.button_spec() == button,
            event.state_spec() == state,
    {
        VirtualPointerButtonEvent { time, button, state }
    }
}

impl Event for VirtualPointerButtonEvent {
    closed spec fn time_spec(&self) -> u32 {
        self.time
    }

    fn time(&self) -> u32 {
        self.time
    }
}

impl PointerButtonEvent for VirtualPointerButtonEvent {
    closed spec fn button_spec(&self) -> MouseButton {
        self.button
    }

    closed spec fn state_spec(&self) -> MouseButtonState {
        self.state
    }

    fn button(&self) -> MouseButton {
        self.button
    }

    fn state(&self) -> MouseButtonState {
        self.state
    }
}

/// Pointer axis (scroll) event of the virtual backend.
#[derive(Debug, Clone, Copy)]
pub struct VirtualPointerAxisEvent {
    time: u32,
    axis: Axis,
    source: AxisSource,
    amount: i64,
}

impl VirtualPointerAxisEvent {
    /// Build a pointer axis event from its raw values.
    pub fn new(time: u32, axis: Axis, source: AxisSource, amount: i64) -> (event: Self)
        ensures
            event.time_spec() == time,
            event.axis_spec() == axis,
            event.source_spec() == source,
            event.amount_spec() == amount,
    {
        VirtualPointerAxisEvent { time, axis, source, amount }
    }
}

impl Event for VirtualPointerAxisEvent {
    closed spec fn time_spec(&self) -> u32 {
        self.time
    }

    fn time(&self) -> u32 {
        self.time
    }
}

impl PointerAxisEvent for VirtualPointerAxisEvent {
    closed spec fn axis_spec(&self) -> Axis {
        self.axis
    }

    closed spec fn source_spec(&self) -> AxisSource {
        self.source
    }

    closed spec fn amount_spec(&self) -> i64 {
        self.amount
    }

    fn axis(&self) -> Axis {
        self.axis
    }

    fn source(&self) -> AxisSource {
        self.source
    }

    fn amount(&self) -> i64 {
        self.amount
    }
}

/// Relative pointer motion event of the virtual backend.
#[derive(Debug, Clone, Copy)]
pub struct VirtualPointerMotionEvent {
    time: u32,
    delta_x: u32,
    delta_y: u32,
}

impl VirtualPointerMotionEvent {
    /// Build a relative motion event from its raw values.
    pub fn new(time: u32, delta_x: u32, delta_y: u32) -> (event: Self)
        ensures
            event.time_spec() == time,
            event.delta_x_spec() == delta_x,
            event.delta_y_spec() == delta_y,
    {
        VirtualPointerMotionEvent { time, delta_x, delta_y }
    }
}

impl Event for VirtualPointerMotionEvent {
    closed spec fn time_spec(&self) -> u32 {
        self.time
    }

    fn time(&self) -> u32 {
        self.time
    }
}

impl PointerMotionEvent for VirtualPointerMotionEvent {
    closed spec fn delta_x_spec(&self) -> u32 {
        self.delta_x
    }

    closed spec fn delta_y_spec(&self) -> u32 {
        self.delta_y
    }

    fn delta_x(&self) -> u32 {
        self.delta_x
    }

    fn delta_y(&self) -> u32 {
        self.delta_y
    }
}

/// Absolute pointer motion event of the virtual backend.  Its native
/// coordinates live in `[0, 2^32)` per axis and transform proportionally.
#[derive(Debug, Clone, Copy)]
pub struct VirtualPointerMotionAbsoluteEvent {
    time: u32,
    x: u32,
    y: u32,
}

impl VirtualPointerMotionAbsoluteEvent {
    /// Build an absolute motion event from its raw values.
    pub fn new(time: u32, x: u32, y: u32) -> (event: Self)
        ensures
            event.time_spec() == time,
            event.x_spec() == x,
            event.y_spec() == y,
    {
        VirtualPointerMotionAbsoluteEvent { time, x, y }
    }
}

impl Event for VirtualPointerMotionAbsoluteEvent {
    closed spec fn time_spec(&self) -> u32 {
        self.time
    }

    fn time(&self) -> u32 {
        self.time
    }
}

impl PointerMotionAbsoluteEvent for VirtualPointerMotionAbsoluteEvent {
    closed spec fn x_spec(&self) -> u32 {
        self.x
    }

    closed spec fn y_spec(&self) -> u32 {
        self.y
    }

    closed spec fn x_transformed_spec(&self, width: u32) -> u32 {
        scaled(self.x, VIRTUAL_NATIVE_SPACE, width) as u32
    }

    closed spec fn y_transformed_spec(&self, height: u32) -> u32 {
        scaled(self.y, VIRTUAL_NATIVE_SPACE, height) as u32
    }

    fn x(&self) -> u32 {
        self.x
    }

    fn y(&self) -> u32 {
        self.y
    }

    fn x_transformed(&self, width: u32) -> u32 {
        scale_to_space(self.x, VIRTUAL_NATIVE_SPACE, width)
    }

    fn y_transformed(&self, height: u32) -> u32 {
        scale_to_space(self.y, VIRTUAL_NATIVE_SPACE, height)
    }

    proof fn x_transformed_monotonic(&self, other: &Self, width: u32) {
        lemma_scaled_monotonic(self.x, other.x, VIRTUAL_NATIVE_SPACE, width);
        lemma_scaled_bounded(self.x, VIRTUAL_NATIVE_SPACE, width);
        lemma_scaled_bounded(other.x, VIRTUAL_NATIVE_SPACE, width);
    }

    proof fn y_transformed_monotonic(&self, other: &Self, height: u32) {
        lemma_scaled_monotonic(self.y, other.y, VIRTUAL_NATIVE_SPACE, height);
        lemma_scaled_bounded(self.y, VIRTUAL_NATIVE_SPACE, height);
        lemma_scaled_bounded(other.y, VIRTUAL_NATIVE_SPACE, height);
    }
}

/// Touch down event of the virtual backend.
#[derive(Debug, Clone, Copy)]
pub struct VirtualTouchDownEvent {
    time: u32,
    slot: Option<TouchSlot>,
    x: u32,
    y: u32,
}

impl VirtualTouchDownEvent {
    /// Build a touch down event from its raw values.
    pub fn new(time: u32, slot: Option<TouchSlot>, x: u32, y: u32) -> (event: Self)
        ensures
            event.time_spec() == time,
            event.slot_spec() == slot,
            event.x_spec() == x,
            event.y_spec() == y,
    {
        VirtualTouchDownEvent { time, slot, x, y }
    }
}

impl Event for VirtualTouchDownEvent {
    closed spec fn time_spec(&self) -> u32 {
        self.time
    }

    fn time(&self) -> u32 {
        self.time
    }
}

impl TouchDownEvent for VirtualTouchDownEvent {
    closed spec fn slot_spec(&self) -> Option<TouchSlot> {
        self.slot
    }

    closed spec fn x_spec(&self) -> u32 {
        self.x
    }

    closed spec fn y_spec(&self) -> u32 {
        self.y
    }

    closed spec fn x_transformed_spec(&self, width: u32) -> u32 {
        scaled(self.x, VIRTUAL_NATIVE_SPACE, width) as u32
    }

    closed spec fn y_transformed_spec(&self, height: u32) -> u32 {
        scaled(self.y, VIRTUAL_NATIVE_SPACE, height) as u32
    }

    fn slot(&self) -> Option<TouchSlot> {
        self.slot
    }

    fn x(&self) -> u32 {
        self.x
    }

    fn y(&self) -> u32 {
        self.y
    }

    fn x_transformed(&self, width: u32) -> u32 {
        scale_to_space(self.x, VIRTUAL_NATIVE_SPACE, width)
    }

    fn y_transformed(&self, height: u32) -> u32 {
        scale_to_space(self.y, VIRTUAL_NATIVE_SPACE, height)
    }

    proof fn x_transformed_monotonic(&self, other: &Self, width: u32) {
        lemma_scaled_monotonic(self.x, other.x, VIRTUAL_NATIVE_SPACE, width);
        lemma_scaled_bounded(self.x, VIRTUAL_NATIVE_SPACE, width);
        lemma_scaled_bounded(other.x, VIRTUAL_NATIVE_SPACE, width);
    }

    proof fn y_transformed_monotonic(&self, other: &Self, height: u32) {
        lemma_scaled_monotonic(self.y, other.y, VIRTUAL_NATIVE_SPACE, height);
        lemma_scaled_bounded(self.y, VIRTUAL_NATIVE_SPACE, height);
        lemma_scaled_bounded(other.y, VIRTUAL_NATIVE_SPACE, height);
    }
}

/// Touch motion event of the virtual backend.
#[derive(Debug, Clone, Copy)]
pub struct VirtualTouchMotionEvent {
    time: u32,
    slot: Option<TouchSlot>,
    x: u32,
    y: u32,
}

impl VirtualTouchMotionEvent {
    /// Build a touch motion event from its raw values.
    pub fn new(time: u32, slot: Option<TouchSlot>, x: u32, y: u32) -> (event: Self)
        ensures
            event.time_spec() == time,
            event.slot_spec() == slot,
            event.x_spec() == x,
            event.y_spec() == y,
    {
        VirtualTouchMotionEvent { time, slot, x, y }
    }
}

impl Event for VirtualTouchMotionEvent {
    closed spec fn time_spec(&self) -> u32 {
        self.time
    }

    fn time(&self) -> u32 {
        self.time
    }
}

impl TouchMotionEvent for VirtualTouchMotionEvent {
    closed spec fn slot_spec(&self) -> Option<TouchSlot> {
        self.slot
    }

    closed spec fn x_spec(&self) -> u32 {
        self.x
    }

    closed spec fn y_spec(&self) -> u32 {
        self.y
    }

    closed spec fn x_transformed_spec(&self, width: u32) -> u32 {
        scaled(self.x, VIRTUAL_NATIVE_SPACE, width) as u32
    }

    closed spec fn y_transformed_spec(&self, height: u32) -> u32 {
        scaled(self.y, VIRTUAL_NATIVE_SPACE, height) as u32
    }

    fn slot(&self) -> Option<TouchSlot> {
        self.slot
    }

    fn x(&self) -> u32 {
        self.x
    }

    fn y(&self) -> u32 {
        self.y
    }

    fn x_transformed(&self, width: u32) -> u32 {
        scale_to_space(self.x, VIRTUAL_NATIVE_SPACE, width)
    }

    fn y_transformed(&self, height: u32) -> u32 {
        scale_to_space(self.y, VIRTUAL_NATIVE_SPACE, height)
    }

    proof fn x_transformed_monotonic(&self, other: &Self, width: u32) {
        lemma_scaled_monotonic(self.x, other.x, VIRTUAL_NATIVE_SPACE, width);
        lemma_scaled_bounded(self.x, VIRTUAL_NATIVE_SPACE, width);
        lemma_scaled_bounded(other.x, VIRTUAL_NATIVE_SPACE, width);
    }

    proof fn y_transformed_monotonic(&self, other: &Self, height: u32) {
        lemma_scaled_monotonic(self.y, other.y, VIRTUAL_NATIVE_SPACE, height);
        lemma_scaled_bounded(self.y, VIRTUAL_NATIVE_SPACE, height);
        lemma_scaled_bounded(other.y, VIRTUAL_NATIVE_SPACE, height);
    }
}

/// Touch up event of the virtual backend.
#[derive(Debug, Clone, Copy)]
pub struct VirtualTouchUpEvent {
    time: u32,
    slot: Option<TouchSlot>,
}

impl VirtualTouchUpEvent {
    /// Build a touch up event from its raw values.
    pub fn new(time: u32, slot: Option<TouchSlot>) -> (event: Self)
        ensures
            event.time_spec() == time,
            event.slot_spec() == slot,
    {
        VirtualTouchUpEvent { time, slot }
    }
}

impl Event for VirtualTouchUpEvent {
    closed spec fn time_spec(&self) -> u32 {
        self.time
    }

    fn time(&self) -> u32 {
        self.time
    }
}

impl TouchUpEvent for VirtualTouchUpEvent {
    closed spec fn slot_spec(&self) -> Option<TouchSlot> {
        self.slot
    }

    fn slot(&self) -> Option<TouchSlot> {
        self.slot
    }
}

/// Touch cancel event of the virtual backend.
#[derive(Debug, Clone, Copy)]
pub struct VirtualTouchCancelEvent {
    time: u32,
    slot: Option<TouchSlot>,
}

impl VirtualTouchCancelEvent {
    /// Build a touch cancel event from its raw values.
    pub fn new(time: u32, slot: Option<TouchSlot>) -> (event: Self)
        ensures
            event.time_spec() == time,
            event.slot_spec() == slot,
    {
        VirtualTouchCancelEvent { time, slot }
    }
}

impl Event for VirtualTouchCancelEvent {
    closed spec fn time_spec(&self) -> u32 {
        self.time
    }

    fn time(&self) -> u32 {
        self.time
    }
}

impl TouchCancelEvent for VirtualTouchCancelEvent {
    closed spec fn slot_spec(&self) -> Option<TouchSlot> {
        self.slot
    }

    fn slot(&self) -> Option<TouchSlot> {
        self.slot
    }
}

/// Touch frame event of the virtual backend.
#[derive(Debug, Clone, Copy)]
pub struct VirtualTouchFrameEvent {
    time: u32,
}

impl VirtualTouchFrameEvent {
    /// Build a touch frame event from its raw value.
    pub fn new(time: u32) -> (event: Self)
        ensures
            event.time_spec() == time,
    {
        VirtualTouchFrameEvent { time }
    }
}

impl Event for VirtualTouchFrameEvent {
    closed spec fn time_spec(&self) -> u32 {
        self.time
    }

    fn time(&self) -> u32 {
        self.time
    }
}

impl TouchFrameEvent for VirtualTouchFrameEvent {
}

/// The live configuration object of the virtual backend.
#[derive(Debug, Clone, Copy, PartialEq, Eq, Structural)]
pub struct VirtualConfig {
    /// Whether tapping a touch surface produces a button click.
    pub tap_to_click: bool,
    /// Pointer speed step, as a signed adjustment around the default.
    pub pointer_speed: i32,
}

/// Failure of the virtual device source while pumping events.
#[derive(Debug, Clone, Copy, PartialEq, Eq, Structural)]
pub enum VirtualBackendError {
    /// The virtual source was marked unavailable.
    SourceUnavailable,
}

/// A backend whose device activity is fed to it explicitly.
///
/// Pending activity accumulates through [`VirtualBackend::enqueue`] and is
/// delivered by the pump operation, in order, to the installed handler.
/// With no handler installed, pumping keeps the pending activity buffered.
/// Marking the source unavailable through [`VirtualBackend::set_failing`]
/// makes the pump fail without delivering anything, the way a read failure
/// of a real device source would surface.
pub struct VirtualBackend<H> {
    handler: Option<H>,
    pending: Vec<InputRecord>,
    config: VirtualConfig,
    failing: bool,
}

impl<H> VirtualBackend<H> {
    /// The currently installed handler, if any.
    pub closed spec fn handler_view(&self) -> Option<H> {
        self.handler
    }

    /// The pending activity, oldest first.
    pub closed spec fn pending_view(&self) -> Seq<InputRecord> {
        self.pending@
    }

    /// The current configuration.
    pub closed spec fn config_view(&self) -> VirtualConfig {
        self.config
    }

    /// Whether the virtual source is marked unavailable.
    pub closed spec fn failing_view(&self) -> bool {
        self.failing
    }

    /// A fresh virtual backend: no handler, no pending activity, default
    /// configuration, source available.
    pub fn new() -> (backend: Self)
        ensures
            backend.handler_view() is None,
            backend.pending_view() == Seq::<InputRecord>::empty(),
            backend.config_view() == (VirtualConfig { tap_to_click: false, pointer_speed: 0 }),
            !backend.failing_view(),
    {
        VirtualBackend {
            handler: None,
            pending: Vec::new(),
            config: VirtualConfig { tap_to_click: false, pointer_speed: 0 },
            failing: false,
        }
    }

    /// Append one record of device activity to the pending queue.
    pub fn enqueue(&mut self, activity: InputRecord)
        ensures
            final(self).pending_view() == old(self).pending_view().push(activity),
            final(self).handler_view() == old(self).handler_view(),
            final(self).config_view() == old(self).config_view(),
            final(self).failing_view() == old(self).failing_view(),
    {
        self.pending.push(activity);
    }

    /// Mark the virtual device source unavailable or available again.
    /// While unavailable, pumping fails and delivers nothing.
    pub fn set_failing(&mut self, failing: bool)
        ensures
            final(self).failing_view() == failing,
            final(self).handler_view() == old(self).handler_view(),
            final(self).pending_view() == old(self).pending_view(),
            final(self).config_view() == old(self).config_view(),
    {
        self.failing = failing;
    }
}

impl<H> InputShapes for VirtualBackend<H> {
    type InputConfig = VirtualConfig;

    type KeyboardKeyEvent = VirtualKeyboardKeyEvent;

    type PointerAxisEvent = VirtualPointerAxisEvent;

    type PointerButtonEvent = VirtualPointerButtonEvent;

    type PointerMotionEvent = VirtualPointerMotionEvent;

    type PointerMotionAbsoluteEvent = VirtualPointerMotionAbsoluteEvent;

    type TouchDownEvent = VirtualTouchDownEvent;

    type TouchUpEvent = VirtualTouchUpEvent;

    type TouchMotionEvent = VirtualTouchMotionEvent;

    type TouchCancelEvent = VirtualTouchCancelEvent;

    type TouchFrameEvent = VirtualTouchFrameEvent;
}

impl<H: InputHandler<VirtualBackend<H>>> InputBackend for VirtualBackend<H> {
    type EventError = VirtualBackendError;

    type Handler = H;

    open spec fn handler_model(&self) -> Option<H> {
        self.handler_view()
    }

    open spec fn pending_model(&self) -> Seq<InputRecord> {
        self.pending_view()
    }

    open spec fn config_model(&self) -> VirtualConfig {
        self.config_view()
    }

    fn set_handler(&mut self, handler: H)
        ensures
            final(self).failing_view() == old(self).failing_view(),
    {
        self.handler = Some(handler);
    }

    fn get_handler(&mut self) -> (handler: Option<&mut H>)
        ensures
            final(self).failing_view() == old(self).failing_view(),
    {
        match &mut self.handler {
            Some(h) => Some(h),
            None => None,
        }
    }

    fn clear_handler(&mut self)
        ensures
            final(self).failing_view() == old(self).failing_view(),
    {
        self.handler = None;
    }

    fn input_config(&mut self) -> (config: &mut VirtualConfig)
        ensures
            final(self).failing_view() == old(self).failing_view(),
    {
        &mut self.config
    }

    fn dispatch_new_events(&mut self) -> (r: Result<(), VirtualBackendError>)
        ensures
            r is Ok <==> !old(self).failing_view(),
            final(self).failing_view() == old(self).failing_view(),
            r is Err ==> {
                &&& final(self).handler_view() == old(self).handler_view()
                &&& final(self).pending_view() == old(self).pending_view()
                &&& final(self).config_view() == old(self).config_view()
            },
            old(self).handler_view() is None && r is Ok ==> {
                &&& final(self).handler_view() is None
                &&& final(self).pending_view() == old(self).pending_view()
                &&& final(self).config_view() == old(self).config_view()
            },
    {
        if self.failing {
            proof {
                let h = old(self).handler_model();
                if h is Some {
                    let lg = h.unwrap().log();
                    let p = old(self).pending_model();
                    assert(p.take(0) =~= Seq::<InputRecord>::empty());
                    assert(lg + p.take(0) =~= lg);
                    assert(p.skip(0) =~= p);
                    assert(exists|n: int|
                        {
                            &&& 0 <= n <= p.len()
                            &&& lg == lg + p.take(n)
                            &&& p == p.skip(n)
                        });
                }
            }
            return Err(VirtualBackendError::SourceUnavailable);
        }
        let mut installed: Option<H> = None;
        core::mem::swap(&mut self.handler, &mut installed);
        match installed {
            None => Ok(()),
            Some(mut h) => {
                let mut activity: Vec<InputRecord> = Vec::new();
                core::mem::swap(&mut self.pending, &mut activity);
                let ghost log_start = h.log();
                let mut i: usize = 0;
                while i < activity.len()
                    invariant
                        i <= activity@.len(),
                        h.log() == log_start + activity@.take(i as int),
                        self.pending_view() == Seq::<InputRecord>::empty(),
                        self.handler_view() is None,
                        self.failing_view() == old(self).failing_view(),
                    decreases activity@.len() - i,
                {
                    let record = activity[i];
                    deliver(&mut h, &mut self.config, record);
                    i = i + 1;
                    proof {
                        assert(activity@.take(i as int) =~= activity@.take(i as int - 1).push(
                            activity@[i as int - 1],
                        ));
                    }
                }
                proof {
                    assert(activity@.take(activity@.len() as int) =~= activity@);
                }
                self.handler = Some(h);
                Ok(())
            },
        }
    }
}

/// Resolve one record of pending activity into a seat and a concrete event
/// value and invoke the matching handler callback.
fn deliver<H: InputHandler<VirtualBackend<H>>>(
    handler: &mut H,
    config: &mut VirtualConfig,
    record: InputRecord,
)
    ensures
        final(handler).log() == old(handler).log().push(record),
{
    match record {
        InputRecord::SeatCreated(seat) => handler.on_seat_created(&seat),
        InputRecord::SeatDestroyed(seat) => handler.on_seat_destroyed(&seat),
        InputRecord::SeatChanged(seat) => handler.on_seat_changed(&seat),
        InputRecord::KeyboardKey { seat, time, key_code, state, count } => {
            let event = VirtualKeyboardKeyEvent { time, key_code, state, count };
            handler.on_keyboard_key(&seat, event);
        },
        InputRecord::PointerMotion { seat, time, delta_x, delta_y } => {
            let event = VirtualPointerMotionEvent { time, delta_x, delta_y };
            handler.on_pointer_move(&seat, event);
        },
        InputRecord::PointerMotionAbsolute { seat, time, x, y } => {
            let event = VirtualPointerMotionAbsoluteEvent { time, x, y };
            handler.on_pointer_move_absolute(&seat, event);
        },
        InputRecord::PointerButton { seat, time, button, state } => {
            let event = VirtualPointerButtonEvent { time, button, state };
            handler.on_pointer_button(&seat, event);
        },
        InputRecord::PointerAxis { seat, time, axis, source, amount } => {
            let event = VirtualPointerAxisEvent { time, axis, source, amount };
            handler.on_pointer_axis(&seat, event);
        },
        InputRecord::TouchDown { seat, time, slot, x, y } => {
            let event = VirtualTouchDownEvent { time, slot, x, y };
            handler.on_touch_down(&seat, event);
        },
        InputRecord::TouchMotion { seat, time, slot, x, y } => {
            let event = VirtualTouchMotionEvent { time, slot, x, y };
            handler.on_touch_motion(&seat, event);
        },
        InputRecord::TouchUp { seat, time, slot } => {
            let event = VirtualTouchUpEvent { time, slot };
            handler.on_touch_up(&seat, event);
        },
        InputRecord::TouchCancel { seat, time, slot } => {
            let event = VirtualTouchCancelEvent { time, slot };
            handler.on_touch_cancel(&seat, event);
        },
        InputRecord::TouchFrame { seat, time } => {
            let event = VirtualTouchFrameEvent { time };
            handler.on_touch_frame(&seat, event);
        },
        InputRecord::InputConfigChanged => handler.on_input_config_changed(config),
    }
}

} // verus!
