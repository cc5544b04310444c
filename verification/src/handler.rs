//! The handler contract: what the consumer implements to receive events.

use vstd::prelude::*;

use crate::backend::InputShapes;
use crate::event::Event;
use crate::event::KeyboardKeyEvent;
use crate::event::PointerAxisEvent;
use crate::event::PointerButtonEvent;
use crate::event::PointerMotionEvent;
use crate::event::PointerMotionAbsoluteEvent;
use crate::event::TouchCancelEvent;
use crate::event::TouchDownEvent;
use crate::event::TouchMotionEvent;
use crate::event::TouchUpEvent;
use crate::record::HandlerLog;
use crate::record::InputRecord;
use crate::seat::Seat;

verus! {

/// Implement to receive input events from any backend with the event
/// shapes `B`.
///
/// One method exists per notification kind: the seat lifecycle, one
/// callback per event kind, and a configuration-change notification.  Each
/// callback appends exactly one record to the handler's observation log
/// ([`HandlerLog::log`]), built from the seat it was handed and from the
/// specification-level accessors of the event, so what reached a handler,
/// and in which order, is fully determined by its log.
pub trait InputHandler<B: InputShapes>: HandlerLog {
    /// Called when a new seat has been created.
    fn on_seat_created(&mut self, seat: &Seat)
        ensures
            final(self).log() == old(self).log().push(InputRecord::SeatCreated(*seat)),
    ;

    /// Called when an existing seat has been destroyed.
    fn on_seat_destroyed(&mut self, seat: &Seat)
        ensures
            final(self).log() == old(self).log().push(InputRecord::SeatDestroyed(*seat)),
    ;

    /// Called when a seat's properties have changed.
    ///
    /// It is not guaranteed that any change has actually happened: the
    /// notification fires on any capability-affecting device change, and
    /// the new snapshot may equal the previous one.
    fn on_seat_changed(&mut self, seat: &Seat)
        ensures
            final(self).log() == old(self).log().push(InputRecord::SeatChanged(*seat)),
    ;

    /// Called when a new keyboard event was received on `seat`.
    fn on_keyboard_key(&mut self, seat: &Seat, event: B::KeyboardKeyEvent)
        ensures
            final(self).log() == old(self).log().push(
                InputRecord::KeyboardKey {
                    seat: *seat,
                    time: event.time_spec(),
                    key_code: event.key_code_spec(),
                    state: event.state_spec(),
                    count: event.count_spec(),
                },
            ),
    ;

    /// Called when a new pointer movement event was received on `seat`.
    fn on_pointer_move(&mut self, seat: &Seat, event: B::PointerMotionEvent)
        ensures
            final(self).log() == old(self).log().push(
                InputRecord::PointerMotion {
                    seat: *seat,
                    time: event.time_spec(),
                    delta_x: event.delta_x_spec(),
                    delta_y: event.delta_y_spec(),
                },
            ),
    ;

    /// Called when a new absolute pointer movement event was received on
    /// `seat`.
    fn on_pointer_move_absolute(&mut self, seat: &Seat, event: B::PointerMotionAbsoluteEvent)
        ensures
            final(self).log() == old(self).log().push(
                InputRecord::PointerMotionAbsolute {
                    seat: *seat,
                    time: event.time_spec(),
                    x: event.x_spec(),
                    y: event.y_spec(),
                },
            ),
    ;

    /// Called when a new pointer button event was received on `seat`.
    fn on_pointer_button(&mut self, seat: &Seat, event: B::PointerButtonEvent)
        ensures
            final(self).log() == old(self).log().push(
                InputRecord::PointerButton {
                    seat: *seat,
                    time: event.time_spec(),
                    button: event.button_spec(),
                    state: event.state_spec(),
                },
            ),
    ;

    /// Called when a new pointer scroll event was received on `seat`.
    fn on_pointer_axis(&mut self, seat: &Seat, event: B::PointerAxisEvent)
        ensures
            final(self).log() == old(self).log().push(
                InputRecord::PointerAxis {
                    seat: *seat,
                    time: event.time_spec(),
                    axis: event.axis_spec(),
                    source: event.source_spec(),
                    amount: event.amount_spec(),
                },
            ),
    ;

    /// Called when a new touch down event was received on `seat`.
    fn on_touch_down(&mut self, seat: &Seat, event: B::TouchDownEvent)
        ensures
            final(self).log() == old(self).log().push(
                InputRecord::TouchDown {
                    seat: *seat,
                    time: event.time_spec(),
                    slot: event.slot_spec(),
                    x: event.x_spec(),
                    y: event.y_spec(),
                },
            ),
    ;

    /// Called when a new touch motion event was received on `seat`.
    fn on_touch_motion(&mut self, seat: &Seat, event: B::TouchMotionEvent)
        ensures
            final(self).log() == old(self).log().push(
                InputRecord::TouchMotion {
                    seat: *seat,
                    time: event.time_spec(),
                    slot: event.slot_spec(),
                    x: event.x_spec(),
                    y: event.y_spec(),
                },
            ),
    ;

    /// Called when a new touch up event was received on `seat`.
    fn on_touch_up(&mut self, seat: &Seat, event: B::TouchUpEvent)
        ensures
            final(self).log() == old(self).log().push(
                InputRecord::TouchUp {
                    seat: *seat,
                    time: event.time_spec(),
                    slot: event.slot_spec(),
                },
            ),
    ;

    /// Called when a new touch cancel event was received on `seat`.
    fn on_touch_cancel(&mut self, seat: &Seat, event: B::TouchCancelEvent)
        ensures
            final(self).log() == old(self).log().push(
                InputRecord::TouchCancel {
                    seat: *seat,
                    time: event.time_spec(),
                    slot: event.slot_spec(),
                },
            ),
    ;

    /// Called when a new touch frame event was received on `seat`.
    fn on_touch_frame(&mut self, seat: &Seat, event: B::TouchFrameEvent)
        ensures
            final(self).log() == old(self).log().push(
                InputRecord::TouchFrame { seat: *seat, time: event.time_spec() },
            ),
    ;

    /// Called when the configuration object was changed through an
    /// external cause.  What can trigger this is backend-defined, for
    /// example a device being attached or detached; the handler may mutate
    /// the configuration in response.
    fn on_input_config_changed(&mut self, config: &mut B::InputConfig)
        ensures
            final(self).log() == old(self).log().push(InputRecord::InputConfigChanged),
    ;
}

impl<H: HandlerLog> HandlerLog for Box<H> {
    open spec fn log(&self) -> Seq<InputRecord> {
        (**self).log()
    }
}

/// A heap-indirected handler forwards every call unchanged to the wrapped
/// handler: pure delegation, so a handler value can be stored and swapped
/// behind an owning pointer without the backend knowing the concrete
/// consumer type.  Its log is the wrapped handler's log.
impl<B: InputShapes, H: InputHandler<B>> InputHandler<B> for Box<H> {
    fn on_seat_created(&mut self, seat: &Seat) {
        (**self).on_seat_created(seat)
    }

    fn on_seat_destroyed(&mut self, seat: &Seat) {
        (**self).on_seat_destroyed(seat)
    }

    fn on_seat_changed(&mut self, seat: &Seat) {
        (**self).on_seat_changed(seat)
    }

    fn on_keyboard_key(&mut self, seat: &Seat, event: B::KeyboardKeyEvent) {
        (**self).on_keyboard_key(seat, event)
    }

    fn on_pointer_move(&mut self, seat: &Seat, event: B::PointerMotionEvent) {
        (**self).on_pointer_move(seat, event)
    }

    fn on_pointer_move_absolute(&mut self, seat: &Seat, event: B::PointerMotionAbsoluteEvent) {
        (**self).on_pointer_move_absolute(seat, event)
    }

    fn on_pointer_button(&mut self, seat: &Seat, event: B::PointerButtonEvent) {
        (**self).on_pointer_button(seat, event)
    }

    fn on_pointer_axis(&mut self, seat: &Seat, event: B::PointerAxisEvent) {
        (**self).on_pointer_axis(seat, event)
    }

    fn on_touch_down(&mut self, seat: &Seat, event: B::TouchDownEvent) {
        (**self).on_touch_down(seat, event)
    }

    fn on_touch_motion(&mut self, seat: &Seat, event: B::TouchMotionEvent) {
        (**self).on_touch_motion(seat, event)
    }

    fn on_touch_up(&mut self, seat: &Seat, event: B::TouchUpEvent) {
        (**self).on_touch_up(seat, event)
    }

    fn on_touch_cancel(&mut self, seat: &Seat, event: B::TouchCancelEvent) {
        (**self).on_touch_cancel(seat, event)
    }

    fn on_touch_frame(&mut self, seat: &Seat, event: B::TouchFrameEvent) {
        (**self).on_touch_frame(seat, event)
    }

    fn on_input_config_changed(&mut self, config: &mut B::InputConfig) {
        (**self).on_input_config_changed(config)
    }
}

/// A handler that records every notification it observes, in order.
///
/// Its observation log is realized as real storage, so a consumer or a test
/// harness can inspect exactly which callbacks a backend delivered.
pub struct CollectingHandler {
    records: Vec<InputRecord>,
}

impl CollectingHandler {
    /// A fresh handler with an empty observation log.
    pub fn new() -> (handler: CollectingHandler)
        ensures
            handler.log() == Seq::<InputRecord>::empty(),
    {
        CollectingHandler { records: Vec::new() }
    }

    /// The notifications observed so far, oldest first.
    pub fn records(&self) -> (records: &Vec<InputRecord>)
        ensures
            records@ == self.log(),
    {
        &self.records
    }
}

impl HandlerLog for CollectingHandler {
    closed spec fn log(&self) -> Seq<InputRecord> {
        self.records@
    }
}

impl<B: InputShapes> InputHandler<B> for CollectingHandler {
    fn on_seat_created(&mut self, seat: &Seat) {
        self.records.push(InputRecord::SeatCreated(*seat));
    }

    fn on_seat_destroyed(&mut self, seat: &Seat) {
        self.records.push(InputRecord::SeatDestroyed(*seat));
    }

    fn on_seat_changed(&mut self, seat: &Seat) {
        self.records.push(InputRecord::SeatChanged(*seat));
    }

    fn on_keyboard_key(&mut self, seat: &Seat, event: B::KeyboardKeyEvent) {
        let record = InputRecord::KeyboardKey {
            seat: *seat,
            time: event.time(),
            key_code: event.key_code(),
            state: event.state(),
            count: event.count(),
        };
        self.records.push(record);
    }

    fn on_pointer_move(&mut self, seat: &Seat, event: B::PointerMotionEvent) {
        let record = InputRecord::PointerMotion {
            seat: *seat,
            time: event.time(),
            delta_x: event.delta_x(),
            delta_y: event.delta_y(),
        };
        self.records.push(record);
    }

    fn on_pointer_move_absolute(&mut self, seat: &Seat, event: B::PointerMotionAbsoluteEvent) {
        let record = InputRecord::PointerMotionAbsolute {
            seat: *seat,
            time: event.time(),
            x: event.x(),
            y: event.y(),
        };
        self.records.push(record);
    }

    fn on_pointer_button(&mut self, seat: &Seat, event: B::PointerButtonEvent) {
        let record = InputRecord::PointerButton {
            seat: *seat,
            time: event.time(),
            button: event.button(),
            state: event.state(),
        };
        self.records.push(record);
    }

    fn on_pointer_axis(&mut self, seat: &Seat, event: B::PointerAxisEvent) {
        let record = InputRecord::PointerAxis {
            seat: *seat,
            time: event.time(),
            axis: event.axis(),
            source: event.source(),
            amount: event.amount(),
        };
        self.records.push(record);
    }

    fn on_touch_down(&mut self, seat: &Seat, event: B::TouchDownEvent) {
        let record = InputRecord::TouchDown {
            seat: *seat,
            time: event.time(),
            slot: event.slot(),
            x: event.x(),
            y: event.y(),
        };
        self.records.push(record);
    }

    fn on_touch_motion(&mut self, seat: &Seat, event: B::TouchMotionEvent) {
        let record = InputRecord::TouchMotion {
            seat: *seat,
            time: event.time(),
            slot: event.slot(),
            x: event.x(),
            y: event.y(),
        };
        self.records.push(record);
    }

    fn on_touch_up(&mut self, seat: &Seat, event: B::TouchUpEvent) {
        let record = InputRecord::TouchUp { seat: *seat, time: event.time(), slot: event.slot() };
        self.records.push(record);
    }

    fn on_touch_cancel(&mut self, seat: &Seat, event: B::TouchCancelEvent) {
        let record = InputRecord::TouchCancel {
            seat: *seat,
            time: event.time(),
            slot: event.slot(),
        };
        self.records.push(record);
    }

    fn on_touch_frame(&mut self, seat: &Seat, event: B::TouchFrameEvent) {
        let record = InputRecord::TouchFrame { seat: *seat, time: event.time() };
        self.records.push(record);
    }

    fn on_input_config_changed(&mut self, _config: &mut B::InputConfig) {
        self.records.push(InputRecord::InputConfigChanged);
    }
}

} // verus!
