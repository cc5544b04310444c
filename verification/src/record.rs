//! Observation records: the specification-level trace of handler callbacks.
//!
//! Every handler carries an abstract log of the notifications it has
//! observed, as a sequence of [`InputRecord`] values.  Each callback of the
//! handler contract appends exactly one record, built from the seat and from
//! the specification-level accessors of the event it was handed.  Backend
//! contracts are then stated over this log: what a pump operation delivered,
//! and in which order, is visible as the records it appended.

use vstd::prelude::*;

use crate::seat::Seat;
use crate::touch::TouchSlot;
use crate::event::Axis;
use crate::event::AxisSource;
use crate::event::KeyState;
use crate::event::MouseButton;
use crate::event::MouseButtonState;

verus! {

/// One observed notification: a seat lifecycle change, one input event of a
/// given kind with the values its accessors report, or a configuration
/// change.
#[derive(Debug, Clone, Copy, PartialEq)]
#[allow(inconsistent_fields)]
pub enum InputRecord {
    /// A new seat was recognized.
    SeatCreated(Seat),
    /// An existing seat disappeared.
    SeatDestroyed(Seat),
    /// A seat's capabilities may have changed.
    SeatChanged(Seat),
    /// A keyboard key event.
    KeyboardKey {
        /// The seat the event belongs to.
        seat: Seat,
        /// The event's ordering counter.
        time: u32,
        /// Code of the key, in the linux input-event-codes numbering.
        key_code: u32,
        /// State of the key.
        state: KeyState,
        /// Total number of keys pressed on all devices of the seat.
        count: u32,
    },
    /// A relative pointer motion event.
    PointerMotion {
        /// The seat the event belongs to.
        seat: Seat,
        /// The event's ordering counter.
        time: u32,
        /// Delta on the x axis, interpreted as pixel movement.
        delta_x: u32,
        /// Delta on the y axis, interpreted as pixel movement.
        delta_y: u32,
    },
    /// An absolute pointer motion event, with its native-space position.
    PointerMotionAbsolute {
        /// The seat the event belongs to.
        seat: Seat,
        /// The event's ordering counter.
        time: u32,
        /// Native x coordinate.
        x: u32,
        /// Native y coordinate.
        y: u32,
    },
    /// A pointer button event.
    PointerButton {
        /// The seat the event belongs to.
        seat: Seat,
        /// The event's ordering counter.
        time: u32,
        /// The button the event is about.
        button: MouseButton,
        /// State of the button.
        state: MouseButtonState,
    },
    /// A pointer axis (scroll) event.
    PointerAxis {
        /// The seat the event belongs to.
        seat: Seat,
        /// The event's ordering counter.
        time: u32,
        /// The axis scrolled on.
        axis: Axis,
        /// The physical source of the scroll.
        source: AxisSource,
        /// Signed scroll amount.
        amount: i64,
    },
    /// A touch contact began.
    TouchDown {
        /// The seat the event belongs to.
        seat: Seat,
        /// The event's ordering counter.
        time: u32,
        /// The contact's slot, absent on devices without multi-touch.
        slot: Option<TouchSlot>,
        /// Native x coordinate.
        x: u32,
        /// Native y coordinate.
        y: u32,
    },
    /// A touch contact moved.
    TouchMotion {
        /// The seat the event belongs to.
        seat: Seat,
        /// The event's ordering counter.
        time: u32,
        /// The contact's slot, absent on devices without multi-touch.
        slot: Option<TouchSlot>,
        /// Native x coordinate.
        x: u32,
        /// Native y coordinate.
        y: u32,
    },
    /// A touch contact ended.
    TouchUp {
        /// The seat the event belongs to.
        seat: Seat,
        /// The event's ordering counter.
        time: u32,
        /// The contact's slot, absent on devices without multi-touch.
        slot: Option<TouchSlot>,
    },
    /// A touch contact was cancelled.
    TouchCancel {
        /// The seat the event belongs to.
        seat: Seat,
        /// The event's ordering counter.
        time: u32,
        /// The contact's slot, absent on devices without multi-touch.
        slot: Option<TouchSlot>,
    },
    /// The end of a batch of touch events delivered in the same physical
    /// update.
    TouchFrame {
        /// The seat the event belongs to.
        seat: Seat,
        /// The event's ordering counter.
        time: u32,
    },
    /// The backend's configuration changed through an external cause.
    InputConfigChanged,
}

/// The abstract observation log of a handler.
///
/// A handler's log is the sequence of records it has observed so far, in
/// delivery order.  The handler contract requires every callback to append
/// exactly one record, so the log pins down which notifications reached a
/// handler and in which order; a handler implementation is free to realize
/// the log as real storage or as ghost state.
pub trait HandlerLog {
    /// The records observed so far, oldest first.
    spec fn log(&self) -> Seq<InputRecord>;
}

} // verus!
