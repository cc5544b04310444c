//! The backend contract: what every concrete input source must satisfy.

use vstd::prelude::*;

use crate::event::KeyboardKeyEvent;
use crate::event::PointerAxisEvent;
use crate::event::PointerButtonEvent;
use crate::event::PointerMotionEvent;
use crate::event::PointerMotionAbsoluteEvent;
use crate::event::TouchCancelEvent;
use crate::event::TouchDownEvent;
use crate::event::TouchFrameEvent;
use crate::event::TouchMotionEvent;
use crate::event::TouchUpEvent;
use crate::record::HandlerLog;
use crate::record::InputRecord;

verus! {

/// The concrete shapes a source of input events produces: one type per
/// event kind, each satisfying the matching capability interface, plus the
/// type of the live configuration object.
///
/// The shapes stand in a trait of their own, apart from the backend's
/// operations, so a handler can be written against the shapes alone; this
/// also reflects that a callback never re-enters the pump operation of the
/// backend it was invoked from.
pub trait InputShapes: Sized {
    /// Type of the live configuration object associated with the backend.
    type InputConfig;

    /// Type representing keyboard events.
    type KeyboardKeyEvent: KeyboardKeyEvent;

    /// Type representing axis events on pointer devices.
    type PointerAxisEvent: PointerAxisEvent;

    /// Type representing button events on pointer devices.
    type PointerButtonEvent: PointerButtonEvent;

    /// Type representing motion events of pointer devices.
    type PointerMotionEvent: PointerMotionEvent;

    /// Type representing absolute motion events of pointer devices.
    type PointerMotionAbsoluteEvent: PointerMotionAbsoluteEvent;

    /// Type representing touch events starting.
    type TouchDownEvent: TouchDownEvent;

    /// Type representing touch events ending.
    type TouchUpEvent: TouchUpEvent;

    /// Type representing touch events from moving.
    type TouchMotionEvent: TouchMotionEvent;

    /// Type representing cancelling of touch event chains.
    type TouchCancelEvent: TouchCancelEvent;

    /// Type representing touch frame events.
    type TouchFrameEvent: TouchFrameEvent;
}

/// Trait for objects providing a source of input events.
///
/// A backend declares, through [`InputShapes`], the concrete shapes it
/// produces for each of the event kinds, and here the error kind raised
/// while pumping events and the handler type it drives.  Its observable
/// state is modelled by three projections: the currently installed handler,
/// the pending device activity (as the records its delivery would append),
/// and the current configuration.
///
/// The model is caller-driven and single-threaded: the pump operation
/// [`InputBackend::dispatch_new_events`] is the sole blocking point, all
/// callbacks run synchronously inside it, and a callback must never
/// re-enter the pump on the same backend.  Intra-device order of pending
/// activity is preserved; how activity of several devices interleaves is
/// backend-defined and already fixed in the order of the pending records.
pub trait InputBackend: InputShapes {
    /// Type representing errors that may be returned when pumping events.
    type EventError;

    /// Type of the handler this backend drives.  Keeping the handler shape
    /// a parameter of the backend lets a consumer store and swap a handler
    /// behind a heap indirection without the backend knowing the concrete
    /// consumer type.
    type Handler: HandlerLog;

    /// The currently installed handler, if any.  The slot is exclusively
    /// owned by the backend: at most one handler is installed at a time.
    spec fn handler_model(&self) -> Option<Self::Handler>;

    /// The pending device activity, as the sequence of records its
    /// delivery would append to the installed handler's log, oldest first.
    spec fn pending_model(&self) -> Seq<InputRecord>;

    /// The current state of the configuration object.
    spec fn config_model(&self) -> Self::InputConfig;

    /// Sets a new handler for this backend, replacing any previously
    /// installed one.  The previous handler leaves the backend and is not
    /// retained, so no later callback can reach it.
    fn set_handler(&mut self, handler: Self::Handler)
        ensures
            final(self).handler_model() == Some(handler),
            final(self).pending_model() == old(self).pending_model(),
            final(self).config_model() == old(self).config_model(),
    ;

    /// Get a reference to the currently installed handler, if any, for
    /// inspection or mutation without transferring ownership.
    fn get_handler(&mut self) -> (handler: Option<&mut Self::Handler>)
        ensures
            (match handler {
                Some(h) => old(self).handler_model() == Some(*h) && final(self).handler_model()
                    == Some(*final(h)),
                None => old(self).handler_model() is None && final(self).handler_model() is None,
            }),
            final(self).pending_model() == old(self).pending_model(),
            final(self).config_model() == old(self).config_model(),
    ;

    /// Removes the currently installed handler, if one is set.  Subsequent
    /// pump operations perform no callbacks until a new one is installed.
    fn clear_handler(&mut self)
        ensures
            final(self).handler_model() is None,
            final(self).pending_model() == old(self).pending_model(),
            final(self).config_model() == old(self).config_model(),
    ;

    /// Get the live configuration object, for direct mutation by the
    /// consumer between pump calls.
    fn input_config(&mut self) -> (config: &mut Self::InputConfig)
        ensures
            *config == old(self).config_model(),
            final(self).config_model() == *final(config),
            final(self).handler_model() == old(self).handler_model(),
            final(self).pending_model() == old(self).pending_model(),
    ;

    /// Pulls all currently pending device activity and synchronously
    /// invokes the matching handler callback for each record, in
    /// device-activity order.
    ///
    /// On success the whole pending activity has been delivered; on an
    /// error some prefix of it has been delivered and stays delivered:
    /// partial delivery is not rolled back, and the rest of that cycle is
    /// aborted.  With no handler installed no callback is performed and
    /// pending activity may be dropped or buffered, as the backend
    /// chooses.
    fn dispatch_new_events(&mut self) -> (r: Result<(), Self::EventError>)
        ensures
            old(self).handler_model() is None ==> final(self).handler_model() is None,
            old(self).handler_model() is Some && r is Ok ==> {
                &&& final(self).handler_model() is Some
                &&& final(self).handler_model().unwrap().log()
                    == old(self).handler_model().unwrap().log() + old(self).pending_model()
                &&& final(self).pending_model() == Seq::<InputRecord>::empty()
            },
            old(self).handler_model() is Some && r is Err ==> {
                &&& final(self).handler_model() is Some
                &&& exists|n: int|
                    {
                        &&& 0 <= n <= old(self).pending_model().len()
                        &&& final(self).handler_model().unwrap().log()
                            == old(self).handler_model().unwrap().log()
                            + old(self).pending_model().take(n)
                        &&& final(self).pending_model() == old(self).pending_model().skip(n)
                    }
            },
    ;
}

} // verus!
