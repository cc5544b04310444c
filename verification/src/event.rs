//! The event shape taxonomy: one capability interface per physical event
//! kind.
//!
//! Each trait exposes the minimal accessor set needed to reconstruct the
//! physical event, together with a specification-level twin of every
//! primitive accessor.  The derived accessors (`position`,
//! `position_transformed`, `delta`) are default methods computed purely from
//! the primitive accessors, so every backend gets them for free and their
//! contracts hold for every conforming implementation.
//!
//! The unit type `()` implements every event trait with fixed values.  A
//! backend plugs `()` in for event kinds its devices cannot produce; such
//! stub events sit on no real data path.

use vstd::prelude::*;

use crate::touch::TouchSlot;

verus! {

/// Trait for the generic accessor every input event provides.
pub trait Event {
    /// Specification-level value of [`Event::time`].
    spec fn time_spec(&self) -> u32;

    /// Returns an upward counting value useful for event ordering.
    ///
    /// Within one device the counter never decreases, but it has no fixed
    /// unit and makes no guarantee about actual time passed between events:
    /// only relative order is meaningful.
    fn time(&self) -> (t: u32)
        ensures
            t == self.time_spec(),
    ;
}

impl Event for () {
    open spec fn time_spec(&self) -> u32 {
        0
    }

    fn time(&self) -> u32 {
        0
    }
}

/// State of a key on a keyboard: either pressed or released.
#[derive(Debug, PartialEq, Eq, Clone, Copy, Structural)]
pub enum KeyState {
    /// Key is released.
    Released,
    /// Key is pressed.
    Pressed,
}

/// Trait for keyboard events.
pub trait KeyboardKeyEvent: Event {
    /// Specification-level value of [`KeyboardKeyEvent::key_code`].
    spec fn key_code_spec(&self) -> u32;

    /// Specification-level value of [`KeyboardKeyEvent::state`].
    spec fn state_spec(&self) -> KeyState;

    /// Specification-level value of [`KeyboardKeyEvent::count`].
    spec fn count_spec(&self) -> u32;

    /// Code of the pressed key, in the linux input-event-codes numbering.
    fn key_code(&self) -> (code: u32)
        ensures
            code == self.key_code_spec(),
    ;

    /// State of the key.
    fn state(&self) -> (state: KeyState)
        ensures
            state == self.state_spec(),
    ;

    /// Total number of keys pressed on all devices of the associated seat.
    fn count(&self) -> (count: u32)
        ensures
            count == self.count_spec(),
    ;
}

impl KeyboardKeyEvent for () {
    open spec fn key_code_spec(&self) -> u32 {
        0
    }

    open spec fn state_spec(&self) -> KeyState {
        KeyState::Released
    }

    open spec fn count_spec(&self) -> u32 {
        0
    }

    fn key_code(&self) -> u32 {
        0
    }

    fn state(&self) -> KeyState {
        KeyState::Released
    }

    fn count(&self) -> u32 {
        0
    }
}

/// A particular mouse button.
#[derive(Debug, PartialEq, Eq, Clone, Copy, Structural)]
pub enum MouseButton {
    /// Left mouse button.
    Left,
    /// Middle mouse button.
    Middle,
    /// Right mouse button.
    Right,
    /// Another mouse button, carried by its 8-bit index so arbitrary extra
    /// buttons are representable.
    Other(u8),
}

/// State of a button on a mouse: either pressed or released.
#[derive(Debug, PartialEq, Eq, Clone, Copy, Structural)]
pub enum MouseButtonState {
    /// Button is released.
    Released,
    /// Button is pressed.
    Pressed,
}

/// Trait for pointer events generated by pressed buttons.
pub trait PointerButtonEvent: Event {
    /// Specification-level value of [`PointerButtonEvent::button`].
    spec fn button_spec(&self) -> MouseButton;

    /// Specification-level value of [`PointerButtonEvent::state`].
    spec fn state_spec(&self) -> MouseButtonState;

    /// Pressed button of the event.
    fn button(&self) -> (button: MouseButton)
        ensures
            button == self.button_spec(),
    ;

    /// State of the button.
    fn state(&self) -> (state: MouseButtonState)
        ensures
            state == self.state_spec(),
    ;
}

impl PointerButtonEvent for () {
    open spec fn button_spec(&self) -> MouseButton {
        MouseButton::Left
    }

    open spec fn state_spec(&self) -> MouseButtonState {
        MouseButtonState::Released
    }

    fn button(&self) -> MouseButton {
        MouseButton::Left
    }

    fn state(&self) -> MouseButtonState {
        MouseButtonState::Released
    }
}

/// Axis of a scroll event.
#[derive(Debug, PartialEq, Eq, Clone, Copy, Structural)]
pub enum Axis {
    /// Vertical axis.
    Vertical,
    /// Horizontal axis.
    Horizontal,
}

/// Source of a scroll event.
///
/// The source determines the termination guarantee of a scroll sequence:
/// only [`AxisSource::Finger`] guarantees a terminating event with amount
/// zero, so only for that source may a consumer rely on a cutoff signal,
/// for example to trigger kinetic scrolling.
#[derive(Debug, PartialEq, Eq, Clone, Copy, Structural)]
pub enum AxisSource {
    /// Finger, mostly used on trackpads.
    ///
    /// Guarantees that a scroll sequence is terminated with a scroll amount
    /// of zero.  The coordinate system is identical to the cursor movement:
    /// a scroll amount of one represents the equivalent relative motion of
    /// one.
    Finger,
    /// Continuous scrolling device, almost identical to `Finger`.
    ///
    /// No terminating event is guaranteed, though one may happen.  The
    /// coordinate system is identical to the cursor movement.
    Continuous,
    /// Scroll wheel.
    ///
    /// No terminating event is guaranteed, though one may happen.
    /// Scrolling is in discrete steps; it is up to the consumer how to
    /// interpret different step sizes.
    Wheel,
    /// Scrolling through tilting the scroll wheel.
    ///
    /// No terminating event is guaranteed, though one may happen.
    /// Scrolling is in discrete steps; it is up to the consumer how to
    /// interpret different step sizes.
    WheelTilt,
}

/// Trait for pointer events generated by scrolling on an axis.
pub trait PointerAxisEvent: Event {
    /// Specification-level value of [`PointerAxisEvent::axis`].
    spec fn axis_spec(&self) -> Axis;

    /// Specification-level value of [`PointerAxisEvent::source`].
    spec fn source_spec(&self) -> AxisSource;

    /// Specification-level value of [`PointerAxisEvent::amount`].
    spec fn amount_spec(&self) -> i64;

    /// The axis this event was generated for.
    fn axis(&self) -> (axis: Axis)
        ensures
            axis == self.axis_spec(),
    ;

    /// Source of the scroll event, important for the interpretation of
    /// [`PointerAxisEvent::amount`].
    fn source(&self) -> (source: AxisSource)
        ensures
            source == self.source_spec(),
    ;

    /// Signed amount of scrolling on the given axis.  See
    /// [`PointerAxisEvent::source`] for its interpretation.
    fn amount(&self) -> (amount: i64)
        ensures
            amount == self.amount_spec(),
    ;
}

impl PointerAxisEvent for () {
    open spec fn axis_spec(&self) -> Axis {
        Axis::Vertical
    }

    open spec fn source_spec(&self) -> AxisSource {
        AxisSource::Wheel
    }

    open spec fn amount_spec(&self) -> i64 {
        0
    }

    fn axis(&self) -> Axis {
        Axis::Vertical
    }

    fn source(&self) -> AxisSource {
        AxisSource::Wheel
    }

    fn amount(&self) -> i64 {
        0
    }
}

/// Trait for pointer events generated by relative device movement.
pub trait PointerMotionEvent: Event {
    /// Specification-level value of [`PointerMotionEvent::delta_x`].
    spec fn delta_x_spec(&self) -> u32;

    /// Specification-level value of [`PointerMotionEvent::delta_y`].
    spec fn delta_y_spec(&self) -> u32;

    /// Delta between the last and the new pointer position, interpreted as
    /// pixel movement: the pair of the two per-axis deltas.
    fn delta(&self) -> (d: (u32, u32))
        ensures
            d == (self.delta_x_spec(), self.delta_y_spec()),
    {
        (self.delta_x(), self.delta_y())
    }

    /// Delta on the x axis between the last and the new pointer position.
    fn delta_x(&self) -> (dx: u32)
        ensures
            dx == self.delta_x_spec(),
    ;

    /// Delta on the y axis between the last and the new pointer position.
    fn delta_y(&self) -> (dy: u32)
        ensures
            dy == self.delta_y_spec(),
    ;
}

impl PointerMotionEvent for () {
    open spec fn delta_x_spec(&self) -> u32 {
        0
    }

    open spec fn delta_y_spec(&self) -> u32 {
        0
    }

    fn delta_x(&self) -> u32 {
        0
    }

    fn delta_y(&self) -> u32 {
        0
    }
}

/// Trait for pointer events generated by absolute device positioning.
///
/// The native position and its transform into a target coordinate space are
/// two views of the same underlying sample, never independently mutable:
/// the transform is a function of the native coordinates alone, and the
/// contract requires it to be monotonic per axis and bounded by the target
/// dimension.
pub trait PointerMotionAbsoluteEvent: Event {
    /// Specification-level value of [`PointerMotionAbsoluteEvent::x`].
    spec fn x_spec(&self) -> u32;

    /// Specification-level value of [`PointerMotionAbsoluteEvent::y`].
    spec fn y_spec(&self) -> u32;

    /// Specification-level value of
    /// [`PointerMotionAbsoluteEvent::x_transformed`].
    spec fn x_transformed_spec(&self, width: u32) -> u32;

    /// Specification-level value of
    /// [`PointerMotionAbsoluteEvent::y_transformed`].
    spec fn y_transformed_spec(&self, height: u32) -> u32;

    /// Device position in its native coordinate space: the pair of the two
    /// native coordinates.  The scale of the native space is defined by the
    /// backend implementation.
    fn position(&self) -> (p: (u32, u32))
        ensures
            p == (self.x_spec(), self.y_spec()),
    {
        (self.x(), self.y())
    }

    /// Device x position in its native coordinate space.
    fn x(&self) -> (x: u32)
        ensures
            x == self.x_spec(),
    ;

    /// Device y position in its native coordinate space.
    fn y(&self) -> (y: u32)
        ensures
            y == self.y_spec(),
    ;

    /// Device position converted to the target coordinate space, for
    /// example the focused output's resolution: the pair of the two per-axis
    /// transforms, each bounded by its target dimension.
    fn position_transformed(&self, coordinate_space: (u32, u32)) -> (p: (u32, u32))
        requires
            coordinate_space.0 > 0,
            coordinate_space.1 > 0,
        ensures
            p == (self.x_transformed_spec(coordinate_space.0), self.y_transformed_spec(
                coordinate_space.1,
            )),
            p.0 < coordinate_space.0,
            p.1 < coordinate_space.1,
    {
        (self.x_transformed(coordinate_space.0), self.y_transformed(coordinate_space.1))
    }

    /// Device x position converted to the target coordinate space's width,
    /// for example the focused output's width.
    fn x_transformed(&self, width: u32) -> (x: u32)
        requires
            width > 0,
        ensures
            x == self.x_transformed_spec(width),
            x < width,
    ;

    /// Device y position converted to the target coordinate space's height,
    /// for example the focused output's height.
    fn y_transformed(&self, height: u32) -> (y: u32)
        requires
            height > 0,
        ensures
            y == self.y_transformed_spec(height),
            y < height,
    ;

    /// The x transform is monotonic in the native x coordinate.
    proof fn x_transformed_monotonic(&self, other: &Self, width: u32)
        requires
            width > 0,
            self.x_spec() <= other.x_spec(),
        ensures
            self.x_transformed_spec(width) <= other.x_transformed_spec(width),
    ;

    /// The y transform is monotonic in the native y coordinate.
    proof fn y_transformed_monotonic(&self, other: &Self, height: u32)
        requires
            height > 0,
            self.y_spec() <= other.y_spec(),
        ensures
            self.y_transformed_spec(height) <= other.y_transformed_spec(height),
    ;
}

impl PointerMotionAbsoluteEvent for () {
    open spec fn x_spec(&self) -> u32 {
        0
    }

    open spec fn y_spec(&self) -> u32 {
        0
    }

    open spec fn x_transformed_spec(&self, width: u32) -> u32 {
        0
    }

    open spec fn y_transformed_spec(&self, height: u32) -> u32 {
        0
    }

    fn x(&self) -> u32 {
        0
    }

    fn y(&self) -> u32 {
        0
    }

    fn x_transformed(&self, width: u32) -> u32 {
        0
    }

    fn y_transformed(&self, height: u32) -> u32 {
        0
    }

    proof fn x_transformed_monotonic(&self, other: &Self, width: u32) {
    }

    proof fn y_transformed_monotonic(&self, other: &Self, height: u32) {
    }
}

/// Trait for touch events starting at a given position.
pub trait TouchDownEvent: Event {
    /// Specification-level value of [`TouchDownEvent::slot`].
    spec fn slot_spec(&self) -> Option<TouchSlot>;

    /// Specification-level value of [`TouchDownEvent::x`].
    spec fn x_spec(&self) -> u32;

    /// Specification-level value of [`TouchDownEvent::y`].
    spec fn y_spec(&self) -> u32;

    /// Specification-level value of [`TouchDownEvent::x_transformed`].
    spec fn x_transformed_spec(&self, width: u32) -> u32;

    /// Specification-level value of [`TouchDownEvent::y_transformed`].
    spec fn y_transformed_spec(&self, height: u32) -> u32;

    /// The touch slot, if the device has multi-touch capabilities.  A
    /// device without them omits the slot uniformly across its whole event
    /// stream.
    fn slot(&self) -> (slot: Option<TouchSlot>)
        ensures
            slot == self.slot_spec(),
    ;

    /// Touch position in the device's native coordinate space: the pair of
    /// the two native coordinates.  The scale of the native space is
    /// defined by the backend implementation.
    fn position(&self) -> (p: (u32, u32))
        ensures
            p == (self.x_spec(), self.y_spec()),
    {
        (self.x(), self.y())
    }

    /// Touch position converted into the target coordinate space, for
    /// example the focused output's resolution: the pair of the two
    /// per-axis transforms, each bounded by its target dimension.
    fn position_transformed(&self, coordinate_space: (u32, u32)) -> (p: (u32, u32))
        requires
            coordinate_space.0 > 0,
            coordinate_space.1 > 0,
        ensures
            p == (self.x_transformed_spec(coordinate_space.0), self.y_transformed_spec(
                coordinate_space.1,
            )),
            p.0 < coordinate_space.0,
            p.1 < coordinate_space.1,
    {
        (self.x_transformed(coordinate_space.0), self.y_transformed(coordinate_space.1))
    }

    /// Touch x coordinate in the device's native coordinate space.
    fn x(&self) -> (x: u32)
        ensures
            x == self.x_spec(),
    ;

    /// Touch y coordinate in the device's native coordinate space.
    fn y(&self) -> (y: u32)
        ensures
            y == self.y_spec(),
    ;

    /// Touch x position converted to the target coordinate space's width.
    fn x_transformed(&self, width: u32) -> (x: u32)
        requires
            width > 0,
        ensures
            x == self.x_transformed_spec(width),
            x < width,
    ;

    /// Touch y position converted to the target coordinate space's height.
    fn y_transformed(&self, height: u32) -> (y: u32)
        requires
            height > 0,
        ensures
            y == self.y_transformed_spec(height),
            y < height,
    ;

    /// The x transform is monotonic in the native x coordinate.
    proof fn x_transformed_monotonic(&self, other: &Self, width: u32)
        requires
            width > 0,
            self.x_spec() <= other.x_spec(),
        ensures
            self.x_transformed_spec(width) <= other.x_transformed_spec(width),
    ;

    /// The y transform is monotonic in the native y coordinate.
    proof fn y_transformed_monotonic(&self, other: &Self, height: u32)
        requires
            height > 0,
            self.y_spec() <= other.y_spec(),
        ensures
            self.y_transformed_spec(height) <= other.y_transformed_spec(height),
    ;
}

impl TouchDownEvent for () {
    open spec fn slot_spec(&self) -> Option<TouchSlot> {
        None
    }

    open spec fn x_spec(&self) -> u32 {
        0
    }

    open spec fn y_spec(&self) -> u32 {
        0
    }

    open spec fn x_transformed_spec(&self, width: u32) -> u32 {
        0
    }

    open spec fn y_transformed_spec(&self, height: u32) -> u32 {
        0
    }

    fn slot(&self) -> Option<TouchSlot> {
        None
    }

    fn x(&self) -> u32 {
        0
    }

    fn y(&self) -> u32 {
        0
    }

    fn x_transformed(&self, width: u32) -> u32 {
        0
    }

    fn y_transformed(&self, height: u32) -> u32 {
        0
    }

    proof fn x_transformed_monotonic(&self, other: &Self, width: u32) {
    }

    proof fn y_transformed_monotonic(&self, other: &Self, height: u32) {
    }
}

/// Trait for touch events regarding movement on the screen.
pub trait TouchMotionEvent: Event {
    /// Specification-level value of [`TouchMotionEvent::slot`].
    spec fn slot_spec(&self) -> Option<TouchSlot>;

    /// Specification-level value of [`TouchMotionEvent::x`].
    spec fn x_spec(&self) -> u32;

    /// Specification-level value of [`TouchMotionEvent::y`].
    spec fn y_spec(&self) -> u32;

    /// Specification-level value of [`TouchMotionEvent::x_transformed`].
    spec fn x_transformed_spec(&self, width: u32) -> u32;

    /// Specification-level value of [`TouchMotionEvent::y_transformed`].
    spec fn y_transformed_spec(&self, height: u32) -> u32;

    /// The touch slot, if the device has multi-touch capabilities.  It
    /// matches the slot of the down event that began this contact.
    fn slot(&self) -> (slot: Option<TouchSlot>)
        ensures
            slot == self.slot_spec(),
    ;

    /// Touch position in the device's native coordinate space: the pair of
    /// the two native coordinates.  The scale of the native space is
    /// defined by the backend implementation.
    fn position(&self) -> (p: (u32, u32))
        ensures
            p == (self.x_spec(), self.y_spec()),
    {
        (self.x(), self.y())
    }

    /// Touch position converted into the target coordinate space, for
    /// example the focused output's resolution: the pair of the two
    /// per-axis transforms, each bounded by its target dimension.
    fn position_transformed(&self, coordinate_space: (u32, u32)) -> (p: (u32, u32))
        requires
            coordinate_space.0 > 0,
            coordinate_space.1 > 0,
        ensures
            p == (self.x_transformed_spec(coordinate_space.0), self.y_transformed_spec(
                coordinate_space.1,
            )),
            p.0 < coordinate_space.0,
            p.1 < coordinate_space.1,
    {
        (self.x_transformed(coordinate_space.0), self.y_transformed(coordinate_space.1))
    }

    /// Touch x coordinate in the device's native coordinate space.
    fn x(&self) -> (x: u32)
        ensures
            x == self.x_spec(),
    ;

    /// Touch y coordinate in the device's native coordinate space.
    fn y(&self) -> (y: u32)
        ensures
            y == self.y_spec(),
    ;

    /// Touch x position converted to the target coordinate space's width.
    fn x_transformed(&self, width: u32) -> (x: u32)
        requires
            width > 0,
        ensures
            x == self.x_transformed_spec(width),
            x < width,
    ;

    /// Touch y position converted to the target coordinate space's height.
    fn y_transformed(&self, height: u32) -> (y: u32)
        requires
            height > 0,
        ensures
            y == self.y_transformed_spec(height),
            y < height,
    ;

    /// The x transform is monotonic in the native x coordinate.
    proof fn x_transformed_monotonic(&self, other: &Self, width: u32)
        requires
            width > 0,
            self.x_spec() <= other.x_spec(),
        ensures
            self.x_transformed_spec(width) <= other.x_transformed_spec(width),
    ;

    /// The y transform is monotonic in the native y coordinate.
    proof fn y_transformed_monotonic(&self, other: &Self, height: u32)
        requires
            height > 0,
            self.y_spec() <= other.y_spec(),
        ensures
            self.y_transformed_spec(height) <= other.y_transformed_spec(height),
    ;
}

impl TouchMotionEvent for () {
    open spec fn slot_spec(&self) -> Option<TouchSlot> {
        None
    }

    open spec fn x_spec(&self) -> u32 {
        0
    }

    open spec fn y_spec(&self) -> u32 {
        0
    }

    open spec fn x_transformed_spec(&self, width: u32) -> u32 {
        0
    }

    open spec fn y_transformed_spec(&self, height: u32) -> u32 {
        0
    }

    fn slot(&self) -> Option<TouchSlot> {
        None
    }

    fn x(&self) -> u32 {
        0
    }

    fn y(&self) -> u32 {
        0
    }

    fn x_transformed(&self, width: u32) -> u32 {
        0
    }

    fn y_transformed(&self, height: u32) -> u32 {
        0
    }

    proof fn x_transformed_monotonic(&self, other: &Self, width: u32) {
    }

    proof fn y_transformed_monotonic(&self, other: &Self, height: u32) {
    }
}

/// Trait for touch events finishing a contact.
pub trait TouchUpEvent: Event {
    /// Specification-level value of [`TouchUpEvent::slot`].
    spec fn slot_spec(&self) -> Option<TouchSlot>;

    /// The touch slot, if the device has multi-touch capabilities.  It
    /// matches the slot of the down event that began this contact; the slot
    /// id may be reused afterwards.
    fn slot(&self) -> (slot: Option<TouchSlot>)
        ensures
            slot == self.slot_spec(),
    ;
}

impl TouchUpEvent for () {
    open spec fn slot_spec(&self) -> Option<TouchSlot> {
        None
    }

    fn slot(&self) -> Option<TouchSlot> {
        None
    }
}

/// Trait for touch events cancelling the chain of events of a contact.
pub trait TouchCancelEvent: Event {
    /// Specification-level value of [`TouchCancelEvent::slot`].
    spec fn slot_spec(&self) -> Option<TouchSlot>;

    /// The touch slot, if the device has multi-touch capabilities.  It
    /// matches the slot of the down event that began this contact; the slot
    /// id may be reused afterwards.
    fn slot(&self) -> (slot: Option<TouchSlot>)
        ensures
            slot == self.slot_spec(),
    ;
}

impl TouchCancelEvent for () {
    open spec fn slot_spec(&self) -> Option<TouchSlot> {
        None
    }

    fn slot(&self) -> Option<TouchSlot> {
        None
    }
}

/// Trait for touch frame events, which carry no payload and mark the end of
/// a batch of touch events delivered in the same physical update.
pub trait TouchFrameEvent: Event {
}

impl TouchFrameEvent for () {
}

} // verus!
