//! Input events coming in from the host and application events going out.
//!
//! The host's event pump hands the engine a stream of [`InputEvent`]s —
//! plain values carrying what the window system reported.  The cache
//! translates them into [`PushrodEvent`]s: widget-relative notifications
//! the application consumes through an [`EventHandler`].
//!
//! Coordinates are carried as `i64` although the window system reports
//! `i32` values, so that translating a window coordinate into a widget's
//! local space by subtracting the widget's origin can never overflow.

use vstd::prelude::*;

verus! {

/// A raw event from the host window system.
#[derive(Copy, Clone, Debug, PartialEq, Eq, Structural)]
pub enum InputEvent {
    /// The window was asked to close.
    Quit,
    /// The pointer moved to `(x, y)` in window coordinates; `xrel` and
    /// `yrel` are the deltas from the previous sample.
    MouseMotion { x: i64, y: i64, xrel: i32, yrel: i32 },
    /// A pointer button was pressed at `(x, y)`.
    MouseButtonDown { button: u8, clicks: u8, x: i64, y: i64 },
    /// A pointer button was released at `(x, y)`.
    MouseButtonUp { button: u8, clicks: u8, x: i64, y: i64 },
    /// Any other host event; carried through opaquely.
    Other,
}

/// An application-level event derived from the raw input stream.
#[derive(Copy, Clone, Debug, PartialEq, Eq, Structural)]
pub enum PushrodEvent {
    /// The pointer left the bounds of widget `exited` and is now over
    /// widget `entered`.  Delivered to the widget that lost the pointer.
    BoundsExited { exited: u32, entered: u32 },
    /// The pointer entered the bounds of widget `entered`, coming from
    /// widget `exited`.  Delivered to the widget that gained the pointer.
    BoundsEntered { exited: u32, entered: u32 },
    /// Widget `id` observed a click of `clicks` consecutive presses.
    Clicked { id: u32, clicks: u8 },
    /// Widget `id` changed a two-state setting.
    Toggled { id: u32, state: bool },
    /// A raw event routed to widget `id`, with pointer coordinates
    /// translated into the widget's local space.
    SystemEvent { id: u32, event: InputEvent },
}

/// Implemented by the application to receive generated events.
pub trait EventHandler {
    /// Processes a non-empty list of events, in the order they were
    /// generated within a frame.
    fn process_event(&mut self, events: &Vec<PushrodEvent>);
}

} // verus!
