//! Typed, routed messages: the payload union, routing metadata, and the
//! effects a handler may request from the dispatcher.
//!
//! Runtime-typed payloads are modelled as a closed tagged union: a `take`
//! handler matches on one concrete payload kind and consumes the event,
//! while `map` observers react without consuming.
use vstd::prelude::*;
use crate::entity::Entity;
use crate::environment::EnvironmentEvent;
use crate::environment::ThemeMode;
use crate::ime::ImeEvent;

verus! {

/// A mouse button reported by the platform.
#[derive(Clone, Copy, PartialEq, Eq, Structural, Debug)]
pub enum MouseButton {
    Left,
    Right,
    Middle,
}

/// How an event walks the entity tree.
#[derive(Clone, Copy, PartialEq, Eq, Structural, Debug)]
pub enum Propagation {
    /// Delivered once, to the target entity only.
    Direct,
    /// Delivered to the target, then to each ancestor up to the root,
    /// stopping early once a handler consumes the event.
    Ascending,
    /// Delivered to the target and all its descendants, pre-order.
    Subtree,
}

/// A low-level window or platform event.
#[derive(Debug)]
pub enum WindowEvent {
    MouseDown(MouseButton),
    MouseUp(MouseButton),
    /// Cursor moved to the given position, in integer pixels.
    MouseMove(i64, i64),
    KeyDown(u32),
    KeyUp(u32),
    /// The system theme changed.
    ThemeChanged(ThemeMode),
    /// An IME composition event.
    Ime(ImeEvent),
    /// The entity gained focus.
    FocusIn,
    /// The entity lost focus.
    FocusOut,
}

/// Events understood by text views.
#[derive(Debug)]
pub enum TextEvent {
    /// Fired by the caret timer to blink a textbox caret.
    ToggleCaret,
}

/// Configuration events understood by a scrollbar view.
#[derive(Debug)]
pub enum ScrollBarEvent {
    /// Sets whether the scrollbar jumps to the cursor when its track is
    /// pressed.
    SetScrollToCursor(bool),
}

/// Mutation events understood by a scroll-position model.
#[derive(Debug)]
pub enum ScrollEvent {
    /// Sets the scroll position, a unit-interval value in millionths.
    SetValue(i64),
    /// Sets the visible ratio, a unit-interval value in millionths.
    SetRatio(i64),
}

/// Mutation events understood by the boolean-flag exemplar model.
#[derive(Debug)]
pub enum FlagEvent {
    /// Flips the flag.
    Toggle,
}

/// The closed union of every payload the dispatcher can route.
#[derive(Debug)]
pub enum EventPayload {
    Environment(EnvironmentEvent),
    Window(WindowEvent),
    ScrollBar(ScrollBarEvent),
    Scroll(ScrollEvent),
    Flag(FlagEvent),
    Text(TextEvent),
}

/// Routing metadata carried by every event.
#[derive(Clone, Copy, PartialEq, Eq, Structural, Debug)]
pub struct EventMeta {
    /// The entity that emitted the event.
    pub origin: Entity,
    /// The entity the event is aimed at.
    pub target: Entity,
    /// How the event walks the tree.
    pub propagation: Propagation,
    /// Set once a `take` handler consumed the event.
    pub consumed: bool,
}

/// A routed message: payload plus metadata.
#[derive(Debug)]
pub struct Event {
    pub payload: EventPayload,
    pub meta: EventMeta,
}

/// A context operation requested by a handler. Handlers receive no mutable
/// access to the dispatcher; they append effects, which the dispatcher
/// applies once the handler returns. This keeps every handler a function of
/// its model and the event alone.
#[derive(Debug)]
pub enum Effect {
    /// Emit a new event; it joins the same flush pass in FIFO order.
    Emit(Event),
    /// Apply a theme mode to the style system.
    SetThemeMode(ThemeMode),
    /// Re-parse the active stylesheet source.
    ReloadStyles,
    /// Route all pointer events to the current entity until released.
    Capture,
    /// Restore normal hit-testing.
    Release,
    /// Mark the current entity active or inactive.
    SetActive(bool),
    /// Enable or disable pointer events on the root entity.
    SetRootPointerEvents(bool),
    /// Focus the current entity, showing or hiding the focus ring.
    FocusWithVisibility(bool),
}

} // verus!
