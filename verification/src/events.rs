use vstd::prelude::*;

use crate::geom::PhySize;
use crate::input::{Code, Key, KeyValue, Modifiers, MouseButton, PointerButton, RawModifiers};
use crate::rational::Rat;

verus! {

/// A pointer position in logical points.
#[derive(Clone, Copy, Debug, PartialEq, Eq, Structural)]
pub struct Pos {
    pub x: Rat,
    pub y: Rat,
}

/// The unit of a mouse-wheel delta after normalisation.
#[derive(Clone, Copy, Debug, PartialEq, Eq, Structural)]
pub enum WheelUnit {
    Line,
    Point,
}

/// A two-dimensional scroll amount, exact.
#[derive(Clone, Copy, Debug, PartialEq, Eq, Structural)]
pub struct WheelDelta {
    pub x: Rat,
    pub y: Rat,
}

/// An input event in the GUI layer's vocabulary, accumulated by the session
/// and consumed at the next frame tick.
#[derive(Clone, Debug, PartialEq)]
pub enum Event {
    PointerMoved(Pos),
    PointerButton { pos: Pos, button: PointerButton, pressed: bool, modifiers: Modifiers },
    PointerGone,
    MouseWheel { unit: WheelUnit, delta: WheelDelta, modifiers: Modifiers },
    Key { key: Key, pressed: bool, repeat: bool, modifiers: Modifiers },
    Text(String),
    Cut,
    Copy,
    WindowFocused(bool),
}

/// A scroll delta as the windowing layer reports it: whole lines, or raw
/// pixels that still need scaling to points.
#[derive(Clone, Copy, Debug, PartialEq, Eq, Structural)]
pub enum ScrollDelta {
    Lines { x: Rat, y: Rat },
    Pixels { x: Rat, y: Rat },
}

/// A mouse event from the windowing layer. Events the session does not
/// react to (cursor enter, drag-and-drop and the like) are `Other`.
#[derive(Clone, Copy, Debug, PartialEq, Eq, Structural)]
pub enum MouseEvent {
    CursorMoved { position: Pos, modifiers: RawModifiers },
    ButtonPressed { button: MouseButton, modifiers: RawModifiers },
    ButtonReleased { button: MouseButton, modifiers: RawModifiers },
    WheelScrolled { delta: ScrollDelta, modifiers: RawModifiers },
    CursorLeft,
    Other,
}

/// Whether a key went down or up.
#[derive(Clone, Copy, Debug, PartialEq, Eq, Structural)]
pub enum KeyState {
    Down,
    Up,
}

/// A keyboard event from the windowing layer.
#[derive(Clone, Debug, PartialEq)]
pub struct KeyboardEvent {
    pub state: KeyState,
    pub code: Code,
    pub key: KeyValue,
    pub repeat: bool,
}

/// What the windowing layer reports with a resize: the new physical size
/// and the system's scale factor (used when the scale policy follows the
/// system).
#[derive(Clone, Copy, Debug, PartialEq, Eq, Structural)]
pub struct WindowInfo {
    pub physical_size: PhySize,
    pub system_scale: Rat,
}

/// A window event from the windowing layer.
#[derive(Clone, Copy, Debug, PartialEq, Eq, Structural)]
pub enum WindowEvent {
    Resized(WindowInfo),
    Focused,
    Unfocused,
    WillClose,
}

/// Any event delivered by the windowing layer's callback.
#[derive(Clone, Debug, PartialEq)]
pub enum InputEvent {
    Mouse(MouseEvent),
    Keyboard(KeyboardEvent),
    Window(WindowEvent),
}

/// The session's answer to the windowing layer for a delivered event.
#[derive(Clone, Copy, Debug, PartialEq, Eq, Structural)]
pub enum EventStatus {
    Captured,
    Ignored,
}

} // verus!
