//! The input-event model: a closed set of immutable value events for
//! mouse, keyboard, window and touch input.

pub use crate::geometry::Point;

use vstd::prelude::*;

verus! {

#[derive(Debug, Copy, Clone, PartialEq, Eq, Structural)]
pub enum MouseButton {
    Left,
    Right,
    Middle,
    Other(u8),
}

#[derive(Debug, Copy, Clone, PartialEq, Eq, Structural)]
pub enum MouseEvent {
    Moved { x: i32, y: i32 },
    ButtonPressed { button: MouseButton, x: i32, y: i32 },
    ButtonReleased { button: MouseButton, x: i32, y: i32 },
    WheelScrolled { delta_x: i32, delta_y: i32 },
    Entered { x: i32, y: i32 },
    Left { x: i32, y: i32 },
}

#[derive(Debug, Copy, Clone, PartialEq, Eq, Structural)]
pub enum KeyboardKey {
    A,
    B,
    C,
    D,
    E,
    F,
    G,
    H,
    I,
    J,
    K,
    L,
    M,
    N,
    O,
    P,
    Q,
    R,
    S,
    T,
    U,
    V,
    W,
    X,
    Y,
    Z,
    Num0,
    Num1,
    Num2,
    Num3,
    Num4,
    Num5,
    Num6,
    Num7,
    Num8,
    Num9,
    F1,
    F2,
    F3,
    F4,
    F5,
    F6,
    F7,
    F8,
    F9,
    F10,
    F11,
    F12,
    F13,
    F14,
    F15,
    F16,
    F17,
    F18,
    F19,
    F20,
    F21,
    F22,
    F23,
    F24,
    Space,
    Enter,
    Escape,
    Tab,
    Backspace,
    Delete,
    Insert,
    Up,
    Down,
    Left,
    Right,
    PageUp,
    PageDown,
    Home,
    End,
    ShiftLeft,
    ShiftRight,
    ControlLeft,
    ControlRight,
    AltLeft,
    AltRight,
    SuperLeft,
    SuperRight,
    CapsLock,
    NumLock,
    ScrollLock,
    Numpad0,
    Numpad1,
    Numpad2,
    Numpad3,
    Numpad4,
    Numpad5,
    Numpad6,
    Numpad7,
    Numpad8,
    Numpad9,
    NumpadDecimal,
    NumpadEnter,
    NumpadEquals,
    NumpadPlus,
    NumpadMinus,
    NumpadMultiply,
    NumpadDivide,
    Grave,
    Minus,
    Equals,
    BracketLeft,
    BracketRight,
    Backslash,
    Semicolon,
    Apostrophe,
    Comma,
    Period,
    Slash,
    PrintScreen,
    Pause,
    Unknown,
}

#[derive(Debug, Copy, Clone, PartialEq, Eq, Structural)]
pub enum KeyboardEvent {
    KeyPressed { key: KeyboardKey },
    KeyReleased { key: KeyboardKey },
    TextInput { character: char },
}

#[derive(Debug, Copy, Clone, PartialEq, Eq, Structural)]
pub enum WindowEvent {
    Resized { width: u32, height: u32 },
    Moved { x: i32, y: i32 },
    Closed,
    Focused,
    Unfocused,
}

#[derive(Debug, Copy, Clone, PartialEq, Eq, Structural)]
pub enum TouchPhase {
    Started,
    Moved,
    Ended,
    Cancelled,
}

/// One contact of a multi-touch gesture; `id` is stable for the
/// lifetime of that contact.
#[derive(Debug, Copy, Clone, PartialEq, Eq, Structural)]
pub struct Touch {
    pub id: u64,
    pub position: Point,
}

/// A touch event batches every contact active in that phase, in order.
#[derive(Debug, Clone, PartialEq)]
pub enum TouchEvent {
    Started(Vec<Touch>),
    Moved(Vec<Touch>),
    Ended(Vec<Touch>),
    Cancelled(Vec<Touch>),
}

/// A single input occurrence, carrying only its payload.
#[derive(Debug, Clone, PartialEq)]
pub enum Event {
    Mouse(MouseEvent),
    Keyboard(KeyboardEvent),
    Window(WindowEvent),
    Touch(TouchEvent),
}

} // verus!
