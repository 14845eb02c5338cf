//! The vocabulary of the input-event subsystem.
//!
//! The raw input reader is a producer of UI events wholly separate from
//! the swap chain: it shares no data structures with presentation and its
//! device loop lives outside the verified core.  These are the plain event
//! types it emits — touch phases, mouse buttons, keys and their states —
//! which carry no invariants beyond their shape.

use vstd::prelude::*;

verus! {

/// Unit tag for coordinates measured in device pixels.
pub struct DevicePixel;

/// Unit tag for coordinates measured in layer pixels.
pub struct LayerPixel;

/// Where a pressure-sensitive touchpad press stands relative to its two
/// click thresholds.
#[derive(Clone, Copy, Debug, PartialEq, Eq, Structural)]
pub enum TouchpadPressurePhase {
    BeforeClick,
    AfterFirstClick,
    AfterSecondClick,
}

/// The tracking identifier a multi-touch device assigns to one contact.
#[derive(Clone, Copy, Debug, PartialEq, Eq, Structural)]
pub struct TouchId(pub i32);

/// The phase of a touch contact.
#[derive(Clone, Copy, Debug, PartialEq, Eq, Structural)]
pub enum TouchEventType {
    Down,
    Move,
    Up,
    Cancel,
}

#[derive(Clone, Copy, Debug, PartialEq, Eq, Structural)]
pub enum MouseButton {
    Left,
    Middle,
    Right,
}

/// A bitset of the modifier keys held during a key event.
#[derive(Clone, Copy, Debug, PartialEq, Eq, Structural)]
pub struct KeyModifiers {
    bits: u8,
}

impl View for KeyModifiers {
    type V = u8;

    closed spec fn view(&self) -> u8 {
        self.bits
    }
}

impl KeyModifiers {
    pub fn new(bits: u8) -> (r: KeyModifiers)
        ensures
            r@ == bits,
    {
        KeyModifiers { bits }
    }

    pub fn bits(&self) -> (r: u8)
        ensures
            r == self@,
    {
        self.bits
    }
}

/// A key a host framework can report.
#[derive(Clone, Copy, Debug, PartialEq, Eq, Structural)]
pub enum Key {
    Space,
    Apostrophe,
    Comma,
    Minus,
    Period,
    Slash,
    Num0,
    Num1,
    Num2,
    Num3,
    Num4,
    Num5,
    Num6,
    Num7,
    Num8,
    Num9,
    Semicolon,
    Equal,
    A,
    B,
    C,
    D,
    E,
    F,
    G,
    H,
    I,
    J,
    K,
    L,
    M,
    N,
    O,
    P,
    Q,
    R,
    S,
    T,
    U,
    V,
    W,
    X,
    Y,
    Z,
    LeftBracket,
    Backslash,
    RightBracket,
    GraveAccent,
    World1,
    World2,
    Escape,
    Enter,
    Tab,
    Backspace,
    Insert,
    Delete,
    Right,
    Left,
    Down,
    Up,
    PageUp,
    PageDown,
    Home,
    End,
    CapsLock,
    ScrollLock,
    NumLock,
    PrintScreen,
    Pause,
    F1,
    F2,
    F3,
    F4,
    F5,
    F6,
    F7,
    F8,
    F9,
    F10,
    F11,
    F12,
    F13,
    F14,
    F15,
    F16,
    F17,
    F18,
    F19,
    F20,
    F21,
    F22,
    F23,
    F24,
    F25,
    Kp0,
    Kp1,
    Kp2,
    Kp3,
    Kp4,
    Kp5,
    Kp6,
    Kp7,
    Kp8,
    Kp9,
    KpDecimal,
    KpDivide,
    KpMultiply,
    KpSubtract,
    KpAdd,
    KpEnter,
    KpEqual,
    LeftShift,
    LeftControl,
    LeftAlt,
    LeftSuper,
    RightShift,
    RightControl,
    RightAlt,
    RightSuper,
    Menu,
    NavigateBackward,
    NavigateForward,
}

#[derive(Clone, Copy, Debug, PartialEq, Eq, Structural)]
pub enum KeyState {
    Pressed,
    Released,
    Repeated,
}

} // verus!
