//! Plain models of the input events a macro can send: keys, mouse buttons,
//! press directions, coordinate modes and scroll axes.
use vstd::prelude::*;

verus! {

/// Whether a key or button is pressed, released, or clicked (press then release).
#[derive(Clone, Copy, Debug, PartialEq, Eq, Hash, Structural)]
pub enum Direction {
    Press,
    Release,
    Click,
}

/// The axis along which a scroll happens.
#[derive(Clone, Copy, Debug, PartialEq, Eq, Hash, Structural)]
pub enum Axis {
    Horizontal,
    Vertical,
}

/// Whether mouse coordinates are absolute or relative to the pointer.
#[derive(Clone, Copy, Debug, PartialEq, Eq, Hash, Structural)]
pub enum Coordinate {
    Abs,
    Rel,
}

/// A mouse button.
#[derive(Clone, Copy, Debug, PartialEq, Eq, Hash, Structural)]
pub enum Button {
    Left,
    Middle,
    Right,
    Back,
    Forward,
    ScrollUp,
    ScrollDown,
    ScrollLeft,
    ScrollRight,
}

/// A key on the keyboard, as the input backend knows it on Linux desktops.
#[derive(Clone, Copy, Debug, PartialEq, Eq, Hash, Structural)]
pub enum Key {
    Add,
    Alt,
    Backspace,
    Break,
    Begin,
    Cancel,
    CapsLock,
    Clear,
    Command,
    Control,
    Decimal,
    Delete,
    Divide,
    DownArrow,
    End,
    Escape,
    Execute,
    F1,
    F2,
    F3,
    F4,
    F5,
    F6,
    F7,
    F8,
    F9,
    F10,
    F11,
    F12,
    F13,
    F14,
    F15,
    F16,
    F17,
    F18,
    F19,
    F20,
    F21,
    F22,
    F23,
    F24,
    F25,
    F26,
    F27,
    F28,
    F29,
    F30,
    F31,
    F32,
    F33,
    F34,
    F35,
    Find,
    Hangul,
    Hanja,
    Help,
    Home,
    Insert,
    Kanji,
    LControl,
    LeftArrow,
    Linefeed,
    LMenu,
    LShift,
    MediaNextTrack,
    MediaPlayPause,
    MediaPrevTrack,
    MediaStop,
    Meta,
    ModeChange,
    Multiply,
    Numlock,
    Numpad0,
    Numpad1,
    Numpad2,
    Numpad3,
    Numpad4,
    Numpad5,
    Numpad6,
    Numpad7,
    Numpad8,
    Numpad9,
    Option,
    PageDown,
    PageUp,
    Pause,
    Print,
    PrintScr,
    RControl,
    Redo,
    Return,
    RightArrow,
    RShift,
    ScrollLock,
    Select,
    ScriptSwitch,
    Shift,
    ShiftLock,
    Space,
    Subtract,
    Super,
    SysReq,
    Tab,
    Undo,
    UpArrow,
    VolumeDown,
    VolumeMute,
    VolumeUp,
    MicMute,
    Windows,
    Unicode(char),
    Other(u32),
}

} // verus!
