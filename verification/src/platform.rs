//! The platform's vocabulary for synthetic mouse input: the event flags, the
//! identifiers of the extended buttons, and the input record.

use vstd::prelude::*;

verus! {

/// The left button went down.
pub const MOUSEEVENTF_LEFTDOWN: u32 = 0x0002;

/// The left button went up.
pub const MOUSEEVENTF_LEFTUP: u32 = 0x0004;

/// The right button went down.
pub const MOUSEEVENTF_RIGHTDOWN: u32 = 0x0008;

/// The right button went up.
pub const MOUSEEVENTF_RIGHTUP: u32 = 0x0010;

/// The middle button went down.
pub const MOUSEEVENTF_MIDDLEDOWN: u32 = 0x0020;

/// The middle button went up.
pub const MOUSEEVENTF_MIDDLEUP: u32 = 0x0040;

/// An extended button went down; the record's mouse data says which.
pub const MOUSEEVENTF_XDOWN: u32 = 0x0080;

/// An extended button went up; the record's mouse data says which.
pub const MOUSEEVENTF_XUP: u32 = 0x0100;

/// The first extended button.
pub const XBUTTON1: u16 = 0x0001;

/// The second extended button.
pub const XBUTTON2: u16 = 0x0002;

/// Tag of an input record that describes a mouse event.
pub const INPUT_MOUSE: u32 = 0;

/// The mouse member of an input record.
#[derive(Clone, Copy, Debug, PartialEq, Eq, Structural)]
pub struct MouseInput {
    /// Horizontal movement.
    pub dx: i32,
    /// Vertical movement.
    pub dy: i32,
    /// For an event of an extended button, which of them it is; otherwise zero.
    pub mouse_data: u32,
    /// The event flags.
    pub flags: u32,
    /// Time stamp of the event; zero leaves it to the system.
    pub time: u32,
    /// A value of the application's own that travels with the event.
    pub extra_info: usize,
}

/// One record of synthetic input.
#[derive(Clone, Copy, Debug, PartialEq, Eq, Structural)]
pub struct Input {
    /// What the record describes: `INPUT_MOUSE` for a mouse event.
    pub tag: u32,
    /// The mouse event.
    pub mouse: MouseInput,
}

} // verus!
