//! From a button to the flags and the auxiliary data of its events.
//!
//! The two flag functions are named after the operation that sends the flag,
//! not after the platform's constant: `button_to_event_down` is what
//! [`mouse_click`](crate::mouse::mouse_click) sends, and yields the platform's
//! button-up flag; `button_to_event_up` is what
//! [`mouse_release`](crate::mouse::mouse_release) sends, and yields the
//! platform's button-down flag.

use vstd::prelude::*;
use crate::button::MouseButton;
use crate::platform::{
    MOUSEEVENTF_LEFTDOWN, MOUSEEVENTF_LEFTUP, MOUSEEVENTF_MIDDLEDOWN, MOUSEEVENTF_MIDDLEUP,
    MOUSEEVENTF_RIGHTDOWN, MOUSEEVENTF_RIGHTUP, MOUSEEVENTF_XDOWN, MOUSEEVENTF_XUP, XBUTTON1,
    XBUTTON2,
};

verus! {

/// The auxiliary data of a button's events: which extended button it is, and
/// zero for a button that is not extended.
pub open spec fn mouse_data(button: MouseButton) -> u16 {
    match button {
        MouseButton::Side | MouseButton::DoubleSide => XBUTTON1,
        MouseButton::Extra | MouseButton::DoubleExtra => XBUTTON2,
        MouseButton::Left | MouseButton::DoubleLeft => 0,
        MouseButton::Right | MouseButton::DoubleRight => 0,
        MouseButton::Middle | MouseButton::DoubleMiddle => 0,
    }
}

/// The flag of `button_to_event_up`: the platform's button-down flag of the
/// button's group.
pub open spec fn event_up(button: MouseButton) -> u32 {
    match button {
        MouseButton::Left | MouseButton::DoubleLeft => MOUSEEVENTF_LEFTDOWN,
        MouseButton::Right | MouseButton::DoubleRight => MOUSEEVENTF_RIGHTDOWN,
        MouseButton::Middle | MouseButton::DoubleMiddle => MOUSEEVENTF_MIDDLEDOWN,
        MouseButton::Side | MouseButton::DoubleSide | MouseButton::Extra
        | MouseButton::DoubleExtra => MOUSEEVENTF_XDOWN,
    }
}

/// The flag of `button_to_event_down`: the platform's button-up flag of the
/// button's group.
pub open spec fn event_down(button: MouseButton) -> u32 {
    match button {
        MouseButton::Left | MouseButton::DoubleLeft => MOUSEEVENTF_LEFTUP,
        MouseButton::Right | MouseButton::DoubleRight => MOUSEEVENTF_RIGHTUP,
        MouseButton::Middle | MouseButton::DoubleMiddle => MOUSEEVENTF_MIDDLEUP,
        MouseButton::Side | MouseButton::DoubleSide | MouseButton::Extra
        | MouseButton::DoubleExtra => MOUSEEVENTF_XUP,
    }
}

/// Whether `flag` is one of the platform's four button-down flags.
pub open spec fn is_button_down_flag(flag: u32) -> bool {
    ||| flag == MOUSEEVENTF_LEFTDOWN
    ||| flag == MOUSEEVENTF_RIGHTDOWN
    ||| flag == MOUSEEVENTF_MIDDLEDOWN
    ||| flag == MOUSEEVENTF_XDOWN
}

/// Whether `flag` is one of the platform's four button-up flags.
pub open spec fn is_button_up_flag(flag: u32) -> bool {
    ||| flag == MOUSEEVENTF_LEFTUP
    ||| flag == MOUSEEVENTF_RIGHTUP
    ||| flag == MOUSEEVENTF_MIDDLEUP
    ||| flag == MOUSEEVENTF_XUP
}

/// Which extended button `button` is, for the record's mouse data.
///
/// A side button is the first extended button, an extra button the second;
/// for every other button the data is zero.
pub fn button_to_mouse_data(button: MouseButton) -> (data: u16)
    ensures
        data == mouse_data(button),
        button.single() == MouseButton::Side ==> data == XBUTTON1,
        button.single() == MouseButton::Extra ==> data == XBUTTON2,
        !button.is_extended() ==> data == 0,
{
    match button {
        MouseButton::Side | MouseButton::DoubleSide => XBUTTON1,
        MouseButton::Extra | MouseButton::DoubleExtra => XBUTTON2,
        MouseButton::Left | MouseButton::DoubleLeft => 0,
        MouseButton::Right | MouseButton::DoubleRight => 0,
        MouseButton::Middle | MouseButton::DoubleMiddle => 0,
    }
}

/// The flag that a release of `button` sends: the platform's button-down flag
/// of the button's group. Both extended buttons share one flag.
pub fn button_to_event_up(button: MouseButton) -> (flag: u32)
    ensures
        flag == event_up(button),
        is_button_down_flag(flag),
{
    match button {
        MouseButton::Left | MouseButton::DoubleLeft => MOUSEEVENTF_LEFTDOWN,
        MouseButton::Right | MouseButton::DoubleRight => MOUSEEVENTF_RIGHTDOWN,
        MouseButton::Middle | MouseButton::DoubleMiddle => MOUSEEVENTF_MIDDLEDOWN,
        MouseButton::Side | MouseButton::DoubleSide | MouseButton::Extra
        | MouseButton::DoubleExtra => MOUSEEVENTF_XDOWN,
    }
}

/// The flag that a click of `button` sends: the platform's button-up flag of
/// the button's group. Both extended buttons share one flag.
pub fn button_to_event_down(button: MouseButton) -> (flag: u32)
    ensures
        flag == event_down(button),
        is_button_up_flag(flag),
{
    match button {
        MouseButton::Left | MouseButton::DoubleLeft => MOUSEEVENTF_LEFTUP,
        MouseButton::Right | MouseButton::DoubleRight => MOUSEEVENTF_RIGHTUP,
        MouseButton::Middle | MouseButton::DoubleMiddle => MOUSEEVENTF_MIDDLEUP,
        MouseButton::Side | MouseButton::DoubleSide | MouseButton::Extra
        | MouseButton::DoubleExtra => MOUSEEVENTF_XUP,
    }
}

/// A double variant maps as its single counterpart does: the two flags and
/// the auxiliary data depend on the physical button alone.
pub proof fn lemma_double_maps_as_single(button: MouseButton)
    ensures
        mouse_data(button) == mouse_data(button.single()),
        event_up(button) == event_up(button.single()),
        event_down(button) == event_down(button.single()),
{
}

/// The flags and the auxiliary data together tell the physical button: two
/// buttons that map alike are variants of one physical button.
pub proof fn lemma_mapping_tells_button(a: MouseButton, b: MouseButton)
    requires
        mouse_data(a) == mouse_data(b),
        event_down(a) == event_down(b),
    ensures
        a.single() == b.single(),
        event_up(a) == event_up(b),
{
}

} // verus!
