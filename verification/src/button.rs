//! What can be pressed, and the buttons of a mouse.

use vstd::prelude::*;
use crate::platform::Input;

verus! {

/// Anything that can be pressed, clicked and released.
///
/// Each operation builds one record and hands it to `submit`, which stands
/// for the platform's synthetic-input call.
pub trait Button {
    /// The record that `press` submits.
    spec fn press_input(&self) -> Input;

    /// The record that `click` submits.
    spec fn click_input(&self) -> Input;

    /// The record that `release` submits.
    spec fn release_input(&self) -> Input;

    /// Submits the record of a press, once.
    fn press<F: FnOnce(Input)>(&self, submit: F)
        requires
            call_requires(submit, (self.press_input(),)),
        ensures
            call_ensures(submit, (self.press_input(),), ()),
    ;

    /// Submits the record of a click, once.
    fn click<F: FnOnce(Input)>(&self, submit: F)
        requires
            call_requires(submit, (self.click_input(),)),
        ensures
            call_ensures(submit, (self.click_input(),), ()),
    ;

    /// Submits the record of a release, once.
    fn release<F: FnOnce(Input)>(&self, submit: F)
        requires
            call_requires(submit, (self.release_input(),)),
        ensures
            call_ensures(submit, (self.release_input(),), ()),
    ;
}

/// A mouse button, or a double click of one.
///
/// A value is a bare tag. Each double variant stands for the same physical
/// button as its single counterpart.
#[derive(Clone, Copy, Debug, PartialEq, Eq, Hash, Structural)]
pub enum MouseButton {
    Left,
    Right,
    Middle,
    Side,
    Extra,
    DoubleLeft,
    DoubleRight,
    DoubleMiddle,
    DoubleSide,
    DoubleExtra,
}

impl MouseButton {
    /// The single variant of the same physical button.
    pub open spec fn single(self) -> MouseButton {
        match self {
            MouseButton::Left | MouseButton::DoubleLeft => MouseButton::Left,
            MouseButton::Right | MouseButton::DoubleRight => MouseButton::Right,
            MouseButton::Middle | MouseButton::DoubleMiddle => MouseButton::Middle,
            MouseButton::Side | MouseButton::DoubleSide => MouseButton::Side,
            MouseButton::Extra | MouseButton::DoubleExtra => MouseButton::Extra,
        }
    }

    /// Whether the button is one of the two extended buttons, which share
    /// their event flags and are told apart by the auxiliary data.
    pub open spec fn is_extended(self) -> bool {
        self.single() == MouseButton::Side || self.single() == MouseButton::Extra
    }
}

} // verus!
