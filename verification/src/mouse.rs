//! The three operations on a mouse button, and the one place that submits a
//! record.
//!
//! The platform's synthetic-input call is not part of this library: each
//! operation takes it as `submit`, builds one record and hands it over. A
//! `submit` can be called at most once, so an operation that has returned has
//! submitted exactly the record that its contract names, and no other.

use vstd::prelude::*;
use crate::button::{Button, MouseButton};
use crate::mapper::{
    button_to_event_down, button_to_event_up, button_to_mouse_data, event_down, event_up,
    mouse_data,
};
use crate::platform::{Input, MouseInput, INPUT_MOUSE};

verus! {

/// The record of a mouse button event: tagged as a mouse event, without
/// movement, without a time stamp of its own, without extra information, with
/// the flags `interaction` and the auxiliary data `mouse_data`.
pub open spec fn button_event(interaction: u32, mouse_data: u16) -> Input {
    Input {
        tag: INPUT_MOUSE,
        mouse: MouseInput {
            dx: 0,
            dy: 0,
            mouse_data: mouse_data as u32,
            flags: interaction,
            time: 0,
            extra_info: 0,
        },
    }
}

/// The flags of a press: both flags of the button, in one flag set.
pub open spec fn press_flags(button: MouseButton) -> u32 {
    event_down(button) | event_up(button)
}

/// The record that `mouse_press` submits.
pub open spec fn press_event(button: MouseButton) -> Input {
    button_event(press_flags(button), mouse_data(button))
}

/// The record that `mouse_release` submits.
pub open spec fn release_event(button: MouseButton) -> Input {
    button_event(event_up(button), mouse_data(button))
}

/// The record that `mouse_click` submits.
pub open spec fn click_event(button: MouseButton) -> Input {
    button_event(event_down(button), mouse_data(button))
}

/// Builds the record of a mouse button event with the flags `interaction` and
/// the auxiliary data `mouse_data`, and submits it, once.
///
/// Whatever `submit` reports is dropped: the caller does not learn whether the
/// platform took the event.
pub fn mouse_interact_with<F: FnOnce(Input)>(interaction: u32, mouse_data: u16, submit: F)
    requires
        call_requires(submit, (button_event(interaction, mouse_data),)),
    ensures
        call_ensures(submit, (button_event(interaction, mouse_data),), ()),
{
    let x = Input {
        tag: INPUT_MOUSE,
        mouse: MouseInput {
            dx: 0,
            dy: 0,
            mouse_data: mouse_data as u32,
            flags: interaction,
            time: 0,
            extra_info: 0,
        },
    };
    submit(x)
}

/// Submits one record that carries both flags of `button` at once, with the
/// button's auxiliary data.
pub fn mouse_press<F: FnOnce(Input)>(button: MouseButton, submit: F)
    requires
        call_requires(submit, (press_event(button),)),
    ensures
        call_ensures(submit, (press_event(button),), ()),
{
    let click: u32 = button_to_event_down(button) | button_to_event_up(button);
    mouse_interact_with(click, button_to_mouse_data(button), submit)
}

/// Submits one record with the flag of `button_to_event_up` alone, and the
/// button's auxiliary data.
pub fn mouse_release<F: FnOnce(Input)>(button: MouseButton, submit: F)
    requires
        call_requires(submit, (release_event(button),)),
    ensures
        call_ensures(submit, (release_event(button),), ()),
{
    mouse_interact_with(button_to_event_up(button), button_to_mouse_data(button), submit)
}

/// Submits one record with the flag of `button_to_event_down` alone, and the
/// button's auxiliary data.
pub fn mouse_click<F: FnOnce(Input)>(button: MouseButton, submit: F)
    requires
        call_requires(submit, (click_event(button),)),
    ensures
        call_ensures(submit, (click_event(button),), ()),
{
    mouse_interact_with(button_to_event_down(button), button_to_mouse_data(button), submit)
}

impl Button for MouseButton {
    open spec fn press_input(&self) -> Input {
        press_event(*self)
    }

    open spec fn click_input(&self) -> Input {
        click_event(*self)
    }

    open spec fn release_input(&self) -> Input {
        release_event(*self)
    }

    fn press<F: FnOnce(Input)>(&self, submit: F) {
        mouse_press(*self, submit)
    }

    fn click<F: FnOnce(Input)>(&self, submit: F) {
        mouse_click(*self, submit);
    }

    fn release<F: FnOnce(Input)>(&self, submit: F) {
        mouse_release(*self, submit);
    }
}

/// The flags of a press are the two flags of the button and nothing else: the
/// two are different bits, each is found again in the union, and no third bit
/// is set.
pub proof fn lemma_press_flags(button: MouseButton)
    ensures
        event_down(button) & event_up(button) == 0,
        press_flags(button) & event_down(button) == event_down(button),
        press_flags(button) & event_up(button) == event_up(button),
        press_flags(button) == event_down(button) + event_up(button),
        press_flags(button) == match button.single() {
            MouseButton::Left => 0x0006u32,
            MouseButton::Right => 0x0018u32,
            MouseButton::Middle => 0x0060u32,
            _ => 0x0180u32,
        },
{
    assert(0x0004u32 | 0x0002u32 == 0x0006u32) by (bit_vector);
    assert(0x0010u32 | 0x0008u32 == 0x0018u32) by (bit_vector);
    assert(0x0040u32 | 0x0020u32 == 0x0060u32) by (bit_vector);
    assert(0x0100u32 | 0x0080u32 == 0x0180u32) by (bit_vector);
    assert(0x0004u32 & 0x0002u32 == 0 && 0x0006u32 & 0x0004u32 == 0x0004u32 && 0x0006u32
        & 0x0002u32 == 0x0002u32) by (bit_vector);
    assert(0x0010u32 & 0x0008u32 == 0 && 0x0018u32 & 0x0010u32 == 0x0010u32 && 0x0018u32
        & 0x0008u32 == 0x0008u32) by (bit_vector);
    assert(0x0040u32 & 0x0020u32 == 0 && 0x0060u32 & 0x0040u32 == 0x0040u32 && 0x0060u32
        & 0x0020u32 == 0x0020u32) by (bit_vector);
    assert(0x0100u32 & 0x0080u32 == 0 && 0x0180u32 & 0x0100u32 == 0x0100u32 && 0x0180u32
        & 0x0080u32 == 0x0080u32) by (bit_vector);
}

} // verus!
