use mouse_input::mapper::{button_to_event_down, button_to_event_up, button_to_mouse_data};
use mouse_input::mouse::mouse_interact_with;
use mouse_input::{
    mouse_click, mouse_press, mouse_release, Button, Input, MouseButton, MouseInput,
};

fn ten_buttons() -> Vec<MouseButton> {
    vec![
        MouseButton::Left,
        MouseButton::Right,
        MouseButton::Middle,
        MouseButton::Side,
        MouseButton::Extra,
        MouseButton::DoubleLeft,
        MouseButton::DoubleRight,
        MouseButton::DoubleMiddle,
        MouseButton::DoubleSide,
        MouseButton::DoubleExtra,
    ]
}

fn record(flags: u32, mouse_data: u32) -> Input {
    Input {
        tag: 0,
        mouse: MouseInput { dx: 0, dy: 0, mouse_data, flags, time: 0, extra_info: 0 },
    }
}

#[test]
fn interact_builds_a_mouse_record_without_movement() {
    let mut seen: Vec<Input> = Vec::new();
    mouse_interact_with(0x0002, 0, |input| seen.push(input));
    assert_eq!(seen.len(), 1);
    assert_eq!(seen[0].tag, 0);
    assert_eq!(seen[0].mouse.dx, 0);
    assert_eq!(seen[0].mouse.dy, 0);
    assert_eq!(seen[0].mouse.mouse_data, 0);
    assert_eq!(seen[0].mouse.flags, 0x0002);
    assert_eq!(seen[0].mouse.time, 0);
    assert_eq!(seen[0].mouse.extra_info, 0);
}

#[test]
fn interact_passes_flags_through_and_widens_mouse_data() {
    let mut seen: Vec<Input> = Vec::new();
    mouse_interact_with(0xDEAD_BEEF, 0xFFFF, |input| seen.push(input));
    assert_eq!(seen, vec![record(0xDEAD_BEEF, 0x0000_FFFF)]);
}

#[test]
fn interact_submits_once() {
    let mut calls: u32 = 0;
    mouse_interact_with(0, 0, |_input| calls += 1);
    assert_eq!(calls, 1);
}

#[test]
fn click_left_submits_the_down_helper_flag_and_no_mouse_data() {
    let mut seen: Vec<Input> = Vec::new();
    mouse_click(MouseButton::Left, |input| seen.push(input));
    assert_eq!(seen.len(), 1);
    assert_eq!(seen[0].mouse.flags, button_to_event_down(MouseButton::Left));
    assert_eq!(seen[0].mouse.mouse_data, 0);
    assert_eq!(seen, vec![record(0x0004, 0)]);
}

#[test]
fn release_side_submits_the_up_helper_flag_and_the_first_extended_button() {
    let mut seen: Vec<Input> = Vec::new();
    mouse_release(MouseButton::Side, |input| seen.push(input));
    assert_eq!(seen.len(), 1);
    assert_eq!(seen[0].mouse.flags, button_to_event_up(MouseButton::Side));
    assert_eq!(seen[0].mouse.mouse_data, 1);
    assert_eq!(seen, vec![record(0x0080, 1)]);
}

#[test]
fn press_extra_submits_both_flags_and_the_second_extended_button() {
    let mut seen: Vec<Input> = Vec::new();
    mouse_press(MouseButton::Extra, |input| seen.push(input));
    assert_eq!(seen.len(), 1);
    assert_eq!(
        seen[0].mouse.flags,
        button_to_event_down(MouseButton::Extra) | button_to_event_up(MouseButton::Extra)
    );
    assert_eq!(seen[0].mouse.mouse_data, 2);
    assert_eq!(seen, vec![record(0x0180, 2)]);
}

#[test]
fn press_flags_of_each_group() {
    let expected = vec![
        (MouseButton::Left, 0x0006),
        (MouseButton::Right, 0x0018),
        (MouseButton::Middle, 0x0060),
        (MouseButton::Side, 0x0180),
        (MouseButton::Extra, 0x0180),
        (MouseButton::DoubleLeft, 0x0006),
        (MouseButton::DoubleRight, 0x0018),
        (MouseButton::DoubleMiddle, 0x0060),
        (MouseButton::DoubleSide, 0x0180),
        (MouseButton::DoubleExtra, 0x0180),
    ];
    for (button, flags) in expected {
        let mut seen: Vec<Input> = Vec::new();
        mouse_press(button, |input| seen.push(input));
        assert_eq!(seen.len(), 1);
        assert_eq!(seen[0].mouse.flags, flags);
    }
}

#[test]
fn click_submits_one_record_for_every_button() {
    for button in ten_buttons() {
        let mut seen: Vec<Input> = Vec::new();
        mouse_click(button, |input| seen.push(input));
        let data: u32 = button_to_mouse_data(button).into();
        assert_eq!(seen, vec![record(button_to_event_down(button), data)]);
    }
}

#[test]
fn release_submits_one_record_for_every_button() {
    for button in ten_buttons() {
        let mut seen: Vec<Input> = Vec::new();
        mouse_release(button, |input| seen.push(input));
        let data: u32 = button_to_mouse_data(button).into();
        assert_eq!(seen, vec![record(button_to_event_up(button), data)]);
    }
}

#[test]
fn press_submits_one_record_with_both_flags_for_every_button() {
    for button in ten_buttons() {
        let mut seen: Vec<Input> = Vec::new();
        mouse_press(button, |input| seen.push(input));
        let data: u32 = button_to_mouse_data(button).into();
        let flags = button_to_event_down(button) | button_to_event_up(button);
        assert_eq!(seen, vec![record(flags, data)]);
        assert_eq!(seen[0].mouse.flags.count_ones(), 2);
    }
}

#[test]
fn click_and_release_send_different_flags() {
    let mut clicked: Vec<Input> = Vec::new();
    let mut released: Vec<Input> = Vec::new();
    mouse_click(MouseButton::Right, |input| clicked.push(input));
    mouse_release(MouseButton::Right, |input| released.push(input));
    assert_eq!(clicked, vec![record(0x0010, 0)]);
    assert_eq!(released, vec![record(0x0008, 0)]);
}

#[test]
fn operations_keep_nothing_between_calls() {
    let mut seen: Vec<Input> = Vec::new();
    mouse_press(MouseButton::Middle, |input| seen.push(input));
    mouse_click(MouseButton::Middle, |input| seen.push(input));
    mouse_click(MouseButton::Middle, |input| seen.push(input));
    mouse_release(MouseButton::DoubleMiddle, |input| seen.push(input));
    assert_eq!(
        seen,
        vec![record(0x0060, 0), record(0x0040, 0), record(0x0040, 0), record(0x0020, 0)]
    );
}

#[test]
fn button_press_submits_what_mouse_press_submits() {
    for button in ten_buttons() {
        let mut by_method: Vec<Input> = Vec::new();
        let mut by_function: Vec<Input> = Vec::new();
        button.press(|input| by_method.push(input));
        mouse_press(button, |input| by_function.push(input));
        assert_eq!(by_method.len(), 1);
        assert_eq!(by_method, by_function);
    }
}

#[test]
fn button_click_submits_what_mouse_click_submits() {
    for button in ten_buttons() {
        let mut by_method: Vec<Input> = Vec::new();
        let mut by_function: Vec<Input> = Vec::new();
        button.click(|input| by_method.push(input));
        mouse_click(button, |input| by_function.push(input));
        assert_eq!(by_method.len(), 1);
        assert_eq!(by_method, by_function);
    }
}

#[test]
fn button_release_submits_what_mouse_release_submits() {
    for button in ten_buttons() {
        let mut by_method: Vec<Input> = Vec::new();
        let mut by_function: Vec<Input> = Vec::new();
        button.release(|input| by_method.push(input));
        mouse_release(button, |input| by_function.push(input));
        assert_eq!(by_method.len(), 1);
        assert_eq!(by_method, by_function);
    }
}

#[test]
fn button_methods_on_the_left_button() {
    let mut seen: Vec<Input> = Vec::new();
    MouseButton::Left.press(|input| seen.push(input));
    MouseButton::Left.click(|input| seen.push(input));
    MouseButton::Left.release(|input| seen.push(input));
    assert_eq!(seen, vec![record(0x0006, 0), record(0x0004, 0), record(0x0002, 0)]);
}
