use reznez::controller::joypad::{Button, ButtonStatus, ButtonStatuses, Joypad, ALL_BUTTONS};
use reznez::memory::read_result::ReadResult;

#[test]
fn reads_report_buttons_in_order_then_pressed() {
    let mut joypad = Joypad::new();
    joypad.set_button_status(Button::B, ButtonStatus::Pressed);
    joypad.set_button_status(Button::Up, ButtonStatus::Pressed);
    joypad.change_strobe(1);
    joypad.change_strobe(0);
    let expected = [0, 1, 0, 0, 1, 0, 0, 0];
    for value in expected {
        assert_eq!(joypad.read_status(), ReadResult { value, mask: 0b111 });
    }
    // After all eight buttons, reads report pressed.
    assert_eq!(joypad.read_status().value, 1);
    assert_eq!(joypad.read_status().value, 1);
}

#[test]
fn strobe_on_keeps_reporting_a() {
    let mut joypad = Joypad::new();
    joypad.set_button_status(Button::A, ButtonStatus::Pressed);
    joypad.strobe_on();
    assert_eq!(joypad.read_status().value, 1);
    assert_eq!(joypad.read_status().value, 1);
    joypad.strobe_off();
    assert_eq!(joypad.read_status().value, 1);
    assert_eq!(joypad.read_status().value, 0);
}

#[test]
fn peek_does_not_advance() {
    let mut joypad = Joypad::new();
    joypad.set_button_status(Button::A, ButtonStatus::Pressed);
    joypad.strobe_off();
    assert_eq!(joypad.peek_status(), ReadResult::partial(1, 0b111));
    assert_eq!(joypad.peek_status(), ReadResult::partial(1, 0b111));
    assert_eq!(joypad.selected_button, Some(Button::A));
}

#[test]
fn buttons_follow_one_another() {
    assert_eq!(ALL_BUTTONS.len(), 8);
    for (i, button) in ALL_BUTTONS.iter().enumerate() {
        assert_eq!(button.index(), i);
        let next = button.next();
        if i + 1 < ALL_BUTTONS.len() {
            assert_eq!(next, Some(ALL_BUTTONS[i + 1]));
        } else {
            assert_eq!(next, None);
        }
    }
}

#[test]
fn button_statuses_set_one_button() {
    let mut statuses = ButtonStatuses::all_unpressed();
    statuses.set_status(Button::Start, ButtonStatus::Pressed);
    assert!(matches!(statuses.status(Button::Start), ButtonStatus::Pressed));
    assert!(matches!(statuses.status(Button::Select), ButtonStatus::Unpressed));
}
