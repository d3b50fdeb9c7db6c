use vstd::prelude::*;

use crate::memory::read_result::ReadResult;

verus! {

// https://wiki.nesdev.com/w/index.php/Controller_reading_code
/// A standard controller: while the strobe is on it reports button A; once the strobe is off,
/// each read reports one button and moves to the next, then reports pressed.
#[derive(Clone, Copy, Debug)]
pub struct Joypad {
    pub strobe_mode: StrobeMode,
    pub selected_button: Option<Button>,
    pub button_statuses: ButtonStatuses,
}

/// The bit that a button status reads as.
pub open spec fn status_bit(status: ButtonStatus) -> u8 {
    match status {
        ButtonStatus::Unpressed => 0b0000_0000,
        ButtonStatus::Pressed => 0b0000_0001,
    }
}

impl Joypad {
    /// What a read reports now: the selected button's status, or pressed once every button has
    /// been read; only the low three bits are driven.
    pub open spec fn spec_peek(self) -> ReadResult {
        let status = match self.selected_button {
            Some(button) => self.button_statuses.spec_status(button),
            None => ButtonStatus::Pressed,
        };
        ReadResult { value: status_bit(status), mask: 0b0000_0111 }
    }

    /// The joypad after a read: with the strobe off, the next button is selected.
    pub open spec fn spec_after_read(self) -> Joypad {
        if self.strobe_mode == StrobeMode::Off {
            Joypad {
                selected_button: match self.selected_button {
                    Some(button) => button.spec_next(),
                    None => None,
                },
                ..self
            }
        } else {
            self
        }
    }

    /// The joypad after `n` reads.
    pub open spec fn spec_after_reads(self, n: nat) -> Joypad
        decreases n,
    {
        if n == 0 {
            self
        } else {
            self.spec_after_reads((n - 1) as nat).spec_after_read()
        }
    }

    pub fn new() -> (joypad: Joypad)
        ensures
            joypad.strobe_mode == StrobeMode::On,
            joypad.selected_button == Some(Button::A),
            joypad.button_statuses.spec_all_unpressed(),
    {
        Joypad {
            strobe_mode: StrobeMode::On,
            selected_button: Some(Button::A),
            button_statuses: ButtonStatuses::all_unpressed(),
        }
    }

    // Peek 0x4016 and 0x4017
    pub fn peek_status(&self) -> (result: ReadResult)
        ensures result == self.spec_peek(),
    {
        let button_status = match self.selected_button {
            Some(button) => self.button_statuses.status(button),
            None => ButtonStatus::Pressed,
        };
        let value = match button_status {
            ButtonStatus::Unpressed => 0b0000_0000,
            ButtonStatus::Pressed => 0b0000_0001,
        };

        ReadResult::partial(value, 0b0000_0111)
    }

    // Read 0x4016 and 0x4017
    pub fn read_status(&mut self) -> (result: ReadResult)
        ensures
            result == old(self).spec_peek(),
            *final(self) == old(self).spec_after_read(),
    {
        let status = self.peek_status();
        if self.strobe_mode == StrobeMode::Off {
            // Advance to the next button for the next read.
            self.selected_button = match self.selected_button {
                Some(button) => button.next(),
                None => None,
            };
        }

        status
    }

    /// Bit 0 of the written value turns the strobe on or off.
    pub fn change_strobe(&mut self, value: u8)
        ensures
            *final(self) == if value & 1 == 1 {
                Joypad { strobe_mode: StrobeMode::On, selected_button: Some(Button::A), ..*old(self) }
            } else {
                Joypad { strobe_mode: StrobeMode::Off, ..*old(self) }
            },
    {
        if value & 1 == 1 {
            self.strobe_on();
        } else {
            self.strobe_off();
        }
    }

    pub fn strobe_on(&mut self)
        ensures
            *final(self) == (Joypad { strobe_mode: StrobeMode::On, selected_button: Some(Button::A), ..*old(self) }),
    {
        self.strobe_mode = StrobeMode::On;
        self.selected_button = Some(Button::A);
    }

    pub fn strobe_off(&mut self)
        ensures
            *final(self) == (Joypad { strobe_mode: StrobeMode::Off, ..*old(self) }),
    {
        self.strobe_mode = StrobeMode::Off;
    }

    pub fn set_button_status(&mut self, button: Button, status: ButtonStatus)
        ensures
            old(self).button_statuses.spec_with(button, status, final(self).button_statuses),
            final(self).strobe_mode == old(self).strobe_mode,
            final(self).selected_button == old(self).selected_button,
    {
        self.button_statuses.set_status(button, status);
    }
}

/// Once the strobe is turned off, reads report the buttons in the order A, B, Select, Start,
/// Up, Down, Left, Right, and then report pressed.
pub proof fn lemma_reads_report_buttons_in_order(joypad: Joypad, n: nat)
    requires
        joypad.strobe_mode == StrobeMode::Off,
        joypad.selected_button == Some(Button::A),
    ensures
        joypad.spec_after_reads(n).spec_peek().value == if n < 8 {
            status_bit(joypad.button_statuses.spec_status(button_at(n as int)))
        } else {
            1
        },
        joypad.spec_after_reads(n).button_statuses == joypad.button_statuses,
        joypad.spec_after_reads(n).strobe_mode == StrobeMode::Off,
    decreases n,
{
    lemma_selected_after_reads(joypad, n);
}

/// While the strobe is on, every read reports button A.
pub proof fn lemma_strobe_on_reports_a(joypad: Joypad, n: nat)
    requires
        joypad.strobe_mode == StrobeMode::On,
        joypad.selected_button == Some(Button::A),
    ensures
        joypad.spec_after_reads(n) == joypad,
        joypad.spec_after_reads(n).spec_peek().value == status_bit(joypad.button_statuses.spec_status(Button::A)),
    decreases n,
{
    if n > 0 {
        lemma_strobe_on_reports_a(joypad, (n - 1) as nat);
    }
}

proof fn lemma_selected_after_reads(joypad: Joypad, n: nat)
    requires
        joypad.strobe_mode == StrobeMode::Off,
        joypad.selected_button == Some(Button::A),
    ensures
        joypad.spec_after_reads(n).selected_button == if n < 8 { Some(button_at(n as int)) } else { None },
        joypad.spec_after_reads(n).button_statuses == joypad.button_statuses,
        joypad.spec_after_reads(n).strobe_mode == StrobeMode::Off,
    decreases n,
{
    if n > 0 {
        lemma_selected_after_reads(joypad, (n - 1) as nat);
    }
}

#[derive(PartialEq, Eq, Clone, Copy, Debug, Structural)]
pub enum StrobeMode {
    Off,
    On,
}

/// The buttons of a controller, in the order a read reports them.
#[derive(PartialEq, Eq, PartialOrd, Ord, Clone, Copy, Debug, Structural)]
pub enum Button {
    A,
    B,
    Select,
    Start,
    Up,
    Down,
    Left,
    Right,
}

/// Every button, in reporting order.
pub const ALL_BUTTONS: [Button; 8] =
    [Button::A, Button::B, Button::Select, Button::Start, Button::Up, Button::Down, Button::Left, Button::Right];

/// A button's position in reporting order.
pub open spec fn button_index(button: Button) -> int {
    match button {
        Button::A => 0,
        Button::B => 1,
        Button::Select => 2,
        Button::Start => 3,
        Button::Up => 4,
        Button::Down => 5,
        Button::Left => 6,
        Button::Right => 7,
    }
}

/// The button at a position in reporting order.
pub open spec fn button_at(index: int) -> Button {
    if index == 0 {
        Button::A
    } else if index == 1 {
        Button::B
    } else if index == 2 {
        Button::Select
    } else if index == 3 {
        Button::Start
    } else if index == 4 {
        Button::Up
    } else if index == 5 {
        Button::Down
    } else if index == 6 {
        Button::Left
    } else {
        Button::Right
    }
}

impl Button {
    /// The next button in reporting order; none after Right.
    pub open spec fn spec_next(self) -> Option<Button> {
        if self == Button::Right {
            None
        } else {
            Some(button_at(button_index(self) + 1))
        }
    }

    pub fn next(self) -> (next: Option<Button>)
        ensures next == self.spec_next(),
    {
        match self {
            Button::A => Some(Button::B),
            Button::B => Some(Button::Select),
            Button::Select => Some(Button::Start),
            Button::Start => Some(Button::Up),
            Button::Up => Some(Button::Down),
            Button::Down => Some(Button::Left),
            Button::Left => Some(Button::Right),
            Button::Right => None,
        }
    }

    /// The button's position in reporting order.
    pub fn index(self) -> (index: usize)
        ensures index == button_index(self),
    {
        match self {
            Button::A => 0,
            Button::B => 1,
            Button::Select => 2,
            Button::Start => 3,
            Button::Up => 4,
            Button::Down => 5,
            Button::Left => 6,
            Button::Right => 7,
        }
    }
}

/// Whether each button is pressed, in reporting order.
#[derive(Clone, Copy, Debug)]
pub struct ButtonStatuses(pub [ButtonStatus; 8]);

impl ButtonStatuses {
    /// Every button is unpressed.
    pub open spec fn spec_all_unpressed(self) -> bool {
        forall|i: int| 0 <= i < 8 ==> self.0@[i] == ButtonStatus::Unpressed
    }

    pub open spec fn spec_status(self, button: Button) -> ButtonStatus {
        self.0[button_index(button)]
    }

    /// `next` is these statuses with one button's status replaced.
    pub open spec fn spec_with(self, button: Button, status: ButtonStatus, next: ButtonStatuses) -> bool {
        next.0@ == self.0@.update(button_index(button), status)
    }

    pub fn all_unpressed() -> (statuses: ButtonStatuses)
        ensures statuses.spec_all_unpressed(),
    {
        let u = ButtonStatus::Unpressed;
        ButtonStatuses([u, u, u, u, u, u, u, u])
    }

    pub fn status(&self, button: Button) -> (status: ButtonStatus)
        ensures status == self.spec_status(button),
    {
        self.0[button.index()]
    }

    pub fn set_status(&mut self, button: Button, status: ButtonStatus)
        ensures old(self).spec_with(button, status, *final(self)),
    {
        self.0[button.index()] = status;
    }
}

#[derive(PartialEq, Eq, Clone, Copy, Debug, Structural)]
pub enum ButtonStatus {
    Unpressed,
    Pressed,
}

} // verus!
