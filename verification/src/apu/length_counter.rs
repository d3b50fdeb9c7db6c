use vstd::prelude::*;

use crate::util::text::{decimal, push_decimal, push_text, string_from_chars};

verus! {

/// The lengths that a 5-bit index selects.
pub const TABLE: [u8; 0x20] = [
     10, 254,  20,   2,  40,   4,  80,   6, 160,   8,  60,  10,  14,  12,  26,  14,
     12,  16,  24,  18,  48,  20,  96,  22, 192,  24,  72,  26,  16,  28,  32,  30,
];

/// Counts down the remaining length of a note; reloads and halts take effect one cycle late.
#[derive(PartialEq, Eq, Clone, Copy, Debug, Structural)]
pub struct LengthCounter {
    pub count: u8,
    pub pending_count: Option<u8>,
    pub count_decremented: bool,

    pub halt: bool,
    pub pending_halt_value: Option<bool>,
}

impl Default for LengthCounter {
    fn default() -> (counter: Self)
        ensures
            counter == (LengthCounter {
                count: 0,
                pending_count: None,
                count_decremented: false,
                halt: false,
                pending_halt_value: None,
            }),
    {
        LengthCounter { count: 0, pending_count: None, count_decremented: false, halt: false, pending_halt_value: None }
    }
}

impl LengthCounter {
    /// The counter after pending values are applied: a pending reload is ignored if the count
    /// was decremented in the meantime.
    pub open spec fn spec_applied(self) -> LengthCounter {
        LengthCounter {
            count: match self.pending_count {
                Some(pending) => if !self.count_decremented { pending } else { self.count },
                None => self.count,
            },
            pending_count: None,
            halt: match self.pending_halt_value {
                Some(halt) => halt,
                None => self.halt,
            },
            pending_halt_value: None,
            ..self
        }
    }

    // Write $4000 (pulse 1), $4004 (pulse 2), 0x4008 (triangle) or 0x400C (noise).
    pub fn start_halt(&mut self, halt: bool)
        ensures *final(self) == (LengthCounter { pending_halt_value: Some(halt), ..*old(self) }),
    {
        self.pending_halt_value = Some(halt);
    }

    // Write $4003 (pulse 1), $4007 (pulse 2), 0x400B (triangle) or 0x400F (noise).
    /// Schedules a reload from the length table; the index must be below 32.
    pub fn start_reload(&mut self, index: u8)
        requires index < 0x20,
        ensures
            *final(self) == (LengthCounter {
                pending_count: Some(TABLE[index as int]),
                count_decremented: false,
                ..*old(self)
            }),
    {
        self.pending_count = Some(TABLE[index as usize]);
        self.count_decremented = false;
    }

    /// Halts or resumes counting at once.
    pub fn set_halt(&mut self, halt: bool)
        ensures *final(self) == (LengthCounter { halt, ..*old(self) }),
    {
        self.halt = halt;
    }

    /// Sets the count at once from the length table; the index must be below 32.
    pub fn set_count_from_lookup(&mut self, index: u8)
        requires index < 0x20,
        ensures *final(self) == (LengthCounter { count: TABLE[index as int], ..*old(self) }),
    {
        self.count = TABLE[index as usize];
    }

    /// The counter after a length clock: it counts down unless halted or at zero.
    pub open spec fn spec_decremented(self) -> LengthCounter {
        if !self.halt && self.count > 0 {
            LengthCounter { count: (self.count - 1) as u8, count_decremented: true, ..self }
        } else {
            self
        }
    }

    pub fn decrement_towards_zero(&mut self)
        ensures
            *final(self) == old(self).spec_decremented(),
    {
        if !self.halt && self.count > 0 {
            self.count -= 1;
            self.count_decremented = true;
        }
    }

    // There's a one CPU cycle delay between the CPU writes for reloading and halting the
    // LengthCounter and the effects actually taking place. This means the LengthCounter may be
    // decremented in the interim.
    pub fn apply_pending_values(&mut self)
        ensures *final(self) == old(self).spec_applied(),
    {
        if let Some(pending_count) = self.pending_count {
            self.pending_count = None;
            // A reload during a length clock when the count is positive is ignored.
            if !self.count_decremented {
                self.count = pending_count;
            }
        }

        if let Some(pending_halt_value) = self.pending_halt_value {
            self.pending_halt_value = None;
            self.halt = pending_halt_value;
        }
    }

    pub fn is_zero(self) -> (zero: bool)
        ensures zero == (self.count == 0),
    {
        self.count == 0
    }

    pub fn set_to_zero(&mut self)
        ensures *final(self) == (LengthCounter { count: 0, ..*old(self) }),
    {
        self.count = 0;
    }

    /// Whether the counter is halted, and whether that is about to change.
    pub open spec fn spec_status(self) -> Status {
        if !self.halt && self.pending_halt_value != Some(true) {
            Status::Normal
        } else if self.halt && self.pending_halt_value != Some(false) {
            Status::Halted
        } else if !self.halt {
            Status::HaltPending
        } else {
            Status::UnhaltPending
        }
    }

    /// Whether the counter is halted, and whether that is about to change.
    pub fn status(self) -> (status: Status)
        ensures
            status == self.spec_status(),
    {
        match (self.halt, self.pending_halt_value) {
            (false, None) | (false, Some(false)) => Status::Normal,
            (true, None) | (true, Some(true)) => Status::Halted,
            (false, Some(true)) => Status::HaltPending,
            (true, Some(false)) => Status::UnhaltPending,
        }
    }

    /// The count in brackets, followed by the status unless the counter runs normally.
    pub fn to_string(self) -> (text: String)
        ensures
            text@ == "("@ + decimal(self.count as nat) + (if self.spec_status() == Status::Normal {
                ")"@
            } else {
                ", "@ + status_name(self.spec_status()) + ")"@
            }),
    {
        let status = self.status();
        let mut chars: Vec<char> = Vec::new();
        push_text(&mut chars, "(");
        push_decimal(&mut chars, self.count as u64);
        match status {
            Status::Normal => {},
            Status::Halted => push_text(&mut chars, ", Halted"),
            Status::HaltPending => push_text(&mut chars, ", HaltPending"),
            Status::UnhaltPending => push_text(&mut chars, ", UnhaltPending"),
        }
        push_text(&mut chars, ")");
        proof {
            reveal_strlit(", Halted");
            reveal_strlit(", HaltPending");
            reveal_strlit(", UnhaltPending");
            reveal_strlit(", ");
            reveal_strlit("Halted");
            reveal_strlit("HaltPending");
            reveal_strlit("UnhaltPending");
        }
        assert(chars@ =~= "("@ + decimal(self.count as nat) + (if self.spec_status() == Status::Normal {
            ")"@
        } else {
            ", "@ + status_name(self.spec_status()) + ")"@
        }));
        string_from_chars(&chars)
    }
}

/// The name of a status, as `Debug` writes it.
pub open spec fn status_name(status: Status) -> Seq<char> {
    match status {
        Status::Normal => "Normal"@,
        Status::Halted => "Halted"@,
        Status::HaltPending => "HaltPending"@,
        Status::UnhaltPending => "UnhaltPending"@,
    }
}

#[derive(PartialEq, Eq, Clone, Copy, Debug, Structural)]
pub enum Status {
    Normal,
    Halted,
    HaltPending,
    UnhaltPending,
}


/// A halted length counter keeps its count, and a running one never goes below zero.
pub proof fn lemma_decrement_respects_halt(counter: LengthCounter)
    ensures
        counter.halt ==> counter.spec_decremented().count == counter.count,
        !counter.halt && counter.count > 0 ==> counter.spec_decremented().count == counter.count - 1,
        counter.count == 0 ==> counter.spec_decremented().count == 0,
{
}

} // verus!
