use vstd::prelude::*;

use crate::apu::apu_registers::CycleParity;

verus! {

/// The DMA unit that fetches DMC sample bytes, halting the CPU while it does.
pub struct DmcDma {
    puts_until_disabled: Option<u8>,
    state: DmcDmaState,
    latest_action: DmcDmaAction,

    sample_length: u16,
    sample_bytes_remaining: u16,
}

/// The state of a `DmcDma`.
pub struct DmcDmaView {
    pub puts_until_disabled: Option<u8>,
    pub state: DmcDmaState,
    pub latest_action: DmcDmaAction,
    pub sample_length: u16,
    pub sample_bytes_remaining: u16,
}

impl View for DmcDma {
    type V = DmcDmaView;

    closed spec fn view(&self) -> DmcDmaView {
        DmcDmaView {
            puts_until_disabled: self.puts_until_disabled,
            state: self.state,
            latest_action: self.latest_action,
            sample_length: self.sample_length,
            sample_bytes_remaining: self.sample_bytes_remaining,
        }
    }
}

/// The next action and state of the DMC DMA state machine.
pub open spec fn spec_transition(state: DmcDmaState, is_cpu_read_step: bool, parity: CycleParity) -> (DmcDmaAction, DmcDmaState) {
    match state {
        DmcDmaState::Idle => (DmcDmaAction::DoNothing, DmcDmaState::Idle),
        DmcDmaState::WaitingForGet => (DmcDmaAction::DoNothing, DmcDmaState::FirstSkip),
        DmcDmaState::FirstSkip => (DmcDmaAction::DoNothing, DmcDmaState::SecondSkip),
        DmcDmaState::SecondSkip => (DmcDmaAction::DoNothing, DmcDmaState::TryHalt),
        DmcDmaState::TryHalt => if !is_cpu_read_step {
            (DmcDmaAction::DoNothing, DmcDmaState::TryHalt)
        } else {
            (DmcDmaAction::Halt, DmcDmaState::Dummy)
        },
        DmcDmaState::Dummy => (DmcDmaAction::Dummy, DmcDmaState::TryRead),
        DmcDmaState::TryRead => if parity == CycleParity::Get {
            (DmcDmaAction::Align, DmcDmaState::TryRead)
        } else {
            (DmcDmaAction::Read, DmcDmaState::Idle)
        },
    }
}

impl DmcDmaView {
    /// The state after one step of the CPU.
    pub open spec fn spec_step(self, is_cpu_read_step: bool, parity: CycleParity) -> DmcDmaView {
        let (action, state) = spec_transition(self.state, is_cpu_read_step, parity);
        let stepped = DmcDmaView { latest_action: action, state: state, ..self };
        match self.puts_until_disabled {
            Some(n) => if n == 0 {
                DmcDmaView { puts_until_disabled: None, sample_bytes_remaining: 0, state: DmcDmaState::Idle, ..stepped }
            } else if parity == CycleParity::Put {
                DmcDmaView { puts_until_disabled: Some((n - 1) as u8), ..stepped }
            } else {
                stepped
            },
            None => stepped,
        }
    }

    /// The state after a reload starts.
    pub open spec fn spec_start_reload(self) -> DmcDmaView {
        let started = DmcDmaView { state: DmcDmaState::TryHalt, latest_action: DmcDmaAction::DoNothing, ..self };
        match self.puts_until_disabled {
            Some(n) => if n == 0 {
                DmcDmaView { puts_until_disabled: None, sample_bytes_remaining: 0, state: DmcDmaState::Idle, ..started }
            } else if n == 1 {
                DmcDmaView { puts_until_disabled: Some(0), ..started }
            } else {
                started
            },
            None => started,
        }
    }
}

impl DmcDma {
    pub fn idle() -> (dma: Self)
        ensures
            dma@ == (DmcDmaView {
                puts_until_disabled: None,
                state: DmcDmaState::Idle,
                latest_action: DmcDmaAction::DoNothing,
                sample_length: 1,
                sample_bytes_remaining: 0,
            }),
    {
        Self {
            puts_until_disabled: None,
            state: DmcDmaState::Idle,
            latest_action: DmcDmaAction::DoNothing,

            sample_length: 1,
            sample_bytes_remaining: 0,
        }
    }

    pub fn sample_bytes_remain(&self) -> (remain: bool)
        ensures remain == (self@.sample_bytes_remaining > 0),
    {
        self.sample_bytes_remaining > 0
    }

    pub fn reload_sample_bytes_remaining(&mut self)
        ensures final(self)@ == (DmcDmaView { sample_bytes_remaining: old(self)@.sample_length, ..old(self)@ }),
    {
        self.sample_bytes_remaining = self.sample_length;
    }

    /// Schedules disabling the DMA two PUT cycles from now, unless it is already scheduled.
    pub fn disable(&mut self)
        ensures
            final(self)@ == if old(self)@.puts_until_disabled is None {
                DmcDmaView { puts_until_disabled: Some(2), ..old(self)@ }
            } else {
                old(self)@
            },
    {
        if self.puts_until_disabled.is_none() {
            self.puts_until_disabled = Some(2);
        }
    }

    pub fn decrement_sample_bytes_remaining(&mut self)
        ensures
            final(self)@ == (DmcDmaView {
                sample_bytes_remaining: if old(self)@.sample_bytes_remaining > 0 {
                    (old(self)@.sample_bytes_remaining - 1) as u16
                } else {
                    0
                },
                ..old(self)@
            }),
    {
        self.sample_bytes_remaining = self.sample_bytes_remaining.saturating_sub(1);
    }

    pub fn active(&self) -> (active: bool)
        ensures active == (self@.state != DmcDmaState::Idle),
    {
        self.state != DmcDmaState::Idle
    }

    pub fn state(&self) -> (state: DmcDmaState)
        ensures state == self@.state,
    {
        self.state
    }

    pub fn latest_action(&self) -> (action: DmcDmaAction)
        ensures action == self@.latest_action,
    {
        self.latest_action
    }

    pub fn cpu_should_be_halted(&self) -> (halted: bool)
        ensures halted == (self@.latest_action != DmcDmaAction::DoNothing),
    {
        self.latest_action.cpu_should_be_halted()
    }

    /// Write 0x4013: the sample length is 16 times the value, plus one.
    pub fn write_sample_length(&mut self, length: u8)
        ensures final(self)@ == (DmcDmaView { sample_length: (length * 16 + 1) as u16, ..old(self)@ }),
    {
        assert(((length as u16) << 4u16) | 1 == (length * 16 + 1) as u16) by (bit_vector);
        self.sample_length = ((length as u16) << 4) | 1;
    }

    /// Starts a load DMA, triggered by a write to 0x4015; the DMA must be idle. From a GET
    /// cycle the wait for a GET cycle is skipped.
    ///
    /// Idle -> WaitingForGet -> FirstSkip -> SecondSkip -> TryHalt -> Dummy -> TryRead -> Idle
    pub fn start_load(&mut self, parity: CycleParity)
        requires old(self)@.state == DmcDmaState::Idle,
        ensures
            final(self)@ == (DmcDmaView {
                latest_action: DmcDmaAction::DoNothing,
                state: if parity == CycleParity::Get { DmcDmaState::FirstSkip } else { DmcDmaState::WaitingForGet },
                ..old(self)@
            }),
    {
        self.latest_action = DmcDmaAction::DoNothing;
        self.state = match parity {
            // If we're already on a GET, then skip WaitingForGet.
            CycleParity::Get => DmcDmaState::FirstSkip,
            CycleParity::Put => DmcDmaState::WaitingForGet,
        };
    }

    /// Starts a reload DMA, when the current sample runs out; the DMA must be idle.
    ///
    /// Idle -> TryHalt -> Dummy -> TryRead -> Idle
    pub fn start_reload(&mut self)
        requires old(self)@.state == DmcDmaState::Idle,
        ensures final(self)@ == old(self)@.spec_start_reload(),
    {
        self.state = DmcDmaState::TryHalt;
        self.latest_action = DmcDmaAction::DoNothing;
        match self.puts_until_disabled {
            Some(0) => {
                // Disabled instead of reloading (explicit abort).
                self.puts_until_disabled = None;
                self.sample_bytes_remaining = 0;
                self.state = DmcDmaState::Idle;
            }
            Some(1) => self.puts_until_disabled = Some(0),
            _ => { /* Do nothing. */ }
        }
    }

    pub fn step(&mut self, is_cpu_read_step: bool, parity: CycleParity)
        ensures final(self)@ == old(self)@.spec_step(is_cpu_read_step, parity),
    {
        let (action, state) = match self.state {
            DmcDmaState::Idle => (DmcDmaAction::DoNothing, DmcDmaState::Idle),
            DmcDmaState::WaitingForGet => (DmcDmaAction::DoNothing, DmcDmaState::FirstSkip),
            DmcDmaState::FirstSkip => (DmcDmaAction::DoNothing, DmcDmaState::SecondSkip),
            DmcDmaState::SecondSkip => (DmcDmaAction::DoNothing, DmcDmaState::TryHalt),
            DmcDmaState::TryHalt if !is_cpu_read_step => (DmcDmaAction::DoNothing, DmcDmaState::TryHalt),
            DmcDmaState::TryHalt => (DmcDmaAction::Halt, DmcDmaState::Dummy),
            DmcDmaState::Dummy => (DmcDmaAction::Dummy, DmcDmaState::TryRead),
            DmcDmaState::TryRead if parity == CycleParity::Get => (DmcDmaAction::Align, DmcDmaState::TryRead),
            DmcDmaState::TryRead => (DmcDmaAction::Read, DmcDmaState::Idle),
        };
        self.latest_action = action;
        self.state = state;

        if let Some(n) = self.puts_until_disabled {
            if n == 0 {
                self.puts_until_disabled = None;
                self.sample_bytes_remaining = 0;
                self.state = DmcDmaState::Idle;
            } else if parity == CycleParity::Put {
                self.puts_until_disabled = Some(n - 1);
            }
        }
    }
}

#[derive(PartialEq, Eq, Clone, Copy, Debug, Structural)]
pub enum DmcDmaState {
    Idle,
    WaitingForGet,
    FirstSkip,
    SecondSkip,
    TryHalt,
    Dummy,
    TryRead,
}

#[derive(PartialEq, Eq, Clone, Copy, Debug, Structural)]
pub enum DmcDmaAction {
    DoNothing,
    Halt,
    Dummy,
    Align,
    Read,
}

impl DmcDmaAction {
    /// Every action but doing nothing keeps the CPU halted.
    pub fn cpu_should_be_halted(self) -> (halted: bool)
        ensures halted == (self != DmcDmaAction::DoNothing),
    {
        self != DmcDmaAction::DoNothing
    }
}

} // verus!
