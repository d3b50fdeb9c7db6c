use vstd::prelude::*;

verus! {

pub const FOUR_STEP_FRAME_LENGTH: u16 = 14915;
pub const FIVE_STEP_FRAME_LENGTH: u16 = 18641;

/// Counts CPU cycles within the APU's frame sequence.
pub struct ApuClock {
    total_cpu_cycles: u64,
    cpu_cycle: u16,
    parity: CycleParity,
    step_mode: StepMode,
    is_in_frame_irq_window: bool,
}

/// The state of an `ApuClock`.
pub struct ApuClockState {
    pub total_cpu_cycles: u64,
    pub cpu_cycle: u16,
    pub parity: CycleParity,
    pub step_mode: StepMode,
    pub is_in_frame_irq_window: bool,
}

impl View for ApuClock {
    type V = ApuClockState;

    closed spec fn view(&self) -> ApuClockState {
        ApuClockState {
            total_cpu_cycles: self.total_cpu_cycles,
            cpu_cycle: self.cpu_cycle,
            parity: self.parity,
            step_mode: self.step_mode,
            is_in_frame_irq_window: self.is_in_frame_irq_window,
        }
    }
}

impl ApuClockState {
    /// The cycle within the frame stays below two five-step frames.
    pub open spec fn inv(self) -> bool {
        self.cpu_cycle < 2 * FIVE_STEP_FRAME_LENGTH
    }

    /// The state after one CPU cycle.
    pub open spec fn spec_ticked(self) -> ApuClockState {
        let cycle = self.cpu_cycle + 1;
        let frame_length = self.step_mode.spec_frame_length();
        let entering_window = self.step_mode == StepMode::FourStep && cycle / 2 == frame_length - 1;
        ApuClockState {
            total_cpu_cycles: (self.total_cpu_cycles + 1) as u64,
            cpu_cycle: (cycle % (2 * frame_length)) as u16,
            parity: self.parity.spec_toggled(),
            is_in_frame_irq_window: if cycle == 1 { false } else if entering_window { true } else { self.is_in_frame_irq_window },
            step_mode: self.step_mode,
        }
    }

    /// The state after a reset: back to the start of the frame, out of the IRQ window.
    pub open spec fn spec_reset(self) -> ApuClockState {
        ApuClockState { cpu_cycle: 0, is_in_frame_irq_window: false, ..self }
    }

    /// The state after the step mode is set: five steps also leave the IRQ window.
    pub open spec fn spec_with_step_mode(self, step_mode: StepMode) -> ApuClockState {
        ApuClockState {
            step_mode,
            is_in_frame_irq_window: if step_mode == StepMode::FiveStep { false } else { self.is_in_frame_irq_window },
            ..self
        }
    }

    /// The state after one call of the clock's mutating methods.
    pub open spec fn spec_after_call(self, call: ClockCall) -> ApuClockState {
        match call {
            ClockCall::Tick => self.spec_ticked(),
            ClockCall::Reset => self.spec_reset(),
            ClockCall::SetStepMode(step_mode) => self.spec_with_step_mode(step_mode),
        }
    }

    /// The state after a sequence of calls, in order.
    pub open spec fn spec_after_calls(self, calls: Seq<ClockCall>) -> ApuClockState
        decreases calls.len(),
    {
        if calls.len() == 0 {
            self
        } else {
            self.spec_after_call(calls[0]).spec_after_calls(calls.drop_first())
        }
    }

    /// The state after `n` ticks.
    pub open spec fn spec_ticked_times(self, n: nat) -> ApuClockState
        decreases n,
    {
        if n == 0 {
            self
        } else {
            self.spec_ticked_times((n - 1) as nat).spec_ticked()
        }
    }
}

/// A call of one of the clock's mutating methods.
pub enum ClockCall {
    Tick,
    Reset,
    SetStepMode(StepMode),
}

/// The step mode of the last `SetStepMode` among the calls, or `step_mode` if there is none.
pub open spec fn last_step_mode(calls: Seq<ClockCall>, step_mode: StepMode) -> StepMode
    decreases calls.len(),
{
    if calls.len() == 0 {
        step_mode
    } else {
        let next = match calls[0] {
            ClockCall::SetStepMode(set) => set,
            _ => step_mode,
        };
        last_step_mode(calls.drop_first(), next)
    }
}

/// After any sequence of ticks, resets and step-mode changes, the step mode is the one last set,
/// or the one the clock had if none was set: ticks and resets never change it.
pub proof fn lemma_step_mode_is_last_set(state: ApuClockState, calls: Seq<ClockCall>)
    ensures
        state.spec_after_calls(calls).step_mode == last_step_mode(calls, state.step_mode),
    decreases calls.len(),
{
    if calls.len() > 0 {
        lemma_step_mode_is_last_set(state.spec_after_call(calls[0]), calls.drop_first());
    }
}

/// From a new clock, after `n` ticks with no reset or step-mode change in between, `n` CPU
/// cycles have passed in all, the cycle within the frame is `n` modulo two four-step frames,
/// and the parity is GET exactly when `n` is even.
pub proof fn lemma_ticks_from_new(n: nat)
    requires
        n <= u64::MAX,
    ensures
        ({
            let state = ApuClockState {
                total_cpu_cycles: 0,
                cpu_cycle: 0,
                parity: CycleParity::Get,
                step_mode: StepMode::FourStep,
                is_in_frame_irq_window: false,
            }.spec_ticked_times(n);
            &&& state.step_mode == StepMode::FourStep
            &&& state.total_cpu_cycles == n
            &&& state.cpu_cycle == (n as int) % (2 * (FOUR_STEP_FRAME_LENGTH as int))
            &&& (state.parity == CycleParity::Get) == (n % 2 == 0)
        }),
    decreases n,
{
    if n > 0 {
        lemma_ticks_from_new((n - 1) as nat);
        let m = 2 * FOUR_STEP_FRAME_LENGTH as int;
        vstd::arithmetic::div_mod::lemma_add_mod_noop((n - 1) as int, 1, m);
        vstd::arithmetic::div_mod::lemma_add_mod_noop((n - 1) as int, 1, 2);
    }
}

impl ApuClock {
    pub open spec fn wf(&self) -> bool {
        self@.inv()
    }

    pub fn new() -> (clock: Self)
        ensures
            clock.wf(),
            clock@ == (ApuClockState {
                total_cpu_cycles: 0,
                cpu_cycle: 0,
                parity: CycleParity::Get,
                step_mode: StepMode::FourStep,
                is_in_frame_irq_window: false,
            }),
    {
        Self {
            total_cpu_cycles: 0,
            cpu_cycle: 0,
            parity: CycleParity::Get,
            step_mode: StepMode::FourStep,
            is_in_frame_irq_window: false,
        }
    }

    pub fn reset(&mut self)
        ensures
            final(self).wf(),
            final(self)@ == old(self)@.spec_reset(),
    {
        self.cpu_cycle = 0;
        self.is_in_frame_irq_window = false;
    }

    /// Called every CPU cycle (not APU cycle); the total cycle count must not overflow.
    pub fn tick(&mut self)
        requires old(self).wf(), old(self)@.total_cpu_cycles < u64::MAX,
        ensures final(self).wf(), final(self)@ == old(self)@.spec_ticked(),
    {
        self.total_cpu_cycles += 1;
        self.cpu_cycle += 1;
        if self.step_mode == StepMode::FourStep && self.apu_cycle() == self.step_mode.frame_length() - 1 {
            self.is_in_frame_irq_window = true;
        }

        if self.cpu_cycle == 1 {
            self.is_in_frame_irq_window = false;
        }

        self.cpu_cycle %= 2 * self.step_mode.frame_length();
        self.parity.toggle();
    }

    pub fn step_mode(&self) -> (step_mode: StepMode)
        ensures step_mode == self@.step_mode,
    {
        self.step_mode
    }

    pub fn set_step_mode(&mut self, step_mode: StepMode)
        requires old(self).wf(),
        ensures
            final(self).wf(),
            final(self)@ == old(self)@.spec_with_step_mode(step_mode),
    {
        self.step_mode = step_mode;
        if self.step_mode == StepMode::FiveStep {
            self.is_in_frame_irq_window = false;
        }
    }

    pub fn cycle_parity(&self) -> (parity: CycleParity)
        ensures parity == self@.parity,
    {
        self.parity
    }

    pub fn cpu_cycle(&self) -> (cycle: u16)
        ensures cycle == self@.cpu_cycle,
    {
        self.cpu_cycle
    }

    pub fn apu_cycle(&self) -> (cycle: u16)
        ensures cycle == self@.cpu_cycle / 2,
    {
        self.cpu_cycle() / 2
    }

    pub fn raw_apu_cycle(&self) -> (cycle: u64)
        ensures cycle == self@.total_cpu_cycles / 2,
    {
        self.total_cpu_cycles / 2
    }

    pub fn is_in_frame_irq_window(&self) -> (in_window: bool)
        ensures in_window == self@.is_in_frame_irq_window,
    {
        self.is_in_frame_irq_window
    }
}

/// The APU frame sequence: four or five steps.
#[derive(PartialEq, Eq, Clone, Copy, Debug, Structural)]
pub enum StepMode {
    FourStep,
    FiveStep,
}

impl StepMode {
    pub open spec fn spec_frame_length(self) -> u16 {
        match self {
            StepMode::FourStep => FOUR_STEP_FRAME_LENGTH,
            StepMode::FiveStep => FIVE_STEP_FRAME_LENGTH,
        }
    }

    /// The number of APU cycles in a frame of this mode.
    pub fn frame_length(self) -> (length: u16)
        ensures length == self.spec_frame_length(),
    {
        match self {
            StepMode::FourStep => FOUR_STEP_FRAME_LENGTH,
            StepMode::FiveStep => FIVE_STEP_FRAME_LENGTH,
        }
    }
}

/// Whether an APU cycle is a GET or a PUT cycle; they alternate.
#[derive(PartialEq, Eq, Clone, Copy, Debug, Structural)]
pub enum CycleParity {
    Get,
    Put,
}

impl CycleParity {
    /// The name of the half of the cycle: "GET" or "PUT".
    pub fn to_string(&self) -> (text: String)
        ensures
            text@ == (match *self {
                CycleParity::Get => "GET"@,
                CycleParity::Put => "PUT"@,
            }),
    {
        match *self {
            CycleParity::Get => String::from_str("GET"),
            CycleParity::Put => String::from_str("PUT"),
        }
    }

    pub open spec fn spec_toggled(self) -> CycleParity {
        match self {
            CycleParity::Get => CycleParity::Put,
            CycleParity::Put => CycleParity::Get,
        }
    }

    pub fn toggle(&mut self)
        ensures *final(self) == old(self).spec_toggled(),
    {
        match *self {
            CycleParity::Get => *self = CycleParity::Put,
            CycleParity::Put => *self = CycleParity::Get,
        }
    }
}

/// Toggling the parity twice gives it back.
pub proof fn lemma_toggle_twice(parity: CycleParity)
    ensures parity.spec_toggled().spec_toggled() == parity,
{
}

} // verus!
