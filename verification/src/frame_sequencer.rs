//! The frame sequencer: a cycle-counted state machine that fires the
//! quarter-frame and half-frame clocks and raises the frame interrupt.
use vstd::prelude::*;

verus! {

/// Cycle counts at which the sequencer acts.
pub const QUARTER_1: u16 = 3729;
pub const HALF_1: u16 = 7457;
pub const QUARTER_3: u16 = 11186;
pub const FOUR_STEP_END: u16 = 14915;
pub const FIVE_STEP_END: u16 = 18641;

/// Clocks between two retunings of the sample cadence.
pub const CONTROLLER_PERIOD: u16 = 300;

#[derive(Clone, Copy, Debug, PartialEq, Eq, Structural)]
pub enum SequencerMode {
    FourStep,
    FiveStep,
}

/// The delayed reset that a four-step selection arms: `Pending(n)` counts down
/// once per clock and fires on the clock that finds it at zero.
#[derive(Clone, Copy, Debug, PartialEq, Eq, Structural)]
pub enum ResetDelay {
    Idle,
    Pending(u8),
}

/// Which of the two frame clocks fired.
#[derive(Clone, Copy, Debug, PartialEq, Eq, Structural)]
pub struct FrameEvents {
    pub quarter_frame: bool,
    pub half_frame: bool,
}

/// What one clock of the sequencer asks of its owner, in the order in which
/// it is due: the frame clocks of a delayed reset, the cadence controller's
/// tick, and the frame clocks of the cycle count that was reached.
#[derive(Clone, Copy, Debug, PartialEq, Eq, Structural)]
pub struct ClockOutcome {
    pub on_reset: FrameEvents,
    pub controller_tick: bool,
    pub on_step: FrameEvents,
}

#[derive(Clone, Copy, Debug, PartialEq, Eq, Structural)]
pub struct FrameSequencer {
    pub cycle: u16,
    pub mode: SequencerMode,
    pub interrupt_inhibit: bool,
    pub frame_interrupt_flag: bool,
    pub irq_change_requested: bool,
    pub reset_delay: ResetDelay,
}

impl FrameEvents {
    pub open spec fn none() -> Self {
        FrameEvents { quarter_frame: false, half_frame: false }
    }

    pub open spec fn both() -> Self {
        FrameEvents { quarter_frame: true, half_frame: true }
    }
}

impl FrameSequencer {
    /// The count at which the current mode starts over.
    pub open spec fn terminal(self) -> u16 {
        match self.mode {
            SequencerMode::FourStep => FOUR_STEP_END,
            SequencerMode::FiveStep => FIVE_STEP_END,
        }
    }

    /// The state after the delayed-reset part of a clock.
    pub open spec fn after_delay(self) -> Self {
        match self.reset_delay {
            ResetDelay::Idle => self,
            ResetDelay::Pending(n) => if n > 0 {
                FrameSequencer { reset_delay: ResetDelay::Pending((n - 1) as u8), ..self }
            } else {
                FrameSequencer { cycle: 0, reset_delay: ResetDelay::Idle, ..self }
            },
        }
    }

    /// The frame clocks of a delayed reset: both, when it fires in five-step
    /// mode, as the mode stands at that clock.
    pub open spec fn reset_events(self) -> FrameEvents {
        if self.reset_delay == ResetDelay::Pending(0) && self.mode == SequencerMode::FiveStep {
            FrameEvents::both()
        } else {
            FrameEvents::none()
        }
    }

    /// The cycle count after one increment.
    pub open spec fn next_cycle(self) -> u16 {
        if self.cycle == u16::MAX {
            0
        } else {
            (self.cycle + 1) as u16
        }
    }

    /// The frame clocks that the count reached by the next increment fires.
    pub open spec fn step_events(self) -> FrameEvents {
        let c = self.next_cycle();
        if c == QUARTER_1 || c == QUARTER_3 {
            FrameEvents { quarter_frame: true, half_frame: false }
        } else if c == HALF_1 || c == self.terminal() {
            FrameEvents::both()
        } else {
            FrameEvents::none()
        }
    }

    /// The state after the counting part of a clock.
    pub open spec fn advanced(self) -> Self {
        let c = self.next_cycle();
        if c == self.terminal() {
            let raise = self.mode == SequencerMode::FourStep && !self.interrupt_inhibit;
            FrameSequencer {
                cycle: 0,
                frame_interrupt_flag: self.frame_interrupt_flag || raise,
                irq_change_requested: self.irq_change_requested || raise,
                ..self
            }
        } else {
            FrameSequencer { cycle: c, ..self }
        }
    }

    /// The state after one clock.
    pub open spec fn clocked(self) -> Self {
        self.after_delay().advanced()
    }

    /// What one clock reports.
    pub open spec fn outcome(self) -> ClockOutcome {
        ClockOutcome {
            on_reset: self.reset_events(),
            controller_tick: self.after_delay().cycle % CONTROLLER_PERIOD == 0,
            on_step: self.after_delay().step_events(),
        }
    }

    /// The state after `n` clocks.
    pub open spec fn clocked_n(self, n: nat) -> Self
        decreases n,
    {
        if n == 0 {
            self
        } else {
            self.clocked_n((n - 1) as nat).clocked()
        }
    }

    /// The state after a write of `data` to the frame-counter register.
    pub open spec fn after_write(self, data: u8) -> Self {
        let five_step = data & 0x80 != 0;
        let inhibit = data & 0x40 != 0;
        FrameSequencer {
            cycle: self.cycle,
            mode: if five_step { SequencerMode::FiveStep } else { SequencerMode::FourStep },
            interrupt_inhibit: inhibit,
            frame_interrupt_flag: self.frame_interrupt_flag && !inhibit,
            irq_change_requested: self.irq_change_requested || inhibit,
            reset_delay: if five_step { self.reset_delay } else { ResetDelay::Pending(2) },
        }
    }

    /// The state after a read of the status register.
    pub open spec fn after_status_read(self) -> Self {
        FrameSequencer { frame_interrupt_flag: false, irq_change_requested: true, ..self }
    }

    /// The power-on state: five-step mode, with a reset due at the first
    /// clock.
    pub open spec fn power_on() -> Self {
        FrameSequencer {
            cycle: 0,
            mode: SequencerMode::FiveStep,
            interrupt_inhibit: false,
            frame_interrupt_flag: false,
            irq_change_requested: false,
            reset_delay: ResetDelay::Pending(0),
        }
    }

    pub fn new() -> (seq: Self)
        ensures
            seq == Self::power_on(),
    {
        FrameSequencer {
            cycle: 0,
            mode: SequencerMode::FiveStep,
            interrupt_inhibit: false,
            frame_interrupt_flag: false,
            irq_change_requested: false,
            reset_delay: ResetDelay::Pending(0),
        }
    }

    /// Decodes a frame-counter write. Bit 7 selects five-step mode and clocks
    /// both frame events at once; without it four-step mode is selected and a
    /// reset armed two clocks ahead. Bit 6 inhibits the frame interrupt and
    /// takes a raised one back.
    pub fn write_frame_counter(&mut self, data: u8) -> (events: FrameEvents)
        ensures
            *final(self) == old(self).after_write(data),
            events == if data & 0x80 != 0 {
                FrameEvents::both()
            } else {
                FrameEvents::none()
            },
    {
        let five_step: bool = data & 0x80 != 0;
        self.mode = if five_step { SequencerMode::FiveStep } else { SequencerMode::FourStep };
        self.interrupt_inhibit = data & 0x40 != 0;
        if self.interrupt_inhibit {
            self.frame_interrupt_flag = false;
            self.irq_change_requested = true;
        }
        if five_step {
            FrameEvents { quarter_frame: true, half_frame: true }
        } else {
            self.reset_delay = ResetDelay::Pending(2);
            FrameEvents { quarter_frame: false, half_frame: false }
        }
    }

    /// Hands out the frame interrupt flag as a status read sees it, clears it
    /// and raises the change request, whatever the flag was.
    pub fn take_interrupt_flag(&mut self) -> (flag: bool)
        ensures
            flag == old(self).frame_interrupt_flag,
            *final(self) == old(self).after_status_read(),
    {
        let flag: bool = self.frame_interrupt_flag;
        self.frame_interrupt_flag = false;
        self.irq_change_requested = true;
        flag
    }

    /// Clears the change request once the interrupt line has been serviced.
    pub fn clear_request(&mut self)
        ensures
            *final(self) == (FrameSequencer { irq_change_requested: false, ..*old(self) }),
    {
        self.irq_change_requested = false;
    }

    /// The first part of a clock: counts a pending reset down, or performs
    /// it where it is due, and reports the frame clocks that it fires.
    pub fn clock_delay(&mut self) -> (on_reset: FrameEvents)
        ensures
            *final(self) == old(self).after_delay(),
            on_reset == old(self).reset_events(),
    {
        let mut on_reset: FrameEvents = FrameEvents { quarter_frame: false, half_frame: false };
        match self.reset_delay {
            ResetDelay::Idle => {},
            ResetDelay::Pending(n) => {
                if n > 0 {
                    self.reset_delay = ResetDelay::Pending(n - 1);
                } else {
                    self.cycle = 0;
                    self.reset_delay = ResetDelay::Idle;
                    if self.mode == SequencerMode::FiveStep {
                        on_reset = FrameEvents { quarter_frame: true, half_frame: true };
                    }
                }
            },
        }
        on_reset
    }

    /// Whether the cadence controller's tick is due at the current count.
    pub fn controller_tick_due(&self) -> (due: bool)
        ensures
            due == (self.cycle % CONTROLLER_PERIOD == 0),
    {
        self.cycle % CONTROLLER_PERIOD == 0
    }

    /// One clock: the delayed reset first, then the increment and what the
    /// count that it reaches fires.
    pub fn clock(&mut self) -> (out: ClockOutcome)
        ensures
            *final(self) == old(self).clocked(),
            out == old(self).outcome(),
    {
        let on_reset: FrameEvents = self.clock_delay();
        let controller_tick: bool = self.controller_tick_due();
        let on_step: FrameEvents = self.clock_count();
        ClockOutcome { on_reset, controller_tick, on_step }
    }

    /// The second part of a clock: the increment, the frame clocks of the
    /// count that it reaches, and at the terminal count the frame interrupt
    /// and the start from zero.
    pub fn clock_count(&mut self) -> (on_step: FrameEvents)
        ensures
            *final(self) == old(self).advanced(),
            on_step == old(self).step_events(),
    {
        let terminal: u16 = match self.mode {
            SequencerMode::FourStep => FOUR_STEP_END,
            SequencerMode::FiveStep => FIVE_STEP_END,
        };
        self.cycle = if self.cycle == u16::MAX { 0 } else { self.cycle + 1 };
        let mut on_step: FrameEvents = FrameEvents { quarter_frame: false, half_frame: false };
        if self.cycle == QUARTER_1 || self.cycle == QUARTER_3 {
            on_step = FrameEvents { quarter_frame: true, half_frame: false };
        } else if self.cycle == HALF_1 {
            on_step = FrameEvents { quarter_frame: true, half_frame: true };
        } else if self.cycle == terminal {
            on_step = FrameEvents { quarter_frame: true, half_frame: true };
            if self.mode == SequencerMode::FourStep && !self.interrupt_inhibit {
                self.frame_interrupt_flag = true;
                self.irq_change_requested = true;
            }
            self.cycle = 0;
        }
        on_step
    }
}

/// With no reset pending, clocks that stay short of the mode's terminal
/// count only count: after `k` of them the cycle is `k` further and nothing
/// else has changed.
pub proof fn lemma_counts_up_to_terminal(s: FrameSequencer, k: nat)
    requires
        s.reset_delay == ResetDelay::Idle,
        s.cycle + k < s.terminal(),
    ensures
        s.clocked_n(k) == (FrameSequencer { cycle: (s.cycle + k) as u16, ..s }),
    decreases k,
{
    if k > 0 {
        lemma_counts_up_to_terminal(s, (k - 1) as nat);
    }
}

/// With no reset pending, clocks keep the count below the mode's terminal
/// count, so within 0 to 18641, and leave the mode, the inhibit and the
/// idle delay as they are.
pub proof fn lemma_count_stays_below_terminal(s: FrameSequencer, n: nat)
    requires
        s.reset_delay == ResetDelay::Idle,
        s.cycle < s.terminal(),
    ensures
        s.clocked_n(n).cycle < s.terminal(),
        s.clocked_n(n).cycle < FIVE_STEP_END,
        s.clocked_n(n).reset_delay == ResetDelay::Idle,
        s.clocked_n(n).mode == s.mode,
        s.clocked_n(n).interrupt_inhibit == s.interrupt_inhibit,
    decreases n,
{
    if n > 0 {
        lemma_count_stays_below_terminal(s, (n - 1) as nat);
    }
}

/// The cadence controller's tick comes every 300 counts: with no reset
/// pending and short of the terminal count, the clock after `k` others asks
/// for it exactly when the count that it finds is a multiple of 300.
pub proof fn lemma_controller_tick_every_300(s: FrameSequencer, k: nat)
    requires
        s.reset_delay == ResetDelay::Idle,
        s.cycle + k < s.terminal(),
    ensures
        s.clocked_n(k).outcome().controller_tick == ((s.cycle + k) % 300 == 0),
{
    lemma_counts_up_to_terminal(s, k);
}

/// Right after a tick, at a count of one with no reset pending, the next
/// 300 clocks hold exactly one tick of the cadence controller: the last of
/// them.
pub proof fn lemma_one_tick_in_300_clocks(s: FrameSequencer)
    requires
        s.reset_delay == ResetDelay::Idle,
        s.cycle == 1,
    ensures
        forall|k: nat|
            k < 300 ==> (#[trigger] s.clocked_n(k)).outcome().controller_tick == (k == 299),
{
    assert forall|k: nat| k < 300 implies (#[trigger] s.clocked_n(k)).outcome().controller_tick
        == (k == 299) by {
        lemma_controller_tick_every_300(s, k);
    }
}

/// Four-step mode without inhibit, with no reset pending: the frame
/// interrupt flag is as it was until the count reaches 14915, and is set,
/// with the change request, by the clock that reaches it, which also starts
/// the count over. From a count of zero that is the clock number 14915.
pub proof fn lemma_four_step_raises_interrupt(s: FrameSequencer)
    requires
        s.reset_delay == ResetDelay::Idle,
        s.mode == SequencerMode::FourStep,
        !s.interrupt_inhibit,
        s.cycle < 14915,
    ensures
        forall|k: nat|
            k < 14915 - s.cycle ==> #[trigger] s.clocked_n(k).frame_interrupt_flag
                == s.frame_interrupt_flag,
        s.clocked_n((14915 - s.cycle) as nat).frame_interrupt_flag,
        s.clocked_n((14915 - s.cycle) as nat).irq_change_requested,
        s.clocked_n((14915 - s.cycle) as nat).cycle == 0,
        s.cycle == 0 ==> s.clocked_n(14915).frame_interrupt_flag,
{
    assert forall|k: nat| k < 14915 - s.cycle implies #[trigger] s.clocked_n(
        k,
    ).frame_interrupt_flag == s.frame_interrupt_flag by {
        lemma_counts_up_to_terminal(s, k);
    }
    let last = (14914 - s.cycle) as nat;
    lemma_counts_up_to_terminal(s, last);
    assert(s.clocked_n(last + 1) == s.clocked_n(last).clocked());
}

/// With the interrupt inhibited, no number of clocks raises the frame
/// interrupt flag, in either mode and from any count.
pub proof fn lemma_inhibit_never_raises(s: FrameSequencer, n: nat)
    requires
        s.interrupt_inhibit,
        !s.frame_interrupt_flag,
    ensures
        !s.clocked_n(n).frame_interrupt_flag,
        s.clocked_n(n).interrupt_inhibit,
        s.clocked_n(n).mode == s.mode,
    decreases n,
{
    if n > 0 {
        lemma_inhibit_never_raises(s, (n - 1) as nat);
    }
}

/// Five-step mode never raises the frame interrupt flag, from any count and
/// whatever reset is pending.
pub proof fn lemma_five_step_never_raises(s: FrameSequencer, n: nat)
    requires
        s.mode == SequencerMode::FiveStep,
        !s.frame_interrupt_flag,
    ensures
        !s.clocked_n(n).frame_interrupt_flag,
        s.clocked_n(n).mode == SequencerMode::FiveStep,
    decreases n,
{
    if n > 0 {
        lemma_five_step_never_raises(s, (n - 1) as nat);
    }
}

/// Five-step mode starts over at 18641 and not at 14915: with no reset
/// pending the count goes up by one with every clock until the clock that
/// reaches 18641, which leaves it at zero. From a count of zero it is 14915
/// after 14915 clocks and zero again after 18641.
pub proof fn lemma_five_step_period(s: FrameSequencer)
    requires
        s.reset_delay == ResetDelay::Idle,
        s.mode == SequencerMode::FiveStep,
        s.cycle < 18641,
    ensures
        forall|k: nat| k < 18641 - s.cycle ==> #[trigger] s.clocked_n(k).cycle == s.cycle + k,
        s.clocked_n((18641 - s.cycle) as nat).cycle == 0,
        s.cycle == 0 ==> s.clocked_n(14915).cycle == 14915,
        s.cycle == 0 ==> s.clocked_n(18641) == s,
{
    assert forall|k: nat| k < 18641 - s.cycle implies #[trigger] s.clocked_n(k).cycle == s.cycle
        + k by {
        lemma_counts_up_to_terminal(s, k);
    }
    let last = (18640 - s.cycle) as nat;
    lemma_counts_up_to_terminal(s, last);
    assert(s.clocked_n(last + 1) == s.clocked_n(last).clocked());
    if s.cycle == 0 {
        lemma_counts_up_to_terminal(s, 14915);
    }
}

/// The delayed reset: a four-step selection arms `Pending(2)`, and the third
/// clock after it finds the delay at zero, starts the count over and leaves
/// it at one, with the delay idle again.
pub proof fn lemma_delayed_reset_fires_on_third_clock(s: FrameSequencer, data: u8)
    requires
        data & 0x80 == 0,
    ensures
        s.after_write(data).clocked_n(2).reset_delay == ResetDelay::Pending(0),
        s.after_write(data).clocked_n(3).reset_delay == ResetDelay::Idle,
        s.after_write(data).clocked_n(3).cycle == 1,
{
    let w = s.after_write(data);
    assert(w.clocked_n(1) == w.clocked_n(0).clocked());
    assert(w.clocked_n(2) == w.clocked_n(1).clocked());
    assert(w.clocked_n(3) == w.clocked_n(2).clocked());
}

} // verus!
