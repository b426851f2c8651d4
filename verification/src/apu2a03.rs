//! The orchestrator: it decodes register accesses into the channels'
//! registers, runs the frame sequencer, clocks the length counters, and
//! answers for the interrupt line that it shares with the sample channel.
use vstd::prelude::*;
use crate::channels::{LengthCountedChannel, NoiseWave, SquarePulse, TriangleWave};
use crate::dmc::Dmc;
use crate::frame_sequencer::{ClockOutcome, FrameEvents, FrameSequencer};
use crate::registers::Register;

verus! {

/// One bit of a flag.
pub open spec fn bit(flag: bool) -> u8 {
    if flag {
        1
    } else {
        0
    }
}

/// The status byte, from its most significant bit down: the sample
/// channel's interrupt, the frame interrupt, a bit that is never set, the
/// sample channel active, then noise, triangle, pulse 2 and pulse 1 with a
/// length counter that has not run out.
pub open spec fn status_byte(
    dmc_interrupt: bool,
    frame_interrupt: bool,
    dmc_active: bool,
    noise: bool,
    triangle: bool,
    pulse_2: bool,
    pulse_1: bool,
) -> u8 {
    bit(dmc_interrupt) << 7 | bit(frame_interrupt) << 6 | bit(dmc_active) << 4 | bit(noise) << 3
        | bit(triangle) << 2 | bit(pulse_2) << 1 | bit(pulse_1)
}

fn flag_bit(flag: bool) -> (b: u8)
    ensures
        b == bit(flag),
{
    if flag {
        1
    } else {
        0
    }
}

pub struct APU2A03 {
    pub square_pulse_1: LengthCountedChannel<SquarePulse>,
    pub square_pulse_2: LengthCountedChannel<SquarePulse>,
    pub triangle: LengthCountedChannel<TriangleWave>,
    pub noise: LengthCountedChannel<NoiseWave>,
    pub dmc: Dmc,
    pub sequencer: FrameSequencer,
}

impl APU2A03 {
    /// Every register field is within its bit width.
    pub open spec fn wf(self) -> bool {
        &&& self.square_pulse_1.channel.wf()
        &&& self.square_pulse_2.channel.wf()
        &&& self.triangle.channel.wf()
        &&& self.noise.channel.wf()
        &&& self.dmc.wf()
    }

    /// What a read of the status register returns.
    pub open spec fn status(self) -> u8 {
        status_byte(
            self.dmc.interrupt_flag,
            self.sequencer.frame_interrupt_flag,
            self.dmc.sample_remaining_bytes > 0,
            self.noise.length_counter.counter != 0,
            self.triangle.length_counter.counter != 0,
            self.square_pulse_2.length_counter.counter != 0,
            self.square_pulse_1.length_counter.counter != 0,
        )
    }

    /// The state after a read of the status register.
    pub open spec fn after_status_read(self) -> Self {
        APU2A03 { sequencer: self.sequencer.after_status_read(), ..self }
    }

    /// The state after a half-frame clock: each of the four length counters
    /// decremented.
    pub open spec fn half_clocked(self) -> Self {
        APU2A03 {
            square_pulse_1: LengthCountedChannel {
                length_counter: self.square_pulse_1.length_counter.decremented(),
                ..self.square_pulse_1
            },
            square_pulse_2: LengthCountedChannel {
                length_counter: self.square_pulse_2.length_counter.decremented(),
                ..self.square_pulse_2
            },
            triangle: LengthCountedChannel {
                length_counter: self.triangle.length_counter.decremented(),
                ..self.triangle
            },
            noise: LengthCountedChannel {
                length_counter: self.noise.length_counter.decremented(),
                ..self.noise
            },
            ..self
        }
    }

    /// The state after the frame clocks `events`.
    pub open spec fn with_events(self, events: FrameEvents) -> Self {
        if events.half_frame {
            self.half_clocked()
        } else {
            self
        }
    }

    /// The state after a write of `data` to the status register: bits 0 to 3
    /// enable the length counters of pulse 1, pulse 2, triangle and noise,
    /// bit 4 the sample channel.
    pub open spec fn after_status_write(self, data: u8) -> Self {
        APU2A03 {
            square_pulse_1: LengthCountedChannel {
                length_counter: self.square_pulse_1.length_counter.with_enabled(data & 1 != 0),
                ..self.square_pulse_1
            },
            square_pulse_2: LengthCountedChannel {
                length_counter: self.square_pulse_2.length_counter.with_enabled(
                    (data >> 1) & 1 != 0,
                ),
                ..self.square_pulse_2
            },
            triangle: LengthCountedChannel {
                length_counter: self.triangle.length_counter.with_enabled((data >> 2) & 1 != 0),
                ..self.triangle
            },
            noise: LengthCountedChannel {
                length_counter: self.noise.length_counter.with_enabled((data >> 3) & 1 != 0),
                ..self.noise
            },
            dmc: self.dmc.after_enable((data >> 4) & 1 != 0),
            ..self
        }
    }

    /// The state after a write of `data` to the frame-counter register: the
    /// sequencer decodes it, and the frame clocks of a five-step selection
    /// are applied at once.
    pub open spec fn after_frame_counter_write(self, data: u8) -> Self {
        let written = APU2A03 { sequencer: self.sequencer.after_write(data), ..self };
        if data & 0x80 != 0 {
            written.half_clocked()
        } else {
            written
        }
    }

    /// The state after a write of `data` to `register`.
    pub open spec fn after_write(self, register: Register, data: u8) -> Self {
        match register {
            Register::Pulse1_1 => APU2A03 {
                square_pulse_1: self.square_pulse_1.after_control(data),
                ..self
            },
            Register::Pulse1_2 => APU2A03 {
                square_pulse_1: self.square_pulse_1.after_sweep(data),
                ..self
            },
            Register::Pulse1_3 => APU2A03 {
                square_pulse_1: self.square_pulse_1.after_timer_low(data),
                ..self
            },
            Register::Pulse1_4 => APU2A03 {
                square_pulse_1: self.square_pulse_1.after_length_load(data),
                ..self
            },
            Register::Pulse2_1 => APU2A03 {
                square_pulse_2: self.square_pulse_2.after_control(data),
                ..self
            },
            Register::Pulse2_2 => APU2A03 {
                square_pulse_2: self.square_pulse_2.after_sweep(data),
                ..self
            },
            Register::Pulse2_3 => APU2A03 {
                square_pulse_2: self.square_pulse_2.after_timer_low(data),
                ..self
            },
            Register::Pulse2_4 => APU2A03 {
                square_pulse_2: self.square_pulse_2.after_length_load(data),
                ..self
            },
            Register::Triangle1 => APU2A03 {
                triangle: self.triangle.after_linear_counter(data),
                ..self
            },
            Register::Triangle2 => self,
            Register::Triangle3 => APU2A03 { triangle: self.triangle.after_timer_low(data), ..self },
            Register::Triangle4 => APU2A03 {
                triangle: self.triangle.after_length_load(data),
                ..self
            },
            Register::Noise1 => APU2A03 { noise: self.noise.after_control(data), ..self },
            Register::Noise2 => self,
            Register::Noise3 => APU2A03 { noise: self.noise.after_mode_period(data), ..self },
            Register::Noise4 => APU2A03 { noise: self.noise.after_length_load(data), ..self },
            Register::DMC1 => APU2A03 { dmc: self.dmc.after_rate(data), ..self },
            Register::DMC2 => APU2A03 {
                dmc: Dmc { direct_output_level: data & 0x7F, ..self.dmc },
                ..self
            },
            Register::DMC3 => APU2A03 {
                dmc: Dmc { sample_address: Dmc::address_of(data), ..self.dmc },
                ..self
            },
            Register::DMC4 => APU2A03 {
                dmc: Dmc { sample_length: Dmc::length_of(data), ..self.dmc },
                ..self
            },
            Register::Status => self.after_status_write(data),
            Register::FrameCounter => self.after_frame_counter_write(data),
        }
    }

    /// The frame clocks that a write fires at once: both, where it selects
    /// five-step mode.
    pub open spec fn write_events(register: Register, data: u8) -> FrameEvents {
        if register == Register::FrameCounter && data & 0x80 != 0 {
            FrameEvents::both()
        } else {
            FrameEvents::none()
        }
    }

    /// The state after the delayed-reset part of a clock.
    pub open spec fn delay_clocked(self) -> Self {
        (APU2A03 { sequencer: self.sequencer.after_delay(), ..self }).with_events(
            self.sequencer.reset_events(),
        )
    }

    /// The state after the counting part of a clock.
    pub open spec fn count_clocked(self) -> Self {
        (APU2A03 { sequencer: self.sequencer.advanced(), ..self }).with_events(
            self.sequencer.step_events(),
        )
    }

    /// The state after one clock: the sequencer steps, and each half-frame
    /// clock that it fires decrements the length counters.
    pub open spec fn clocked(self) -> Self {
        self.delay_clocked().count_clocked()
    }

    /// The state after `n` clocks.
    pub open spec fn clocked_n(self, n: nat) -> Self
        decreases n,
    {
        if n == 0 {
            self
        } else {
            self.clocked_n((n - 1) as nat).clocked()
        }
    }

    /// The power-on state: every channel and the sequencer in theirs.
    pub open spec fn power_on() -> Self {
        APU2A03 {
            square_pulse_1: LengthCountedChannel::power_on(SquarePulse::power_on(true)),
            square_pulse_2: LengthCountedChannel::power_on(SquarePulse::power_on(false)),
            triangle: LengthCountedChannel::power_on(TriangleWave::power_on()),
            noise: LengthCountedChannel::power_on(NoiseWave::power_on()),
            dmc: Dmc::power_on(),
            sequencer: FrameSequencer::power_on(),
        }
    }

    pub fn new() -> (apu: Self)
        ensures
            apu == Self::power_on(),
            apu.wf(),
            apu.status() == 0,
    {
        let apu = APU2A03 {
            square_pulse_1: LengthCountedChannel::new(SquarePulse::new(true)),
            square_pulse_2: LengthCountedChannel::new(SquarePulse::new(false)),
            triangle: LengthCountedChannel::new(TriangleWave::new()),
            noise: LengthCountedChannel::new(NoiseWave::new()),
            dmc: Dmc::new(),
            sequencer: FrameSequencer::new(),
        };
        proof {
            assert(0u8 << 7 | 0u8 << 6 | 0u8 << 4 | 0u8 << 3 | 0u8 << 2 | 0u8 << 1 | 0u8 == 0u8)
                by (bit_vector);
        }
        apu
    }

    /// Reads `register`. Only the status register can be read: the read
    /// returns the status byte, clears the frame interrupt flag and raises
    /// the change request. Every other register reads as zero and the read
    /// changes nothing.
    pub fn read_register(&mut self, register: Register) -> (value: u8)
        ensures
            register == Register::Status ==> value == old(self).status() && *final(self) == old(
                self,
            ).after_status_read(),
            register != Register::Status ==> value == 0 && *final(self) == *old(self),
    {
        match register {
            Register::Status => {
                let pulse_1: u8 = flag_bit(self.square_pulse_1.length_counter.counter() != 0);
                let pulse_2: u8 = flag_bit(self.square_pulse_2.length_counter.counter() != 0);
                let triangle: u8 = flag_bit(self.triangle.length_counter.counter() != 0);
                let noise: u8 = flag_bit(self.noise.length_counter.counter() != 0);
                let dmc_active: u8 = flag_bit(self.dmc.sample_remaining_bytes_more_than_0());
                let dmc_interrupt: u8 = flag_bit(self.dmc.get_irq_pin_state());
                let frame_interrupt: u8 = flag_bit(self.sequencer.take_interrupt_flag());
                dmc_interrupt << 7 | frame_interrupt << 6 | dmc_active << 4 | noise << 3 | triangle
                    << 2 | pulse_2 << 1 | pulse_1
            },
            _ => 0,
        }
    }

    /// Writes `data` to `register` and reports the frame clocks that the
    /// write fired, for the units that the generators keep.
    #[verifier::rlimit(50)]
    pub fn write_register(&mut self, register: Register, data: u8) -> (events: FrameEvents)
        ensures
            *final(self) == old(self).after_write(register, data),
            events == Self::write_events(register, data),
            old(self).wf() ==> final(self).wf(),
    {
        let mut events: FrameEvents = FrameEvents { quarter_frame: false, half_frame: false };
        match register {
            Register::Pulse1_1 => self.square_pulse_1.write_control(data),
            Register::Pulse1_2 => self.square_pulse_1.write_sweep(data),
            Register::Pulse1_3 => self.square_pulse_1.write_timer_low(data),
            Register::Pulse1_4 => self.square_pulse_1.write_length_load(data),
            Register::Pulse2_1 => self.square_pulse_2.write_control(data),
            Register::Pulse2_2 => self.square_pulse_2.write_sweep(data),
            Register::Pulse2_3 => self.square_pulse_2.write_timer_low(data),
            Register::Pulse2_4 => self.square_pulse_2.write_length_load(data),
            Register::Triangle1 => self.triangle.write_linear_counter(data),
            Register::Triangle2 => {},
            Register::Triangle3 => self.triangle.write_timer_low(data),
            Register::Triangle4 => self.triangle.write_length_load(data),
            Register::Noise1 => self.noise.write_control(data),
            Register::Noise2 => {},
            Register::Noise3 => self.noise.write_mode_period(data),
            Register::Noise4 => self.noise.write_length_load(data),
            Register::DMC1 => self.dmc.write_rate(data),
            Register::DMC2 => self.dmc.write_direct_level(data),
            Register::DMC3 => self.dmc.set_samples_address(data),
            Register::DMC4 => self.dmc.set_samples_length(data),
            Register::Status => self.write_status(data),
            Register::FrameCounter => {
                events = self.write_frame_counter(data);
            },
        }
        proof {
            if old(self).wf() {
                lemma_write_keeps_fields_in_range(*old(self), register, data);
            }
        }
        events
    }

    /// Decodes a status write: the enables of the four length counters and
    /// of the sample channel.
    pub fn write_status(&mut self, data: u8)
        ensures
            *final(self) == old(self).after_status_write(data),
    {
        self.square_pulse_1.length_counter.set_enabled(data & 1 != 0);
        self.square_pulse_2.length_counter.set_enabled((data >> 1) & 1 != 0);
        self.triangle.length_counter.set_enabled((data >> 2) & 1 != 0);
        self.noise.length_counter.set_enabled((data >> 3) & 1 != 0);
        self.dmc.write_enable((data >> 4) & 1 != 0);
    }

    /// Decodes a frame-counter write and applies the half-frame clock that a
    /// five-step selection fires.
    pub fn write_frame_counter(&mut self, data: u8) -> (events: FrameEvents)
        ensures
            *final(self) == old(self).after_frame_counter_write(data),
            events == Self::write_events(Register::FrameCounter, data),
    {
        let events: FrameEvents = self.sequencer.write_frame_counter(data);
        if events.half_frame {
            self.generate_half_frame_clock();
        }
        events
    }

    /// The half-frame clock: decrements the four length counters. The
    /// pulses' sweep units are the generators' to clock.
    pub fn generate_half_frame_clock(&mut self)
        ensures
            *final(self) == old(self).half_clocked(),
    {
        self.square_pulse_1.length_counter.decrement();
        self.square_pulse_2.length_counter.decrement();
        self.triangle.length_counter.decrement();
        self.noise.length_counter.decrement();
    }

    /// The first part of a clock, for an owner that samples the channels
    /// between the two: the delayed reset, with its half-frame clock applied.
    pub fn clock_delay(&mut self) -> (on_reset: FrameEvents)
        ensures
            *final(self) == old(self).delay_clocked(),
            on_reset == old(self).sequencer.reset_events(),
            old(self).wf() ==> final(self).wf(),
    {
        let on_reset: FrameEvents = self.sequencer.clock_delay();
        if on_reset.half_frame {
            self.generate_half_frame_clock();
        }
        on_reset
    }

    /// The second part of a clock: the count, with its half-frame clock
    /// applied.
    pub fn clock_count(&mut self) -> (on_step: FrameEvents)
        ensures
            *final(self) == old(self).count_clocked(),
            on_step == old(self).sequencer.step_events(),
            old(self).wf() ==> final(self).wf(),
    {
        let on_step: FrameEvents = self.sequencer.clock_count();
        if on_step.half_frame {
            self.generate_half_frame_clock();
        }
        on_step
    }

    /// One clock. The outcome tells the owner which frame clocks to pass on
    /// to the generators and whether the cadence controller's tick is due.
    pub fn clock(&mut self) -> (out: ClockOutcome)
        ensures
            *final(self) == old(self).clocked(),
            out == old(self).sequencer.outcome(),
            final(self).sequencer == old(self).sequencer.clocked(),
            old(self).wf() ==> final(self).wf(),
    {
        let on_reset: FrameEvents = self.clock_delay();
        let controller_tick: bool = self.sequencer.controller_tick_due();
        let on_step: FrameEvents = self.clock_count();
        ClockOutcome { on_reset, controller_tick, on_step }
    }

    /// Whether either source of the interrupt line asks for a new look at
    /// it.
    pub fn is_irq_change_requested(&self) -> (requested: bool)
        ensures
            requested == (self.sequencer.irq_change_requested || self.dmc.irq_change_requested),
    {
        let dmc_irq_request: bool = self.dmc.is_irq_change_requested();
        self.sequencer.irq_change_requested || dmc_irq_request
    }

    /// The level of the interrupt line: raised while either flag is.
    pub fn irq_pin_state(&self) -> (state: bool)
        ensures
            state == (self.sequencer.frame_interrupt_flag || self.dmc.interrupt_flag),
    {
        let dmc_irq: bool = self.dmc.get_irq_pin_state();
        self.sequencer.frame_interrupt_flag || dmc_irq
    }

    /// Clears both change requests; the flags themselves stay.
    pub fn clear_irq_request_pin(&mut self)
        ensures
            *final(self) == (APU2A03 {
                sequencer: FrameSequencer { irq_change_requested: false, ..old(self).sequencer },
                dmc: Dmc { irq_change_requested: false, ..old(self).dmc },
                ..*old(self)
            }),
    {
        self.sequencer.clear_request();
        self.dmc.clear_irq_request_pin();
    }

    pub fn request_dmc_reader_read(&self) -> (address: Option<u16>)
        ensures
            address == if self.dmc.sample_buffer.is_none() && self.dmc.sample_remaining_bytes
                > 0 {
                Some(self.dmc.current_address)
            } else {
                None
            },
    {
        self.dmc.request_dmc_reader_read()
    }

    pub fn submit_buffer_byte(&mut self, byte: u8)
        ensures
            *final(self) == (APU2A03 { dmc: old(self).dmc.after_submit(byte), ..*old(self) }),
    {
        self.dmc.submit_buffer_byte(byte);
    }
}

/// No write takes a register field out of its bit width.
pub proof fn lemma_write_keeps_fields_in_range(apu: APU2A03, register: Register, data: u8)
    requires
        apu.wf(),
    ensures
        apu.after_write(register, data).wf(),
{
    assert(data & 0xF <= 15) by (bit_vector);
    assert(data >> 6 <= 3) by (bit_vector);
    assert(data & 0x7F <= 127) by (bit_vector);
}

/// The status byte holds each flag in its own bit: bit `i` is set exactly
/// when the flag that stands there is raised, and bit 5 never.
pub proof fn lemma_status_bits(
    dmc_interrupt: bool,
    frame_interrupt: bool,
    dmc_active: bool,
    noise: bool,
    triangle: bool,
    pulse_2: bool,
    pulse_1: bool,
)
    ensures
        ({
            let s = status_byte(
                dmc_interrupt,
                frame_interrupt,
                dmc_active,
                noise,
                triangle,
                pulse_2,
                pulse_1,
            );
            &&& (s & 0x80 != 0) == dmc_interrupt
            &&& (s & 0x40 != 0) == frame_interrupt
            &&& s & 0x20 == 0
            &&& (s & 0x10 != 0) == dmc_active
            &&& (s & 0x08 != 0) == noise
            &&& (s & 0x04 != 0) == triangle
            &&& (s & 0x02 != 0) == pulse_2
            &&& (s & 0x01 != 0) == pulse_1
        }),
{
    let d = bit(dmc_interrupt);
    let f = bit(frame_interrupt);
    let a = bit(dmc_active);
    let n = bit(noise);
    let t = bit(triangle);
    let sq_2 = bit(pulse_2);
    let sq_1 = bit(pulse_1);
    assert({
        let s = d << 7 | f << 6 | a << 4 | n << 3 | t << 2 | sq_2 << 1 | sq_1;
        &&& (s & 0x80 != 0) == (d == 1)
        &&& (s & 0x40 != 0) == (f == 1)
        &&& s & 0x20 == 0
        &&& (s & 0x10 != 0) == (a == 1)
        &&& (s & 0x08 != 0) == (n == 1)
        &&& (s & 0x04 != 0) == (t == 1)
        &&& (s & 0x02 != 0) == (sq_2 == 1)
        &&& (s & 0x01 != 0) == (sq_1 == 1)
    }) by (bit_vector)
        requires
            d <= 1,
            f <= 1,
            a <= 1,
            n <= 1,
            t <= 1,
            sq_2 <= 1,
            sq_1 <= 1,
    ;
}

/// A status read shows the four length counters bit for bit and takes the
/// frame interrupt with it: a second read right after the first finds the
/// frame interrupt bit clear and every other bit as the first read had it.
pub proof fn lemma_status_read_clears_frame_interrupt(apu: APU2A03)
    ensures
        (apu.status() & 0x01 != 0) == (apu.square_pulse_1.length_counter.counter != 0),
        (apu.status() & 0x02 != 0) == (apu.square_pulse_2.length_counter.counter != 0),
        (apu.status() & 0x04 != 0) == (apu.triangle.length_counter.counter != 0),
        (apu.status() & 0x08 != 0) == (apu.noise.length_counter.counter != 0),
        (apu.status() & 0x40 != 0) == apu.sequencer.frame_interrupt_flag,
        apu.after_status_read().status() & 0x40 == 0,
        apu.after_status_read().status() & 0xBF == apu.status() & 0xBF,
        !apu.after_status_read().sequencer.frame_interrupt_flag,
        apu.after_status_read().sequencer.irq_change_requested,
{
    let after = apu.after_status_read();
    lemma_status_bits(
        apu.dmc.interrupt_flag,
        apu.sequencer.frame_interrupt_flag,
        apu.dmc.sample_remaining_bytes > 0,
        apu.noise.length_counter.counter != 0,
        apu.triangle.length_counter.counter != 0,
        apu.square_pulse_2.length_counter.counter != 0,
        apu.square_pulse_1.length_counter.counter != 0,
    );
    lemma_status_bits(
        after.dmc.interrupt_flag,
        after.sequencer.frame_interrupt_flag,
        after.dmc.sample_remaining_bytes > 0,
        after.noise.length_counter.counter != 0,
        after.triangle.length_counter.counter != 0,
        after.square_pulse_2.length_counter.counter != 0,
        after.square_pulse_1.length_counter.counter != 0,
    );
    let d = bit(apu.dmc.interrupt_flag);
    let f = bit(apu.sequencer.frame_interrupt_flag);
    let a = bit(apu.dmc.sample_remaining_bytes > 0);
    let n = bit(apu.noise.length_counter.counter != 0);
    let t = bit(apu.triangle.length_counter.counter != 0);
    let sq_2 = bit(apu.square_pulse_2.length_counter.counter != 0);
    let sq_1 = bit(apu.square_pulse_1.length_counter.counter != 0);
    assert((d << 7 | 0u8 << 6 | a << 4 | n << 3 | t << 2 | sq_2 << 1 | sq_1) & 0xBF == (d << 7 | f
        << 6 | a << 4 | n << 3 | t << 2 | sq_2 << 1 | sq_1) & 0xBF) by (bit_vector)
        requires
            f <= 1,
    ;
}

/// The orchestrator's sequencer runs as the sequencer alone does: after `n`
/// clocks it is where `n` clocks take it, whatever the channels hold.
pub proof fn lemma_clocks_step_sequencer(apu: APU2A03, n: nat)
    ensures
        apu.clocked_n(n).sequencer == apu.sequencer.clocked_n(n),
    decreases n,
{
    if n > 0 {
        lemma_clocks_step_sequencer(apu, (n - 1) as nat);
    }
}

} // verus!
