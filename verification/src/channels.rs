//! The register state of the five channels: what the bus writes set and the
//! waveform generators read. Pulse, triangle and noise each stand beside a
//! length counter.
use vstd::prelude::*;
use crate::envelope::Envelope;
use crate::length_counter::{length_table, LengthCounter};

verus! {

/// `period` with its low eight bits replaced by `data`.
pub open spec fn with_timer_low(period: u16, data: u8) -> u16 {
    (period & 0xFF00) | data as u16
}

/// `period` with bits 8 to 10 replaced by the low three bits of `data`; the
/// bits above them are dropped.
pub open spec fn with_timer_high(period: u16, data: u8) -> u16 {
    (period & 0xFF) | ((data as u16 & 0b111) << 8)
}

pub fn timer_low(period: u16, data: u8) -> (p: u16)
    ensures
        p == with_timer_low(period, data),
        p & 0xFF == data,
        p & 0xFF00 == period & 0xFF00,
{
    let p: u16 = (period & 0xFF00) | data as u16;
    assert(((period & 0xFF00) | data as u16) & 0xFF == data) by (bit_vector);
    assert(((period & 0xFF00) | data as u16) & 0xFF00 == period & 0xFF00) by (bit_vector);
    p
}

pub fn timer_high(period: u16, data: u8) -> (p: u16)
    ensures
        p == with_timer_high(period, data),
        p & 0xFF == period & 0xFF,
        p >> 8 == data & 0b111,
{
    let p: u16 = (period & 0xFF) | ((data as u16 & 0b111) << 8);
    assert(((period & 0xFF) | ((data as u16 & 0b111) << 8)) & 0xFF == period & 0xFF)
        by (bit_vector);
    assert(((period & 0xFF) | ((data as u16 & 0b111) << 8)) >> 8 == data & 0b111)
        by (bit_vector);
    p
}

/// A pulse channel's registers.
#[derive(Clone, Copy, Debug, PartialEq, Eq, Structural)]
pub struct SquarePulse {
    /// Whether this is the first pulse channel, whose sweep negates
    /// differently.
    pub is_square_1: bool,
    pub duty_cycle_index: u8,
    pub period: u16,
    pub sweeper_data: u8,
    pub envelope: Envelope,
    /// Raised by `reset`; the generator starts its duty sequence over and
    /// lowers it.
    pub phase_reset: bool,
}

impl SquarePulse {
    pub open spec fn wf(self) -> bool {
        self.duty_cycle_index <= 3 && self.envelope.wf()
    }

    pub open spec fn power_on(is_square_1: bool) -> Self {
        SquarePulse {
            is_square_1,
            duty_cycle_index: 0,
            period: 0,
            sweeper_data: 0,
            envelope: Envelope::power_on(),
            phase_reset: false,
        }
    }

    pub fn new(is_square_1: bool) -> (ch: Self)
        ensures
            ch == Self::power_on(is_square_1),
            ch.wf(),
    {
        SquarePulse {
            is_square_1,
            duty_cycle_index: 0,
            period: 0,
            sweeper_data: 0,
            envelope: Envelope::new(),
            phase_reset: false,
        }
    }

    pub fn set_duty_cycle_index(&mut self, index: u8)
        requires
            index <= 3,
        ensures
            *final(self) == (SquarePulse { duty_cycle_index: index, ..*old(self) }),
    {
        self.duty_cycle_index = index;
    }

    pub fn set_sweeper_data(&mut self, data: u8)
        ensures
            *final(self) == (SquarePulse { sweeper_data: data, ..*old(self) }),
    {
        self.sweeper_data = data;
    }

    pub fn get_period(&self) -> (p: u16)
        ensures
            p == self.period,
    {
        self.period
    }

    pub fn set_period(&mut self, period: u16)
        ensures
            *final(self) == (SquarePulse { period, ..*old(self) }),
    {
        self.period = period;
    }

    /// Asks the generator to start its duty sequence over.
    pub fn reset(&mut self)
        ensures
            *final(self) == (SquarePulse { phase_reset: true, ..*old(self) }),
    {
        self.phase_reset = true;
    }
}

/// The triangle channel's registers.
#[derive(Clone, Copy, Debug, PartialEq, Eq, Structural)]
pub struct TriangleWave {
    pub period: u16,
    pub linear_counter_reload_value: u8,
    pub linear_counter_control_flag: bool,
    pub linear_counter_reload_flag: bool,
}

impl TriangleWave {
    /// The reload value is a 7-bit count.
    pub open spec fn wf(self) -> bool {
        self.linear_counter_reload_value <= 127
    }

    pub open spec fn power_on() -> Self {
        TriangleWave {
            period: 0,
            linear_counter_reload_value: 0,
            linear_counter_control_flag: false,
            linear_counter_reload_flag: false,
        }
    }

    pub fn new() -> (ch: Self)
        ensures
            ch == Self::power_on(),
            ch.wf(),
    {
        TriangleWave {
            period: 0,
            linear_counter_reload_value: 0,
            linear_counter_control_flag: false,
            linear_counter_reload_flag: false,
        }
    }

    pub fn get_period(&self) -> (p: u16)
        ensures
            p == self.period,
    {
        self.period
    }

    pub fn set_period(&mut self, period: u16)
        ensures
            *final(self) == (TriangleWave { period, ..*old(self) }),
    {
        self.period = period;
    }

    pub fn set_linear_counter_reload_value(&mut self, value: u8)
        requires
            value <= 127,
        ensures
            *final(self) == (TriangleWave { linear_counter_reload_value: value, ..*old(self) }),
    {
        self.linear_counter_reload_value = value;
    }

    pub fn set_linear_counter_control_flag(&mut self, flag: bool)
        ensures
            *final(self) == (TriangleWave { linear_counter_control_flag: flag, ..*old(self) }),
    {
        self.linear_counter_control_flag = flag;
    }

    pub fn set_linear_counter_reload_flag(&mut self, flag: bool)
        ensures
            *final(self) == (TriangleWave { linear_counter_reload_flag: flag, ..*old(self) }),
    {
        self.linear_counter_reload_flag = flag;
    }
}

/// The noise channel's registers.
#[derive(Clone, Copy, Debug, PartialEq, Eq, Structural)]
pub struct NoiseWave {
    pub mode_flag: bool,
    pub period: u8,
    pub envelope: Envelope,
}

impl NoiseWave {
    /// The period is a 4-bit index.
    pub open spec fn wf(self) -> bool {
        self.period <= 15 && self.envelope.wf()
    }

    pub open spec fn power_on() -> Self {
        NoiseWave { mode_flag: false, period: 0, envelope: Envelope::power_on() }
    }

    pub fn new() -> (ch: Self)
        ensures
            ch == Self::power_on(),
            ch.wf(),
    {
        NoiseWave { mode_flag: false, period: 0, envelope: Envelope::new() }
    }

    pub fn set_mode_flag(&mut self, flag: bool)
        ensures
            *final(self) == (NoiseWave { mode_flag: flag, ..*old(self) }),
    {
        self.mode_flag = flag;
    }

    pub fn set_period(&mut self, index: u8)
        requires
            index <= 15,
        ensures
            *final(self) == (NoiseWave { period: index, ..*old(self) }),
    {
        self.period = index;
    }
}

/// A channel beside its length counter.
#[derive(Debug)]
pub struct LengthCountedChannel<C> {
    pub channel: C,
    pub length_counter: LengthCounter,
}

impl<C> LengthCountedChannel<C> {
    /// `channel` beside a length counter in its power-on state.
    pub open spec fn power_on(channel: C) -> Self {
        LengthCountedChannel { channel, length_counter: LengthCounter::power_on() }
    }

    pub fn new(channel: C) -> (lc: Self)
        ensures
            lc == Self::power_on(channel),
    {
        LengthCountedChannel { channel, length_counter: LengthCounter::new() }
    }

    pub fn length_counter(&self) -> (lc: &LengthCounter)
        ensures
            *lc == self.length_counter,
    {
        &self.length_counter
    }

    pub fn channel(&self) -> (ch: &C)
        ensures
            *ch == self.channel,
    {
        &self.channel
    }
}

impl LengthCountedChannel<SquarePulse> {
    /// After a control write: the duty index from the top two bits, the
    /// envelope from the low six, and bit 5 also as the length counter's
    /// halt.
    pub open spec fn after_control(self, data: u8) -> Self {
        LengthCountedChannel {
            channel: SquarePulse {
                duty_cycle_index: data >> 6,
                envelope: self.channel.envelope.after_control(data),
                ..self.channel
            },
            length_counter: LengthCounter { halt: data & 0x20 != 0, ..self.length_counter },
        }
    }

    /// After a sweep write: the byte is kept as it came.
    pub open spec fn after_sweep(self, data: u8) -> Self {
        LengthCountedChannel {
            channel: SquarePulse { sweeper_data: data, ..self.channel },
            ..self
        }
    }

    /// After a timer-low write.
    pub open spec fn after_timer_low(self, data: u8) -> Self {
        LengthCountedChannel {
            channel: SquarePulse {
                period: with_timer_low(self.channel.period, data),
                ..self.channel
            },
            ..self
        }
    }

    /// After a length-load write: the counter reloaded by the top five bits,
    /// the timer's high bits from the low three, the envelope retriggered and
    /// the phase reset.
    pub open spec fn after_length_load(self, data: u8) -> Self {
        LengthCountedChannel {
            channel: SquarePulse {
                period: with_timer_high(self.channel.period, data),
                envelope: Envelope { start_flag: true, ..self.channel.envelope },
                phase_reset: true,
                ..self.channel
            },
            length_counter: self.length_counter.reloaded(data >> 3),
        }
    }

    pub fn write_control(&mut self, data: u8)
        ensures
            *final(self) == old(self).after_control(data),
            final(self).channel.wf(),
    {
        assert(data >> 6 <= 3) by (bit_vector);
        self.channel.set_duty_cycle_index(data >> 6);
        self.channel.envelope.write_control(data);
        self.length_counter.set_halt(data & 0x20 != 0);
    }

    pub fn write_sweep(&mut self, data: u8)
        ensures
            *final(self) == old(self).after_sweep(data),
    {
        self.channel.set_sweeper_data(data);
    }

    pub fn write_timer_low(&mut self, data: u8)
        ensures
            *final(self) == old(self).after_timer_low(data),
    {
        let period: u16 = self.channel.get_period();
        self.channel.set_period(timer_low(period, data));
    }

    pub fn write_length_load(&mut self, data: u8)
        ensures
            *final(self) == old(self).after_length_load(data),
            final(self).length_counter.counter == length_table()[(data >> 3) as int],
    {
        assert(data >> 3 < 32) by (bit_vector);
        self.length_counter.reload_counter(data >> 3);
        let period: u16 = self.channel.get_period();
        self.channel.set_period(timer_high(period, data));
        self.channel.envelope.set_start_flag(true);
        self.channel.reset();
    }
}

impl LengthCountedChannel<TriangleWave> {
    /// After a linear-counter write: the reload value from the low seven
    /// bits, and bit 7 as both the control flag and the length counter's
    /// halt.
    pub open spec fn after_linear_counter(self, data: u8) -> Self {
        LengthCountedChannel {
            channel: TriangleWave {
                linear_counter_reload_value: data & 0x7F,
                linear_counter_control_flag: data & 0x80 != 0,
                ..self.channel
            },
            length_counter: LengthCounter { halt: data & 0x80 != 0, ..self.length_counter },
        }
    }

    /// After a timer-low write.
    pub open spec fn after_timer_low(self, data: u8) -> Self {
        LengthCountedChannel {
            channel: TriangleWave {
                period: with_timer_low(self.channel.period, data),
                ..self.channel
            },
            ..self
        }
    }

    /// After a length-load write: the counter reloaded, the timer's high bits
    /// replaced, and the linear counter's reload flag raised.
    pub open spec fn after_length_load(self, data: u8) -> Self {
        LengthCountedChannel {
            channel: TriangleWave {
                period: with_timer_high(self.channel.period, data),
                linear_counter_reload_flag: true,
                ..self.channel
            },
            length_counter: self.length_counter.reloaded(data >> 3),
        }
    }

    pub fn write_linear_counter(&mut self, data: u8)
        ensures
            *final(self) == old(self).after_linear_counter(data),
            final(self).channel.wf(),
    {
        assert(data & 0x7F <= 127) by (bit_vector);
        self.channel.set_linear_counter_reload_value(data & 0x7F);
        self.channel.set_linear_counter_control_flag(data & 0x80 != 0);
        self.length_counter.set_halt(data & 0x80 != 0);
    }

    pub fn write_timer_low(&mut self, data: u8)
        ensures
            *final(self) == old(self).after_timer_low(data),
    {
        let period: u16 = self.channel.get_period();
        self.channel.set_period(timer_low(period, data));
    }

    pub fn write_length_load(&mut self, data: u8)
        ensures
            *final(self) == old(self).after_length_load(data),
            final(self).length_counter.counter == length_table()[(data >> 3) as int],
    {
        assert(data >> 3 < 32) by (bit_vector);
        self.length_counter.reload_counter(data >> 3);
        let period: u16 = self.channel.get_period();
        self.channel.set_period(timer_high(period, data));
        self.channel.set_linear_counter_reload_flag(true);
    }
}

impl LengthCountedChannel<NoiseWave> {
    /// After a control write: the envelope from the low six bits, and bit 5
    /// also as the length counter's halt.
    pub open spec fn after_control(self, data: u8) -> Self {
        LengthCountedChannel {
            channel: NoiseWave {
                envelope: self.channel.envelope.after_control(data),
                ..self.channel
            },
            length_counter: LengthCounter { halt: data & 0x20 != 0, ..self.length_counter },
        }
    }

    /// After a mode-and-period write: the mode from bit 7, the period index
    /// from the low four bits.
    pub open spec fn after_mode_period(self, data: u8) -> Self {
        LengthCountedChannel {
            channel: NoiseWave { mode_flag: data & 0x80 != 0, period: data & 0xF, ..self.channel },
            ..self
        }
    }

    /// After a length-load write.
    pub open spec fn after_length_load(self, data: u8) -> Self {
        LengthCountedChannel {
            length_counter: self.length_counter.reloaded(data >> 3),
            ..self
        }
    }

    pub fn write_control(&mut self, data: u8)
        ensures
            *final(self) == old(self).after_control(data),
            final(self).channel.envelope.wf(),
    {
        self.channel.envelope.write_control(data);
        self.length_counter.set_halt(data & 0x20 != 0);
    }

    pub fn write_mode_period(&mut self, data: u8)
        ensures
            *final(self) == old(self).after_mode_period(data),
            final(self).channel.period <= 15,
    {
        assert(data & 0xF <= 15) by (bit_vector);
        self.channel.set_mode_flag(data & 0x80 != 0);
        self.channel.set_period(data & 0xF);
    }

    pub fn write_length_load(&mut self, data: u8)
        ensures
            *final(self) == old(self).after_length_load(data),
            final(self).length_counter.counter == length_table()[(data >> 3) as int],
    {
        assert(data >> 3 < 32) by (bit_vector);
        self.length_counter.reload_counter(data >> 3);
    }
}

} // verus!
