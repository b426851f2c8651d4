//! The sample channel's registers and the bookkeeping of its memory reader:
//! where the next byte comes from, how many are left, and the interrupt that
//! the end of a sample raises.
use vstd::prelude::*;

verus! {

/// Where the reader goes on after the last address of the bus.
pub const READER_WRAP_ADDRESS: u16 = 0x8000;

#[derive(Clone, Copy, Debug, PartialEq, Eq, Structural)]
pub struct Dmc {
    pub rate_index: u8,
    pub loop_flag: bool,
    pub irq_enabled: bool,
    pub direct_output_level: u8,
    pub sample_address: u16,
    pub sample_length: u16,
    pub current_address: u16,
    pub sample_remaining_bytes: u16,
    /// The byte fetched last, until the output unit takes it.
    pub sample_buffer: Option<u8>,
    pub silence: bool,
    pub interrupt_flag: bool,
    pub irq_change_requested: bool,
}

impl Dmc {
    pub open spec fn wf(self) -> bool {
        self.rate_index <= 15 && self.direct_output_level <= 127
    }

    /// The address that a sample-address write of `data` names.
    pub open spec fn address_of(data: u8) -> u16 {
        (0xC000 + data * 64) as u16
    }

    /// The number of bytes that a sample-length write of `data` names.
    pub open spec fn length_of(data: u8) -> u16 {
        (data * 16 + 1) as u16
    }

    /// The reader set back to the start of the sample.
    pub open spec fn restarted(self) -> Self {
        Dmc {
            current_address: self.sample_address,
            sample_remaining_bytes: self.sample_length,
            ..self
        }
    }

    /// Playback stopped: nothing left to fetch, and the output silent.
    pub open spec fn silenced(self) -> Self {
        Dmc { sample_remaining_bytes: 0, silence: true, ..self }
    }

    /// After a rate write: the rate index from the low four bits, the loop
    /// flag from bit 6, the interrupt enable from bit 7.
    pub open spec fn after_rate(self, data: u8) -> Self {
        Dmc {
            rate_index: data & 0xF,
            loop_flag: data & 0x40 != 0,
            irq_enabled: data & 0x80 != 0,
            ..self
        }
    }

    /// After the enable bit of a status write: cleared, playback stops; set,
    /// the sample restarts if no byte of it is left. Either way the
    /// channel's interrupt flag is cleared and the change request raised.
    pub open spec fn after_enable(self, enabled: bool) -> Self {
        let played = if !enabled {
            self.silenced()
        } else if self.sample_remaining_bytes == 0 {
            self.restarted()
        } else {
            self
        };
        Dmc { interrupt_flag: false, irq_change_requested: true, ..played }
    }

    /// The address after `address`.
    pub open spec fn next_address(address: u16) -> u16 {
        if address == u16::MAX {
            READER_WRAP_ADDRESS
        } else {
            (address + 1) as u16
        }
    }

    /// After the fetch of `byte`: it is buffered; if a byte was due, the
    /// reader moves on, and at the end of the sample it starts over where
    /// the sample loops, or else raises the interrupt where that is enabled.
    pub open spec fn after_submit(self, byte: u8) -> Self {
        let buffered = Dmc { sample_buffer: Some(byte), ..self };
        if self.sample_remaining_bytes == 0 {
            buffered
        } else if self.sample_remaining_bytes > 1 {
            Dmc {
                current_address: Self::next_address(self.current_address),
                sample_remaining_bytes: (self.sample_remaining_bytes - 1) as u16,
                ..buffered
            }
        } else if self.loop_flag {
            buffered.restarted()
        } else {
            Dmc {
                current_address: Self::next_address(self.current_address),
                sample_remaining_bytes: 0,
                interrupt_flag: self.interrupt_flag || self.irq_enabled,
                irq_change_requested: self.irq_change_requested || self.irq_enabled,
                ..buffered
            }
        }
    }

    /// The power-on state: no sample set, nothing to fetch, silent.
    pub open spec fn power_on() -> Self {
        Dmc {
            rate_index: 0,
            loop_flag: false,
            irq_enabled: false,
            direct_output_level: 0,
            sample_address: 0,
            sample_length: 0,
            current_address: 0,
            sample_remaining_bytes: 0,
            sample_buffer: None,
            silence: true,
            interrupt_flag: false,
            irq_change_requested: false,
        }
    }

    pub fn new() -> (dmc: Self)
        ensures
            dmc == Self::power_on(),
            dmc.wf(),
    {
        Dmc {
            rate_index: 0,
            loop_flag: false,
            irq_enabled: false,
            direct_output_level: 0,
            sample_address: 0,
            sample_length: 0,
            current_address: 0,
            sample_remaining_bytes: 0,
            sample_buffer: None,
            silence: true,
            interrupt_flag: false,
            irq_change_requested: false,
        }
    }

    pub fn set_rate_index(&mut self, index: u8)
        requires
            index <= 15,
        ensures
            *final(self) == (Dmc { rate_index: index, ..*old(self) }),
    {
        self.rate_index = index;
    }

    pub fn set_loop_flag(&mut self, flag: bool)
        ensures
            *final(self) == (Dmc { loop_flag: flag, ..*old(self) }),
    {
        self.loop_flag = flag;
    }

    pub fn set_irq_enabled_flag(&mut self, flag: bool)
        ensures
            *final(self) == (Dmc { irq_enabled: flag, ..*old(self) }),
    {
        self.irq_enabled = flag;
    }

    pub fn set_direct_output_level_load(&mut self, level: u8)
        requires
            level <= 127,
        ensures
            *final(self) == (Dmc { direct_output_level: level, ..*old(self) }),
    {
        self.direct_output_level = level;
    }

    pub fn set_samples_address(&mut self, data: u8)
        ensures
            *final(self) == (Dmc { sample_address: Self::address_of(data), ..*old(self) }),
    {
        self.sample_address = 0xC000u16 + (data as u16) * 64;
    }

    pub fn set_samples_length(&mut self, data: u8)
        ensures
            *final(self) == (Dmc { sample_length: Self::length_of(data), ..*old(self) }),
            final(self).sample_length > 0,
    {
        self.sample_length = (data as u16) * 16 + 1;
    }

    pub fn restart_sample(&mut self)
        ensures
            *final(self) == old(self).restarted(),
    {
        self.current_address = self.sample_address;
        self.sample_remaining_bytes = self.sample_length;
    }

    pub fn clear_sample_remaining_bytes_and_silence(&mut self)
        ensures
            *final(self) == old(self).silenced(),
    {
        self.sample_remaining_bytes = 0;
        self.silence = true;
    }

    pub fn sample_remaining_bytes_more_than_0(&self) -> (more: bool)
        ensures
            more == (self.sample_remaining_bytes > 0),
    {
        self.sample_remaining_bytes > 0
    }

    pub fn get_irq_pin_state(&self) -> (state: bool)
        ensures
            state == self.interrupt_flag,
    {
        self.interrupt_flag
    }

    pub fn is_irq_change_requested(&self) -> (requested: bool)
        ensures
            requested == self.irq_change_requested,
    {
        self.irq_change_requested
    }

    pub fn clear_interrupt_flag(&mut self)
        ensures
            *final(self) == (Dmc {
                interrupt_flag: false,
                irq_change_requested: true,
                ..*old(self)
            }),
    {
        self.interrupt_flag = false;
        self.irq_change_requested = true;
    }

    pub fn clear_irq_request_pin(&mut self)
        ensures
            *final(self) == (Dmc { irq_change_requested: false, ..*old(self) }),
    {
        self.irq_change_requested = false;
    }

    /// Decodes a rate write.
    pub fn write_rate(&mut self, data: u8)
        ensures
            *final(self) == old(self).after_rate(data),
            final(self).rate_index <= 15,
    {
        assert(data & 0xF <= 15) by (bit_vector);
        self.set_rate_index(data & 0xF);
        self.set_loop_flag(data & 0x40 != 0);
        self.set_irq_enabled_flag(data & 0x80 != 0);
    }

    /// Decodes a direct-level write: the low seven bits.
    pub fn write_direct_level(&mut self, data: u8)
        ensures
            *final(self) == (Dmc { direct_output_level: data & 0x7F, ..*old(self) }),
            final(self).direct_output_level <= 127,
    {
        assert(data & 0x7F <= 127) by (bit_vector);
        self.set_direct_output_level_load(data & 0x7F);
    }

    /// Applies the enable bit of a status write.
    pub fn write_enable(&mut self, enabled: bool)
        ensures
            *final(self) == old(self).after_enable(enabled),
    {
        if !enabled {
            self.clear_sample_remaining_bytes_and_silence();
        } else if !self.sample_remaining_bytes_more_than_0() {
            self.restart_sample();
        }
        self.clear_interrupt_flag();
    }

    /// The address of the byte that the reader wants next: one is wanted
    /// while the buffer is empty and bytes of the sample are left.
    pub fn request_dmc_reader_read(&self) -> (address: Option<u16>)
        ensures
            address == if self.sample_buffer.is_none() && self.sample_remaining_bytes > 0 {
                Some(self.current_address)
            } else {
                None
            },
    {
        if self.sample_buffer.is_none() && self.sample_remaining_bytes > 0 {
            Some(self.current_address)
        } else {
            None
        }
    }

    /// Takes the byte that a fetch delivered.
    pub fn submit_buffer_byte(&mut self, byte: u8)
        ensures
            *final(self) == old(self).after_submit(byte),
    {
        self.sample_buffer = Some(byte);
        if self.sample_remaining_bytes > 0 {
            self.sample_remaining_bytes = self.sample_remaining_bytes - 1;
            if self.sample_remaining_bytes == 0 && self.loop_flag {
                self.restart_sample();
            } else {
                self.current_address = if self.current_address == u16::MAX {
                    READER_WRAP_ADDRESS
                } else {
                    self.current_address + 1
                };
                if self.sample_remaining_bytes == 0 && self.irq_enabled {
                    self.interrupt_flag = true;
                    self.irq_change_requested = true;
                }
            }
        }
    }
}

} // verus!
