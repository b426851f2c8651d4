//! The envelope record of a pulse or noise channel: what the registers set
//! of the volume-decay generator.
use vstd::prelude::*;

verus! {

#[derive(Clone, Copy, Debug, PartialEq, Eq, Structural)]
pub struct Envelope {
    pub volume: u8,
    pub use_constant_volume: bool,
    pub loop_flag: bool,
    pub start_flag: bool,
}

impl Envelope {
    /// The volume is a 4-bit level.
    pub open spec fn wf(self) -> bool {
        self.volume <= 15
    }

    /// What a control write of `data` leaves of the envelope: the level from
    /// the low four bits, the constant-volume flag from bit 4, the loop flag
    /// from bit 5, and the envelope retriggered.
    pub open spec fn after_control(self, data: u8) -> Self {
        Envelope {
            volume: data & 0xF,
            use_constant_volume: data & 0x10 != 0,
            loop_flag: data & 0x20 != 0,
            start_flag: true,
        }
    }

    pub open spec fn power_on() -> Self {
        Envelope { volume: 0, use_constant_volume: false, loop_flag: false, start_flag: false }
    }

    pub fn new() -> (env: Self)
        ensures
            env == Self::power_on(),
            env.wf(),
    {
        Envelope { volume: 0, use_constant_volume: false, loop_flag: false, start_flag: false }
    }

    pub fn set_volume(&mut self, level: u8, use_constant: bool)
        requires
            level <= 15,
        ensures
            *final(self) == (Envelope {
                volume: level,
                use_constant_volume: use_constant,
                ..*old(self)
            }),
    {
        self.volume = level;
        self.use_constant_volume = use_constant;
    }

    pub fn set_loop_flag(&mut self, loop_flag: bool)
        ensures
            *final(self) == (Envelope { loop_flag, ..*old(self) }),
    {
        self.loop_flag = loop_flag;
    }

    pub fn set_start_flag(&mut self, start_flag: bool)
        ensures
            *final(self) == (Envelope { start_flag, ..*old(self) }),
    {
        self.start_flag = start_flag;
    }

    /// Decodes a control write.
    pub fn write_control(&mut self, data: u8)
        ensures
            *final(self) == old(self).after_control(data),
            final(self).wf(),
    {
        assert(data & 0xF <= 15) by (bit_vector);
        self.set_volume(data & 0xF, data & 0x10 != 0);
        self.set_loop_flag(data & 0x20 != 0);
        self.set_start_flag(true);
    }
}

} // verus!
