//! The length counter: the auto-mute timer of a pulse, triangle or noise
//! channel.
use vstd::prelude::*;

verus! {

/// The fixed reload table, indexed by the 5-bit field of a length-load write.
pub open spec fn length_table() -> Seq<u8> {
    seq![
        10u8, 254u8, 20u8, 2u8, 40u8, 4u8, 80u8, 6u8,
        160u8, 8u8, 60u8, 10u8, 14u8, 12u8, 26u8, 14u8,
        12u8, 16u8, 24u8, 18u8, 48u8, 20u8, 96u8, 22u8,
        192u8, 24u8, 72u8, 26u8, 16u8, 28u8, 32u8, 30u8,
    ]
}

/// The reload value for `index`.
pub fn length_table_entry(index: u8) -> (value: u8)
    requires
        index < 32,
    ensures
        value == length_table()[index as int],
{
    let table: [u8; 32] = [
        10, 254, 20, 2, 40, 4, 80, 6,
        160, 8, 60, 10, 14, 12, 26, 14,
        12, 16, 24, 18, 48, 20, 96, 22,
        192, 24, 72, 26, 16, 28, 32, 30,
    ];
    proof {
        assert(table@ =~= length_table());
    }
    table[index as usize]
}

#[derive(Clone, Copy, Debug, PartialEq, Eq, Structural)]
pub struct LengthCounter {
    pub counter: u8,
    pub halt: bool,
    pub enabled: bool,
}

impl LengthCounter {
    /// What a half-frame clock leaves of `self`: one less, unless the counter
    /// is at zero or halted.
    pub open spec fn decremented(self) -> Self {
        if self.counter != 0 && !self.halt {
            LengthCounter { counter: (self.counter - 1) as u8, ..self }
        } else {
            self
        }
    }

    /// What an enable write leaves of `self`: disabling empties the counter.
    pub open spec fn with_enabled(self, enabled: bool) -> Self {
        LengthCounter { counter: if enabled { self.counter } else { 0 }, enabled, ..self }
    }

    /// What a length-load write with the table index `index` leaves of `self`.
    pub open spec fn reloaded(self, index: u8) -> Self
        recommends
            index < 32,
    {
        LengthCounter { counter: length_table()[index as int], ..self }
    }

    /// The power-on state: empty, running and disabled.
    pub open spec fn power_on() -> Self {
        LengthCounter { counter: 0, halt: false, enabled: false }
    }

    pub fn new() -> (lc: Self)
        ensures
            lc == Self::power_on(),
    {
        LengthCounter { counter: 0, halt: false, enabled: false }
    }

    pub fn counter(&self) -> (value: u8)
        ensures
            value == self.counter,
    {
        self.counter
    }

    pub fn set_enabled(&mut self, enabled: bool)
        ensures
            *final(self) == old(self).with_enabled(enabled),
            !enabled ==> final(self).counter == 0,
    {
        self.enabled = enabled;
        if !enabled {
            self.counter = 0;
        }
    }

    pub fn set_halt(&mut self, halt: bool)
        ensures
            *final(self) == (LengthCounter { halt, ..*old(self) }),
    {
        self.halt = halt;
    }

    pub fn reload_counter(&mut self, index: u8)
        requires
            index < 32,
        ensures
            *final(self) == old(self).reloaded(index),
            final(self).counter == length_table()[index as int],
    {
        self.counter = length_table_entry(index);
    }

    pub fn decrement(&mut self)
        ensures
            *final(self) == old(self).decremented(),
    {
        if self.counter != 0 && !self.halt {
            self.counter = self.counter - 1;
        }
    }
}

} // verus!
