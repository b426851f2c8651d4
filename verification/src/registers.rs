//! The registers of the sound chip's bus window, in address order.
use vstd::prelude::*;

verus! {

#[allow(non_camel_case_types)]
#[derive(Clone, Copy, Debug, PartialEq, Eq, Structural)]
pub enum Register {
    /// Pulse 1: duty, envelope and halt.
    Pulse1_1,
    /// Pulse 1: sweep.
    Pulse1_2,
    /// Pulse 1: timer low.
    Pulse1_3,
    /// Pulse 1: length load and timer high.
    Pulse1_4,
    Pulse2_1,
    Pulse2_2,
    Pulse2_3,
    Pulse2_4,
    /// Triangle: linear counter.
    Triangle1,
    /// Unused.
    Triangle2,
    Triangle3,
    Triangle4,
    /// Noise: envelope and halt.
    Noise1,
    /// Unused.
    Noise2,
    /// Noise: mode and period.
    Noise3,
    /// Noise: length load.
    Noise4,
    /// Sample channel: rate, loop and interrupt enable.
    DMC1,
    /// Sample channel: direct output level.
    DMC2,
    /// Sample channel: sample address.
    DMC3,
    /// Sample channel: sample length.
    DMC4,
    /// Written: the channel enables. Read: the status flags.
    Status,
    /// Sequencer mode and interrupt inhibit; write only.
    FrameCounter,
}

} // verus!
