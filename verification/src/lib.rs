//! The audio processing unit of an 8-bit console as a verified state machine:
//! register decoding, the frame sequencer, the interrupt line, the adaptive
//! sample queue that feeds the audio sink, and the cartridge header.
use vstd::prelude::*;

pub mod apu2a03;
pub mod cartridge;
pub mod channels;
pub mod common;
pub mod dmc;
pub mod envelope;
pub mod frame_sequencer;
pub mod length_counter;
pub mod registers;
pub mod tone_source;

verus! {

/// Samples per second that the audio sink consumes.
pub const SAMPLE_RATE: u32 = 44100;

} // verus!
