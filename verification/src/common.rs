//! Types that the chips of the console share.
use vstd::prelude::*;

verus! {

/// Who is on the bus.
#[derive(Clone, Copy, Debug, PartialEq, Eq, Structural)]
pub enum Device {
    CPU,
    PPU,
}

/// How the four name tables are laid over the video memory.
#[derive(Clone, Copy, Debug, PartialEq, Eq, Structural)]
pub enum MirroringMode {
    Vertical,
    Horizontal,
    SingleScreenLowBank,
    SingleScreenHighBank,
    FourScreen,
}

} // verus!
