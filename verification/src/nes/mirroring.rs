//! How the PPU's name tables are laid out in video memory.
use vstd::prelude::*;

verus! {

/// The arrangement of the two physical name tables in the PPU's address
/// space, chosen by the cartridge.
#[derive(Clone, Copy, Debug, PartialEq, Eq, Structural)]
pub enum MirroringMode {
    Horizontal,
    Vertical,
    SingleScreenLower,
    SingleScreenUpper,
}

} // verus!
