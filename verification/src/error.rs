//! The failures that stop the core.

use vstd::prelude::*;

verus! {

/// A failure that ends the run; none of them is recovered from.
#[derive(Debug, Clone, Copy, PartialEq, Eq, Structural)]
pub enum CoreError {
    /// The byte fetched at `pc` is none of the defined opcodes.
    UnknownOpcode { pc: u16, byte: u8 },
    /// The cartridge header names no mapper that the core supports.
    UnsupportedMapper,
}

} // verus!
