//! Widths of values in the x86 family.

use vstd::prelude::*;

verus! {

/// The width of a value: a number of bits, or whatever the mode has as its
/// own width.
#[derive(Copy, Clone, Debug, Hash, PartialEq, Eq, Structural)]
pub enum Width {
    Bits(u16),
    Native,
}

impl Width {
    /// The width in bits, where the mode's own width is `native` bits.
    pub fn bits(&self, native: u16) -> (n: u16)
        ensures
            n == match *self {
                Width::Bits(bits) => bits,
                Width::Native => native,
            },
    {
        match self {
            Width::Bits(bits) => *bits,
            Width::Native => native,
        }
    }
}

} // verus!
