//! Interned symbols.

use vstd::prelude::*;

verus! {

/// A symbol: the number under which a name was interned.
#[derive(Copy, Clone, Debug, Hash, PartialEq, Eq, Structural)]
pub struct Symbol(pub u64);

} // verus!
