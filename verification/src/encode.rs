//! Relocations, as encoders and decoders name them.

use vstd::prelude::*;
use crate::helpers::{downcast, downcast_spec, erase, IdDowncastError};
use crate::traits::{IdType, IntoId};

verus! {

/// The erased identifier of a relocation.
#[derive(Copy, Clone, Debug, Hash, PartialEq, Eq, Structural)]
pub struct RelocId {
    tag: u64,
    payload: u64,
}

impl RelocId {
    #[verifier::type_invariant]
    spec fn inv(self) -> bool {
        self.tag != 0
    }

    /// Erases a concrete value into an identifier of this kind.
    pub fn new<I: IntoId<Self>>(val: I) -> (id: Self)
        ensures
            id.tag() == I::id_type(),
            id.payload() == val.into_id(),
    {
        erase(val)
    }

    /// Recovers the concrete value of type `I`: an identifier that was
    /// erased from another type is of the wrong type, and a payload that
    /// stands for no value of `I` is malformed.
    pub fn downcast<I: IntoId<Self>>(self) -> (r: Result<I, IdDowncastError>)
        ensures
            r == downcast_spec::<Self, I>(self.tag(), self.payload()),
    {
        downcast(self)
    }
}

impl IdType for RelocId {
    closed spec fn tag(self) -> u64 {
        self.tag
    }

    closed spec fn payload(self) -> u64 {
        self.payload
    }

    proof fn lemma_parts_determine(a: Self, b: Self) {
    }

    fn from_raw_parts(tag: u64, payload: u64) -> (id: Self) {
        RelocId { tag, payload }
    }

    fn type_tag(self) -> (t: u64) {
        proof {
            use_type_invariant(self);
        }
        self.tag
    }

    fn raw_payload(self) -> (n: u64) {
        self.payload
    }
}

} // verus!
