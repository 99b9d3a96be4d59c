//! Architectures: what each offers, and the identifiers of their machines
//! and features.

use vstd::prelude::*;
use crate::helpers::{downcast, downcast_spec, erase, IdDowncastError};
use crate::instr::Opcodes;
use crate::traits::{IdType, IdentityName, IntoId, Unique};

pub mod x86;

verus! {

/// The erased identifier of a machine of some architecture.
#[derive(Copy, Clone, Debug, Hash, PartialEq, Eq, Structural)]
pub struct MachId {
    tag: u64,
    payload: u64,
}

impl MachId {
    #[verifier::type_invariant]
    spec fn inv(self) -> bool {
        self.tag != 0
    }

    /// Erases a concrete value into an identifier of this kind.
    pub fn new<I: IntoId<Self>>(val: I) -> (id: Self)
        ensures
            id.tag() == I::id_type(),
            id.payload() == val.into_id(),
    {
        erase(val)
    }

    /// Recovers the concrete value of type `I`: an identifier that was
    /// erased from another type is of the wrong type, and a payload that
    /// stands for no value of `I` is malformed.
    pub fn downcast<I: IntoId<Self>>(self) -> (r: Result<I, IdDowncastError>)
        ensures
            r == downcast_spec::<Self, I>(self.tag(), self.payload()),
    {
        downcast(self)
    }
}

impl IdType for MachId {
    closed spec fn tag(self) -> u64 {
        self.tag
    }

    closed spec fn payload(self) -> u64 {
        self.payload
    }

    proof fn lemma_parts_determine(a: Self, b: Self) {
    }

    fn from_raw_parts(tag: u64, payload: u64) -> (id: Self) {
        MachId { tag, payload }
    }

    fn type_tag(self) -> (t: u64) {
        proof {
            use_type_invariant(self);
        }
        self.tag
    }

    fn raw_payload(self) -> (n: u64) {
        self.payload
    }
}

/// The erased identifier of a feature of some architecture.
#[derive(Copy, Clone, Debug, Hash, PartialEq, Eq, Structural)]
pub struct FeatureId {
    tag: u64,
    payload: u64,
}

impl FeatureId {
    #[verifier::type_invariant]
    spec fn inv(self) -> bool {
        self.tag != 0
    }

    /// Erases a concrete value into an identifier of this kind.
    pub fn new<I: IntoId<Self>>(val: I) -> (id: Self)
        ensures
            id.tag() == I::id_type(),
            id.payload() == val.into_id(),
    {
        erase(val)
    }

    /// Recovers the concrete value of type `I`: an identifier that was
    /// erased from another type is of the wrong type, and a payload that
    /// stands for no value of `I` is malformed.
    pub fn downcast<I: IntoId<Self>>(self) -> (r: Result<I, IdDowncastError>)
        ensures
            r == downcast_spec::<Self, I>(self.tag(), self.payload()),
    {
        downcast(self)
    }
}

impl IdType for FeatureId {
    closed spec fn tag(self) -> u64 {
        self.tag
    }

    closed spec fn payload(self) -> u64 {
        self.payload
    }

    proof fn lemma_parts_determine(a: Self, b: Self) {
    }

    fn from_raw_parts(tag: u64, payload: u64) -> (id: Self) {
        FeatureId { tag, payload }
    }

    fn type_tag(self) -> (t: u64) {
        proof {
            use_type_invariant(self);
        }
        self.tag
    }

    fn raw_payload(self) -> (n: u64) {
        self.payload
    }
}

/// The one machine of an architecture that has no variants.
#[derive(Copy, Clone, Debug, Hash, PartialEq, Eq, Structural)]
pub enum UniformMachine {
    Simple,
}

/// The type tag is the one that is minted for the definition of this type
/// as an identifier of this kind.
impl IntoId<MachId> for UniformMachine {
    open spec fn id_type() -> u64 {
        0x05d4_d538_0712_0941
    }

    open spec fn into_id(self) -> u64 {
        0
    }

    open spec fn try_downcast(val: u64) -> Option<Self> {
        if val == 0 {
            Some(UniformMachine::Simple)
        } else {
            None
        }
    }

    proof fn lemma_payload_round_trip(v: Self) {
    }

    fn exec_id_type() -> (tag: u64) {
        0x05d4_d538_0712_0941
    }

    fn exec_into_id(self) -> (n: u64) {
        0
    }

    fn exec_try_downcast(val: u64) -> (r: Option<Self>) {
        if val == 0 {
            Some(UniformMachine::Simple)
        } else {
            None
        }
    }
}

/// An architecture. Every architecture is identified by its name.
pub trait Arch: Unique {
    /// The name of the architecture.
    spec fn name_spec(&self) -> Seq<char>;

    /// The width of an address in bits.
    spec fn address_width_spec(&self) -> u16;

    /// The name of the architecture.
    fn name(&self) -> (s: &str)
        ensures
            s@ == self.name_spec(),
    ;

    /// The width of an address in bits.
    fn address_width(&self) -> (w: u16)
        ensures
            w == self.address_width_spec(),
    ;

    /// The width of the address of data in bits: that of any address, unless
    /// the architecture says otherwise.
    fn data_address_width(&self) -> (w: u16)
        default_ensures
            w == self.address_width_spec(),
    {
        self.address_width()
    }

    /// The width of the address of code in bits: that of any address, unless
    /// the architecture says otherwise.
    fn code_address_width(&self) -> (w: u16)
        default_ensures
            w == self.address_width_spec(),
    {
        self.address_width()
    }

    /// The width of the integers that the architecture works best with: that
    /// of an address, unless the architecture says otherwise.
    fn natural_int_width(&self) -> (w: u16)
        default_ensures
            w == self.address_width_spec(),
    {
        self.address_width()
    }

    /// The instruction set, if the architecture describes one.
    fn opcodes(&self) -> Option<&dyn Opcodes>;

    /// What the architecture says of floating point; nothing, unless it
    /// says otherwise.
    fn float_support(&self) -> (support: Option<&dyn FloatSupport>)
        default_ensures
            support is None,
    {
        None
    }

    /// What the architecture says of vectors; nothing, unless it says
    /// otherwise.
    fn vector_support(&self) -> (support: Option<&dyn VectorSupport>)
        default_ensures
            support is None,
    {
        None
    }

    /// The machines of the architecture, if it tells them apart.
    fn machines(&self) -> Option<&dyn MachineInfo>;
}

/// An architecture is identified by the name that it gives itself.
impl<A: Arch + ?Sized> IdentityName for A {
    open spec fn identity_name(&self) -> Seq<char> {
        Arch::name_spec(self)
    }

    fn name(&self) -> (s: &str) {
        <A as Arch>::name(self)
    }
}

/// What an architecture with floating point says of it.
pub trait FloatSupport {

}

/// What an architecture with vectors says of them.
pub trait VectorSupport {
    /// The size of the largest vector in bytes.
    fn max_vector_size(&self) -> u16;
}

/// What an architecture that tells machines and features apart says of
/// them.
pub trait MachineInfo {
    fn base_machine(&self) -> MachId;

    fn all_machines(&self) -> &[MachId];

    fn all_features(&self) -> &[FeatureId];

    fn machine_features(&self, mach: MachId) -> &[FeatureId];

    fn mach_by_name(&self, name: &str) -> Option<MachId>;

    fn mach_name(&self, mach: MachId) -> &str;

    fn feature_by_name(&self, name: &str) -> Option<FeatureId>;

    fn feature_name(&self, feature: FeatureId) -> &str;
}

} // verus!
