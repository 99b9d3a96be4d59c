//! The traits that tie concrete, per-architecture enumerations to the erased
//! identifier types shared by architecture-independent code.

use vstd::prelude::*;

verus! {

/// An object that is identified by its name.
pub trait IdentityName {
    /// The name that identifies the object.
    spec fn identity_name(&self) -> Seq<char>;

    fn name(&self) -> (s: &str)
        ensures
            s@ == self.identity_name(),
    ;
}

/// A value with a display name.
///
/// The name is a pure function of the value: `name` returns exactly
/// `name_spec`.
pub trait Name {
    spec fn name_spec(&self) -> Seq<char>;

    fn name(&self) -> (s: String)
        ensures
            s@ == self.name_spec(),
    ;
}

/// Marker for types whose instances are singletons: two instances that
/// coexist are never equal, and an instance is only equal to itself.
pub trait Unique: HasHashEq {

}

/// Helper of [`Unique`]: every type that can be compared and hashed has it.
pub trait HasHashEq {

}

impl<R: ?Sized + core::cmp::Eq + core::hash::Hash> HasHashEq for R {

}

/// An erased identifier: a pair of a non-zero type tag, which says which
/// concrete enumeration the identifier came from, and a payload, by which that
/// enumeration finds the value again.
///
/// Each implementor is an identifier kind of its own; tags are only ever
/// compared within one kind.
pub trait IdType: Copy + Sized {
    /// The type tag of the identifier.
    spec fn tag(self) -> u64;

    /// The payload of the identifier.
    spec fn payload(self) -> u64;

    /// An identifier is nothing but its two parts.
    proof fn lemma_parts_determine(a: Self, b: Self)
        requires
            a.tag() == b.tag(),
            a.payload() == b.payload(),
        ensures
            a == b,
    ;

    /// Builds an identifier from its two parts.
    fn from_raw_parts(tag: u64, payload: u64) -> (id: Self)
        requires
            tag != 0,
        ensures
            id.tag() == tag,
            id.payload() == payload,
    ;

    /// The type tag, which is never zero.
    fn type_tag(self) -> (t: u64)
        ensures
            t == self.tag(),
            t != 0,
    ;

    /// The payload.
    fn raw_payload(self) -> (n: u64)
        ensures
            n == self.payload(),
    ;
}

/// A concrete enumeration that can be erased into the identifier kind `Id`.
///
/// An implementor fixes its type tag and the encoding of its values as
/// payloads, and proves that decoding undoes encoding.
pub trait IntoId<Id: IdType>: Copy + Sized {
    /// The type tag of this enumeration within the kind `Id`.
    spec fn id_type() -> u64;

    /// The payload that stands for `self`.
    spec fn into_id(self) -> u64;

    /// The value that a payload stands for, if it stands for one.
    spec fn try_downcast(val: u64) -> Option<Self>;

    /// Every value is found again from its own payload.
    proof fn lemma_payload_round_trip(v: Self)
        ensures
            Self::try_downcast(v.into_id()) == Some(v),
    ;

    fn exec_id_type() -> (tag: u64)
        ensures
            tag == Self::id_type(),
            tag != 0,
    ;

    fn exec_into_id(self) -> (n: u64)
        ensures
            n == self.into_id(),
    ;

    fn exec_try_downcast(val: u64) -> (r: Option<Self>)
        ensures
            r == Self::try_downcast(val),
    ;
}

/// A type whose values are carried by the 64 bits of a payload.
pub trait AsU64: Sized {
    /// The value that `v` carries, if it carries one.
    spec fn value_from_spec(v: u64) -> Option<Self>;

    fn value_from(v: u64) -> (r: Option<Self>)
        ensures
            r == Self::value_from_spec(v),
    ;
}

impl AsU64 for u64 {
    open spec fn value_from_spec(v: u64) -> Option<Self> {
        Some(v)
    }

    fn value_from(v: u64) -> (r: Option<Self>) {
        Some(v)
    }
}

/// A 64-bit number that is not zero.
#[derive(Copy, Clone, Debug, Hash, PartialEq, Eq, Structural)]
pub struct NonZero64 {
    value: u64,
}

impl NonZero64 {
    #[verifier::type_invariant]
    spec fn inv(self) -> bool {
        self.value != 0
    }

    /// The number.
    pub closed spec fn get_spec(self) -> u64 {
        self.value
    }

    /// The number as one that is not zero, if it is not zero.
    pub fn new(v: u64) -> (r: Option<Self>)
        ensures
            r == <Self as AsU64>::value_from_spec(v),
            r is Some <==> v != 0,
            r matches Some(n) ==> n.get_spec() == v,
    {
        if v != 0 {
            Some(NonZero64 { value: v })
        } else {
            None
        }
    }

    /// The number, which is not zero.
    pub fn get(self) -> (v: u64)
        ensures
            v == self.get_spec(),
            v != 0,
    {
        proof {
            use_type_invariant(self);
        }
        self.value
    }
}

impl AsU64 for NonZero64 {
    closed spec fn value_from_spec(v: u64) -> Option<Self> {
        if v != 0 {
            Some(NonZero64 { value: v })
        } else {
            None
        }
    }

    /// Zero carries no number that is not zero; every other word carries
    /// itself.
    fn value_from(v: u64) -> (r: Option<Self>)
        ensures
            r is Some <==> v != 0,
            r matches Some(n) ==> n.get_spec() == v,
    {
        Self::new(v)
    }
}

} // verus!
