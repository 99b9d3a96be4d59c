//! Erasure and checked downcast, shared by every identifier kind.

use vstd::prelude::*;
use crate::traits::{IdType, IntoId};

verus! {

/// Why an identifier could not be turned back into a concrete value.
#[derive(Debug)]
pub enum IdDowncastError {
    /// The identifier was erased from another enumeration.
    WrongType,
    /// The tag is right, but the payload stands for no value.
    MalformedValue,
}

/// What `downcast` returns for an identifier with the given parts: the tag
/// must be the target's own, and the payload must stand for a value.
pub open spec fn downcast_spec<Id: IdType, I: IntoId<Id>>(tag: u64, payload: u64) -> Result<
    I,
    IdDowncastError,
> {
    if tag == I::id_type() {
        match I::try_downcast(payload) {
            Some(v) => Ok(v),
            None => Err(IdDowncastError::MalformedValue),
        }
    } else {
        Err(IdDowncastError::WrongType)
    }
}

/// Erases a concrete value into the identifier kind `Id`.
pub fn erase<Id: IdType, I: IntoId<Id>>(val: I) -> (id: Id)
    ensures
        id.tag() == I::id_type(),
        id.payload() == val.into_id(),
{
    Id::from_raw_parts(I::exec_id_type(), val.exec_into_id())
}

/// Recovers the concrete value of type `I` from an erased identifier.
pub fn downcast<Id: IdType, I: IntoId<Id>>(id: Id) -> (r: Result<I, IdDowncastError>)
    ensures
        r == downcast_spec::<Id, I>(id.tag(), id.payload()),
{
    if id.type_tag() == I::exec_id_type() {
        match I::exec_try_downcast(id.raw_payload()) {
            Some(v) => Ok(v),
            None => Err(IdDowncastError::MalformedValue),
        }
    } else {
        Err(IdDowncastError::WrongType)
    }
}

/// Erasing a value and downcasting the identifier to the value's own type
/// gives the value back.
pub proof fn lemma_downcast_erased<Id: IdType, I: IntoId<Id>>(v: I)
    ensures
        downcast_spec::<Id, I>(I::id_type(), v.into_id()) == Ok::<I, IdDowncastError>(v),
{
    I::lemma_payload_round_trip(v);
}

/// An identifier erased from one enumeration never downcasts to another
/// enumeration whose tag is different.
pub proof fn lemma_downcast_foreign<Id: IdType, I1: IntoId<Id>, I2: IntoId<Id>>(v: I1)
    requires
        I1::id_type() != I2::id_type(),
    ensures
        downcast_spec::<Id, I2>(I1::id_type(), v.into_id()) == Err::<I2, IdDowncastError>(
            IdDowncastError::WrongType,
        ),
{
}

} // verus!
