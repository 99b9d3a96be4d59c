//! What is known of the target that is compiled for.

use vstd::prelude::*;
use std::collections::HashMap;
use crate::intern::Symbol;

verus! {

broadcast use vstd::std_specs::hash::group_hash_axioms;

/// The value of a property of a target.
#[derive(Copy, Clone, Debug, Hash, PartialEq, Eq, Structural)]
pub enum PropertyValue {
    String(Symbol),
    Int(i64),
    Bool(bool),
}

/// The named properties of a target: those that it has by itself, and those
/// that were set over them. A property is known by the number of its name's
/// symbol.
#[derive(Clone, Debug)]
pub struct TargetProperties {
    /// The properties that the target has by itself.
    pub global_properties: HashMap<u64, PropertyValue>,
    /// The properties that were set over those of the target.
    pub overrides: HashMap<u64, PropertyValue>,
}

/// A target: its properties and the width of its pointers in bits.
#[derive(Clone, Debug)]
pub struct TargetInfo {
    pub properties: TargetProperties,
    pub ptr_width: u16,
}

/// The value of a property: what was set over the target's own value if
/// anything was, else the target's own value, if it has one.
pub open spec fn property_spec(
    overrides: Map<u64, PropertyValue>,
    base: Map<u64, PropertyValue>,
    key: u64,
) -> Option<PropertyValue> {
    if overrides.contains_key(key) {
        Some(overrides[key])
    } else if base.contains_key(key) {
        Some(base[key])
    } else {
        None
    }
}

impl TargetProperties {
    /// Properties of which none is set.
    pub fn new() -> (p: Self)
        ensures
            p.global_properties@ == Map::<u64, PropertyValue>::empty(),
            p.overrides@ == Map::<u64, PropertyValue>::empty(),
    {
        TargetProperties { global_properties: HashMap::new(), overrides: HashMap::new() }
    }

    /// Sets a property of the target itself.
    pub fn set(&mut self, name: Symbol, value: PropertyValue)
        ensures
            final(self).global_properties@ == old(self).global_properties@.insert(name.0, value),
            final(self).overrides@ == old(self).overrides@,
    {
        self.global_properties.insert(name.0, value);
    }

    /// Sets a property over the target's own.
    pub fn set_override(&mut self, name: Symbol, value: PropertyValue)
        ensures
            final(self).overrides@ == old(self).overrides@.insert(name.0, value),
            final(self).global_properties@ == old(self).global_properties@,
    {
        self.overrides.insert(name.0, value);
    }

    /// Looks a property up: first among those that were set over the
    /// target's own, then among the target's own.
    pub fn lookup(&self, name: Symbol) -> (value: Option<PropertyValue>)
        ensures
            value == property_spec(self.overrides@, self.global_properties@, name.0),
    {
        match self.overrides.get(&name.0) {
            Some(value) => Some(*value),
            None => match self.global_properties.get(&name.0) {
                Some(value) => Some(*value),
                None => None,
            },
        }
    }
}

impl TargetInfo {
    /// Looks a property of the target up.
    pub fn property(&self, name: Symbol) -> (value: Option<PropertyValue>)
        ensures
            value == property_spec(
                self.properties.overrides@,
                self.properties.global_properties@,
                name.0,
            ),
    {
        self.properties.lookup(name)
    }
}

} // verus!
