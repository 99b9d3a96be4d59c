//! Instructions as the encoder takes them, and what an architecture has to
//! say of its instruction set.

use vstd::prelude::*;
use vstd::string::StringExecFns;
use indexmap::IndexMap;
use crate::error::{Error, ErrorKind};
use crate::helpers::{downcast, downcast_spec, erase, IdDowncastError};
use crate::intern::Symbol;
use crate::text::{decimal_spec, push_decimal};
use crate::traits::{IdType, IntoId};

verus! {

/// The coarse kind of a register.
#[derive(Copy, Clone, Debug, Hash, PartialEq, Eq, Structural)]
pub enum RegisterKind {
    GeneralPurpose,
    ScalarFp,
    VectorInt,
    VectorFloat,
    VectorAny,
    VectorBit,
    AddressSegment,
    ConditionCode,
    System,
}

/// The erased identifier of an instruction of some architecture.
#[derive(Copy, Clone, Debug, Hash, PartialEq, Eq, Structural)]
pub struct InstructionId {
    tag: u64,
    payload: u64,
}

impl InstructionId {
    #[verifier::type_invariant]
    spec fn inv(self) -> bool {
        self.tag != 0
    }

    /// Erases a concrete value into an identifier of this kind.
    pub fn new<I: IntoId<Self>>(val: I) -> (id: Self)
        ensures
            id.tag() == I::id_type(),
            id.payload() == val.into_id(),
    {
        erase(val)
    }

    /// Recovers the concrete value of type `I`: an identifier that was
    /// erased from another type is of the wrong type, and a payload that
    /// stands for no value of `I` is malformed.
    pub fn downcast<I: IntoId<Self>>(self) -> (r: Result<I, IdDowncastError>)
        ensures
            r == downcast_spec::<Self, I>(self.tag(), self.payload()),
    {
        downcast(self)
    }
}

impl IdType for InstructionId {
    closed spec fn tag(self) -> u64 {
        self.tag
    }

    closed spec fn payload(self) -> u64 {
        self.payload
    }

    proof fn lemma_parts_determine(a: Self, b: Self) {
    }

    fn from_raw_parts(tag: u64, payload: u64) -> (id: Self) {
        InstructionId { tag, payload }
    }

    fn type_tag(self) -> (t: u64) {
        proof {
            use_type_invariant(self);
        }
        self.tag
    }

    fn raw_payload(self) -> (n: u64) {
        self.payload
    }
}

/// The erased identifier of a field of an instruction or of a prefix.
#[derive(Copy, Clone, Debug, Hash, PartialEq, Eq, Structural)]
pub struct InstructionFieldId {
    tag: u64,
    payload: u64,
}

impl InstructionFieldId {
    #[verifier::type_invariant]
    spec fn inv(self) -> bool {
        self.tag != 0
    }

    /// Erases a concrete value into an identifier of this kind.
    pub fn new<I: IntoId<Self>>(val: I) -> (id: Self)
        ensures
            id.tag() == I::id_type(),
            id.payload() == val.into_id(),
    {
        erase(val)
    }

    /// Recovers the concrete value of type `I`: an identifier that was
    /// erased from another type is of the wrong type, and a payload that
    /// stands for no value of `I` is malformed.
    pub fn downcast<I: IntoId<Self>>(self) -> (r: Result<I, IdDowncastError>)
        ensures
            r == downcast_spec::<Self, I>(self.tag(), self.payload()),
    {
        downcast(self)
    }
}

impl IdType for InstructionFieldId {
    closed spec fn tag(self) -> u64 {
        self.tag
    }

    closed spec fn payload(self) -> u64 {
        self.payload
    }

    proof fn lemma_parts_determine(a: Self, b: Self) {
    }

    fn from_raw_parts(tag: u64, payload: u64) -> (id: Self) {
        InstructionFieldId { tag, payload }
    }

    fn type_tag(self) -> (t: u64) {
        proof {
            use_type_invariant(self);
        }
        self.tag
    }

    fn raw_payload(self) -> (n: u64) {
        self.payload
    }
}

/// The erased identifier of an instruction prefix.
#[derive(Copy, Clone, Debug, Hash, PartialEq, Eq, Structural)]
pub struct PrefixId {
    tag: u64,
    payload: u64,
}

impl PrefixId {
    #[verifier::type_invariant]
    spec fn inv(self) -> bool {
        self.tag != 0
    }

    /// Erases a concrete value into an identifier of this kind.
    pub fn new<I: IntoId<Self>>(val: I) -> (id: Self)
        ensures
            id.tag() == I::id_type(),
            id.payload() == val.into_id(),
    {
        erase(val)
    }

    /// Recovers the concrete value of type `I`: an identifier that was
    /// erased from another type is of the wrong type, and a payload that
    /// stands for no value of `I` is malformed.
    pub fn downcast<I: IntoId<Self>>(self) -> (r: Result<I, IdDowncastError>)
        ensures
            r == downcast_spec::<Self, I>(self.tag(), self.payload()),
    {
        downcast(self)
    }
}

impl IdType for PrefixId {
    closed spec fn tag(self) -> u64 {
        self.tag
    }

    closed spec fn payload(self) -> u64 {
        self.payload
    }

    proof fn lemma_parts_determine(a: Self, b: Self) {
    }

    fn from_raw_parts(tag: u64, payload: u64) -> (id: Self) {
        PrefixId { tag, payload }
    }

    fn type_tag(self) -> (t: u64) {
        proof {
            use_type_invariant(self);
        }
        self.tag
    }

    fn raw_payload(self) -> (n: u64) {
        self.payload
    }
}

/// The erased identifier of an encoding mode.
#[derive(Copy, Clone, Debug, Hash, PartialEq, Eq, Structural)]
pub struct EncodingId {
    tag: u64,
    payload: u64,
}

impl EncodingId {
    #[verifier::type_invariant]
    spec fn inv(self) -> bool {
        self.tag != 0
    }

    /// Erases a concrete value into an identifier of this kind.
    pub fn new<I: IntoId<Self>>(val: I) -> (id: Self)
        ensures
            id.tag() == I::id_type(),
            id.payload() == val.into_id(),
    {
        erase(val)
    }

    /// Recovers the concrete value of type `I`: an identifier that was
    /// erased from another type is of the wrong type, and a payload that
    /// stands for no value of `I` is malformed.
    pub fn downcast<I: IntoId<Self>>(self) -> (r: Result<I, IdDowncastError>)
        ensures
            r == downcast_spec::<Self, I>(self.tag(), self.payload()),
    {
        downcast(self)
    }
}

impl IdType for EncodingId {
    closed spec fn tag(self) -> u64 {
        self.tag
    }

    closed spec fn payload(self) -> u64 {
        self.payload
    }

    proof fn lemma_parts_determine(a: Self, b: Self) {
    }

    fn from_raw_parts(tag: u64, payload: u64) -> (id: Self) {
        EncodingId { tag, payload }
    }

    fn type_tag(self) -> (t: u64) {
        proof {
            use_type_invariant(self);
        }
        self.tag
    }

    fn raw_payload(self) -> (n: u64) {
        self.payload
    }
}

/// The erased identifier of a register as instructions name it.
#[derive(Copy, Clone, Debug, Hash, PartialEq, Eq, Structural)]
pub struct RegisterId {
    tag: u64,
    payload: u64,
}

impl RegisterId {
    #[verifier::type_invariant]
    spec fn inv(self) -> bool {
        self.tag != 0
    }

    /// Erases a concrete value into an identifier of this kind.
    pub fn new<I: IntoId<Self>>(val: I) -> (id: Self)
        ensures
            id.tag() == I::id_type(),
            id.payload() == val.into_id(),
    {
        erase(val)
    }

    /// Recovers the concrete value of type `I`: an identifier that was
    /// erased from another type is of the wrong type, and a payload that
    /// stands for no value of `I` is malformed.
    pub fn downcast<I: IntoId<Self>>(self) -> (r: Result<I, IdDowncastError>)
        ensures
            r == downcast_spec::<Self, I>(self.tag(), self.payload()),
    {
        downcast(self)
    }
}

impl IdType for RegisterId {
    closed spec fn tag(self) -> u64 {
        self.tag
    }

    closed spec fn payload(self) -> u64 {
        self.payload
    }

    proof fn lemma_parts_determine(a: Self, b: Self) {
    }

    fn from_raw_parts(tag: u64, payload: u64) -> (id: Self) {
        RegisterId { tag, payload }
    }

    fn type_tag(self) -> (t: u64) {
        proof {
            use_type_invariant(self);
        }
        self.tag
    }

    fn raw_payload(self) -> (n: u64) {
        self.payload
    }
}

/// The erased identifier of a class of registers.
#[derive(Copy, Clone, Debug, Hash, PartialEq, Eq, Structural)]
pub struct RegisterClassId {
    tag: u64,
    payload: u64,
}

impl RegisterClassId {
    #[verifier::type_invariant]
    spec fn inv(self) -> bool {
        self.tag != 0
    }

    /// Erases a concrete value into an identifier of this kind.
    pub fn new<I: IntoId<Self>>(val: I) -> (id: Self)
        ensures
            id.tag() == I::id_type(),
            id.payload() == val.into_id(),
    {
        erase(val)
    }

    /// Recovers the concrete value of type `I`: an identifier that was
    /// erased from another type is of the wrong type, and a payload that
    /// stands for no value of `I` is malformed.
    pub fn downcast<I: IntoId<Self>>(self) -> (r: Result<I, IdDowncastError>)
        ensures
            r == downcast_spec::<Self, I>(self.tag(), self.payload()),
    {
        downcast(self)
    }
}

impl IdType for RegisterClassId {
    closed spec fn tag(self) -> u64 {
        self.tag
    }

    closed spec fn payload(self) -> u64 {
        self.payload
    }

    proof fn lemma_parts_determine(a: Self, b: Self) {
    }

    fn from_raw_parts(tag: u64, payload: u64) -> (id: Self) {
        RegisterClassId { tag, payload }
    }

    fn type_tag(self) -> (t: u64) {
        proof {
            use_type_invariant(self);
        }
        self.tag
    }

    fn raw_payload(self) -> (n: u64) {
        self.payload
    }
}

/// The erased identifier of a condition that only some architecture has.
#[derive(Copy, Clone, Debug, Hash, PartialEq, Eq, Structural)]
pub struct ExtendedConditionId {
    tag: u64,
    payload: u64,
}

impl ExtendedConditionId {
    #[verifier::type_invariant]
    spec fn inv(self) -> bool {
        self.tag != 0
    }

    /// Erases a concrete value into an identifier of this kind.
    pub fn new<I: IntoId<Self>>(val: I) -> (id: Self)
        ensures
            id.tag() == I::id_type(),
            id.payload() == val.into_id(),
    {
        erase(val)
    }

    /// Recovers the concrete value of type `I`: an identifier that was
    /// erased from another type is of the wrong type, and a payload that
    /// stands for no value of `I` is malformed.
    pub fn downcast<I: IntoId<Self>>(self) -> (r: Result<I, IdDowncastError>)
        ensures
            r == downcast_spec::<Self, I>(self.tag(), self.payload()),
    {
        downcast(self)
    }
}

impl IdType for ExtendedConditionId {
    closed spec fn tag(self) -> u64 {
        self.tag
    }

    closed spec fn payload(self) -> u64 {
        self.payload
    }

    proof fn lemma_parts_determine(a: Self, b: Self) {
    }

    fn from_raw_parts(tag: u64, payload: u64) -> (id: Self) {
        ExtendedConditionId { tag, payload }
    }

    fn type_tag(self) -> (t: u64) {
        proof {
            use_type_invariant(self);
        }
        self.tag
    }

    fn raw_payload(self) -> (n: u64) {
        self.payload
    }
}

/// The erased identifier of a kind of relocation that only some architecture has.
#[derive(Copy, Clone, Debug, Hash, PartialEq, Eq, Structural)]
pub struct RelocTypeId {
    tag: u64,
    payload: u64,
}

impl RelocTypeId {
    #[verifier::type_invariant]
    spec fn inv(self) -> bool {
        self.tag != 0
    }

    /// Erases a concrete value into an identifier of this kind.
    pub fn new<I: IntoId<Self>>(val: I) -> (id: Self)
        ensures
            id.tag() == I::id_type(),
            id.payload() == val.into_id(),
    {
        erase(val)
    }

    /// Recovers the concrete value of type `I`: an identifier that was
    /// erased from another type is of the wrong type, and a payload that
    /// stands for no value of `I` is malformed.
    pub fn downcast<I: IntoId<Self>>(self) -> (r: Result<I, IdDowncastError>)
        ensures
            r == downcast_spec::<Self, I>(self.tag(), self.payload()),
    {
        downcast(self)
    }
}

impl IdType for RelocTypeId {
    closed spec fn tag(self) -> u64 {
        self.tag
    }

    closed spec fn payload(self) -> u64 {
        self.payload
    }

    proof fn lemma_parts_determine(a: Self, b: Self) {
    }

    fn from_raw_parts(tag: u64, payload: u64) -> (id: Self) {
        RelocTypeId { tag, payload }
    }

    fn type_tag(self) -> (t: u64) {
        proof {
            use_type_invariant(self);
        }
        self.tag
    }

    fn raw_payload(self) -> (n: u64) {
        self.payload
    }
}

/// How the opcodes of an instruction set are laid out in bytes.
#[derive(Copy, Clone, Debug, Hash, PartialEq, Eq)]
pub struct OpcodesEncoding {
    pub min_op_bytes: u16,
    pub max_op_bytes: u16,
    pub op_word_size: u16,
    pub op_word_alignment: u16,
}

impl Default for OpcodesEncoding {
    fn default() -> (e: Self)
        ensures
            e.min_op_bytes == 0,
            e.max_op_bytes == 0,
            e.op_word_size == 0,
            e.op_word_alignment == 0,
    {
        OpcodesEncoding { min_op_bytes: 0, max_op_bytes: 0, op_word_size: 0, op_word_alignment: 0 }
    }
}

/// What an architecture says of one of its instructions.
#[derive(Copy, Clone, Debug, Hash, PartialEq, Eq)]
pub struct InstructionSpec<'a> {
    pub name: &'a str,
    pub id: InstructionId,
    pub fields: &'a [InstructionFieldId],
    pub valid_prefixes: &'a [PrefixId],
}

/// What an architecture says of one of its prefixes.
#[derive(Copy, Clone, Debug, Hash, PartialEq, Eq)]
pub struct PrefixSpec<'a> {
    pub name: &'a str,
    pub id: PrefixId,
    pub fields: &'a [InstructionFieldId],
}

/// How a symbol is to be relocated.
#[derive(Copy, Clone, Debug, Hash, PartialEq, Eq)]
pub enum RelocationType {
    Normal,
    Got,
    Plt,
    Tpoff,
    DynTpOff,
    TlsGd,
    TlsLd,
    Reloc(RelocTypeId),
}

/// A symbol with the way it is relocated.
#[derive(Copy, Clone, Debug, Hash, PartialEq, Eq)]
pub struct SymbolSpec {
    pub sym: Symbol,
    pub reloc_ty: RelocationType,
}

/// A displacement, from a symbol if one is given.
#[derive(Copy, Clone, Debug, Hash, PartialEq, Eq)]
pub struct Offset {
    pub sym: Option<SymbolSpec>,
    pub disp: i64,
}

/// An address that is computed from registers.
#[derive(Debug, Hash, PartialEq, Eq)]
pub struct ComplexAddress {

}

impl Clone for ComplexAddress {
    fn clone(&self) -> (c: Self)
        ensures
            c == *self,
    {
        ComplexAddress {  }
    }
}

/// An address: absolute, relative to the instruction, or computed.
#[derive(Debug, Hash, PartialEq, Eq)]
pub enum Address {
    Abs(Offset),
    Rel(Offset),
    Complex(ComplexAddress),
}

impl Clone for Address {
    fn clone(&self) -> (c: Self)
        ensures
            c == *self,
    {
        match self {
            Address::Abs(offset) => Address::Abs(*offset),
            Address::Rel(offset) => Address::Rel(*offset),
            Address::Complex(complex) => Address::Complex(complex.clone()),
        }
    }
}

/// An operand of an instruction. A memory operand may say how many bytes it
/// is wide.
#[derive(Debug, Hash, PartialEq, Eq)]
pub enum Operand {
    Immediate(u64),
    Address(Address),
    Memory(Address, Option<u16>),
    Register(RegisterId),
}

impl Clone for Operand {
    fn clone(&self) -> (c: Self)
        ensures
            c == *self,
    {
        match self {
            Operand::Immediate(n) => Operand::Immediate(*n),
            Operand::Address(address) => Operand::Address(address.clone()),
            Operand::Memory(address, size) => Operand::Memory(address.clone(), *size),
            Operand::Register(reg) => Operand::Register(*reg),
        }
    }
}

/// A condition that every architecture has.
#[derive(Copy, Clone, Debug, Hash, PartialEq, Eq)]
pub enum ConditionCode {
    Equal,
    NotEqual,
}

/// The value of a field of an instruction or of a prefix.
#[derive(Copy, Clone, Debug, Hash, PartialEq, Eq)]
pub enum InstructionFieldValue {
    Flag(bool),
    Val(u64),
    Register(RegisterId),
    ConditionCode(ConditionCode),
}

/// `indexmap::IndexMap`, whose inside Verus does not look into.
#[verifier::external_type_specification]
#[verifier::external_body]
#[verifier::reject_recursive_types(K)]
#[verifier::reject_recursive_types(V)]
#[verifier::reject_recursive_types(S)]
pub struct ExIndexMap<K, V, S>(IndexMap<K, V, S>);

/// The key of a field in a map of fields: the tag and the payload of its
/// identifier.
pub type FieldKey = (u64, u64);

/// The fields that a map of fields holds, with their values, in the order
/// in which they were first set.
pub uninterp spec fn field_entries(m: IndexMap<(u64, u64), InstructionFieldValue>) -> Seq<
    ((u64, u64), InstructionFieldValue),
>;

/// The position of the first entry with the key `key`.
pub open spec fn position_of(
    entries: Seq<((u64, u64), InstructionFieldValue)>,
    key: (u64, u64),
    from: int,
) -> Option<int>
    decreases entries.len() - from,
{
    if from < 0 || from >= entries.len() {
        None
    } else if entries[from].0 == key {
        Some(from)
    } else {
        position_of(entries, key, from + 1)
    }
}

/// The value that the entries give the key `key`.
pub open spec fn value_of(entries: Seq<((u64, u64), InstructionFieldValue)>, key: (u64, u64)) -> Option<
    InstructionFieldValue,
> {
    match position_of(entries, key, 0) {
        Some(i) => Some(entries[i].1),
        None => None,
    }
}

/// The entries after the key `key` was given the value `value`: an entry
/// that is there keeps its place, a new one comes last.
pub open spec fn with_value(
    entries: Seq<((u64, u64), InstructionFieldValue)>,
    key: (u64, u64),
    value: InstructionFieldValue,
) -> Seq<((u64, u64), InstructionFieldValue)> {
    match position_of(entries, key, 0) {
        Some(i) => entries.update(i, (key, value)),
        None => entries.push((key, value)),
    }
}

/// Calls `IndexMap::new`: the map it returns holds nothing.
#[verifier::external_body]
fn fields_new() -> (m: IndexMap<(u64, u64), InstructionFieldValue>)
    ensures
        field_entries(m) == Seq::<((u64, u64), InstructionFieldValue)>::empty(),
{
    IndexMap::new()
}

/// Calls `IndexMap::insert`. Where the key is in the map, it keeps its place,
/// its value is replaced and the old value is returned; else the key comes
/// last with the value, and nothing is returned.
#[verifier::external_body]
fn fields_insert(
    m: &mut IndexMap<(u64, u64), InstructionFieldValue>,
    key: (u64, u64),
    value: InstructionFieldValue,
) -> (old_value: Option<InstructionFieldValue>)
    ensures
        field_entries(*final(m)) == with_value(field_entries(*old(m)), key, value),
        old_value == value_of(field_entries(*old(m)), key),
{
    m.insert(key, value)
}

/// Calls `IndexMap::get`, which returns the value that the map holds for the
/// key, if it holds one.
#[verifier::external_body]
fn fields_get(m: &IndexMap<(u64, u64), InstructionFieldValue>, key: (u64, u64)) -> (value: Option<
    InstructionFieldValue,
>)
    ensures
        value == value_of(field_entries(*m), key),
{
    m.get(&key).copied()
}

/// Calls `IndexMap::len`, which returns the number of entries.
#[verifier::external_body]
fn fields_len(m: &IndexMap<(u64, u64), InstructionFieldValue>) -> (n: usize)
    ensures
        n == field_entries(*m).len(),
{
    m.len()
}

/// Calls `IndexMap::get_index`, which returns the entry at a position, if
/// the position is below the number of entries.
#[verifier::external_body]
fn fields_get_index(m: &IndexMap<(u64, u64), InstructionFieldValue>, index: usize) -> (entry: Option<
    ((u64, u64), InstructionFieldValue),
>)
    ensures
        entry == if index < field_entries(*m).len() {
            Some(field_entries(*m)[index as int])
        } else {
            None
        },
{
    m.get_index(index).map(|(key, value)| (*key, *value))
}

/// Calls `IndexMap::clone`: the copy holds the same entries in the same
/// order.
#[verifier::external_body]
fn fields_clone(m: &IndexMap<(u64, u64), InstructionFieldValue>) -> (copy: IndexMap<
    (u64, u64),
    InstructionFieldValue,
>)
    ensures
        field_entries(copy) == field_entries(*m),
{
    m.clone()
}

/// The key under which a field is kept.
pub open spec fn field_key(id: InstructionFieldId) -> (u64, u64) {
    (id.tag(), id.payload())
}

fn key_of(id: InstructionFieldId) -> (key: (u64, u64))
    ensures
        key == field_key(id),
{
    (id.type_tag(), id.raw_payload())
}

/// A prefix of an instruction, with the values of its fields.
#[derive(Debug, PartialEq, Eq)]
pub struct Prefix {
    spec: PrefixId,
    fields: IndexMap<(u64, u64), InstructionFieldValue>,
}

impl Clone for Prefix {
    fn clone(&self) -> (c: Self)
        ensures
            c.spec_id() == self.spec_id(),
            c.fields_spec() == self.fields_spec(),
    {
        Prefix { spec: self.spec, fields: fields_clone(&self.fields) }
    }
}

impl Prefix {
    /// Which prefix it is.
    pub closed spec fn spec_id(&self) -> PrefixId {
        self.spec
    }

    /// The fields that were set, with their values, in the order in which
    /// they were first set.
    pub closed spec fn fields_spec(&self) -> Seq<((u64, u64), InstructionFieldValue)> {
        field_entries(self.fields)
    }

    /// A prefix without fields.
    pub fn new(spec: PrefixId) -> (p: Self)
        ensures
            p.spec_id() == spec,
            p.fields_spec() == Seq::<((u64, u64), InstructionFieldValue)>::empty(),
    {
        Prefix { spec, fields: fields_new() }
    }

    /// Which prefix it is.
    pub fn spec(&self) -> (id: PrefixId)
        ensures
            id == self.spec_id(),
    {
        self.spec
    }

    /// Gives a field a value, and returns the value that it had.
    pub fn set_field(&mut self, id: InstructionFieldId, value: InstructionFieldValue) -> (old_value:
        Option<InstructionFieldValue>)
        ensures
            final(self).spec_id() == old(self).spec_id(),
            final(self).fields_spec() == with_value(old(self).fields_spec(), field_key(id), value),
            old_value == value_of(old(self).fields_spec(), field_key(id)),
    {
        fields_insert(&mut self.fields, key_of(id), value)
    }

    /// The value of a field, if it was given one.
    pub fn field(&self, id: InstructionFieldId) -> (value: Option<InstructionFieldValue>)
        ensures
            value == value_of(self.fields_spec(), field_key(id)),
    {
        fields_get(&self.fields, key_of(id))
    }
}

/// An instruction of some machine: which instruction it is, the encoding
/// mode if it is not the default one, its prefixes, the values of its fields
/// and its operands.
#[derive(Debug, PartialEq, Eq)]
pub struct Instruction {
    encoding_override: Option<EncodingId>,
    spec: InstructionId,
    prefixes: Vec<Prefix>,
    fields: IndexMap<(u64, u64), InstructionFieldValue>,
    operands: Vec<Operand>,
}

/// Whether `copy` holds copies of the prefixes `prefixes`, in order.
pub open spec fn same_prefixes(copy: Seq<Prefix>, prefixes: Seq<Prefix>) -> bool {
    &&& copy.len() == prefixes.len()
    &&& forall|i: int|
        0 <= i < copy.len() ==> (#[trigger] copy[i]).spec_id() == prefixes[i].spec_id()
            && copy[i].fields_spec() == prefixes[i].fields_spec()
}

impl Clone for Instruction {
    fn clone(&self) -> (c: Self)
        ensures
            c.spec_id() == self.spec_id(),
            c.encoding_spec() == self.encoding_spec(),
            same_prefixes(c.prefixes_spec(), self.prefixes_spec()),
            c.fields_spec() == self.fields_spec(),
            c.operands_spec() == self.operands_spec(),
    {
        let mut prefixes: Vec<Prefix> = Vec::new();
        let mut i: usize = 0;
        while i < self.prefixes.len()
            invariant
                i <= self.prefixes.len(),
                same_prefixes(prefixes@, self.prefixes@.subrange(0, i as int)),
            decreases self.prefixes.len() - i,
        {
            prefixes.push(self.prefixes[i].clone());
            i = i + 1;
        }
        assert(self.prefixes@.subrange(0, i as int) =~= self.prefixes@);
        let mut operands: Vec<Operand> = Vec::new();
        let mut j: usize = 0;
        while j < self.operands.len()
            invariant
                j <= self.operands.len(),
                operands@ == self.operands@.subrange(0, j as int),
            decreases self.operands.len() - j,
        {
            operands.push(self.operands[j].clone());
            assert(operands@ =~= self.operands@.subrange(0, j + 1));
            j = j + 1;
        }
        assert(self.operands@.subrange(0, j as int) =~= self.operands@);
        Instruction {
            encoding_override: self.encoding_override,
            spec: self.spec,
            prefixes,
            fields: fields_clone(&self.fields),
            operands,
        }
    }
}

impl Instruction {
    /// Which instruction it is.
    pub closed spec fn spec_id(&self) -> InstructionId {
        self.spec
    }

    /// The encoding mode, if it is not the default one.
    pub closed spec fn encoding_spec(&self) -> Option<EncodingId> {
        self.encoding_override
    }

    /// The prefixes, in order.
    pub closed spec fn prefixes_spec(&self) -> Seq<Prefix> {
        self.prefixes@
    }

    /// The fields that were set, with their values, in the order in which
    /// they were first set.
    pub closed spec fn fields_spec(&self) -> Seq<((u64, u64), InstructionFieldValue)> {
        field_entries(self.fields)
    }

    /// The operands, in order.
    pub closed spec fn operands_spec(&self) -> Seq<Operand> {
        self.operands@
    }

    /// An instruction in the default encoding mode, without prefixes, fields
    /// or operands.
    pub fn new(spec: InstructionId) -> (i: Self)
        ensures
            i.spec_id() == spec,
            i.encoding_spec() is None,
            i.prefixes_spec() == Seq::<Prefix>::empty(),
            i.fields_spec() == Seq::<((u64, u64), InstructionFieldValue)>::empty(),
            i.operands_spec() == Seq::<Operand>::empty(),
    {
        Instruction {
            encoding_override: None,
            spec,
            prefixes: Vec::new(),
            fields: fields_new(),
            operands: Vec::new(),
        }
    }

    /// Which instruction it is.
    pub fn spec(&self) -> (id: InstructionId)
        ensures
            id == self.spec_id(),
    {
        self.spec
    }

    /// The encoding mode, if it is not the default one.
    pub fn encoding_override(&self) -> (mode: Option<EncodingId>)
        ensures
            mode == self.encoding_spec(),
    {
        self.encoding_override
    }

    /// Sets the encoding mode, or goes back to the default one.
    pub fn set_encoding_override(&mut self, mode: Option<EncodingId>)
        ensures
            final(self).encoding_spec() == mode,
            final(self).spec_id() == old(self).spec_id(),
            final(self).prefixes_spec() == old(self).prefixes_spec(),
            final(self).fields_spec() == old(self).fields_spec(),
            final(self).operands_spec() == old(self).operands_spec(),
    {
        self.encoding_override = mode;
    }

    /// Appends a prefix.
    pub fn push_prefix(&mut self, prefix: Prefix)
        ensures
            final(self).prefixes_spec() == old(self).prefixes_spec().push(prefix),
            final(self).spec_id() == old(self).spec_id(),
            final(self).encoding_spec() == old(self).encoding_spec(),
            final(self).fields_spec() == old(self).fields_spec(),
            final(self).operands_spec() == old(self).operands_spec(),
    {
        self.prefixes.push(prefix);
    }

    /// Appends an operand.
    pub fn push_operand(&mut self, operand: Operand)
        ensures
            final(self).operands_spec() == old(self).operands_spec().push(operand),
            final(self).spec_id() == old(self).spec_id(),
            final(self).encoding_spec() == old(self).encoding_spec(),
            final(self).prefixes_spec() == old(self).prefixes_spec(),
            final(self).fields_spec() == old(self).fields_spec(),
    {
        self.operands.push(operand);
    }

    /// Gives a field a value, and returns the value that it had.
    pub fn set_field(&mut self, id: InstructionFieldId, value: InstructionFieldValue) -> (old_value:
        Option<InstructionFieldValue>)
        ensures
            final(self).fields_spec() == with_value(old(self).fields_spec(), field_key(id), value),
            old_value == value_of(old(self).fields_spec(), field_key(id)),
            final(self).spec_id() == old(self).spec_id(),
            final(self).encoding_spec() == old(self).encoding_spec(),
            final(self).prefixes_spec() == old(self).prefixes_spec(),
            final(self).operands_spec() == old(self).operands_spec(),
    {
        fields_insert(&mut self.fields, key_of(id), value)
    }

    /// The value of a field, if it was given one.
    pub fn field(&self, id: InstructionFieldId) -> (value: Option<InstructionFieldValue>)
        ensures
            value == value_of(self.fields_spec(), field_key(id)),
    {
        fields_get(&self.fields, key_of(id))
    }

    /// How many fields were given a value.
    pub fn field_count(&self) -> (n: usize)
        ensures
            n == self.fields_spec().len(),
    {
        fields_len(&self.fields)
    }

    /// The field at a position in the order in which the fields were first
    /// set, with its value.
    pub fn field_at(&self, index: usize) -> (entry: Option<((u64, u64), InstructionFieldValue)>)
        ensures
            entry == if index < self.fields_spec().len() {
                Some(self.fields_spec()[index as int])
            } else {
                None
            },
    {
        fields_get_index(&self.fields, index)
    }

    /// The prefixes, in order.
    pub fn prefixes(&self) -> (p: &Vec<Prefix>)
        ensures
            p@ == self.prefixes_spec(),
    {
        &self.prefixes
    }

    /// The operands, in order.
    pub fn operands(&self) -> (o: &Vec<Operand>)
        ensures
            o@ == self.operands_spec(),
    {
        &self.operands
    }
}

/// A field that was given a value has that value, and every other field has
/// the value that it had.
pub proof fn lemma_with_value(
    entries: Seq<((u64, u64), InstructionFieldValue)>,
    key: (u64, u64),
    value: InstructionFieldValue,
    other: (u64, u64),
)
    ensures
        value_of(with_value(entries, key, value), key) == Some(value),
        other != key ==> value_of(with_value(entries, key, value), other) == value_of(
            entries,
            other,
        ),
{
    let after = with_value(entries, key, value);
    lemma_position_bounds(entries, key, 0);
    lemma_position_bounds(entries, other, 0);
    match position_of(entries, key, 0) {
        Some(i) => {
            lemma_position_same_keys(entries, after, key, 0);
            lemma_position_same_keys(entries, after, other, 0);
        },
        None => {
            lemma_position_pushed(entries, (key, value), key, 0);
            lemma_position_pushed(entries, (key, value), other, 0);
        },
    }
}

proof fn lemma_position_same_keys(
    a: Seq<((u64, u64), InstructionFieldValue)>,
    b: Seq<((u64, u64), InstructionFieldValue)>,
    key: (u64, u64),
    from: int,
)
    requires
        0 <= from,
        a.len() == b.len(),
        forall|j: int| 0 <= j < a.len() ==> (#[trigger] a[j]).0 == b[j].0,
    ensures
        position_of(a, key, from) == position_of(b, key, from),
    decreases a.len() - from,
{
    if from < a.len() {
        assert(a[from].0 == b[from].0);
        if a[from].0 != key {
            lemma_position_same_keys(a, b, key, from + 1);
        }
    }
}

proof fn lemma_position_pushed(
    entries: Seq<((u64, u64), InstructionFieldValue)>,
    entry: ((u64, u64), InstructionFieldValue),
    key: (u64, u64),
    from: int,
)
    requires
        0 <= from <= entries.len(),
    ensures
        position_of(entries.push(entry), key, from) == match position_of(entries, key, from) {
            Some(i) => Some(i),
            None => if entry.0 == key {
                Some(entries.len() as int)
            } else {
                None
            },
        },
    decreases entries.len() - from,
{
    let pushed = entries.push(entry);
    if from < entries.len() {
        assert(pushed[from] == entries[from]);
        if entries[from].0 != key {
            lemma_position_pushed(entries, entry, key, from + 1);
        }
    } else {
        assert(pushed[from] == entry);
        assert(position_of(pushed, key, from + 1) is None);
    }
}

proof fn lemma_position_bounds(
    entries: Seq<((u64, u64), InstructionFieldValue)>,
    key: (u64, u64),
    from: int,
)
    requires
        0 <= from,
    ensures
        position_of(entries, key, from) matches Some(i) ==> from <= i < entries.len()
            && entries[i].0 == key,
    decreases entries.len() - from,
{
    if from < entries.len() && entries[from].0 != key {
        lemma_position_bounds(entries, key, from + 1);
    }
}

/// What an error says of an identifier that an architecture does not have:
/// what kind of thing was asked for, and the tag and the payload of the
/// identifier.
pub open spec fn unknown_text(what: Seq<char>, tag: u64, payload: u64) -> Seq<char> {
    "unknown "@ + what + " "@ + decimal_spec(tag as nat) + ":"@ + decimal_spec(payload as nat)
}

/// Whether an error says that an architecture does not have the identifier
/// with the given parts.
pub open spec fn is_unknown(e: Error, what: Seq<char>, tag: u64, payload: u64) -> bool {
    &&& e.kind_spec() is BadInstr
    &&& e.payload_spec() == Some(unknown_text(what, tag, payload))
    &&& e.source_file_spec() is None
}

fn unknown_error(what: &str, tag: u64, payload: u64) -> (e: Error)
    ensures
        is_unknown(e, what@, tag, payload),
{
    let mut text = String::from_str("unknown ");
    text.append(what);
    text.append(" ");
    push_decimal(&mut text, tag);
    text.append(":");
    push_decimal(&mut text, payload);
    assert(text@ =~= unknown_text(what@, tag, payload));
    Error::new(ErrorKind::BadInstr, text)
}

/// The position of the first instruction with the identifier `id` from
/// `from` on.
pub open spec fn instr_position(table: Seq<InstructionSpec>, id: InstructionId, from: int) -> Option<
    int,
>
    decreases table.len() - from,
{
    if from < 0 || from >= table.len() {
        None
    } else if table[from].id == id {
        Some(from)
    } else {
        instr_position(table, id, from + 1)
    }
}

/// The position of the first prefix with the identifier `id` from `from`
/// on.
pub open spec fn prefix_position(table: Seq<PrefixSpec>, id: PrefixId, from: int) -> Option<int>
    decreases table.len() - from,
{
    if from < 0 || from >= table.len() {
        None
    } else if table[from].id == id {
        Some(from)
    } else {
        prefix_position(table, id, from + 1)
    }
}

/// Looks an instruction up in a table. An identifier that the table does
/// not hold is an error that names the identifier.
pub fn find_instr<'a>(table: &[InstructionSpec<'a>], id: InstructionId) -> (r: Result<
    InstructionSpec<'a>,
    Error,
>)
    ensures
        match r {
            Ok(spec) => instr_position(table@, id, 0) matches Some(i) && spec == table@[i],
            Err(e) => instr_position(table@, id, 0) is None && is_unknown(
                e,
                "instruction"@,
                id.tag(),
                id.payload(),
            ),
        },
{
    let mut i: usize = 0;
    while i < table.len()
        invariant
            i <= table.len(),
            instr_position(table@, id, 0) == instr_position(table@, id, i as int),
        decreases table.len() - i,
    {
        if table[i].id == id {
            return Ok(table[i]);
        }
        i = i + 1;
    }
    Err(unknown_error("instruction", id.type_tag(), id.raw_payload()))
}

/// Looks a prefix up in a table. An identifier that the table does not hold
/// is an error that names the identifier.
pub fn find_prefix<'a>(table: &[PrefixSpec<'a>], id: PrefixId) -> (r: Result<PrefixSpec<'a>, Error>)
    ensures
        match r {
            Ok(spec) => prefix_position(table@, id, 0) matches Some(i) && spec == table@[i],
            Err(e) => prefix_position(table@, id, 0) is None && is_unknown(
                e,
                "prefix"@,
                id.tag(),
                id.payload(),
            ),
        },
{
    let mut i: usize = 0;
    while i < table.len()
        invariant
            i <= table.len(),
            prefix_position(table@, id, 0) == prefix_position(table@, id, i as int),
        decreases table.len() - i,
    {
        if table[i].id == id {
            return Ok(table[i]);
        }
        i = i + 1;
    }
    Err(unknown_error("prefix", id.type_tag(), id.raw_payload()))
}

/// What an architecture has to offer to take part in the services on
/// instructions.
pub trait Opcodes {
    /// Whether the architecture has the instruction.
    spec fn has_instr(&self, id: InstructionId) -> bool;

    /// Whether the architecture has the prefix.
    spec fn has_prefix(&self, id: PrefixId) -> bool;

    /// Whether the architecture has the register.
    spec fn has_register(&self, reg: RegisterId) -> bool;

    /// How the opcodes are laid out in bytes.
    fn encoding_info(&self) -> OpcodesEncoding;

    /// What the architecture says of an instruction. An instruction that it
    /// does not have is an error that names the identifier.
    fn instr_spec<'a>(&'a self, id: InstructionId) -> (r: Result<InstructionSpec<'a>, Error>)
        ensures
            match r {
                Ok(spec) => self.has_instr(id) && spec.id == id,
                Err(e) => !self.has_instr(id) && is_unknown(
                    e,
                    "instruction"@,
                    id.tag(),
                    id.payload(),
                ),
            },
    ;

    /// What the architecture says of a prefix. A prefix that it does not
    /// have is an error that names the identifier.
    fn prefix_spec<'a>(&'a self, id: PrefixId) -> (r: Result<PrefixSpec<'a>, Error>)
        ensures
            match r {
                Ok(spec) => self.has_prefix(id) && spec.id == id,
                Err(e) => !self.has_prefix(id) && is_unknown(e, "prefix"@, id.tag(), id.payload()),
            },
    ;

    /// The instructions that do what `instr` does and that the encoder can
    /// take: at least one, and `instr` alone where it is legal.
    fn legalize(&self, instr: &Instruction) -> (out: Vec<Instruction>)
        ensures
            out@.len() >= 1,
    ;

    /// The encoding mode of instructions that name none.
    fn default_encoding_mode(&self) -> EncodingId;

    /// Whether the architecture has the register.
    fn knows_register(&self, reg: RegisterId) -> (b: bool)
        ensures
            b == self.has_register(reg),
    ;

    /// The class of a register of the architecture.
    fn reg_class(&self, reg: RegisterId) -> RegisterClassId
        requires
            self.has_register(reg),
    ;
}

/// An instruction set that is written down as tables.
#[derive(Debug)]
pub struct OpcodeTable<'a> {
    pub encoding: OpcodesEncoding,
    pub default_encoding: EncodingId,
    pub instrs: Vec<InstructionSpec<'a>>,
    pub prefixes: Vec<PrefixSpec<'a>>,
    /// The registers, each with its class.
    pub classes: Vec<(RegisterId, RegisterClassId)>,
}

/// The position of the first register `reg` from `from` on.
pub open spec fn class_position(
    classes: Seq<(RegisterId, RegisterClassId)>,
    reg: RegisterId,
    from: int,
) -> Option<int>
    decreases classes.len() - from,
{
    if from < 0 || from >= classes.len() {
        None
    } else if classes[from].0 == reg {
        Some(from)
    } else {
        class_position(classes, reg, from + 1)
    }
}

impl<'a> OpcodeTable<'a> {
    /// The class that the table gives a register.
    pub open spec fn class_of(&self, reg: RegisterId) -> Option<RegisterClassId> {
        match class_position(self.classes@, reg, 0) {
            Some(i) => Some(self.classes@[i].1),
            None => None,
        }
    }

    /// Looks up the class of a register.
    pub fn find_class(&self, reg: RegisterId) -> (class: Option<RegisterClassId>)
        ensures
            class == self.class_of(reg),
    {
        let mut i: usize = 0;
        while i < self.classes.len()
            invariant
                i <= self.classes.len(),
                class_position(self.classes@, reg, 0) == class_position(
                    self.classes@,
                    reg,
                    i as int,
                ),
            decreases self.classes.len() - i,
        {
            if self.classes[i].0 == reg {
                return Some(self.classes[i].1);
            }
            i = i + 1;
        }
        None
    }
}

impl<'a> Opcodes for OpcodeTable<'a> {
    open spec fn has_instr(&self, id: InstructionId) -> bool {
        instr_position(self.instrs@, id, 0) is Some
    }

    open spec fn has_prefix(&self, id: PrefixId) -> bool {
        prefix_position(self.prefixes@, id, 0) is Some
    }

    open spec fn has_register(&self, reg: RegisterId) -> bool {
        self.class_of(reg) is Some
    }

    fn encoding_info(&self) -> (info: OpcodesEncoding)
        ensures
            info == self.encoding,
    {
        self.encoding
    }

    fn instr_spec<'b>(&'b self, id: InstructionId) -> (r: Result<InstructionSpec<'b>, Error>) {
        proof {
            lemma_instr_position(self.instrs@, id, 0);
        }
        find_instr(self.instrs.as_slice(), id)
    }

    fn prefix_spec<'b>(&'b self, id: PrefixId) -> (r: Result<PrefixSpec<'b>, Error>) {
        proof {
            lemma_prefix_position(self.prefixes@, id, 0);
        }
        find_prefix(self.prefixes.as_slice(), id)
    }

    /// Every instruction is taken to be legal: it is returned alone and as
    /// it is.
    fn legalize(&self, instr: &Instruction) -> (out: Vec<Instruction>)
        ensures
            out@.len() == 1,
            out@[0].spec_id() == instr.spec_id(),
            out@[0].encoding_spec() == instr.encoding_spec(),
            same_prefixes(out@[0].prefixes_spec(), instr.prefixes_spec()),
            out@[0].fields_spec() == instr.fields_spec(),
            out@[0].operands_spec() == instr.operands_spec(),
    {
        let mut out: Vec<Instruction> = Vec::new();
        out.push(instr.clone());
        out
    }

    fn default_encoding_mode(&self) -> (mode: EncodingId)
        ensures
            mode == self.default_encoding,
    {
        self.default_encoding
    }

    fn knows_register(&self, reg: RegisterId) -> (b: bool) {
        self.find_class(reg).is_some()
    }

    fn reg_class(&self, reg: RegisterId) -> (class: RegisterClassId)
        ensures
            self.class_of(reg) == Some(class),
    {
        match self.find_class(reg) {
            Some(class) => class,
            None => self.classes[0].1,
        }
    }
}

/// Where an instruction is found, it has the identifier that was asked for.
pub proof fn lemma_instr_position(table: Seq<InstructionSpec>, id: InstructionId, from: int)
    requires
        0 <= from,
    ensures
        instr_position(table, id, from) matches Some(i) ==> from <= i < table.len() && table[i].id
            == id,
    decreases table.len() - from,
{
    if from < table.len() && table[from].id != id {
        lemma_instr_position(table, id, from + 1);
    }
}

/// Where a prefix is found, it has the identifier that was asked for.
pub proof fn lemma_prefix_position(table: Seq<PrefixSpec>, id: PrefixId, from: int)
    requires
        0 <= from,
    ensures
        prefix_position(table, id, from) matches Some(i) ==> from <= i < table.len() && table[i].id
            == id,
    decreases table.len() - from,
{
    if from < table.len() && table[from].id != id {
        lemma_prefix_position(table, id, from + 1);
    }
}

/// Whether an instruction refers to nothing but what the architecture has:
/// the instruction itself, its prefixes, and the registers among its
/// operands and among the values of its fields.
pub open spec fn refers_within<O: Opcodes>(ops: &O, instr: &Instruction) -> bool {
    &&& ops.has_instr(instr.spec_id())
    &&& forall|i: int|
        0 <= i < instr.prefixes_spec().len() ==> ops.has_prefix(
            (#[trigger] instr.prefixes_spec()[i]).spec_id(),
        )
    &&& forall|i: int|
        0 <= i < instr.operands_spec().len() ==> (
        #[trigger] instr.operands_spec()[i] matches Operand::Register(reg) ==> ops.has_register(reg))
    &&& forall|i: int|
        0 <= i < instr.fields_spec().len() ==> (
        (#[trigger] instr.fields_spec()[i]).1 matches InstructionFieldValue::Register(reg)
            ==> ops.has_register(reg))
}

/// Checks that an instruction refers to nothing but what the architecture
/// has. What it refers to beyond that is an error that names the identifier.
pub fn check_instruction<O: Opcodes>(ops: &O, instr: &Instruction) -> (r: Result<(), Error>)
    ensures
        r is Ok <==> refers_within(ops, instr),
        r matches Err(e) ==> e.kind_spec() is BadInstr,
{
    match ops.instr_spec(instr.spec()) {
        Err(e) => {
            return Err(e);
        },
        Ok(_) => {},
    }
    let prefixes = instr.prefixes();
    let mut i: usize = 0;
    while i < prefixes.len()
        invariant
            i <= prefixes.len(),
            prefixes@ == instr.prefixes_spec(),
            forall|j: int| 0 <= j < i ==> ops.has_prefix((#[trigger] prefixes@[j]).spec_id()),
        decreases prefixes.len() - i,
    {
        match ops.prefix_spec(prefixes[i].spec()) {
            Err(e) => {
                return Err(e);
            },
            Ok(_) => {},
        }
        i = i + 1;
    }
    let operands = instr.operands();
    let mut j: usize = 0;
    while j < operands.len()
        invariant
            j <= operands.len(),
            operands@ == instr.operands_spec(),
            forall|k: int|
                0 <= k < j ==> (#[trigger] operands@[k] matches Operand::Register(reg)
                    ==> ops.has_register(reg)),
        decreases operands.len() - j,
    {
        match &operands[j] {
            Operand::Register(reg) => {
                if !ops.knows_register(*reg) {
                    return Err(unknown_error("register", reg.type_tag(), reg.raw_payload()));
                }
            },
            _ => {},
        }
        j = j + 1;
    }
    let count: usize = instr.field_count();
    let mut k: usize = 0;
    while k < count
        invariant
            k <= count,
            count == instr.fields_spec().len(),
            forall|n: int|
                0 <= n < k ==> ((#[trigger] instr.fields_spec()[n]).1 matches InstructionFieldValue::Register(
                    reg,
                ) ==> ops.has_register(reg)),
        decreases count - k,
    {
        match instr.field_at(k) {
            Some((_, InstructionFieldValue::Register(reg))) => {
                if !ops.knows_register(reg) {
                    return Err(unknown_error("register", reg.type_tag(), reg.raw_payload()));
                }
            },
            _ => {},
        }
        k = k + 1;
    }
    Ok(())
}

} // verus!
