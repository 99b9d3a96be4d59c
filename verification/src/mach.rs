//! Machines: the erased identifiers of opcodes, registers and machine modes,
//! what an architecture has to say of its registers, and the view of a
//! machine that architecture-independent code works with.

use vstd::prelude::*;
use vstd::string::StringExecFns;
use crate::compiler::CompilerSpec;
use crate::helpers::{downcast, downcast_spec, erase, IdDowncastError};
use crate::instr::RegisterKind;
use crate::traits::{IdType, IntoId, Name};
use crate::xva::XvaCategory;

verus! {

/// The erased identifier of an opcode of some machine.
#[derive(Copy, Clone, Debug, Hash, PartialEq, Eq, Structural)]
pub struct Opcode {
    tag: u64,
    payload: u64,
}

impl Opcode {
    #[verifier::type_invariant]
    spec fn inv(self) -> bool {
        self.tag != 0
    }

    /// Erases a concrete value into an identifier of this kind.
    pub fn new<I: IntoId<Self>>(val: I) -> (id: Self)
        ensures
            id.tag() == I::id_type(),
            id.payload() == val.into_id(),
    {
        erase(val)
    }

    /// Recovers the concrete value of type `I`: an identifier that was
    /// erased from another type is of the wrong type, and a payload that
    /// stands for no value of `I` is malformed.
    pub fn downcast<I: IntoId<Self>>(self) -> (r: Result<I, IdDowncastError>)
        ensures
            r == downcast_spec::<Self, I>(self.tag(), self.payload()),
    {
        downcast(self)
    }
}

impl IdType for Opcode {
    closed spec fn tag(self) -> u64 {
        self.tag
    }

    closed spec fn payload(self) -> u64 {
        self.payload
    }

    proof fn lemma_parts_determine(a: Self, b: Self) {
    }

    fn from_raw_parts(tag: u64, payload: u64) -> (id: Self) {
        Opcode { tag, payload }
    }

    fn type_tag(self) -> (t: u64) {
        proof {
            use_type_invariant(self);
        }
        self.tag
    }

    fn raw_payload(self) -> (n: u64) {
        self.payload
    }
}

/// The erased identifier of a mode of some machine.
#[derive(Copy, Clone, Debug, Hash, PartialEq, Eq, Structural)]
pub struct MachineMode {
    tag: u64,
    payload: u64,
}

impl MachineMode {
    #[verifier::type_invariant]
    spec fn inv(self) -> bool {
        self.tag != 0
    }

    /// Erases a concrete value into an identifier of this kind.
    pub fn new<I: IntoId<Self>>(val: I) -> (id: Self)
        ensures
            id.tag() == I::id_type(),
            id.payload() == val.into_id(),
    {
        erase(val)
    }

    /// Recovers the concrete value of type `I`: an identifier that was
    /// erased from another type is of the wrong type, and a payload that
    /// stands for no value of `I` is malformed.
    pub fn downcast<I: IntoId<Self>>(self) -> (r: Result<I, IdDowncastError>)
        ensures
            r == downcast_spec::<Self, I>(self.tag(), self.payload()),
    {
        downcast(self)
    }
}

impl IdType for MachineMode {
    closed spec fn tag(self) -> u64 {
        self.tag
    }

    closed spec fn payload(self) -> u64 {
        self.payload
    }

    proof fn lemma_parts_determine(a: Self, b: Self) {
    }

    fn from_raw_parts(tag: u64, payload: u64) -> (id: Self) {
        MachineMode { tag, payload }
    }

    fn type_tag(self) -> (t: u64) {
        proof {
            use_type_invariant(self);
        }
        self.tag
    }

    fn raw_payload(self) -> (n: u64) {
        self.payload
    }
}

/// The erased identifier of a register of some machine.
#[derive(Copy, Clone, Debug, Hash, PartialEq, Eq, Structural)]
pub struct Register {
    tag: u64,
    payload: u64,
}

impl Register {
    #[verifier::type_invariant]
    spec fn inv(self) -> bool {
        self.tag != 0
    }

    /// Erases a concrete value into an identifier of this kind.
    pub fn new<I: IntoId<Self>>(val: I) -> (id: Self)
        ensures
            id.tag() == I::id_type(),
            id.payload() == val.into_id(),
    {
        erase(val)
    }

    /// Recovers the concrete value of type `I`: an identifier that was
    /// erased from another type is of the wrong type, and a payload that
    /// stands for no value of `I` is malformed.
    pub fn downcast<I: IntoId<Self>>(self) -> (r: Result<I, IdDowncastError>)
        ensures
            r == downcast_spec::<Self, I>(self.tag(), self.payload()),
    {
        downcast(self)
    }
}

impl IdType for Register {
    closed spec fn tag(self) -> u64 {
        self.tag
    }

    closed spec fn payload(self) -> u64 {
        self.payload
    }

    proof fn lemma_parts_determine(a: Self, b: Self) {
    }

    fn from_raw_parts(tag: u64, payload: u64) -> (id: Self) {
        Register { tag, payload }
    }

    fn type_tag(self) -> (t: u64) {
        proof {
            use_type_invariant(self);
        }
        self.tag
    }

    fn raw_payload(self) -> (n: u64) {
        self.payload
    }
}

/// A machine with a single mode.
#[derive(Copy, Clone, Debug, Hash, PartialEq, Eq, Structural)]
pub enum OneMachine {
    Singleton,
}

/// The type tag is the one that is minted for the definition of this type
/// as an identifier of this kind.
impl IntoId<MachineMode> for OneMachine {
    open spec fn id_type() -> u64 {
        0x3960_a154_7bee_45b3
    }

    open spec fn into_id(self) -> u64 {
        0
    }

    open spec fn try_downcast(val: u64) -> Option<Self> {
        if val == 0 {
            Some(OneMachine::Singleton)
        } else {
            None
        }
    }

    proof fn lemma_payload_round_trip(v: Self) {
    }

    fn exec_id_type() -> (tag: u64) {
        0x3960_a154_7bee_45b3
    }

    fn exec_into_id(self) -> (n: u64) {
        0
    }

    fn exec_try_downcast(val: u64) -> (r: Option<Self>) {
        if val == 0 {
            Some(OneMachine::Singleton)
        } else {
            None
        }
    }
}

impl Name for OneMachine {
    open spec fn name_spec(&self) -> Seq<char> {
        "Singleton"@
    }

    fn name(&self) -> (s: String) {
        String::from_str("Singleton")
    }
}

/// The modes of a machine with a single mode.
pub fn one_machine() -> (modes: Vec<MachineMode>)
    ensures
        erased_list::<MachineMode, OneMachine>(modes@, seq![OneMachine::Singleton]),
{
    let mut modes: Vec<MachineMode> = Vec::new();
    modes.push(MachineMode::new(OneMachine::Singleton));
    modes
}

/// The largest size of a register, in bytes, that this library works with:
/// the alignment of a larger one would not fit 32 bits.
pub const MAX_REGISTER_SIZE: u32 = 0x8000_0000;

/// Whether `n` is a power of two.
pub open spec fn is_power_of_two(n: nat) -> bool
    decreases n,
{
    n == 1 || (n > 1 && n % 2 == 0 && is_power_of_two(n / 2))
}

/// The first of `p`, `2 * p`, `4 * p`, … that is not less than `x`.
pub open spec fn doubled_up_to(x: nat, p: nat) -> nat
    decreases
            (if p < x {
                x - p
            } else {
                0
            }),
{
    if p >= x || p == 0 {
        p
    } else {
        doubled_up_to(x, 2 * p)
    }
}

/// The smallest power of two that is not less than `x`.
pub open spec fn next_power_of_two_spec(x: nat) -> nat {
    doubled_up_to(x, 1)
}

/// Of two powers of two, the smaller is at most half the larger.
pub proof fn lemma_power_of_two_gap(q: nat, p: nat)
    requires
        is_power_of_two(q),
        is_power_of_two(p),
        q < p,
    ensures
        2 * q <= p,
    decreases q,
{
    if q > 1 {
        lemma_power_of_two_gap(q / 2, p / 2);
    }
}

proof fn lemma_doubled_up_to(x: nat, p: nat)
    requires
        is_power_of_two(p),
        p == 1 || p < 2 * x,
    ensures
        is_power_of_two(doubled_up_to(x, p)),
        doubled_up_to(x, p) >= x,
        doubled_up_to(x, p) >= p,
        doubled_up_to(x, p) == 1 || doubled_up_to(x, p) < 2 * x,
    decreases
            (if p < x {
                x - p
            } else {
                0
            }),
{
    if p >= x {
    } else {
        assert(is_power_of_two(2 * p)) by {
            assert((2 * p) / 2 == p);
        }
        lemma_doubled_up_to(x, 2 * p);
    }
}

/// The next power of two is a power of two, is not less than `x`, and no
/// power of two between `x` and it exists.
pub proof fn lemma_next_power_of_two(x: nat)
    ensures
        is_power_of_two(next_power_of_two_spec(x)),
        next_power_of_two_spec(x) >= x,
        next_power_of_two_spec(x) >= 1,
        forall|q: nat| is_power_of_two(q) && q >= x ==> next_power_of_two_spec(x) <= q,
{
    lemma_doubled_up_to(x, 1);
    let r = next_power_of_two_spec(x);
    assert forall|q: nat| is_power_of_two(q) && q >= x implies r <= q by {
        if q < r {
            lemma_power_of_two_gap(q, r);
        }
    }
}

/// Rounds `x` up to a power of two.
pub fn next_power_of_two(x: u32) -> (p: u32)
    requires
        x <= MAX_REGISTER_SIZE,
    ensures
        p == next_power_of_two_spec(x as nat),
        is_power_of_two(p as nat),
        p >= x,
        p >= 1,
{
    let mut p: u32 = 1;
    while p < x
        invariant
            1 <= p <= MAX_REGISTER_SIZE,
            x <= MAX_REGISTER_SIZE,
            is_power_of_two(p as nat),
            p == 1 || p < 2 * x,
            doubled_up_to(x as nat, p as nat) == next_power_of_two_spec(x as nat),
        decreases
                (if p < x {
                    x - p
                } else {
                    0
                }),
    {
        proof {
            lemma_doubled_up_to(x as nat, p as nat);
            if 2 * p > MAX_REGISTER_SIZE {
                assert(is_power_of_two(MAX_REGISTER_SIZE as nat)) by {
                    reveal_with_fuel(is_power_of_two, 33);
                }
                lemma_power_of_two_gap(p as nat, MAX_REGISTER_SIZE as nat);
            }
            assert(is_power_of_two((2 * p) as nat)) by {
                assert((2 * p) / 2 == p);
            }
        }
        p = 2 * p;
    }
    proof {
        lemma_next_power_of_two(x as nat);
    }
    p
}

/// What an architecture says of its registers.
///
/// Everything is a pure function of the register and, where one is given, of
/// the mode.
pub trait RegisterSpec: IntoId<Register> + Name {
    type MachineMode: IntoId<MachineMode>;

    /// The kind of the register.
    spec fn kind_spec(&self) -> RegisterKind;

    /// The size of the register in bytes.
    spec fn size_spec(&self, mode: Self::MachineMode) -> u32;

    /// The category of what the register holds.
    spec fn category_spec(&self, mode: Self::MachineMode) -> XvaCategory;

    /// The alignment of the register in bytes.
    spec fn align_spec(&self, mode: Self::MachineMode) -> u32;

    /// Whether two registers share storage.
    spec fn overlaps_spec(&self, other: &Self) -> bool;

    /// Whether the register can be used in the mode.
    spec fn valid_in_mode_spec(&self, mode: Self::MachineMode) -> bool;

    /// Sharing storage goes both ways, and every register shares storage
    /// with itself.
    proof fn lemma_overlaps_symmetric(a: Self, b: Self)
        ensures
            a.overlaps_spec(&b) == b.overlaps_spec(&a),
            a.overlaps_spec(&a),
    ;

    /// The alignment is a power of two.
    proof fn lemma_align_power_of_two(r: Self, mode: Self::MachineMode)
        ensures
            is_power_of_two(r.align_spec(mode) as nat),
    ;

    /// The kind of the register.
    fn kind(&self) -> (k: RegisterKind)
        ensures
            k == self.kind_spec(),
    ;

    /// The size of the register in bytes.
    fn size(&self, mode: Self::MachineMode) -> (n: u32)
        ensures
            n == self.size_spec(mode),
            n <= MAX_REGISTER_SIZE,
    ;

    /// The category of what the register holds.
    fn category(&self, mode: Self::MachineMode) -> (c: XvaCategory)
        ensures
            c == self.category_spec(mode),
    ;

    /// The alignment of the register in bytes. An architecture that has
    /// nothing else to say of it takes the size rounded up to a power of two:
    /// it defines `align_spec` as `next_power_of_two_spec` of the size and
    /// returns `next_power_of_two` of the size.
    ///
    /// The rounding is a function beside the trait and no body of this
    /// method, because the result is held to `align_spec`, which every
    /// architecture defines for itself: a body written here would have to
    /// meet a definition that it cannot know.
    fn align(&self, mode: Self::MachineMode) -> (a: u32)
        ensures
            a == self.align_spec(mode),
            is_power_of_two(a as nat),
            a >= 1,
    ;

    /// Whether two registers share storage.
    fn overlaps(&self, other: &Self) -> (b: bool)
        ensures
            b == self.overlaps_spec(other),
    ;

    /// Whether the register can be used in the mode.
    fn valid_in_mode(&self, mode: Self::MachineMode) -> (b: bool)
        ensures
            b == self.valid_in_mode_spec(mode),
    ;
}

/// Whether two registers share storage does not depend on the order in
/// which they are asked about, and every register shares storage with
/// itself.
pub proof fn lemma_overlaps_symmetric<R: RegisterSpec>(a: R, b: R)
    ensures
        a.overlaps_spec(&b) == b.overlaps_spec(&a),
        a.overlaps_spec(&a),
{
    R::lemma_overlaps_symmetric(a, b);
}

/// The alignment of a register in a mode is a power of two, and so it is at
/// least one.
pub proof fn lemma_align_power_of_two<R: RegisterSpec>(r: R, mode: R::MachineMode)
    ensures
        is_power_of_two(r.align_spec(mode) as nat),
        r.align_spec(mode) >= 1,
{
    R::lemma_align_power_of_two(r, mode);
}

/// What an architecture says of one machine: its opcodes, its registers and
/// its modes, each as a concrete enumeration with a full listing.
pub trait MachineSpec: Sized {
    type Opcode: IntoId<Opcode> + Name;

    type Register: RegisterSpec<MachineMode = Self::MachineMode>;

    type MachineMode: IntoId<MachineMode> + Name;

    type Compiler: CompilerSpec<Machine = Self>;

    /// Every opcode of the machine.
    spec fn opcodes_spec() -> Seq<Self::Opcode>;

    /// Every register of the machine.
    spec fn registers_spec() -> Seq<Self::Register>;

    /// Every mode of the machine.
    spec fn mach_modes_spec() -> Seq<Self::MachineMode>;

    fn opcodes() -> (all: Vec<Self::Opcode>)
        ensures
            all@ == Self::opcodes_spec(),
    ;

    fn registers() -> (all: Vec<Self::Register>)
        ensures
            all@ == Self::registers_spec(),
    ;

    fn mach_modes() -> (all: Vec<Self::MachineMode>)
        ensures
            all@ == Self::mach_modes_spec(),
    ;

    /// The name of the machine.
    spec fn name_spec(&self) -> Seq<char>;

    fn name(&self) -> (s: &'static str)
        ensures
            s@ == self.name_spec(),
    ;

    fn as_compiler(&self) -> &Self::Compiler;
}

/// Whether `ids` are the values `vals`, erased one by one.
pub open spec fn erased_list<Id: IdType, I: IntoId<Id>>(ids: Seq<Id>, vals: Seq<I>) -> bool {
    &&& ids.len() == vals.len()
    &&& forall|i: int|
        0 <= i < ids.len() ==> (#[trigger] ids[i]).tag() == I::id_type() && ids[i].payload()
            == vals[i].into_id()
}

/// Erases a listing of concrete values.
pub fn erase_all<Id: IdType, I: IntoId<Id>>(vals: &Vec<I>) -> (ids: Vec<Id>)
    ensures
        erased_list::<Id, I>(ids@, vals@),
{
    let mut ids: Vec<Id> = Vec::new();
    let mut i: usize = 0;
    while i < vals.len()
        invariant
            i <= vals.len(),
            erased_list::<Id, I>(ids@, vals@.subrange(0, i as int)),
        decreases vals.len() - i,
    {
        ids.push(erase(vals[i]));
        i = i + 1;
    }
    assert(vals@.subrange(0, vals@.len() as int) =~= vals@);
    ids
}

/// The name that stands for an identifier which is not of the machine.
pub open spec fn unknown_name(kind: Seq<char>) -> Seq<char> {
    "**Unknown "@ + kind + "**"@
}

fn unknown(kind: &str) -> (s: String)
    ensures
        s@ == unknown_name(kind@),
{
    let mut s = String::from_str("**Unknown ");
    s.append(kind);
    s.append("**");
    s
}

/// The name of an erased identifier, as the concrete enumeration `I` gives
/// it; identifiers that are not of `I` have a fixed name that says so.
pub open spec fn name_of_spec<Id: IdType, I: IntoId<Id> + Name>(
    val: Id,
    kind: Seq<char>,
) -> Seq<char> {
    match downcast_spec::<Id, I>(val.tag(), val.payload()) {
        Ok(v) => v.name_spec(),
        Err(_) => unknown_name(kind),
    }
}

fn name_of_id<Id: IdType, I: IntoId<Id> + Name>(val: Id, kind: &str) -> (s: String)
    ensures
        s@ == name_of_spec::<Id, I>(val, kind@),
{
    match downcast::<Id, I>(val) {
        Ok(v) => v.name(),
        Err(_) => unknown(kind),
    }
}

/// The identifiers of one kind that a machine has, with their names.
pub trait DynList<T: IdType> {
    /// Whether `ids` is the listing of the machine.
    spec fn lists(&self, ids: Seq<T>) -> bool;

    /// The name that the machine shows an identifier by.
    spec fn name_of_spec(&self, val: T) -> Seq<char>;

    /// Every identifier of this kind that the machine has.
    fn list(&self) -> (ids: Vec<T>)
        ensures
            self.lists(ids@),
    ;

    /// The name of an identifier. One that is not of this machine gets a
    /// name that says so.
    fn name_of(&self, val: T) -> (s: String)
        ensures
            s@ == self.name_of_spec(val),
    ;
}

/// What a machine says of its registers, asked by erased identifier.
///
/// A register or a mode that is not of the machine is a mistake of the
/// caller: every query but the two that test for it requires that the
/// machine has what it is asked about.
pub trait Registers: DynList<Register> {
    /// Whether the register is one of the machine.
    spec fn knows(&self, reg: Register) -> bool;

    /// Whether the mode is one of the machine.
    spec fn knows_mode(&self, mode: MachineMode) -> bool;

    spec fn register_kind_spec(&self, reg: Register) -> RegisterKind;

    spec fn register_size_spec(&self, reg: Register, mode: MachineMode) -> u32;

    spec fn register_align_spec(&self, reg: Register, mode: MachineMode) -> u32;

    spec fn register_category_spec(&self, reg: Register, mode: MachineMode) -> XvaCategory;

    spec fn register_overlaps_spec(&self, reg1: Register, reg2: Register) -> bool;

    spec fn register_valid_in_mode_spec(&self, reg: Register, mode: MachineMode) -> bool;

    /// Whether the register is one of the machine.
    fn has_register(&self, reg: Register) -> (b: bool)
        ensures
            b == self.knows(reg),
    ;

    /// Whether the mode is one of the machine.
    fn has_mode(&self, mode: MachineMode) -> (b: bool)
        ensures
            b == self.knows_mode(mode),
    ;

    fn register_kind(&self, reg: Register) -> (k: RegisterKind)
        requires
            self.knows(reg),
        ensures
            k == self.register_kind_spec(reg),
    ;

    fn register_size(&self, reg: Register, mode: MachineMode) -> (n: u32)
        requires
            self.knows(reg),
            self.knows_mode(mode),
        ensures
            n == self.register_size_spec(reg, mode),
    ;

    fn register_align(&self, reg: Register, mode: MachineMode) -> (a: u32)
        requires
            self.knows(reg),
            self.knows_mode(mode),
        ensures
            a == self.register_align_spec(reg, mode),
            is_power_of_two(a as nat),
    ;

    fn register_category(&self, reg: Register, mode: MachineMode) -> (c: XvaCategory)
        requires
            self.knows(reg),
            self.knows_mode(mode),
        ensures
            c == self.register_category_spec(reg, mode),
    ;

    fn register_overlaps(&self, reg1: Register, reg2: Register) -> (b: bool)
        requires
            self.knows(reg1),
            self.knows(reg2),
        ensures
            b == self.register_overlaps_spec(reg1, reg2),
            b == self.register_overlaps_spec(reg2, reg1),
            reg1 == reg2 ==> b,
    ;

    fn register_valid_in_mode(&self, reg: Register, mode: MachineMode) -> (b: bool)
        requires
            self.knows(reg),
            self.knows_mode(mode),
        ensures
            b == self.register_valid_in_mode_spec(reg, mode),
    ;
}

/// The concrete register that an identifier of the machine `M` stands for.
pub open spec fn register_of<M: MachineSpec>(reg: Register) -> M::Register {
    downcast_spec::<Register, M::Register>(reg.tag(), reg.payload())->Ok_0
}

/// The concrete mode that an identifier of the machine `M` stands for.
pub open spec fn mode_of<M: MachineSpec>(mode: MachineMode) -> M::MachineMode {
    downcast_spec::<MachineMode, M::MachineMode>(mode.tag(), mode.payload())->Ok_0
}

impl<M: MachineSpec> DynList<Opcode> for M {
    open spec fn lists(&self, ids: Seq<Opcode>) -> bool {
        erased_list::<Opcode, M::Opcode>(ids, M::opcodes_spec())
    }

    open spec fn name_of_spec(&self, val: Opcode) -> Seq<char> {
        name_of_spec::<Opcode, M::Opcode>(val, "Opcode"@)
    }

    fn list(&self) -> (ids: Vec<Opcode>) {
        let all = M::opcodes();
        erase_all(&all)
    }

    fn name_of(&self, val: Opcode) -> (s: String) {
        name_of_id::<Opcode, M::Opcode>(val, "Opcode")
    }
}

impl<M: MachineSpec> DynList<Register> for M {
    open spec fn lists(&self, ids: Seq<Register>) -> bool {
        erased_list::<Register, M::Register>(ids, M::registers_spec())
    }

    open spec fn name_of_spec(&self, val: Register) -> Seq<char> {
        name_of_spec::<Register, M::Register>(val, "Register"@)
    }

    fn list(&self) -> (ids: Vec<Register>) {
        let all = M::registers();
        erase_all(&all)
    }

    fn name_of(&self, val: Register) -> (s: String) {
        name_of_id::<Register, M::Register>(val, "Register")
    }
}

impl<M: MachineSpec> DynList<MachineMode> for M {
    open spec fn lists(&self, ids: Seq<MachineMode>) -> bool {
        erased_list::<MachineMode, M::MachineMode>(ids, M::mach_modes_spec())
    }

    open spec fn name_of_spec(&self, val: MachineMode) -> Seq<char> {
        name_of_spec::<MachineMode, M::MachineMode>(val, "MachineMode"@)
    }

    fn list(&self) -> (ids: Vec<MachineMode>) {
        let all = M::mach_modes();
        erase_all(&all)
    }

    fn name_of(&self, val: MachineMode) -> (s: String) {
        name_of_id::<MachineMode, M::MachineMode>(val, "MachineMode")
    }
}

impl<M: MachineSpec> Registers for M {
    open spec fn knows(&self, reg: Register) -> bool {
        downcast_spec::<Register, M::Register>(reg.tag(), reg.payload()) is Ok
    }

    open spec fn knows_mode(&self, mode: MachineMode) -> bool {
        downcast_spec::<MachineMode, M::MachineMode>(mode.tag(), mode.payload()) is Ok
    }

    open spec fn register_kind_spec(&self, reg: Register) -> RegisterKind {
        register_of::<M>(reg).kind_spec()
    }

    open spec fn register_size_spec(&self, reg: Register, mode: MachineMode) -> u32 {
        register_of::<M>(reg).size_spec(mode_of::<M>(mode))
    }

    open spec fn register_align_spec(&self, reg: Register, mode: MachineMode) -> u32 {
        register_of::<M>(reg).align_spec(mode_of::<M>(mode))
    }

    open spec fn register_category_spec(&self, reg: Register, mode: MachineMode) -> XvaCategory {
        register_of::<M>(reg).category_spec(mode_of::<M>(mode))
    }

    open spec fn register_overlaps_spec(&self, reg1: Register, reg2: Register) -> bool {
        register_of::<M>(reg1).overlaps_spec(&register_of::<M>(reg2))
    }

    open spec fn register_valid_in_mode_spec(&self, reg: Register, mode: MachineMode) -> bool {
        register_of::<M>(reg).valid_in_mode_spec(mode_of::<M>(mode))
    }

    fn has_register(&self, reg: Register) -> (b: bool) {
        reg.downcast::<M::Register>().is_ok()
    }

    fn has_mode(&self, mode: MachineMode) -> (b: bool) {
        mode.downcast::<M::MachineMode>().is_ok()
    }

    fn register_kind(&self, reg: Register) -> (k: RegisterKind) {
        match reg.downcast::<M::Register>() {
            Ok(r) => r.kind(),
            Err(_) => RegisterKind::System,
        }
    }

    fn register_size(&self, reg: Register, mode: MachineMode) -> (n: u32) {
        match (reg.downcast::<M::Register>(), mode.downcast::<M::MachineMode>()) {
            (Ok(r), Ok(m)) => r.size(m),
            _ => 0,
        }
    }

    fn register_align(&self, reg: Register, mode: MachineMode) -> (a: u32) {
        match (reg.downcast::<M::Register>(), mode.downcast::<M::MachineMode>()) {
            (Ok(r), Ok(m)) => r.align(m),
            _ => 1,
        }
    }

    fn register_category(&self, reg: Register, mode: MachineMode) -> (c: XvaCategory) {
        match (reg.downcast::<M::Register>(), mode.downcast::<M::MachineMode>()) {
            (Ok(r), Ok(m)) => r.category(m),
            _ => XvaCategory::Int,
        }
    }

    fn register_overlaps(&self, reg1: Register, reg2: Register) -> (b: bool) {
        proof {
            M::Register::lemma_overlaps_symmetric(register_of::<M>(reg1), register_of::<M>(reg2));
            if reg1 == reg2 {
                M::Register::lemma_overlaps_symmetric(
                    register_of::<M>(reg1),
                    register_of::<M>(reg1),
                );
            }
        }
        match (reg1.downcast::<M::Register>(), reg2.downcast::<M::Register>()) {
            (Ok(r1), Ok(r2)) => r1.overlaps(&r2),
            _ => false,
        }
    }

    fn register_valid_in_mode(&self, reg: Register, mode: MachineMode) -> (b: bool) {
        match (reg.downcast::<M::Register>(), mode.downcast::<M::MachineMode>()) {
            (Ok(r), Ok(m)) => r.valid_in_mode(m),
            _ => false,
        }
    }
}

/// A machine as architecture-independent code sees it: its name, its
/// opcodes, registers and modes as erased identifiers, and what it says of
/// its registers.
///
/// An identifier that is not of the machine can be shown, under a name that
/// says so. To ask anything else about a register or a mode that is not of
/// the machine is a mistake of the caller.
pub trait Machine {
    spec fn lists_opcodes(&self, ids: Seq<Opcode>) -> bool;

    spec fn lists_registers(&self, ids: Seq<Register>) -> bool;

    spec fn lists_modes(&self, ids: Seq<MachineMode>) -> bool;

    spec fn opcode_name_spec(&self, op: Opcode) -> Seq<char>;

    spec fn register_name_spec(&self, reg: Register) -> Seq<char>;

    spec fn mode_name_spec(&self, mode: MachineMode) -> Seq<char>;

    /// Whether the register is one of the machine.
    spec fn knows_register(&self, reg: Register) -> bool;

    /// Whether the mode is one of the machine.
    spec fn knows_mode(&self, mode: MachineMode) -> bool;

    spec fn kind_spec(&self, reg: Register) -> RegisterKind;

    spec fn size_spec(&self, reg: Register, mode: MachineMode) -> u32;

    spec fn align_spec(&self, reg: Register, mode: MachineMode) -> u32;

    spec fn category_spec(&self, reg: Register, mode: MachineMode) -> XvaCategory;

    spec fn overlaps_spec(&self, reg1: Register, reg2: Register) -> bool;

    spec fn valid_in_mode_spec(&self, reg: Register, mode: MachineMode) -> bool;

    /// The name of the machine.
    spec fn machine_name_spec(&self) -> Seq<char>;

    fn name(&self) -> (s: &'static str)
        ensures
            s@ == self.machine_name_spec(),
    ;

    fn opcodes(&self) -> (ids: Vec<Opcode>)
        ensures
            self.lists_opcodes(ids@),
    ;

    fn registers(&self) -> (ids: Vec<Register>)
        ensures
            self.lists_registers(ids@),
    ;

    fn modes(&self) -> (ids: Vec<MachineMode>)
        ensures
            self.lists_modes(ids@),
    ;

    fn opcode_name(&self, op: Opcode) -> (s: String)
        ensures
            s@ == self.opcode_name_spec(op),
    ;

    fn register_name(&self, reg: Register) -> (s: String)
        ensures
            s@ == self.register_name_spec(reg),
    ;

    fn mode_name(&self, mode: MachineMode) -> (s: String)
        ensures
            s@ == self.mode_name_spec(mode),
    ;

    fn has_register(&self, reg: Register) -> (b: bool)
        ensures
            b == self.knows_register(reg),
    ;

    fn has_mode(&self, mode: MachineMode) -> (b: bool)
        ensures
            b == self.knows_mode(mode),
    ;

    fn register_kind(&self, reg: Register) -> (k: RegisterKind)
        requires
            self.knows_register(reg),
        ensures
            k == self.kind_spec(reg),
    ;

    fn register_size(&self, reg: Register, mode: MachineMode) -> (n: u32)
        requires
            self.knows_register(reg),
            self.knows_mode(mode),
        ensures
            n == self.size_spec(reg, mode),
    ;

    fn register_align(&self, reg: Register, mode: MachineMode) -> (a: u32)
        requires
            self.knows_register(reg),
            self.knows_mode(mode),
        ensures
            a == self.align_spec(reg, mode),
            is_power_of_two(a as nat),
    ;

    fn register_category(&self, reg: Register, mode: MachineMode) -> (c: XvaCategory)
        requires
            self.knows_register(reg),
            self.knows_mode(mode),
        ensures
            c == self.category_spec(reg, mode),
    ;

    fn register_overlaps(&self, reg1: Register, reg2: Register) -> (b: bool)
        requires
            self.knows_register(reg1),
            self.knows_register(reg2),
        ensures
            b == self.overlaps_spec(reg1, reg2),
            b == self.overlaps_spec(reg2, reg1),
            reg1 == reg2 ==> b,
    ;

    fn register_valid_in_mode(&self, reg: Register, mode: MachineMode) -> (b: bool)
        requires
            self.knows_register(reg),
            self.knows_mode(mode),
        ensures
            b == self.valid_in_mode_spec(reg, mode),
    ;
}

impl<M: MachineSpec> Machine for M {
    open spec fn lists_opcodes(&self, ids: Seq<Opcode>) -> bool {
        DynList::<Opcode>::lists(self, ids)
    }

    open spec fn lists_registers(&self, ids: Seq<Register>) -> bool {
        DynList::<Register>::lists(self, ids)
    }

    open spec fn lists_modes(&self, ids: Seq<MachineMode>) -> bool {
        DynList::<MachineMode>::lists(self, ids)
    }

    open spec fn opcode_name_spec(&self, op: Opcode) -> Seq<char> {
        DynList::<Opcode>::name_of_spec(self, op)
    }

    open spec fn register_name_spec(&self, reg: Register) -> Seq<char> {
        DynList::<Register>::name_of_spec(self, reg)
    }

    open spec fn mode_name_spec(&self, mode: MachineMode) -> Seq<char> {
        DynList::<MachineMode>::name_of_spec(self, mode)
    }

    open spec fn knows_register(&self, reg: Register) -> bool {
        Registers::knows(self, reg)
    }

    open spec fn knows_mode(&self, mode: MachineMode) -> bool {
        Registers::knows_mode(self, mode)
    }

    open spec fn kind_spec(&self, reg: Register) -> RegisterKind {
        self.register_kind_spec(reg)
    }

    open spec fn size_spec(&self, reg: Register, mode: MachineMode) -> u32 {
        self.register_size_spec(reg, mode)
    }

    open spec fn align_spec(&self, reg: Register, mode: MachineMode) -> u32 {
        self.register_align_spec(reg, mode)
    }

    open spec fn category_spec(&self, reg: Register, mode: MachineMode) -> XvaCategory {
        self.register_category_spec(reg, mode)
    }

    open spec fn overlaps_spec(&self, reg1: Register, reg2: Register) -> bool {
        self.register_overlaps_spec(reg1, reg2)
    }

    open spec fn valid_in_mode_spec(&self, reg: Register, mode: MachineMode) -> bool {
        self.register_valid_in_mode_spec(reg, mode)
    }

    open spec fn machine_name_spec(&self) -> Seq<char> {
        MachineSpec::name_spec(self)
    }

    fn name(&self) -> (s: &'static str) {
        <M as MachineSpec>::name(self)
    }

    fn opcodes(&self) -> (ids: Vec<Opcode>) {
        DynList::<Opcode>::list(self)
    }

    fn registers(&self) -> (ids: Vec<Register>) {
        DynList::<Register>::list(self)
    }

    fn modes(&self) -> (ids: Vec<MachineMode>) {
        DynList::<MachineMode>::list(self)
    }

    fn opcode_name(&self, op: Opcode) -> (s: String) {
        DynList::<Opcode>::name_of(self, op)
    }

    fn register_name(&self, reg: Register) -> (s: String) {
        DynList::<Register>::name_of(self, reg)
    }

    fn mode_name(&self, mode: MachineMode) -> (s: String) {
        DynList::<MachineMode>::name_of(self, mode)
    }

    fn has_register(&self, reg: Register) -> (b: bool) {
        Registers::has_register(self, reg)
    }

    fn has_mode(&self, mode: MachineMode) -> (b: bool) {
        Registers::has_mode(self, mode)
    }

    fn register_kind(&self, reg: Register) -> (k: RegisterKind) {
        Registers::register_kind(self, reg)
    }

    fn register_size(&self, reg: Register, mode: MachineMode) -> (n: u32) {
        Registers::register_size(self, reg, mode)
    }

    fn register_align(&self, reg: Register, mode: MachineMode) -> (a: u32) {
        Registers::register_align(self, reg, mode)
    }

    fn register_category(&self, reg: Register, mode: MachineMode) -> (c: XvaCategory) {
        Registers::register_category(self, reg, mode)
    }

    fn register_overlaps(&self, reg1: Register, reg2: Register) -> (b: bool) {
        Registers::register_overlaps(self, reg1, reg2)
    }

    fn register_valid_in_mode(&self, reg: Register, mode: MachineMode) -> (b: bool) {
        Registers::register_valid_in_mode(self, reg, mode)
    }
}

} // verus!
