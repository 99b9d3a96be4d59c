//! The x86 family: its modes, its registers and the opcodes described so
//! far.

use vstd::prelude::*;
use vstd::string::StringExecFns;
use crate::compiler::CompilerSpec;
use crate::instr::{InstructionId, PrefixId, RegisterClassId, RegisterId, RegisterKind};
use crate::mach::{
    is_power_of_two,
    MachineMode,
    MachineSpec,
    OneMachine,
    Opcode,
    Register,
    RegisterSpec,
};
use crate::text::{decimal_spec, push_decimal};
use crate::traits::{IntoId, Name};
use crate::xva::XvaCategory;

verus! {

/// The modes that an x86 processor runs in.
#[derive(Copy, Clone, Debug, Hash, PartialEq, Eq, Structural)]
pub enum X86Mode {
    Real,
    Protected16,
    Protected,
    Long,
}

impl X86Mode {
    /// The width in bits of the largest general-purpose register of the
    /// mode.
    pub open spec fn largest_gpr_spec(self) -> u32 {
        match self {
            X86Mode::Real => 16,
            X86Mode::Protected16 => 16,
            X86Mode::Protected => 32,
            X86Mode::Long => 64,
        }
    }

    /// The width in bits of the largest general-purpose register of the
    /// mode.
    pub fn largest_gpr(&self) -> (bits: u32)
        ensures
            bits == self.largest_gpr_spec(),
    {
        match self {
            X86Mode::Real => 16,
            X86Mode::Protected16 => 16,
            X86Mode::Protected => 32,
            X86Mode::Long => 64,
        }
    }

    /// Every mode, in the order of their payloads.
    pub open spec fn all_modes_spec() -> Seq<X86Mode> {
        seq![X86Mode::Real, X86Mode::Protected16, X86Mode::Protected, X86Mode::Long]
    }

    /// Every mode, in the order of their payloads.
    pub fn all_modes() -> (all: Vec<X86Mode>)
        ensures
            all@ == Self::all_modes_spec(),
    {
        let mut all: Vec<X86Mode> = Vec::new();
        all.push(X86Mode::Real);
        all.push(X86Mode::Protected16);
        all.push(X86Mode::Protected);
        all.push(X86Mode::Long);
        assert(all@ =~= Self::all_modes_spec());
        all
    }
}

/// The type tag is the one that is minted for the definition of this type
/// as an identifier of this kind.
impl IntoId<MachineMode> for X86Mode {
    open spec fn id_type() -> u64 {
        0x223a_9b7c_caba_b397
    }

    open spec fn into_id(self) -> u64 {
        match self {
            X86Mode::Real => 0,
            X86Mode::Protected16 => 1,
            X86Mode::Protected => 2,
            X86Mode::Long => 3,
        }
    }

    open spec fn try_downcast(val: u64) -> Option<Self> {
        if val == 0 {
            Some(X86Mode::Real)
        } else if val == 1 {
            Some(X86Mode::Protected16)
        } else if val == 2 {
            Some(X86Mode::Protected)
        } else if val == 3 {
            Some(X86Mode::Long)
        } else {
            None
        }
    }

    proof fn lemma_payload_round_trip(v: Self) {
    }

    fn exec_id_type() -> (tag: u64) {
        0x223a_9b7c_caba_b397
    }

    fn exec_into_id(self) -> (n: u64) {
        match self {
            X86Mode::Real => 0,
            X86Mode::Protected16 => 1,
            X86Mode::Protected => 2,
            X86Mode::Long => 3,
        }
    }

    fn exec_try_downcast(val: u64) -> (r: Option<Self>) {
        match val {
            0 => Some(X86Mode::Real),
            1 => Some(X86Mode::Protected16),
            2 => Some(X86Mode::Protected),
            3 => Some(X86Mode::Long),
            _ => None,
        }
    }
}

impl Name for X86Mode {
    open spec fn name_spec(&self) -> Seq<char> {
        match self {
            X86Mode::Real => "Real"@,
            X86Mode::Protected16 => "Protected16"@,
            X86Mode::Protected => "Protected"@,
            X86Mode::Long => "Long"@,
        }
    }

    fn name(&self) -> (s: String) {
        match self {
            X86Mode::Real => String::from_str("Real"),
            X86Mode::Protected16 => String::from_str("Protected16"),
            X86Mode::Protected => String::from_str("Protected"),
            X86Mode::Long => String::from_str("Long"),
        }
    }
}

/// The classes of x86 registers.
#[derive(Copy, Clone, Debug, Hash, PartialEq, Eq, Structural)]
#[non_exhaustive]
pub enum X86RegisterClass {
    Byte,
    ByteLegacy,
    ByteRex,
    Word,
    Double,
    Quad,
    Segment,
    St,
    Mmx,
    Xmm,
    Ymm,
    Zmm,
    Tmm,
    Kreg,
    Control,
    Debug,
    ExtControl,
}

/// The number of register classes.
pub const CLASS_COUNT: u64 = 17;

impl X86RegisterClass {
    /// The position of the class among the classes.
    pub open spec fn ordinal_spec(self) -> u64 {
        match self {
            X86RegisterClass::Byte => 0,
            X86RegisterClass::ByteLegacy => 1,
            X86RegisterClass::ByteRex => 2,
            X86RegisterClass::Word => 3,
            X86RegisterClass::Double => 4,
            X86RegisterClass::Quad => 5,
            X86RegisterClass::Segment => 6,
            X86RegisterClass::St => 7,
            X86RegisterClass::Mmx => 8,
            X86RegisterClass::Xmm => 9,
            X86RegisterClass::Ymm => 10,
            X86RegisterClass::Zmm => 11,
            X86RegisterClass::Tmm => 12,
            X86RegisterClass::Kreg => 13,
            X86RegisterClass::Control => 14,
            X86RegisterClass::Debug => 15,
            X86RegisterClass::ExtControl => 16,
        }
    }

    /// The position of the class among the classes.
    pub fn ordinal(&self) -> (i: u64)
        ensures
            i == self.ordinal_spec(),
            i < CLASS_COUNT,
    {
        match self {
            X86RegisterClass::Byte => 0,
            X86RegisterClass::ByteLegacy => 1,
            X86RegisterClass::ByteRex => 2,
            X86RegisterClass::Word => 3,
            X86RegisterClass::Double => 4,
            X86RegisterClass::Quad => 5,
            X86RegisterClass::Segment => 6,
            X86RegisterClass::St => 7,
            X86RegisterClass::Mmx => 8,
            X86RegisterClass::Xmm => 9,
            X86RegisterClass::Ymm => 10,
            X86RegisterClass::Zmm => 11,
            X86RegisterClass::Tmm => 12,
            X86RegisterClass::Kreg => 13,
            X86RegisterClass::Control => 14,
            X86RegisterClass::Debug => 15,
            X86RegisterClass::ExtControl => 16,
        }
    }

    /// The class at a position, if the position is one.
    pub open spec fn from_ordinal_spec(i: u64) -> Option<Self> {
        if i == 0 {
            Some(X86RegisterClass::Byte)
        } else if i == 1 {
            Some(X86RegisterClass::ByteLegacy)
        } else if i == 2 {
            Some(X86RegisterClass::ByteRex)
        } else if i == 3 {
            Some(X86RegisterClass::Word)
        } else if i == 4 {
            Some(X86RegisterClass::Double)
        } else if i == 5 {
            Some(X86RegisterClass::Quad)
        } else if i == 6 {
            Some(X86RegisterClass::Segment)
        } else if i == 7 {
            Some(X86RegisterClass::St)
        } else if i == 8 {
            Some(X86RegisterClass::Mmx)
        } else if i == 9 {
            Some(X86RegisterClass::Xmm)
        } else if i == 10 {
            Some(X86RegisterClass::Ymm)
        } else if i == 11 {
            Some(X86RegisterClass::Zmm)
        } else if i == 12 {
            Some(X86RegisterClass::Tmm)
        } else if i == 13 {
            Some(X86RegisterClass::Kreg)
        } else if i == 14 {
            Some(X86RegisterClass::Control)
        } else if i == 15 {
            Some(X86RegisterClass::Debug)
        } else if i == 16 {
            Some(X86RegisterClass::ExtControl)
        } else {
            None
        }
    }

    /// The class at a position, if the position is one.
    pub fn from_ordinal(i: u64) -> (c: Option<Self>)
        ensures
            c == Self::from_ordinal_spec(i),
            i < CLASS_COUNT ==> c is Some && c->Some_0.ordinal_spec() == i,
    {
        match i {
            0 => Some(X86RegisterClass::Byte),
            1 => Some(X86RegisterClass::ByteLegacy),
            2 => Some(X86RegisterClass::ByteRex),
            3 => Some(X86RegisterClass::Word),
            4 => Some(X86RegisterClass::Double),
            5 => Some(X86RegisterClass::Quad),
            6 => Some(X86RegisterClass::Segment),
            7 => Some(X86RegisterClass::St),
            8 => Some(X86RegisterClass::Mmx),
            9 => Some(X86RegisterClass::Xmm),
            10 => Some(X86RegisterClass::Ymm),
            11 => Some(X86RegisterClass::Zmm),
            12 => Some(X86RegisterClass::Tmm),
            13 => Some(X86RegisterClass::Kreg),
            14 => Some(X86RegisterClass::Control),
            15 => Some(X86RegisterClass::Debug),
            16 => Some(X86RegisterClass::ExtControl),
            _ => None,
        }
    }

    /// How many registers of the class are listed: those with the numbers
    /// below this.
    pub open spec fn count_spec(self) -> u8 {
        match self {
            X86RegisterClass::Byte => 4,
            X86RegisterClass::ByteLegacy => 8,
            X86RegisterClass::ByteRex => 32,
            X86RegisterClass::Word => 32,
            X86RegisterClass::Double => 32,
            X86RegisterClass::Quad => 32,
            X86RegisterClass::Segment => 8,
            X86RegisterClass::St => 32,
            X86RegisterClass::Mmx => 8,
            X86RegisterClass::Xmm => 32,
            X86RegisterClass::Ymm => 32,
            X86RegisterClass::Zmm => 32,
            X86RegisterClass::Tmm => 32,
            X86RegisterClass::Kreg => 32,
            X86RegisterClass::Control => 32,
            X86RegisterClass::Debug => 32,
            X86RegisterClass::ExtControl => 32,
        }
    }

    /// How many registers of the class are listed.
    pub fn count(&self) -> (n: u8)
        ensures
            n == self.count_spec(),
    {
        match self {
            X86RegisterClass::Byte => 4,
            X86RegisterClass::ByteLegacy => 8,
            X86RegisterClass::ByteRex => 32,
            X86RegisterClass::Word => 32,
            X86RegisterClass::Double => 32,
            X86RegisterClass::Quad => 32,
            X86RegisterClass::Segment => 8,
            X86RegisterClass::St => 32,
            X86RegisterClass::Mmx => 8,
            X86RegisterClass::Xmm => 32,
            X86RegisterClass::Ymm => 32,
            X86RegisterClass::Zmm => 32,
            X86RegisterClass::Tmm => 32,
            X86RegisterClass::Kreg => 32,
            X86RegisterClass::Control => 32,
            X86RegisterClass::Debug => 32,
            X86RegisterClass::ExtControl => 32,
        }
    }

    /// Whether only the low three bits of a register's number count, as in
    /// the classes that no prefix extends.
    pub open spec fn norex_spec(self) -> bool {
        self is ByteLegacy || self is Segment || self is Mmx
    }

    /// Whether only the low three bits of a register's number count.
    pub fn norex(&self) -> (b: bool)
        ensures
            b == self.norex_spec(),
    {
        match self {
            X86RegisterClass::ByteLegacy | X86RegisterClass::Segment | X86RegisterClass::Mmx => true,
            _ => false,
        }
    }
}

/// A register of the x86 family: its class and its number within the class.
#[derive(Copy, Clone, Debug, Hash, PartialEq, Eq, Structural)]
#[non_exhaustive]
pub enum X86Register {
    Byte(u8),
    ByteLegacy(u8),
    ByteRex(u8),
    Word(u8),
    Double(u8),
    Quad(u8),
    Segment(u8),
    St(u8),
    Mmx(u8),
    Xmm(u8),
    Ymm(u8),
    Zmm(u8),
    Tmm(u8),
    Kreg(u8),
    Control(u8),
    Debug(u8),
    ExtControl(u8),
}

/// The widths of the general-purpose registers.
#[derive(Copy, Clone, Debug, Hash, PartialEq, Eq, Structural)]
pub enum GprSize {
    Byte,
    Word,
    Double,
    Quad,
}

impl GprSize {
    /// The width in bytes.
    pub fn size(self) -> (n: u32)
        ensures
            n == match self {
                GprSize::Byte => 1u32,
                GprSize::Word => 2u32,
                GprSize::Double => 4u32,
                GprSize::Quad => 8u32,
            },
            n * 8 == self.bits_spec(),
    {
        match self {
            GprSize::Byte => 1,
            GprSize::Word => 2,
            GprSize::Double => 4,
            GprSize::Quad => 8,
        }
    }

    /// The width in bits.
    pub open spec fn bits_spec(self) -> u32 {
        match self {
            GprSize::Byte => 8,
            GprSize::Word => 16,
            GprSize::Double => 32,
            GprSize::Quad => 64,
        }
    }

    /// The width in bits.
    pub fn bits(self) -> (n: u32)
        ensures
            n == self.bits_spec(),
    {
        match self {
            GprSize::Byte => 8,
            GprSize::Word => 16,
            GprSize::Double => 32,
            GprSize::Quad => 64,
        }
    }
}

/// The widths of the vector registers that share their low bits.
#[derive(Copy, Clone, Debug, Hash, PartialEq, Eq, Structural)]
pub enum XmmSize {
    Xmm,
    Ymm,
    Zmm,
}

impl X86Register {
    /// The register of a class with a number.
    pub open spec fn make_spec(class: X86RegisterClass, n: u8) -> X86Register {
        match class {
            X86RegisterClass::Byte => X86Register::Byte(n),
            X86RegisterClass::ByteLegacy => X86Register::ByteLegacy(n),
            X86RegisterClass::ByteRex => X86Register::ByteRex(n),
            X86RegisterClass::Word => X86Register::Word(n),
            X86RegisterClass::Double => X86Register::Double(n),
            X86RegisterClass::Quad => X86Register::Quad(n),
            X86RegisterClass::Segment => X86Register::Segment(n),
            X86RegisterClass::St => X86Register::St(n),
            X86RegisterClass::Mmx => X86Register::Mmx(n),
            X86RegisterClass::Xmm => X86Register::Xmm(n),
            X86RegisterClass::Ymm => X86Register::Ymm(n),
            X86RegisterClass::Zmm => X86Register::Zmm(n),
            X86RegisterClass::Tmm => X86Register::Tmm(n),
            X86RegisterClass::Kreg => X86Register::Kreg(n),
            X86RegisterClass::Control => X86Register::Control(n),
            X86RegisterClass::Debug => X86Register::Debug(n),
            X86RegisterClass::ExtControl => X86Register::ExtControl(n),
        }
    }

    /// The register of a class with a number.
    pub fn make(class: X86RegisterClass, n: u8) -> (r: X86Register)
        ensures
            r == Self::make_spec(class, n),
            r.class_spec() == class,
            r.index_spec() == n,
    {
        match class {
            X86RegisterClass::Byte => X86Register::Byte(n),
            X86RegisterClass::ByteLegacy => X86Register::ByteLegacy(n),
            X86RegisterClass::ByteRex => X86Register::ByteRex(n),
            X86RegisterClass::Word => X86Register::Word(n),
            X86RegisterClass::Double => X86Register::Double(n),
            X86RegisterClass::Quad => X86Register::Quad(n),
            X86RegisterClass::Segment => X86Register::Segment(n),
            X86RegisterClass::St => X86Register::St(n),
            X86RegisterClass::Mmx => X86Register::Mmx(n),
            X86RegisterClass::Xmm => X86Register::Xmm(n),
            X86RegisterClass::Ymm => X86Register::Ymm(n),
            X86RegisterClass::Zmm => X86Register::Zmm(n),
            X86RegisterClass::Tmm => X86Register::Tmm(n),
            X86RegisterClass::Kreg => X86Register::Kreg(n),
            X86RegisterClass::Control => X86Register::Control(n),
            X86RegisterClass::Debug => X86Register::Debug(n),
            X86RegisterClass::ExtControl => X86Register::ExtControl(n),
        }
    }

    /// The class of the register.
    pub open spec fn class_spec(self) -> X86RegisterClass {
        match self {
            X86Register::Byte(_) => X86RegisterClass::Byte,
            X86Register::ByteLegacy(_) => X86RegisterClass::ByteLegacy,
            X86Register::ByteRex(_) => X86RegisterClass::ByteRex,
            X86Register::Word(_) => X86RegisterClass::Word,
            X86Register::Double(_) => X86RegisterClass::Double,
            X86Register::Quad(_) => X86RegisterClass::Quad,
            X86Register::Segment(_) => X86RegisterClass::Segment,
            X86Register::St(_) => X86RegisterClass::St,
            X86Register::Mmx(_) => X86RegisterClass::Mmx,
            X86Register::Xmm(_) => X86RegisterClass::Xmm,
            X86Register::Ymm(_) => X86RegisterClass::Ymm,
            X86Register::Zmm(_) => X86RegisterClass::Zmm,
            X86Register::Tmm(_) => X86RegisterClass::Tmm,
            X86Register::Kreg(_) => X86RegisterClass::Kreg,
            X86Register::Control(_) => X86RegisterClass::Control,
            X86Register::Debug(_) => X86RegisterClass::Debug,
            X86Register::ExtControl(_) => X86RegisterClass::ExtControl,
        }
    }

    /// The class of the register.
    pub fn class(&self) -> (c: X86RegisterClass)
        ensures
            c == self.class_spec(),
    {
        match self {
            X86Register::Byte(_) => X86RegisterClass::Byte,
            X86Register::ByteLegacy(_) => X86RegisterClass::ByteLegacy,
            X86Register::ByteRex(_) => X86RegisterClass::ByteRex,
            X86Register::Word(_) => X86RegisterClass::Word,
            X86Register::Double(_) => X86RegisterClass::Double,
            X86Register::Quad(_) => X86RegisterClass::Quad,
            X86Register::Segment(_) => X86RegisterClass::Segment,
            X86Register::St(_) => X86RegisterClass::St,
            X86Register::Mmx(_) => X86RegisterClass::Mmx,
            X86Register::Xmm(_) => X86RegisterClass::Xmm,
            X86Register::Ymm(_) => X86RegisterClass::Ymm,
            X86Register::Zmm(_) => X86RegisterClass::Zmm,
            X86Register::Tmm(_) => X86RegisterClass::Tmm,
            X86Register::Kreg(_) => X86RegisterClass::Kreg,
            X86Register::Control(_) => X86RegisterClass::Control,
            X86Register::Debug(_) => X86RegisterClass::Debug,
            X86Register::ExtControl(_) => X86RegisterClass::ExtControl,
        }
    }

    /// The number of the register within its class, as it was given.
    pub open spec fn index_spec(self) -> u8 {
        match self {
            X86Register::Byte(n) => n,
            X86Register::ByteLegacy(n) => n,
            X86Register::ByteRex(n) => n,
            X86Register::Word(n) => n,
            X86Register::Double(n) => n,
            X86Register::Quad(n) => n,
            X86Register::Segment(n) => n,
            X86Register::St(n) => n,
            X86Register::Mmx(n) => n,
            X86Register::Xmm(n) => n,
            X86Register::Ymm(n) => n,
            X86Register::Zmm(n) => n,
            X86Register::Tmm(n) => n,
            X86Register::Kreg(n) => n,
            X86Register::Control(n) => n,
            X86Register::Debug(n) => n,
            X86Register::ExtControl(n) => n,
        }
    }

    /// The number of the register within its class, as it was given.
    pub fn index(&self) -> (n: u8)
        ensures
            n == self.index_spec(),
            *self == Self::make_spec(self.class_spec(), n),
    {
        match self {
            X86Register::Byte(n) => *n,
            X86Register::ByteLegacy(n) => *n,
            X86Register::ByteRex(n) => *n,
            X86Register::Word(n) => *n,
            X86Register::Double(n) => *n,
            X86Register::Quad(n) => *n,
            X86Register::Segment(n) => *n,
            X86Register::St(n) => *n,
            X86Register::Mmx(n) => *n,
            X86Register::Xmm(n) => *n,
            X86Register::Ymm(n) => *n,
            X86Register::Zmm(n) => *n,
            X86Register::Tmm(n) => *n,
            X86Register::Kreg(n) => *n,
            X86Register::Control(n) => *n,
            X86Register::Debug(n) => *n,
            X86Register::ExtControl(n) => *n,
        }
    }

    /// The number that instructions encode the register by: the number
    /// within the class, of which the classes that no prefix extends keep
    /// the low three bits.
    pub open spec fn regno_spec(self) -> u8 {
        if self.class_spec().norex_spec() {
            self.index_spec() & 7
        } else {
            self.index_spec()
        }
    }

    /// The number that instructions encode the register by.
    pub fn regno(&self) -> (n: u8)
        ensures
            n == self.regno_spec(),
    {
        if self.class().norex() {
            self.index() & 7
        } else {
            self.index()
        }
    }

    /// The kind of the register.
    pub open spec fn kind_of(self) -> RegisterKind {
        match self {
            X86Register::Byte(_) => RegisterKind::GeneralPurpose,
            X86Register::ByteLegacy(_) => RegisterKind::GeneralPurpose,
            X86Register::ByteRex(_) => RegisterKind::GeneralPurpose,
            X86Register::Word(_) => RegisterKind::GeneralPurpose,
            X86Register::Double(_) => RegisterKind::GeneralPurpose,
            X86Register::Quad(_) => RegisterKind::GeneralPurpose,
            X86Register::Segment(_) => RegisterKind::AddressSegment,
            X86Register::St(_) => RegisterKind::ScalarFp,
            X86Register::Mmx(_) => RegisterKind::VectorInt,
            X86Register::Xmm(_) => RegisterKind::VectorAny,
            X86Register::Ymm(_) => RegisterKind::VectorAny,
            X86Register::Zmm(_) => RegisterKind::VectorAny,
            X86Register::Tmm(_) => RegisterKind::VectorAny,
            X86Register::Kreg(_) => RegisterKind::VectorBit,
            X86Register::Control(_) => RegisterKind::System,
            X86Register::Debug(_) => RegisterKind::System,
            X86Register::ExtControl(_) => RegisterKind::System,
        }
    }

    /// The size of the register in bytes. The system registers are as wide
    /// as the largest general-purpose register of the mode.
    pub open spec fn size_of(self, mode: X86Mode) -> u32 {
        match self {
            X86Register::Byte(_) => 1,
            X86Register::ByteLegacy(_) => 1,
            X86Register::ByteRex(_) => 1,
            X86Register::Word(_) => 2,
            X86Register::Double(_) => 4,
            X86Register::Quad(_) => 8,
            X86Register::Segment(_) => 2,
            X86Register::St(_) => 10,
            X86Register::Mmx(_) => 8,
            X86Register::Xmm(_) => 16,
            X86Register::Ymm(_) => 32,
            X86Register::Zmm(_) => 64,
            X86Register::Tmm(_) => 1024,
            X86Register::Kreg(_) => 8,
            X86Register::Control(_) => mode.largest_gpr_spec() / 8,
            X86Register::Debug(_) => mode.largest_gpr_spec() / 8,
            X86Register::ExtControl(_) => mode.largest_gpr_spec() / 8,
        }
    }

    /// The category of what the register holds.
    pub open spec fn category_of(self) -> XvaCategory {
        match self {
            X86Register::Byte(_) => XvaCategory::Int,
            X86Register::ByteLegacy(_) => XvaCategory::Int,
            X86Register::ByteRex(_) => XvaCategory::Int,
            X86Register::Word(_) => XvaCategory::Int,
            X86Register::Double(_) => XvaCategory::Int,
            X86Register::Quad(_) => XvaCategory::Int,
            X86Register::Segment(_) => XvaCategory::Custom(RegisterKind::AddressSegment),
            X86Register::St(_) => XvaCategory::Float,
            X86Register::Mmx(_) => XvaCategory::VectorInt,
            X86Register::Xmm(_) => XvaCategory::VectorAny,
            X86Register::Ymm(_) => XvaCategory::VectorAny,
            X86Register::Zmm(_) => XvaCategory::VectorAny,
            X86Register::Tmm(_) => XvaCategory::VectorAny,
            X86Register::Kreg(_) => XvaCategory::VectorInt,
            X86Register::Control(_) => XvaCategory::Custom(RegisterKind::System),
            X86Register::Debug(_) => XvaCategory::Custom(RegisterKind::System),
            X86Register::ExtControl(_) => XvaCategory::Custom(RegisterKind::System),
        }
    }

    /// The alignment of the register in bytes: its size, but for the
    /// registers of the floating-point stack, which are ten bytes wide and
    /// aligned to two.
    pub open spec fn align_of(self, mode: X86Mode) -> u32 {
        match self {
            X86Register::St(_) => 2,
            _ => self.size_of(mode),
        }
    }
}

/// Whether the registers of two different classes share storage when their
/// numbers are the same: the general-purpose registers of the widths that a
/// prefix can extend do, and so do the vector registers that share their low
/// bits.
pub open spec fn same_family(a: X86RegisterClass, b: X86RegisterClass) -> bool {
    &&& a != b
    &&& {
        ||| (a is ByteRex || a is Word || a is Double || a is Quad) && (b is ByteRex || b is Word
            || b is Double || b is Quad)
        ||| (a is Xmm || a is Ymm || a is Zmm) && (b is Xmm || b is Ymm || b is Zmm)
    }
}

fn classes_share(a: X86RegisterClass, b: X86RegisterClass) -> (s: bool)
    ensures
        s == same_family(a, b),
{
    let gpr_a = matches!(
        a,
        X86RegisterClass::ByteRex | X86RegisterClass::Word | X86RegisterClass::Double
            | X86RegisterClass::Quad
    );
    let gpr_b = matches!(
        b,
        X86RegisterClass::ByteRex | X86RegisterClass::Word | X86RegisterClass::Double
            | X86RegisterClass::Quad
    );
    let vec_a = matches!(a, X86RegisterClass::Xmm | X86RegisterClass::Ymm | X86RegisterClass::Zmm);
    let vec_b = matches!(b, X86RegisterClass::Xmm | X86RegisterClass::Ymm | X86RegisterClass::Zmm);
    a.ordinal() != b.ordinal() && ((gpr_a && gpr_b) || (vec_a && vec_b))
}

impl X86Register {
    /// The general-purpose register with a width and a number. Of the byte
    /// registers, the first four are in the class that every mode has.
    pub open spec fn gpr_with(size: GprSize, n: u8) -> X86Register {
        match size {
            GprSize::Byte => if n < 4 {
                X86Register::Byte(n)
            } else {
                X86Register::ByteRex(n)
            },
            GprSize::Word => X86Register::Word(n),
            GprSize::Double => X86Register::Double(n),
            GprSize::Quad => X86Register::Quad(n),
        }
    }

    /// Whether the register can be turned into the general-purpose register
    /// of the given width: it must be a general-purpose register, and of the
    /// old byte registers only the low ones have wider forms.
    pub open spec fn can_promote_gpr(self, new_size: GprSize) -> bool {
        match self {
            X86Register::ByteLegacy(n) => n < 4 || new_size is Byte,
            X86Register::ByteRex(_)
            | X86Register::Byte(_)
            | X86Register::Word(_)
            | X86Register::Double(_)
            | X86Register::Quad(_) => true,
            _ => false,
        }
    }

    /// The register with the same number and the given width.
    pub open spec fn promote_gpr_spec(self, new_size: GprSize) -> X86Register {
        match self {
            X86Register::ByteLegacy(n) => if n < 4 {
                Self::gpr_with(new_size, n)
            } else {
                self
            },
            _ => Self::gpr_with(new_size, self.index_spec()),
        }
    }

    /// Whether `promote_gpr` takes the register and the width.
    pub fn accepts_gpr_size(&self, new_size: GprSize) -> (b: bool)
        ensures
            b == self.can_promote_gpr(new_size),
    {
        match self {
            X86Register::ByteLegacy(n) => *n < 4 || matches!(new_size, GprSize::Byte),
            X86Register::ByteRex(_)
            | X86Register::Byte(_)
            | X86Register::Word(_)
            | X86Register::Double(_)
            | X86Register::Quad(_) => true,
            _ => false,
        }
    }

    /// Turns a general-purpose register into the one with the same number
    /// and the given width.
    pub fn promote_gpr(&self, new_size: GprSize) -> (r: X86Register)
        requires
            self.can_promote_gpr(new_size),
        ensures
            r == self.promote_gpr_spec(new_size),
    {
        match (self, new_size) {
            (X86Register::ByteLegacy(n), GprSize::Byte) => if *n < 4 {
                X86Register::Byte(*n)
            } else {
                X86Register::ByteLegacy(*n)
            },
            (X86Register::ByteLegacy(n), GprSize::Word) => X86Register::Word(*n),
            (X86Register::ByteLegacy(n), GprSize::Double) => X86Register::Double(*n),
            (X86Register::ByteLegacy(n), GprSize::Quad) => X86Register::Quad(*n),
            (_, GprSize::Byte) => {
                let n: u8 = self.index();
                if n < 4 {
                    X86Register::Byte(n)
                } else {
                    X86Register::ByteRex(n)
                }
            },
            (_, GprSize::Word) => X86Register::Word(self.index()),
            (_, GprSize::Double) => X86Register::Double(self.index()),
            (_, GprSize::Quad) => X86Register::Quad(self.index()),
        }
    }

    /// The width of a general-purpose register; the old byte registers and
    /// the registers of other kinds have none.
    pub fn gpr_size(&self) -> (size: Option<GprSize>)
        ensures
            size == match *self {
                X86Register::Byte(_) | X86Register::ByteRex(_) => Some(GprSize::Byte),
                X86Register::Word(_) => Some(GprSize::Word),
                X86Register::Double(_) => Some(GprSize::Double),
                X86Register::Quad(_) => Some(GprSize::Quad),
                _ => None,
            },
    {
        match self {
            X86Register::Byte(_) | X86Register::ByteRex(_) => Some(GprSize::Byte),
            X86Register::Word(_) => Some(GprSize::Word),
            X86Register::Double(_) => Some(GprSize::Double),
            X86Register::Quad(_) => Some(GprSize::Quad),
            _ => None,
        }
    }

    /// The vector register with a width and a number.
    pub open spec fn xmm_with(size: XmmSize, n: u8) -> X86Register {
        match size {
            XmmSize::Xmm => X86Register::Xmm(n),
            XmmSize::Ymm => X86Register::Ymm(n),
            XmmSize::Zmm => X86Register::Zmm(n),
        }
    }

    /// Whether the register is one of the vector registers that share their
    /// low bits.
    pub open spec fn is_xmm_family(self) -> bool {
        self is Xmm || self is Ymm || self is Zmm
    }

    /// Turns a vector register into the one with the same number and the
    /// given width.
    pub fn promote_xmm(&self, new_size: XmmSize) -> (r: X86Register)
        requires
            self.is_xmm_family(),
        ensures
            r == Self::xmm_with(new_size, self.index_spec()),
    {
        let n: u8 = self.index();
        match new_size {
            XmmSize::Xmm => X86Register::Xmm(n),
            XmmSize::Ymm => X86Register::Ymm(n),
            XmmSize::Zmm => X86Register::Zmm(n),
        }
    }

    /// The width of a vector register that shares its low bits with others.
    pub fn xmm_size(&self) -> (size: Option<XmmSize>)
        ensures
            size == match *self {
                X86Register::Xmm(_) => Some(XmmSize::Xmm),
                X86Register::Ymm(_) => Some(XmmSize::Ymm),
                X86Register::Zmm(_) => Some(XmmSize::Zmm),
                _ => None,
            },
            size is Some <==> self.is_xmm_family(),
    {
        match self {
            X86Register::Xmm(_) => Some(XmmSize::Xmm),
            X86Register::Ymm(_) => Some(XmmSize::Ymm),
            X86Register::Zmm(_) => Some(XmmSize::Zmm),
            _ => None,
        }
    }

    /// Whether the register can be used in the mode. The registers with the
    /// numbers from 8 on are there in long mode only, as are the 64-bit
    /// general-purpose registers. Real mode has neither the 32-bit
    /// general-purpose registers nor the control and debug registers, nor
    /// the wide vector registers.
    pub open spec fn valid_in(self, mode: X86Mode) -> bool {
        if self.regno_spec() >= 8 && !(mode is Long) {
            false
        } else {
            match self {
                X86Register::Ymm(_)
                | X86Register::Zmm(_)
                | X86Register::ExtControl(_)
                | X86Register::Double(_)
                | X86Register::Debug(_)
                | X86Register::Control(_) => !(mode is Real),
                X86Register::Quad(_) => mode is Long,
                _ => true,
            }
        }
    }

    /// Whether the register can be used in the mode.
    pub fn valid_in_mode(&self, mode: X86Mode) -> (b: bool)
        ensures
            b == self.valid_in(mode),
    {
        let is_64_bit = matches!(mode, X86Mode::Long);
        let allow_protection = !matches!(mode, X86Mode::Real);
        if self.regno() >= 8 && !is_64_bit {
            return false;
        }
        match self {
            X86Register::Ymm(_) | X86Register::Zmm(_) | X86Register::ExtControl(_) => allow_protection,
            X86Register::Double(_) | X86Register::Debug(_) | X86Register::Control(_) => allow_protection,
            X86Register::Quad(_) => is_64_bit,
            _ => true,
        }
    }

    /// The number of the general-purpose register that an old byte register
    /// is a byte of: the low bytes have the numbers 0 to 3, and the numbers 4
    /// to 7 are the high bytes of the same four registers.
    pub open spec fn legacy_number(n: u8) -> u8 {
        if n & 7 < 4 {
            n & 7
        } else {
            ((n & 7) - 4) as u8
        }
    }

    /// Whether the old byte register with the number `n` shares storage with
    /// a register of another class: a low byte with the other byte registers
    /// and the wider registers of its number, a high byte with the wider
    /// registers that it is a byte of.
    pub open spec fn legacy_overlaps(n: u8, other: X86Register) -> bool {
        match other {
            X86Register::Byte(m) | X86Register::ByteRex(m) => n & 7 < 4 && m == n & 7,
            X86Register::Word(m) | X86Register::Double(m) | X86Register::Quad(m) => m
                == Self::legacy_number(n),
            _ => false,
        }
    }

    /// Whether two registers of one class are the same register under two
    /// numbers: in the classes of which only the low three bits of a number
    /// count, they are where these bits are the same.
    pub open spec fn same_under_mask(self, other: X86Register) -> bool {
        &&& self.class_spec() == other.class_spec()
        &&& self.class_spec().norex_spec()
        &&& self.regno_spec() == other.regno_spec()
    }

    /// Whether two registers share storage. A register shares storage with
    /// itself; a byte register with the wider registers that it is a byte
    /// of, and a low byte register with the low byte registers of the other
    /// classes; the general-purpose registers of one number with each other,
    /// and so the vector registers; and the registers of the floating-point
    /// stack with the MMX registers that are laid over them.
    pub open spec fn overlaps_with(self, other: X86Register) -> bool {
        self == other || self.same_under_mask(other) || match (self, other) {
            (X86Register::ByteLegacy(n), r) | (r, X86Register::ByteLegacy(n)) => Self::legacy_overlaps(
                n,
                r,
            ),
            (X86Register::Byte(n), X86Register::ByteRex(n2))
            | (X86Register::ByteRex(n2), X86Register::Byte(n)) => n < 4 && n == n2,
            (X86Register::Byte(n), X86Register::Word(n2))
            | (X86Register::Byte(n), X86Register::Double(n2))
            | (X86Register::Byte(n), X86Register::Quad(n2))
            | (X86Register::Word(n2), X86Register::Byte(n))
            | (X86Register::Double(n2), X86Register::Byte(n))
            | (X86Register::Quad(n2), X86Register::Byte(n)) => n2 < 4 && (n & 3) == n2,
            (X86Register::Mmx(m), X86Register::St(n)) | (X86Register::St(n), X86Register::Mmx(m)) => (n
                & 7) == ((8 - (m & 7)) as u8) & 7,
            _ => same_family(self.class_spec(), other.class_spec()) && self.index_spec()
                == other.index_spec(),
        }
    }

    fn legacy_overlap(n: u8, other: &X86Register) -> (b: bool)
        ensures
            b == Self::legacy_overlaps(n, *other),
    {
        let low: u8 = n & 7;
        assert(low <= 7) by (bit_vector)
            requires
                low == n & 7,
        ;
        match other {
            X86Register::Byte(m) | X86Register::ByteRex(m) => low < 4 && *m == low,
            X86Register::Word(m) | X86Register::Double(m) | X86Register::Quad(m) => {
                if low < 4 {
                    *m == low
                } else {
                    *m == low - 4
                }
            },
            _ => false,
        }
    }

    fn low_byte_overlaps(n: u8, n2: u8) -> (b: bool)
        ensures
            b == (n2 < 4 && (n & 3) == n2),
    {
        n2 < 4 && (n & 3) == n2
    }

    fn stack_overlaps(m: u8, n: u8) -> (b: bool)
        ensures
            b == ((n & 7) == ((8 - (m & 7)) as u8) & 7),
    {
        let low: u8 = m & 7;
        assert(low <= 7) by (bit_vector)
            requires
                low == m & 7,
        ;
        (n & 7) == (8 - low) & 7
    }
}

/// The type tag is the one that is minted for the definition of this type
/// as an identifier of this kind.
impl IntoId<Register> for X86Register {
    open spec fn id_type() -> u64 {
        0x2d33_b250_8b71_ceb8
    }

    open spec fn into_id(self) -> u64 {
        (self.class_spec().ordinal_spec() * 256 + self.index_spec()) as u64
    }

    open spec fn try_downcast(val: u64) -> Option<Self> {
        match X86RegisterClass::from_ordinal_spec(val / 256) {
            Some(class) => Some(X86Register::make_spec(class, (val % 256) as u8)),
            None => None,
        }
    }

    proof fn lemma_payload_round_trip(v: Self) {
    }

    fn exec_id_type() -> (tag: u64) {
        0x2d33_b250_8b71_ceb8
    }

    fn exec_into_id(self) -> (n: u64) {
        self.class().ordinal() * 256 + self.index() as u64
    }

    fn exec_try_downcast(val: u64) -> (r: Option<Self>) {
        match X86RegisterClass::from_ordinal(val / 256) {
            Some(class) => Some(X86Register::make(class, (val % 256) as u8)),
            None => None,
        }
    }
}

/// The type tag is the one that is minted for the definition of this type
/// as an identifier of this kind.
impl IntoId<RegisterId> for X86Register {
    open spec fn id_type() -> u64 {
        0x705e_a67b_b5d2_661c
    }

    open spec fn into_id(self) -> u64 {
        (self.class_spec().ordinal_spec() * 256 + self.index_spec()) as u64
    }

    open spec fn try_downcast(val: u64) -> Option<Self> {
        match X86RegisterClass::from_ordinal_spec(val / 256) {
            Some(class) => Some(X86Register::make_spec(class, (val % 256) as u8)),
            None => None,
        }
    }

    proof fn lemma_payload_round_trip(v: Self) {
    }

    fn exec_id_type() -> (tag: u64) {
        0x705e_a67b_b5d2_661c
    }

    fn exec_into_id(self) -> (n: u64) {
        self.class().ordinal() * 256 + self.index() as u64
    }

    fn exec_try_downcast(val: u64) -> (r: Option<Self>) {
        match X86RegisterClass::from_ordinal(val / 256) {
            Some(class) => Some(X86Register::make(class, (val % 256) as u8)),
            None => None,
        }
    }
}

/// The type tag is the one that is minted for the definition of this type
/// as an identifier of this kind.
impl IntoId<RegisterClassId> for X86RegisterClass {
    open spec fn id_type() -> u64 {
        0x47e8_31c5_9f74_b67f
    }

    open spec fn into_id(self) -> u64 {
        self.ordinal_spec()
    }

    open spec fn try_downcast(val: u64) -> Option<Self> {
        Self::from_ordinal_spec(val)
    }

    proof fn lemma_payload_round_trip(v: Self) {
    }

    fn exec_id_type() -> (tag: u64) {
        0x47e8_31c5_9f74_b67f
    }

    fn exec_into_id(self) -> (n: u64) {
        self.ordinal()
    }

    fn exec_try_downcast(val: u64) -> (r: Option<Self>) {
        Self::from_ordinal(val)
    }
}

impl RegisterSpec for X86Register {
    type MachineMode = X86Mode;

    open spec fn kind_spec(&self) -> RegisterKind {
        self.kind_of()
    }

    open spec fn size_spec(&self, mode: X86Mode) -> u32 {
        self.size_of(mode)
    }

    open spec fn category_spec(&self, mode: X86Mode) -> XvaCategory {
        self.category_of()
    }

    open spec fn align_spec(&self, mode: X86Mode) -> u32 {
        self.align_of(mode)
    }

    open spec fn overlaps_spec(&self, other: &Self) -> bool {
        self.overlaps_with(*other)
    }

    open spec fn valid_in_mode_spec(&self, mode: X86Mode) -> bool {
        self.valid_in(mode)
    }

    proof fn lemma_overlaps_symmetric(a: Self, b: Self) {
    }

    proof fn lemma_align_power_of_two(r: Self, mode: X86Mode) {
        reveal_with_fuel(is_power_of_two, 12);
    }

    fn kind(&self) -> (k: RegisterKind) {
        match self {
            X86Register::Byte(_) => RegisterKind::GeneralPurpose,
            X86Register::ByteLegacy(_) => RegisterKind::GeneralPurpose,
            X86Register::ByteRex(_) => RegisterKind::GeneralPurpose,
            X86Register::Word(_) => RegisterKind::GeneralPurpose,
            X86Register::Double(_) => RegisterKind::GeneralPurpose,
            X86Register::Quad(_) => RegisterKind::GeneralPurpose,
            X86Register::Segment(_) => RegisterKind::AddressSegment,
            X86Register::St(_) => RegisterKind::ScalarFp,
            X86Register::Mmx(_) => RegisterKind::VectorInt,
            X86Register::Xmm(_) => RegisterKind::VectorAny,
            X86Register::Ymm(_) => RegisterKind::VectorAny,
            X86Register::Zmm(_) => RegisterKind::VectorAny,
            X86Register::Tmm(_) => RegisterKind::VectorAny,
            X86Register::Kreg(_) => RegisterKind::VectorBit,
            X86Register::Control(_) => RegisterKind::System,
            X86Register::Debug(_) => RegisterKind::System,
            X86Register::ExtControl(_) => RegisterKind::System,
        }
    }

    fn size(&self, mode: X86Mode) -> (n: u32) {
        match self {
            X86Register::Byte(_) => 1,
            X86Register::ByteLegacy(_) => 1,
            X86Register::ByteRex(_) => 1,
            X86Register::Word(_) => 2,
            X86Register::Double(_) => 4,
            X86Register::Quad(_) => 8,
            X86Register::Segment(_) => 2,
            X86Register::St(_) => 10,
            X86Register::Mmx(_) => 8,
            X86Register::Xmm(_) => 16,
            X86Register::Ymm(_) => 32,
            X86Register::Zmm(_) => 64,
            X86Register::Tmm(_) => 1024,
            X86Register::Kreg(_) => 8,
            X86Register::Control(_) => mode.largest_gpr() / 8,
            X86Register::Debug(_) => mode.largest_gpr() / 8,
            X86Register::ExtControl(_) => mode.largest_gpr() / 8,
        }
    }

    fn category(&self, mode: X86Mode) -> (c: XvaCategory) {
        match self {
            X86Register::Byte(_) => XvaCategory::Int,
            X86Register::ByteLegacy(_) => XvaCategory::Int,
            X86Register::ByteRex(_) => XvaCategory::Int,
            X86Register::Word(_) => XvaCategory::Int,
            X86Register::Double(_) => XvaCategory::Int,
            X86Register::Quad(_) => XvaCategory::Int,
            X86Register::Segment(_) => XvaCategory::Custom(RegisterKind::AddressSegment),
            X86Register::St(_) => XvaCategory::Float,
            X86Register::Mmx(_) => XvaCategory::VectorInt,
            X86Register::Xmm(_) => XvaCategory::VectorAny,
            X86Register::Ymm(_) => XvaCategory::VectorAny,
            X86Register::Zmm(_) => XvaCategory::VectorAny,
            X86Register::Tmm(_) => XvaCategory::VectorAny,
            X86Register::Kreg(_) => XvaCategory::VectorInt,
            X86Register::Control(_) => XvaCategory::Custom(RegisterKind::System),
            X86Register::Debug(_) => XvaCategory::Custom(RegisterKind::System),
            X86Register::ExtControl(_) => XvaCategory::Custom(RegisterKind::System),
        }
    }

    fn align(&self, mode: X86Mode) -> (a: u32) {
        proof {
            Self::lemma_align_power_of_two(*self, mode);
        }
        match self {
            X86Register::St(_) => 2,
            _ => self.size(mode),
        }
    }

    fn overlaps(&self, other: &Self) -> (b: bool) {
        let same_class = self.class().ordinal() == other.class().ordinal();
        if same_class && self.index() == other.index() {
            return true;
        }
        if same_class && self.class().norex() && self.regno() == other.regno() {
            return true;
        }
        match (self, other) {
            (X86Register::ByteLegacy(n), r) | (r, X86Register::ByteLegacy(n)) => Self::legacy_overlap(
                *n,
                r,
            ),
            (X86Register::Byte(n), X86Register::ByteRex(n2))
            | (X86Register::ByteRex(n2), X86Register::Byte(n)) => *n < 4 && *n == *n2,
            (X86Register::Byte(n), X86Register::Word(n2))
            | (X86Register::Byte(n), X86Register::Double(n2))
            | (X86Register::Byte(n), X86Register::Quad(n2))
            | (X86Register::Word(n2), X86Register::Byte(n))
            | (X86Register::Double(n2), X86Register::Byte(n))
            | (X86Register::Quad(n2), X86Register::Byte(n)) => Self::low_byte_overlaps(*n, *n2),
            (X86Register::Mmx(m), X86Register::St(n)) | (X86Register::St(n), X86Register::Mmx(m)) => {
                Self::stack_overlaps(*m, *n)
            },
            _ => classes_share(self.class(), other.class()) && self.index() == other.index(),
        }
    }

    fn valid_in_mode(&self, mode: X86Mode) -> (b: bool) {
        X86Register::valid_in_mode(self, mode)
    }
}

/// The name that stands for a register without a name.
pub open spec fn unknown_register() -> Seq<char> {
    "**Unknown Register**"@
}

/// Names are made from the numbers below this one.
pub const NAMED_NUMBERS: u8 = 32;

impl X86RegisterClass {
    /// The name that the class gives the number `m` by itself.
    pub open spec fn literal_name_spec(self, m: u8) -> Option<Seq<char>> {
        match self {
            X86RegisterClass::Byte => match m {
                0 => Some("al"@),
                1 => Some("cl"@),
                2 => Some("dl"@),
                3 => Some("bl"@),
                _ => None,
            },
            X86RegisterClass::ByteLegacy => match m {
                0 => Some("al"@),
                1 => Some("cl"@),
                2 => Some("dl"@),
                3 => Some("bl"@),
                4 => Some("ah"@),
                5 => Some("ch"@),
                6 => Some("dh"@),
                7 => Some("bh"@),
                _ => None,
            },
            X86RegisterClass::ByteRex => match m {
                0 => Some("al"@),
                1 => Some("cl"@),
                2 => Some("dl"@),
                3 => Some("bl"@),
                4 => Some("spl"@),
                5 => Some("bpl"@),
                6 => Some("sil"@),
                7 => Some("dil"@),
                _ => None,
            },
            X86RegisterClass::Word => match m {
                0 => Some("ax"@),
                1 => Some("cx"@),
                2 => Some("dx"@),
                3 => Some("bx"@),
                4 => Some("sp"@),
                5 => Some("bp"@),
                6 => Some("si"@),
                7 => Some("di"@),
                _ => None,
            },
            X86RegisterClass::Double => match m {
                0 => Some("eax"@),
                1 => Some("ecx"@),
                2 => Some("edx"@),
                3 => Some("ebx"@),
                4 => Some("esp"@),
                5 => Some("ebp"@),
                6 => Some("esi"@),
                7 => Some("edi"@),
                _ => None,
            },
            X86RegisterClass::Quad => match m {
                0 => Some("rax"@),
                1 => Some("rcx"@),
                2 => Some("rdx"@),
                3 => Some("rbx"@),
                4 => Some("rsp"@),
                5 => Some("rbp"@),
                6 => Some("rsi"@),
                7 => Some("rdi"@),
                _ => None,
            },
            X86RegisterClass::Segment => match m {
                0 => Some("es"@),
                1 => Some("cs"@),
                2 => Some("ss"@),
                3 => Some("ds"@),
                4 => Some("fs"@),
                5 => Some("gs"@),
                _ => None,
            },
            _ => None,
        }
    }

    /// The name that the class gives the number `m` by itself.
    pub fn literal_name(&self, m: u8) -> (name: Option<&'static str>)
        ensures
            match name {
                Some(s) => self.literal_name_spec(m) == Some(s@),
                None => self.literal_name_spec(m) is None,
            },
    {
        match self {
            X86RegisterClass::Byte => match m {
                0 => Some("al"),
                1 => Some("cl"),
                2 => Some("dl"),
                3 => Some("bl"),
                _ => None,
            },
            X86RegisterClass::ByteLegacy => match m {
                0 => Some("al"),
                1 => Some("cl"),
                2 => Some("dl"),
                3 => Some("bl"),
                4 => Some("ah"),
                5 => Some("ch"),
                6 => Some("dh"),
                7 => Some("bh"),
                _ => None,
            },
            X86RegisterClass::ByteRex => match m {
                0 => Some("al"),
                1 => Some("cl"),
                2 => Some("dl"),
                3 => Some("bl"),
                4 => Some("spl"),
                5 => Some("bpl"),
                6 => Some("sil"),
                7 => Some("dil"),
                _ => None,
            },
            X86RegisterClass::Word => match m {
                0 => Some("ax"),
                1 => Some("cx"),
                2 => Some("dx"),
                3 => Some("bx"),
                4 => Some("sp"),
                5 => Some("bp"),
                6 => Some("si"),
                7 => Some("di"),
                _ => None,
            },
            X86RegisterClass::Double => match m {
                0 => Some("eax"),
                1 => Some("ecx"),
                2 => Some("edx"),
                3 => Some("ebx"),
                4 => Some("esp"),
                5 => Some("ebp"),
                6 => Some("esi"),
                7 => Some("edi"),
                _ => None,
            },
            X86RegisterClass::Quad => match m {
                0 => Some("rax"),
                1 => Some("rcx"),
                2 => Some("rdx"),
                3 => Some("rbx"),
                4 => Some("rsp"),
                5 => Some("rbp"),
                6 => Some("rsi"),
                7 => Some("rdi"),
                _ => None,
            },
            X86RegisterClass::Segment => match m {
                0 => Some("es"),
                1 => Some("cs"),
                2 => Some("ss"),
                3 => Some("ds"),
                4 => Some("fs"),
                5 => Some("gs"),
                _ => None,
            },
            _ => None,
        }
    }

    /// How the class makes names from numbers: what stands before the
    /// number and what behind it, and the first number that is named so and
    /// the first that is not.
    pub open spec fn pattern_spec(self) -> Option<(Seq<char>, Seq<char>, u8, u8)> {
        match self {
            X86RegisterClass::ByteRex => Some(("r"@, "b"@, 8u8, 32u8)),
            X86RegisterClass::Word => Some(("r"@, "w"@, 8u8, 32u8)),
            X86RegisterClass::Double => Some(("r"@, "d"@, 8u8, 32u8)),
            X86RegisterClass::Quad => Some(("r"@, ""@, 8u8, 32u8)),
            X86RegisterClass::St => Some(("st"@, ""@, 0u8, 8u8)),
            X86RegisterClass::Mmx => Some(("mm"@, ""@, 0u8, 8u8)),
            X86RegisterClass::Xmm => Some(("xmm"@, ""@, 0u8, 32u8)),
            X86RegisterClass::Ymm => Some(("ymm"@, ""@, 0u8, 32u8)),
            X86RegisterClass::Zmm => Some(("zmm"@, ""@, 0u8, 32u8)),
            X86RegisterClass::Tmm => Some(("tmm"@, ""@, 0u8, 32u8)),
            X86RegisterClass::Kreg => Some(("k"@, ""@, 0u8, 32u8)),
            X86RegisterClass::Control => Some(("cr"@, ""@, 0u8, 32u8)),
            X86RegisterClass::Debug => Some(("dr"@, ""@, 0u8, 32u8)),
            X86RegisterClass::ExtControl => Some(("xcr"@, ""@, 0u8, 32u8)),
            _ => None,
        }
    }

    /// How the class makes names from numbers.
    pub fn pattern(&self) -> (p: Option<(&'static str, &'static str, u8, u8)>)
        ensures
            match p {
                Some((prefix, suffix, begin, end)) => self.pattern_spec() == Some(
                    (prefix@, suffix@, begin, end),
                ),
                None => self.pattern_spec() is None,
            },
    {
        match self {
            X86RegisterClass::ByteRex => Some(("r", "b", 8, 32)),
            X86RegisterClass::Word => Some(("r", "w", 8, 32)),
            X86RegisterClass::Double => Some(("r", "d", 8, 32)),
            X86RegisterClass::Quad => Some(("r", "", 8, 32)),
            X86RegisterClass::St => Some(("st", "", 0, 8)),
            X86RegisterClass::Mmx => Some(("mm", "", 0, 8)),
            X86RegisterClass::Xmm => Some(("xmm", "", 0, 32)),
            X86RegisterClass::Ymm => Some(("ymm", "", 0, 32)),
            X86RegisterClass::Zmm => Some(("zmm", "", 0, 32)),
            X86RegisterClass::Tmm => Some(("tmm", "", 0, 32)),
            X86RegisterClass::Kreg => Some(("k", "", 0, 32)),
            X86RegisterClass::Control => Some(("cr", "", 0, 32)),
            X86RegisterClass::Debug => Some(("dr", "", 0, 32)),
            X86RegisterClass::ExtControl => Some(("xcr", "", 0, 32)),
            _ => None,
        }
    }
}

impl X86Register {
    /// Whether the register's name is made from its number.
    pub open spec fn has_made_name(self) -> bool {
        match self.class_spec().pattern_spec() {
            Some((_, _, begin, end)) => begin <= self.regno_spec() < end && self.index_spec()
                < NAMED_NUMBERS,
            None => false,
        }
    }

    /// Whether the register has a name.
    pub open spec fn is_named_spec(self) -> bool {
        self.class_spec().literal_name_spec(self.regno_spec()) is Some || self.has_made_name()
    }

    /// Whether the register has a name.
    pub fn is_named(&self) -> (b: bool)
        ensures
            b == self.is_named_spec(),
    {
        let class = self.class();
        let m: u8 = self.regno();
        if class.literal_name(m).is_some() {
            return true;
        }
        match class.pattern() {
            Some((_, _, begin, end)) => begin <= m && m < end && self.index() < NAMED_NUMBERS,
            None => false,
        }
    }

    /// The registers of a class that are listed, by number.
    pub open spec fn class_listing(class: X86RegisterClass, n: nat) -> Seq<X86Register>
        decreases n,
    {
        if n == 0 {
            Seq::<X86Register>::empty()
        } else {
            Self::class_listing(class, (n - 1) as nat).push(Self::make_spec(class, (n - 1) as u8))
        }
    }

    /// The listed registers of the first `k` classes.
    pub open spec fn listing_upto(k: nat) -> Seq<X86Register>
        decreases k,
    {
        if k == 0 {
            Seq::<X86Register>::empty()
        } else {
            Self::listing_upto((k - 1) as nat) + match X86RegisterClass::from_ordinal_spec(
                (k - 1) as u64,
            ) {
                Some(class) => Self::class_listing(class, class.count_spec() as nat),
                None => Seq::<X86Register>::empty(),
            }
        }
    }

    /// Every register that is listed: class by class, and by number within
    /// a class.
    pub open spec fn all_registers_spec() -> Seq<X86Register> {
        Self::listing_upto(CLASS_COUNT as nat)
    }

    /// Every register that is listed.
    pub fn all_registers() -> (all: Vec<X86Register>)
        ensures
            all@ == Self::all_registers_spec(),
    {
        let mut all: Vec<X86Register> = Vec::new();
        let mut k: u64 = 0;
        while k < CLASS_COUNT
            invariant
                k <= CLASS_COUNT,
                all@ == Self::listing_upto(k as nat),
            decreases CLASS_COUNT - k,
        {
            let ghost before = all@;
            match X86RegisterClass::from_ordinal(k) {
                Some(class) => {
                    let count: u8 = class.count();
                    let mut i: u8 = 0;
                    while i < count
                        invariant
                            i <= count,
                            count == class.count_spec(),
                            all@ == before + Self::class_listing(class, i as nat),
                        decreases count - i,
                    {
                        all.push(Self::make(class, i));
                        assert(all@ =~= before + Self::class_listing(class, (i + 1) as nat));
                        i = i + 1;
                    }
                },
                None => {},
            }
            k = k + 1;
        }
        all
    }

    /// The first register from position `from` of `all` on that has the
    /// name `name`.
    pub open spec fn first_named(all: Seq<X86Register>, name: Seq<char>, from: int) -> Option<
        X86Register,
    >
        decreases all.len() - from,
    {
        if from < 0 || from >= all.len() {
            None
        } else if all[from].is_named_spec() && all[from].name_spec() == name {
            Some(all[from])
        } else {
            Self::first_named(all, name, from + 1)
        }
    }

    /// The register with the name `name`: the first one in the listing that
    /// has this name.
    pub open spec fn from_name_spec(name: Seq<char>) -> Option<X86Register> {
        Self::first_named(Self::all_registers_spec(), name, 0)
    }

    /// Finds the register with the given name.
    pub fn from_name(name: &str) -> (r: Option<X86Register>)
        ensures
            r == Self::from_name_spec(name@),
    {
        let all = Self::all_registers();
        let target = String::from_str(name);
        let mut i: usize = 0;
        while i < all.len()
            invariant
                i <= all.len(),
                target@ == name@,
                all@ == Self::all_registers_spec(),
                Self::from_name_spec(name@) == Self::first_named(all@, name@, i as int),
            decreases all.len() - i,
        {
            let reg = all[i];
            if reg.is_named() {
                let s = reg.name();
                if s == target {
                    return Some(reg);
                }
            }
            i = i + 1;
        }
        None
    }

    /// What `first_named` finds has the name and is among `all`; and where
    /// it finds nothing, no named register among `all` has the name.
    pub proof fn lemma_first_named(all: Seq<X86Register>, name: Seq<char>, from: int)
        requires
            0 <= from,
        ensures
            match Self::first_named(all, name, from) {
                Some(r) => r.is_named_spec() && r.name_spec() == name && all.contains(r),
                None => forall|i: int|
                    from <= i < all.len() ==> !((#[trigger] all[i]).is_named_spec()
                        && all[i].name_spec() == name),
            },
        decreases all.len() - from,
    {
        if from < all.len() {
            if !(all[from].is_named_spec() && all[from].name_spec() == name) {
                Self::lemma_first_named(all, name, from + 1);
            }
        }
    }

    /// Looking a register up by its name and naming what was found agree: a
    /// register that is found has the name that was asked for, and a name
    /// for which nothing is found is the name of no listed register.
    pub proof fn lemma_from_name_agrees(name: Seq<char>)
        ensures
            match Self::from_name_spec(name) {
                Some(r) => r.is_named_spec() && r.name_spec() == name
                    && Self::all_registers_spec().contains(r),
                None => forall|i: int|
                    0 <= i < Self::all_registers_spec().len() ==> !((
                    #[trigger] Self::all_registers_spec()[i]).is_named_spec()
                        && Self::all_registers_spec()[i].name_spec() == name),
            },
    {
        Self::lemma_first_named(Self::all_registers_spec(), name, 0);
    }
}

impl Name for X86Register {
    open spec fn name_spec(&self) -> Seq<char> {
        match self.class_spec().literal_name_spec(self.regno_spec()) {
            Some(name) => name,
            None => match self.class_spec().pattern_spec() {
                Some((prefix, suffix, _, _)) => if self.has_made_name() {
                    prefix + decimal_spec(self.index_spec() as nat) + suffix
                } else {
                    unknown_register()
                },
                None => unknown_register(),
            },
        }
    }

    fn name(&self) -> (s: String) {
        let class = self.class();
        let m: u8 = self.regno();
        match class.literal_name(m) {
            Some(name) => String::from_str(name),
            None => match class.pattern() {
                Some((prefix, suffix, begin, end)) => {
                    if begin <= m && m < end && self.index() < NAMED_NUMBERS {
                        let mut s = String::from_str(prefix);
                        push_decimal(&mut s, self.index() as u64);
                        s.append(suffix);
                        s
                    } else {
                        String::from_str("**Unknown Register**")
                    }
                },
                None => String::from_str("**Unknown Register**"),
            },
        }
    }
}

/// What an operand of an x86 instruction may be.
#[derive(Copy, Clone, Debug, Hash, PartialEq, Eq, Structural)]
pub enum X86OperandKind {
    Register(X86RegisterClass),
    Immediate,
    Memory(X86RegisterClass),
}

/// The prefixes and instructions of the x86 family that are described so
/// far.
#[derive(Copy, Clone, Debug, Hash, PartialEq, Eq, Structural)]
pub enum X86Opcode {
    Lock,
    AddrOverride,
    DataOverride,
    Repnz,
    Repz,
    Rep,
    Wait,
    Add,
}

impl X86Opcode {
    /// Every opcode, prefixes first, in the order of their payloads.
    pub open spec fn all_opcodes_spec() -> Seq<X86Opcode> {
        seq![
            X86Opcode::Lock,
            X86Opcode::AddrOverride,
            X86Opcode::DataOverride,
            X86Opcode::Repnz,
            X86Opcode::Repz,
            X86Opcode::Rep,
            X86Opcode::Wait,
            X86Opcode::Add,
        ]
    }

    /// Every opcode, prefixes first, in the order of their payloads.
    pub fn all_opcodes() -> (all: Vec<X86Opcode>)
        ensures
            all@ == Self::all_opcodes_spec(),
    {
        let mut all: Vec<X86Opcode> = Vec::new();
        all.push(X86Opcode::Lock);
        all.push(X86Opcode::AddrOverride);
        all.push(X86Opcode::DataOverride);
        all.push(X86Opcode::Repnz);
        all.push(X86Opcode::Repz);
        all.push(X86Opcode::Rep);
        all.push(X86Opcode::Wait);
        all.push(X86Opcode::Add);
        assert(all@ =~= Self::all_opcodes_spec());
        all
    }

    /// Whether the opcode is a prefix.
    pub fn is_prefix(&self) -> (b: bool)
        ensures
            b == !(*self is Add),
    {
        !matches!(self, X86Opcode::Add)
    }
}

impl X86Opcode {
    /// The position of the opcode among the opcodes.
    pub open spec fn ordinal_spec(self) -> u64 {
        match self {
            X86Opcode::Lock => 0,
            X86Opcode::AddrOverride => 1,
            X86Opcode::DataOverride => 2,
            X86Opcode::Repnz => 3,
            X86Opcode::Repz => 4,
            X86Opcode::Rep => 5,
            X86Opcode::Wait => 6,
            X86Opcode::Add => 7,
        }
    }

    /// The position of the opcode among the opcodes.
    pub fn ordinal(&self) -> (i: u64)
        ensures
            i == self.ordinal_spec(),
    {
        match self {
            X86Opcode::Lock => 0,
            X86Opcode::AddrOverride => 1,
            X86Opcode::DataOverride => 2,
            X86Opcode::Repnz => 3,
            X86Opcode::Repz => 4,
            X86Opcode::Rep => 5,
            X86Opcode::Wait => 6,
            X86Opcode::Add => 7,
        }
    }

    /// The opcode at a position, if the position is one.
    pub open spec fn from_ordinal_spec(i: u64) -> Option<Self> {
        if i == 0 {
            Some(X86Opcode::Lock)
        } else if i == 1 {
            Some(X86Opcode::AddrOverride)
        } else if i == 2 {
            Some(X86Opcode::DataOverride)
        } else if i == 3 {
            Some(X86Opcode::Repnz)
        } else if i == 4 {
            Some(X86Opcode::Repz)
        } else if i == 5 {
            Some(X86Opcode::Rep)
        } else if i == 6 {
            Some(X86Opcode::Wait)
        } else if i == 7 {
            Some(X86Opcode::Add)
        } else {
            None
        }
    }

    /// The opcode at a position, if the position is one.
    pub fn from_ordinal(i: u64) -> (op: Option<Self>)
        ensures
            op == Self::from_ordinal_spec(i),
    {
        match i {
            0 => Some(X86Opcode::Lock),
            1 => Some(X86Opcode::AddrOverride),
            2 => Some(X86Opcode::DataOverride),
            3 => Some(X86Opcode::Repnz),
            4 => Some(X86Opcode::Repz),
            5 => Some(X86Opcode::Rep),
            6 => Some(X86Opcode::Wait),
            7 => Some(X86Opcode::Add),
            _ => None,
        }
    }
}

/// The type tag is the one that is minted for the definition of this type
/// as an identifier of this kind.
impl IntoId<Opcode> for X86Opcode {
    open spec fn id_type() -> u64 {
        0xfb8e_fd7a_3342_2394
    }

    open spec fn into_id(self) -> u64 {
        self.ordinal_spec()
    }

    open spec fn try_downcast(val: u64) -> Option<Self> {
        Self::from_ordinal_spec(val)
    }

    proof fn lemma_payload_round_trip(v: Self) {
    }

    fn exec_id_type() -> (tag: u64) {
        0xfb8e_fd7a_3342_2394
    }

    fn exec_into_id(self) -> (n: u64) {
        self.ordinal()
    }

    fn exec_try_downcast(val: u64) -> (r: Option<Self>) {
        Self::from_ordinal(val)
    }
}

/// The type tag is the one that is minted for the definition of this type
/// as an identifier of this kind.
impl IntoId<InstructionId> for X86Opcode {
    open spec fn id_type() -> u64 {
        0x8886_ec77_95e9_9e65
    }

    open spec fn into_id(self) -> u64 {
        self.ordinal_spec()
    }

    open spec fn try_downcast(val: u64) -> Option<Self> {
        Self::from_ordinal_spec(val)
    }

    proof fn lemma_payload_round_trip(v: Self) {
    }

    fn exec_id_type() -> (tag: u64) {
        0x8886_ec77_95e9_9e65
    }

    fn exec_into_id(self) -> (n: u64) {
        self.ordinal()
    }

    fn exec_try_downcast(val: u64) -> (r: Option<Self>) {
        Self::from_ordinal(val)
    }
}

/// The type tag is the one that is minted for the definition of this type
/// as an identifier of this kind.
impl IntoId<PrefixId> for X86Opcode {
    open spec fn id_type() -> u64 {
        0xce08_abae_e1bf_0bbd
    }

    open spec fn into_id(self) -> u64 {
        self.ordinal_spec()
    }

    open spec fn try_downcast(val: u64) -> Option<Self> {
        Self::from_ordinal_spec(val)
    }

    proof fn lemma_payload_round_trip(v: Self) {
    }

    fn exec_id_type() -> (tag: u64) {
        0xce08_abae_e1bf_0bbd
    }

    fn exec_into_id(self) -> (n: u64) {
        self.ordinal()
    }

    fn exec_try_downcast(val: u64) -> (r: Option<Self>) {
        Self::from_ordinal(val)
    }
}

impl Name for X86Opcode {
    open spec fn name_spec(&self) -> Seq<char> {
        match self {
            X86Opcode::Lock => "lock"@,
            X86Opcode::AddrOverride => "addro"@,
            X86Opcode::DataOverride => "datao"@,
            X86Opcode::Repnz => "repnz"@,
            X86Opcode::Repz => "repz"@,
            X86Opcode::Rep => "rep"@,
            X86Opcode::Wait => "fwait"@,
            X86Opcode::Add => "add"@,
        }
    }

    fn name(&self) -> (s: String) {
        match self {
            X86Opcode::Lock => String::from_str("lock"),
            X86Opcode::AddrOverride => String::from_str("addro"),
            X86Opcode::DataOverride => String::from_str("datao"),
            X86Opcode::Repnz => String::from_str("repnz"),
            X86Opcode::Repz => String::from_str("repz"),
            X86Opcode::Rep => String::from_str("rep"),
            X86Opcode::Wait => String::from_str("fwait"),
            X86Opcode::Add => String::from_str("add"),
        }
    }
}

/// The x86 family as a machine.
#[derive(Copy, Clone, Debug, Hash, PartialEq, Eq)]
pub struct X86;

impl MachineSpec for X86 {
    type Opcode = X86Opcode;

    type Register = X86Register;

    type MachineMode = X86Mode;

    type Compiler = Self;

    open spec fn opcodes_spec() -> Seq<X86Opcode> {
        X86Opcode::all_opcodes_spec()
    }

    open spec fn registers_spec() -> Seq<X86Register> {
        X86Register::all_registers_spec()
    }

    open spec fn mach_modes_spec() -> Seq<X86Mode> {
        X86Mode::all_modes_spec()
    }

    fn opcodes() -> (all: Vec<X86Opcode>) {
        X86Opcode::all_opcodes()
    }

    fn registers() -> (all: Vec<X86Register>) {
        X86Register::all_registers()
    }

    fn mach_modes() -> (all: Vec<X86Mode>) {
        X86Mode::all_modes()
    }

    open spec fn name_spec(&self) -> Seq<char> {
        "x86"@
    }

    fn name(&self) -> (s: &'static str) {
        "x86"
    }

    fn as_compiler(&self) -> &Self {
        self
    }
}

impl CompilerSpec for X86 {
    type Machine = Self;
}

/// The two enumerations of modes that this library has are told apart by
/// their tags.
pub proof fn lemma_mode_tags_differ()
    ensures
        <X86Mode as IntoId<MachineMode>>::id_type() != <OneMachine as IntoId<MachineMode>>::id_type(),
{
}

} // verus!
