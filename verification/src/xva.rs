//! The architecture-independent intermediate representation.

use vstd::prelude::*;
use crate::compiler::{PsuedoReg, RegisterType};
use crate::instr::{InstructionId, RegisterKind};
use crate::intern::Symbol;

verus! {

/// The abstract category of what a register or an operand holds.
#[derive(Copy, Clone, Debug, Hash, PartialEq, Eq, Structural)]
pub enum XvaCategory {
    Int,
    Float,
    VectorInt,
    VectorFloat,
    VectorAny,
    Aggregate,
    Custom(RegisterKind),
}

/// The type of a value in the intermediate representation.
#[derive(Copy, Clone, Debug, Hash, PartialEq, Eq, Structural)]
pub struct XvaType {
    /// The size in bytes.
    pub size: u32,
    /// The alignment in bytes.
    pub align: u32,
    pub category: XvaCategory,
}

/// The ordering of a memory access among the accesses of other threads.
#[derive(Copy, Clone, Debug, Hash, PartialEq, Eq, Structural)]
pub enum Order {
    Relaxed,
    Acquire,
    Release,
    AcqRel,
    SeqCst,
}

/// What a shift does with an amount that is not less than the width.
#[derive(Copy, Clone, Debug, Hash, PartialEq, Eq, Structural)]
pub enum ShiftBehaviour {
    /// The amount is taken to be in range.
    AssumeWellFormed,
    /// The amount is reduced modulo the width.
    Wrap,
    /// Every bit is shifted out.
    Unbounded,
}

/// Whether an arithmetic operation checks for overflow, and of which kind.
#[derive(Copy, Clone, Debug, Hash, PartialEq, Eq, Structural)]
pub enum OverflowCheck {
    Unchecked,
    Signed,
    Unsigned,
}

/// The transformations that an optimization barrier forbids, as a set of
/// bits.
#[derive(Copy, Clone, Debug, Hash, PartialEq, Eq, Structural)]
pub struct OptFlags(pub u8);

/// No constant is propagated through the barrier.
pub const NO_CONST_PROP: u8 = 1;

/// No instruction, register use or store is elided.
pub const NO_ELIDE: u8 = 2;

/// Nothing is optimized: every transformation is forbidden, whichever other
/// bits are set.
pub const NO_OPT: u8 = 4;

impl OptFlags {
    /// Whether the barrier forbids every transformation in `flags`: it does
    /// where it forbids all optimization, and where each bit of `flags` is
    /// set in it.
    pub open spec fn forbids_spec(self, flags: u8) -> bool {
        self.0 & NO_OPT == NO_OPT || self.0 & flags == flags
    }

    /// Whether every transformation in `flags` is forbidden.
    pub fn forbids(&self, flags: u8) -> (b: bool)
        ensures
            b == self.forbids_spec(flags),
    {
        self.0 & NO_OPT == NO_OPT || self.0 & flags == flags
    }
}

/// An operation of the intermediate representation.
#[derive(Copy, Clone, Debug, Hash, PartialEq, Eq, Structural)]
pub enum Opcode {
    ZeroInit,
    NoInit,
    ConstScalar(u128),
    ConstAddr(Symbol, u64),
    Copy(PsuedoReg),
    LoadAddr(Symbol, u64, Order),
    Load(PsuedoReg, Order),
    StoreAddr(Symbol, u64, Order),
    Store(PsuedoReg, Order),
    AddSigned(PsuedoReg, PsuedoReg),
    AddUnsigned(PsuedoReg, PsuedoReg),
    SubSigned(PsuedoReg, PsuedoReg),
    SubUnsigned(PsuedoReg, PsuedoReg),
    MulSigned(PsuedoReg, PsuedoReg),
    /// Addition that checks for overflow as the mode says.
    AddChecked(PsuedoReg, PsuedoReg, OverflowCheck),
    /// Subtraction that checks for overflow as the mode says.
    SubChecked(PsuedoReg, PsuedoReg, OverflowCheck),
    ShiftLeft(PsuedoReg, PsuedoReg, ShiftBehaviour),
    ShiftRight(PsuedoReg, PsuedoReg, ShiftBehaviour),
    Call(Symbol),
    TailCall(Symbol),
    Return,
    Trap,
    /// Opens the optimization barrier with the given number.
    OptGate(OptFlags, u32),
    /// Closes the optimization barrier with the given number.
    EndOptGate(u32),
    Native(InstructionId, Option<PsuedoReg>, Option<PsuedoReg>),
}

/// Whether an optional register is there and is virtual.
pub open spec fn is_virtual_opt(reg: Option<PsuedoReg>) -> bool {
    reg matches Some(r) && r is Virtual
}

impl Opcode {
    /// Whether the operation reads a virtual register.
    pub open spec fn reads_virtual(self) -> bool {
        match self {
            Opcode::Copy(a) | Opcode::Load(a, _) | Opcode::Store(a, _) => a is Virtual,
            Opcode::AddSigned(a, b)
            | Opcode::AddUnsigned(a, b)
            | Opcode::SubSigned(a, b)
            | Opcode::SubUnsigned(a, b)
            | Opcode::MulSigned(a, b)
            | Opcode::AddChecked(a, b, _)
            | Opcode::SubChecked(a, b, _)
            | Opcode::ShiftLeft(a, b, _)
            | Opcode::ShiftRight(a, b, _) => a is Virtual || b is Virtual,
            Opcode::Native(_, a, b) => is_virtual_opt(a) || is_virtual_opt(b),
            _ => false,
        }
    }

    /// Whether the operation reads a virtual register.
    pub fn has_virtual_operand(&self) -> (b: bool)
        ensures
            b == self.reads_virtual(),
    {
        match self {
            Opcode::Copy(a) | Opcode::Load(a, _) | Opcode::Store(a, _) => a.is_virtual(),
            Opcode::AddSigned(a, b)
            | Opcode::AddUnsigned(a, b)
            | Opcode::SubSigned(a, b)
            | Opcode::SubUnsigned(a, b)
            | Opcode::MulSigned(a, b)
            | Opcode::AddChecked(a, b, _)
            | Opcode::SubChecked(a, b, _)
            | Opcode::ShiftLeft(a, b, _)
            | Opcode::ShiftRight(a, b, _) => a.is_virtual() || b.is_virtual(),
            Opcode::Native(_, a, b) => {
                let first = match a {
                    Some(r) => r.is_virtual(),
                    None => false,
                };
                let second = match b {
                    Some(r) => r.is_virtual(),
                    None => false,
                };
                first || second
            },
            _ => false,
        }
    }
}

/// The registers that an optional register stands for: itself, or none.
pub open spec fn opt_regs(reg: Option<PsuedoReg>) -> Seq<PsuedoReg> {
    match reg {
        Some(r) => seq![r],
        None => Seq::<PsuedoReg>::empty(),
    }
}

impl Opcode {
    /// The registers that the operation names, in order.
    pub open spec fn regs_spec(self) -> Seq<PsuedoReg> {
        match self {
            Opcode::Copy(a) | Opcode::Load(a, _) | Opcode::Store(a, _) => seq![a],
            Opcode::AddSigned(a, b)
            | Opcode::AddUnsigned(a, b)
            | Opcode::SubSigned(a, b)
            | Opcode::SubUnsigned(a, b)
            | Opcode::MulSigned(a, b)
            | Opcode::AddChecked(a, b, _)
            | Opcode::SubChecked(a, b, _)
            | Opcode::ShiftLeft(a, b, _)
            | Opcode::ShiftRight(a, b, _) => seq![a, b],
            Opcode::Native(_, a, b) => opt_regs(a) + opt_regs(b),
            _ => Seq::<PsuedoReg>::empty(),
        }
    }

    /// The operation with the registers that it names replaced, in order, by
    /// `regs`.
    pub open spec fn with_regs_spec(self, regs: Seq<PsuedoReg>) -> Opcode {
        match self {
            Opcode::Copy(_) => Opcode::Copy(regs[0]),
            Opcode::Load(_, order) => Opcode::Load(regs[0], order),
            Opcode::Store(_, order) => Opcode::Store(regs[0], order),
            Opcode::AddSigned(_, _) => Opcode::AddSigned(regs[0], regs[1]),
            Opcode::AddUnsigned(_, _) => Opcode::AddUnsigned(regs[0], regs[1]),
            Opcode::SubSigned(_, _) => Opcode::SubSigned(regs[0], regs[1]),
            Opcode::SubUnsigned(_, _) => Opcode::SubUnsigned(regs[0], regs[1]),
            Opcode::MulSigned(_, _) => Opcode::MulSigned(regs[0], regs[1]),
            Opcode::AddChecked(_, _, how) => Opcode::AddChecked(regs[0], regs[1], how),
            Opcode::SubChecked(_, _, how) => Opcode::SubChecked(regs[0], regs[1], how),
            Opcode::ShiftLeft(_, _, how) => Opcode::ShiftLeft(regs[0], regs[1], how),
            Opcode::ShiftRight(_, _, how) => Opcode::ShiftRight(regs[0], regs[1], how),
            Opcode::Native(id, a, b) => match (a, b) {
                (Some(_), Some(_)) => Opcode::Native(id, Some(regs[0]), Some(regs[1])),
                (Some(_), None) => Opcode::Native(id, Some(regs[0]), None),
                (None, Some(_)) => Opcode::Native(id, None, Some(regs[0])),
                (None, None) => self,
            },
            _ => self,
        }
    }

    /// The registers that the operation names, in order.
    pub fn regs(&self) -> (regs: Vec<PsuedoReg>)
        ensures
            regs@ == self.regs_spec(),
    {
        let mut regs: Vec<PsuedoReg> = Vec::new();
        match self {
            Opcode::Copy(a) | Opcode::Load(a, _) | Opcode::Store(a, _) => {
                regs.push(*a);
            },
            Opcode::AddSigned(a, b)
            | Opcode::AddUnsigned(a, b)
            | Opcode::SubSigned(a, b)
            | Opcode::SubUnsigned(a, b)
            | Opcode::MulSigned(a, b)
            | Opcode::AddChecked(a, b, _)
            | Opcode::SubChecked(a, b, _)
            | Opcode::ShiftLeft(a, b, _)
            | Opcode::ShiftRight(a, b, _) => {
                regs.push(*a);
                regs.push(*b);
            },
            Opcode::Native(_, a, b) => {
                match a {
                    Some(r) => {
                        regs.push(*r);
                    },
                    None => {},
                }
                match b {
                    Some(r) => {
                        regs.push(*r);
                    },
                    None => {},
                }
            },
            _ => {},
        }
        assert(regs@ =~= self.regs_spec());
        regs
    }

    /// The operation with the registers that it names replaced, in order, by
    /// `regs`, which must be as many.
    pub fn with_regs(&self, regs: &Vec<PsuedoReg>) -> (op: Opcode)
        requires
            regs@.len() == self.regs_spec().len(),
        ensures
            op == self.with_regs_spec(regs@),
    {
        match self {
            Opcode::Copy(_) => Opcode::Copy(regs[0]),
            Opcode::Load(_, order) => Opcode::Load(regs[0], *order),
            Opcode::Store(_, order) => Opcode::Store(regs[0], *order),
            Opcode::AddSigned(_, _) => Opcode::AddSigned(regs[0], regs[1]),
            Opcode::AddUnsigned(_, _) => Opcode::AddUnsigned(regs[0], regs[1]),
            Opcode::SubSigned(_, _) => Opcode::SubSigned(regs[0], regs[1]),
            Opcode::SubUnsigned(_, _) => Opcode::SubUnsigned(regs[0], regs[1]),
            Opcode::MulSigned(_, _) => Opcode::MulSigned(regs[0], regs[1]),
            Opcode::AddChecked(_, _, how) => Opcode::AddChecked(regs[0], regs[1], *how),
            Opcode::SubChecked(_, _, how) => Opcode::SubChecked(regs[0], regs[1], *how),
            Opcode::ShiftLeft(_, _, how) => Opcode::ShiftLeft(regs[0], regs[1], *how),
            Opcode::ShiftRight(_, _, how) => Opcode::ShiftRight(regs[0], regs[1], *how),
            Opcode::Native(id, a, b) => match (a, b) {
                (Some(_), Some(_)) => Opcode::Native(*id, Some(regs[0]), Some(regs[1])),
                (Some(_), None) => Opcode::Native(*id, Some(regs[0]), None),
                (None, Some(_)) => Opcode::Native(*id, None, Some(regs[0])),
                (None, None) => *self,
            },
            _ => *self,
        }
    }
}

/// Naming a virtual register and having one among the registers named are
/// the same.
pub proof fn lemma_op_reads_virtual(op: Opcode)
    ensures
        op.reads_virtual() <==> any_virtual_register(op.regs_spec()),
        op.with_regs_spec(op.regs_spec()) == op,
{
    let regs = op.regs_spec();
    if op.reads_virtual() {
        match op {
            Opcode::Native(_, a, b) => {
                if is_virtual_opt(a) {
                    assert(regs[0] is Virtual);
                } else {
                    assert(regs[regs.len() - 1] is Virtual);
                }
            },
            _ => {
                if regs[0] is Virtual {
                } else {
                    assert(regs[1] is Virtual);
                }
            },
        }
    }
}

/// One statement of the intermediate representation: an operation, the
/// register that takes its result, and the type of the result.
#[derive(Copy, Clone, Debug, Hash, PartialEq, Eq, Structural)]
pub struct XvaInstr {
    pub dest: PsuedoReg,
    pub aux: Option<PsuedoReg>,
    pub ty: RegisterType,
    pub op: Opcode,
}

impl XvaInstr {
    /// Whether the statement names a virtual register anywhere.
    pub open spec fn names_virtual(self) -> bool {
        self.dest is Virtual || is_virtual_opt(self.aux) || self.op.reads_virtual()
    }

    /// Whether the statement names a virtual register anywhere.
    pub fn has_virtual(&self) -> (b: bool)
        ensures
            b == self.names_virtual(),
    {
        let aux = match self.aux {
            Some(r) => r.is_virtual(),
            None => false,
        };
        self.dest.is_virtual() || aux || self.op.has_virtual_operand()
    }

    /// The registers that the statement names, in order: the one that takes
    /// the result, the auxiliary one if there is one, and those of the
    /// operation.
    pub open spec fn regs_spec(self) -> Seq<PsuedoReg> {
        seq![self.dest] + opt_regs(self.aux) + self.op.regs_spec()
    }

    /// The statement with the registers that it names replaced, in order, by
    /// `regs`.
    pub open spec fn with_regs_spec(self, regs: Seq<PsuedoReg>) -> XvaInstr {
        let skipped = 1 + opt_regs(self.aux).len();
        XvaInstr {
            dest: regs[0],
            aux: match self.aux {
                Some(_) => Some(regs[1]),
                None => None,
            },
            ty: self.ty,
            op: self.op.with_regs_spec(regs.skip(skipped as int)),
        }
    }

    /// The registers that the statement names, in order.
    pub fn regs(&self) -> (regs: Vec<PsuedoReg>)
        ensures
            regs@ == self.regs_spec(),
            regs@.len() >= 1,
    {
        let mut regs: Vec<PsuedoReg> = Vec::new();
        regs.push(self.dest);
        match self.aux {
            Some(r) => {
                regs.push(r);
            },
            None => {},
        }
        let of_op = self.op.regs();
        let ghost head = regs@;
        let mut i: usize = 0;
        while i < of_op.len()
            invariant
                i <= of_op.len(),
                regs@ == head + of_op@.subrange(0, i as int),
            decreases of_op.len() - i,
        {
            regs.push(of_op[i]);
            assert(regs@ =~= head + of_op@.subrange(0, i + 1));
            i = i + 1;
        }
        assert(regs@ =~= self.regs_spec());
        regs
    }

    /// The statement with the registers that it names replaced, in order, by
    /// `regs`, which must be as many.
    pub fn with_regs(&self, regs: &Vec<PsuedoReg>) -> (instr: XvaInstr)
        requires
            regs@.len() == self.regs_spec().len(),
        ensures
            instr == self.with_regs_spec(regs@),
    {
        let skipped: usize = match self.aux {
            Some(_) => 2,
            None => 1,
        };
        let mut of_op: Vec<PsuedoReg> = Vec::new();
        let mut i: usize = skipped;
        while i < regs.len()
            invariant
                skipped <= i <= regs.len(),
                of_op@ == regs@.subrange(skipped as int, i as int),
            decreases regs.len() - i,
        {
            of_op.push(regs[i]);
            assert(of_op@ =~= regs@.subrange(skipped as int, i + 1));
            i = i + 1;
        }
        assert(of_op@ =~= regs@.skip(skipped as int));
        XvaInstr {
            dest: regs[0],
            aux: match self.aux {
                Some(_) => Some(regs[1]),
                None => None,
            },
            ty: self.ty,
            op: self.op.with_regs(&of_op),
        }
    }
}

/// Naming a virtual register and having one among the registers named are
/// the same, and a statement is itself with its own registers.
pub proof fn lemma_names_virtual(instr: XvaInstr)
    ensures
        instr.names_virtual() <==> any_virtual_register(instr.regs_spec()),
        instr.with_regs_spec(instr.regs_spec()) == instr,
{
    let regs = instr.regs_spec();
    let skipped = 1 + opt_regs(instr.aux).len();
    lemma_op_reads_virtual(instr.op);
    assert(regs.skip(skipped as int) =~= instr.op.regs_spec());
    if instr.names_virtual() {
        if instr.dest is Virtual {
            assert(regs[0] is Virtual);
        } else if is_virtual_opt(instr.aux) {
            assert(regs[1] is Virtual);
        } else {
            let n = choose|n: int|
                0 <= n < instr.op.regs_spec().len() && instr.op.regs_spec()[n] is Virtual;
            assert(regs[skipped + n] is Virtual);
        }
    }
    if any_virtual_register(regs) {
        let n = choose|n: int| 0 <= n < regs.len() && regs[n] is Virtual;
        if n >= skipped {
            assert(instr.op.regs_spec()[n - skipped] is Virtual);
        }
    }
}

/// Whether any of the statements names a virtual register.
pub open spec fn any_virtual(xva: Seq<XvaInstr>) -> bool {
    exists|i: int| 0 <= i < xva.len() && (#[trigger] xva[i]).names_virtual()
}

/// Whether any of the statements names a virtual register.
pub fn has_virtual_registers(xva: &[XvaInstr]) -> (b: bool)
    ensures
        b == any_virtual(xva@),
{
    let mut i: usize = 0;
    while i < xva.len()
        invariant
            i <= xva.len(),
            forall|j: int| 0 <= j < i ==> !(#[trigger] xva@[j]).names_virtual(),
        decreases xva.len() - i,
    {
        if xva[i].has_virtual() {
            return true;
        }
        i = i + 1;
    }
    false
}

/// Why the optimization barriers of a sequence of statements are malformed.
#[derive(Copy, Clone, Debug, PartialEq, Eq, Structural)]
pub enum BarrierError {
    /// The statement at this position closes a barrier that is not the
    /// innermost open one, or closes one where none is open.
    UnmatchedEnd(usize),
    /// The barrier with this number is still open at the end.
    Unclosed(u32),
}

/// The barriers that are open behind the first `n` statements, outermost
/// first; or the position of the first statement that closes a barrier which
/// is not the innermost open one.
pub open spec fn open_barriers(xva: Seq<XvaInstr>, n: nat) -> core::result::Result<Seq<u32>, int>
    decreases n,
{
    if n == 0 || n > xva.len() {
        Ok(Seq::<u32>::empty())
    } else {
        match open_barriers(xva, (n - 1) as nat) {
            Err(at) => Err(at),
            Ok(open) => match xva[n - 1].op {
                Opcode::OptGate(_, id) => Ok(open.push(id)),
                Opcode::EndOptGate(id) => if open.len() > 0 && open.last() == id {
                    Ok(open.drop_last())
                } else {
                    Err(n - 1)
                },
                _ => Ok(open),
            },
        }
    }
}

/// The optimization barriers are well nested: every end closes the innermost
/// open barrier, and none is left open.
pub open spec fn well_nested(xva: Seq<XvaInstr>) -> bool {
    open_barriers(xva, xva.len()) == Ok::<Seq<u32>, int>(Seq::<u32>::empty())
}

/// What checking the barriers of `xva` gives.
pub open spec fn barriers_spec(xva: Seq<XvaInstr>) -> core::result::Result<(), BarrierError> {
    match open_barriers(xva, xva.len()) {
        Err(at) => Err(BarrierError::UnmatchedEnd(at as usize)),
        Ok(open) => if open.len() == 0 {
            Ok(())
        } else {
            Err(BarrierError::Unclosed(open.last()))
        },
    }
}

/// Checks that the optimization barriers nest: barriers may lie within one
/// another or apart, but may not overlap otherwise.
pub fn check_barriers(xva: &[XvaInstr]) -> (r: core::result::Result<(), BarrierError>)
    ensures
        r == barriers_spec(xva@),
        r is Ok <==> well_nested(xva@),
{
    let mut open: Vec<u32> = Vec::new();
    let mut i: usize = 0;
    while i < xva.len()
        invariant
            i <= xva.len(),
            open_barriers(xva@, i as nat) == Ok::<Seq<u32>, int>(open@),
        decreases xva.len() - i,
    {
        match xva[i].op {
            Opcode::OptGate(_, id) => {
                open.push(id);
            },
            Opcode::EndOptGate(id) => {
                let n: usize = open.len();
                if n > 0 && open[n - 1] == id {
                    open.pop();
                } else {
                    proof {
                        lemma_unmatched_stays(xva@, (i + 1) as nat, xva@.len());
                    }
                    return Err(BarrierError::UnmatchedEnd(i));
                }
            },
            _ => {},
        }
        i = i + 1;
    }
    let n: usize = open.len();
    if n == 0 {
        assert(open@ =~= Seq::<u32>::empty());
        Ok(())
    } else {
        Err(BarrierError::Unclosed(open[n - 1]))
    }
}

/// Once an end is unmatched, the statements behind it change nothing.
pub proof fn lemma_unmatched_stays(xva: Seq<XvaInstr>, n: nat, m: nat)
    requires
        n <= m <= xva.len(),
        open_barriers(xva, n) is Err,
    ensures
        open_barriers(xva, m) == open_barriers(xva, n),
    decreases m - n,
{
    if n < m {
        lemma_unmatched_stays(xva, n, (m - 1) as nat);
    }
}

/// A register of the intermediate representation.
pub type XvaRegister = PsuedoReg;

/// A statement of the intermediate representation.
pub type XvaStatement = XvaInstr;

/// An operation of the intermediate representation.
pub type XvaOpcode = Opcode;

/// How a function or an object is seen from other units.
#[derive(Copy, Clone, Debug, Hash, PartialEq, Eq, Structural)]
pub enum Linkage {
    /// Seen by every unit.
    Global,
    /// Seen by every unit, and given way to a global definition.
    Weak,
    /// Seen within its own unit only.
    Local,
}

/// A function: the registers that take its parameters, those that it keeps
/// as they were, those that take its results, and its statements in order.
#[derive(Clone, Debug, PartialEq, Eq)]
pub struct XvaFunction {
    pub name: Symbol,
    pub linkage: Linkage,
    pub section: Symbol,
    pub params: Vec<PsuedoReg>,
    pub preserved: Vec<PsuedoReg>,
    pub returns: Vec<PsuedoReg>,
    pub body: Vec<XvaInstr>,
}

/// An object of data.
#[derive(Clone, Debug, PartialEq, Eq)]
pub struct XvaObject {
    pub name: Symbol,
    pub linkage: Linkage,
    pub section: Symbol,
    pub bytes: Vec<u8>,
    pub align: u32,
}

/// A unit: its functions and its objects of data.
#[derive(Clone, Debug, PartialEq, Eq)]
pub struct XvaFile {
    pub functions: Vec<XvaFunction>,
    pub objects: Vec<XvaObject>,
}

/// Whether any of the registers is virtual.
pub open spec fn any_virtual_register(regs: Seq<PsuedoReg>) -> bool {
    exists|i: int| 0 <= i < regs.len() && #[trigger] regs[i] is Virtual
}

fn has_virtual_among(regs: &Vec<PsuedoReg>) -> (b: bool)
    ensures
        b == any_virtual_register(regs@),
{
    let mut i: usize = 0;
    while i < regs.len()
        invariant
            i <= regs.len(),
            forall|j: int| 0 <= j < i ==> !(#[trigger] regs@[j] is Virtual),
        decreases regs.len() - i,
    {
        if regs[i].is_virtual() {
            return true;
        }
        i = i + 1;
    }
    false
}

impl XvaFunction {
    /// Whether the function names a virtual register anywhere: among its
    /// parameters, the registers that it keeps, its results or its
    /// statements.
    pub open spec fn names_virtual(&self) -> bool {
        ||| any_virtual_register(self.params@)
        ||| any_virtual_register(self.preserved@)
        ||| any_virtual_register(self.returns@)
        ||| any_virtual(self.body@)
    }

    /// Whether the function names a virtual register anywhere.
    pub fn has_virtual(&self) -> (b: bool)
        ensures
            b == self.names_virtual(),
    {
        has_virtual_among(&self.params) || has_virtual_among(&self.preserved) || has_virtual_among(
            &self.returns,
        ) || has_virtual_registers(self.body.as_slice())
    }

    /// Checks that the optimization barriers of the function nest.
    pub fn check_barriers(&self) -> (r: core::result::Result<(), BarrierError>)
        ensures
            r == barriers_spec(self.body@),
            r is Ok <==> well_nested(self.body@),
    {
        check_barriers(self.body.as_slice())
    }
}

/// The position of the first function from `from` on whose barriers do not
/// nest, with what is wrong with them.
pub open spec fn first_malformed(functions: Seq<XvaFunction>, from: int) -> Option<
    (int, BarrierError),
>
    decreases functions.len() - from,
{
    if from < 0 || from >= functions.len() {
        None
    } else {
        match barriers_spec(functions[from].body@) {
            Err(e) => Some((from, e)),
            Ok(()) => first_malformed(functions, from + 1),
        }
    }
}

impl XvaFile {
    /// Checks that the optimization barriers of every function nest, and
    /// says which function is the first of which they do not.
    pub fn check_barriers(&self) -> (r: core::result::Result<(), (usize, BarrierError)>)
        ensures
            match r {
                Ok(()) => first_malformed(self.functions@, 0) is None,
                Err((at, e)) => first_malformed(self.functions@, 0) == Some((at as int, e)),
            },
    {
        let mut i: usize = 0;
        while i < self.functions.len()
            invariant
                i <= self.functions.len(),
                first_malformed(self.functions@, 0) == first_malformed(self.functions@, i as int),
            decreases self.functions.len() - i,
        {
            match self.functions[i].check_barriers() {
                Err(e) => {
                    return Err((i, e));
                },
                Ok(()) => {},
            }
            i = i + 1;
        }
        Ok(())
    }
}

} // verus!
