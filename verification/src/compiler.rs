//! The stages that turn the intermediate representation into machine code,
//! and what they work on.

use vstd::prelude::*;
use vstd::string::StringExecFns;
use std::collections::HashMap;
use crate::error::{Error, ErrorKind, Result};
use crate::instr::{check_instruction, refers_within, Instruction, Opcodes, RegisterClassId};
use crate::intern::Symbol;
use crate::mach::{Machine, MachineMode, Register};
use crate::xva::{
    any_virtual,
    check_barriers,
    has_virtual_registers,
    lemma_names_virtual,
    opt_regs,
    well_nested,
    XvaCategory,
    XvaInstr,
    XvaType,
};

verus! {

/// The stages of one machine, as its architecture has them.
pub trait CompilerSpec {
    type Machine;
}

/// A virtual register: a number, and the type of what it holds.
#[derive(Copy, Clone, Debug, Hash, PartialEq, Eq, Structural)]
pub struct EmphemeralRegister {
    pub id: u64,
    pub ty: XvaType,
}

/// A register of the intermediate representation: a register of the machine,
/// or a virtual one that still has to be given one.
#[derive(Copy, Clone, Debug, Hash, PartialEq, Eq, Structural)]
pub enum PsuedoReg {
    Physical(Register),
    Virtual(EmphemeralRegister),
}

impl PsuedoReg {
    /// Whether the register is virtual.
    pub fn is_virtual(&self) -> (b: bool)
        ensures
            b == (*self is Virtual),
    {
        match self {
            PsuedoReg::Virtual(_) => true,
            PsuedoReg::Physical(_) => false,
        }
    }
}

/// The type of the result of a statement.
#[derive(Copy, Clone, Debug, Hash, PartialEq, Eq, Structural)]
pub enum RegisterType {
    Integer { size: u16 },
    Float { size: u16 },
    Vector { elem_width: u8, lane_count: u8 },
    ArchSpecific(RegisterClassId),
}

/// What lowering puts out for one statement.
#[derive(Debug, PartialEq, Eq)]
pub enum MceInstr {
    Empty,
    Single(Instruction),
    Multiple(Vec<Instruction>),
    StopAnalysis,
    StartAnalysis,
    LabelMarker(Symbol),
}

/// The stages of a compiler for one machine. Each stage works on a buffer
/// and says whether it succeeded; after a failure the buffer holds nothing
/// that can be relied on.
pub trait Compiler {
    /// Gives every virtual register a register of the machine, in place.
    fn allocate_registers(&self, xva: &mut Vec<XvaInstr>) -> Result<()>;

    /// Turns statements into instructions of the machine.
    fn lower_to_mc(&self, xva: &[XvaInstr], mc: &mut Vec<MceInstr>) -> Result<()>;

    /// Rewrites what the encoder cannot take. Unless an architecture says
    /// otherwise, nothing is rewritten.
    fn legalize_mc(&self, mc: &mut Vec<MceInstr>) -> (r: Result<()>)
        default_ensures
            r is Ok,
            final(mc)@ == old(mc)@,
    {
        Ok(())
    }

    /// Improves the instructions. Unless an architecture says otherwise,
    /// nothing is changed.
    fn optimize_mc(&self, mc: &mut Vec<MceInstr>) -> (r: Result<()>)
        default_ensures
            r is Ok,
            final(mc)@ == old(mc)@,
    {
        Ok(())
    }
}

/// Runs the lowering stage on statements whose registers are all allocated.
/// Statements that still name a virtual register are not lowered: they are
/// an error, and nothing is put out.
pub fn lower<C: Compiler>(compiler: &C, xva: &[XvaInstr], mc: &mut Vec<MceInstr>) -> (r: Result<()>)
    ensures
        any_virtual(xva@) ==> r is Err && r->Err_0.kind_spec() is BadInstr && final(mc)@ == old(
            mc,
        )@,
{
    if has_virtual_registers(xva) {
        Err(
            Error::new(
                ErrorKind::BadInstr,
                String::from_str("a virtual register cannot be lowered"),
            ),
        )
    } else {
        compiler.lower_to_mc(xva, mc)
    }
}

/// Whether a register of the given size, alignment and category can hold a
/// value of the type `ty` as it is: the sizes and the categories must be the
/// same, and the register must be aligned at least as the type asks.
pub open spec fn fits(ty: XvaType, size: u32, align: u32, category: XvaCategory) -> bool {
    size == ty.size && category == ty.category && align >= ty.align
}

/// Whether a virtual register can be given the register `reg` of the
/// machine in the mode `mode`: the machine must have the register and the
/// mode, the register must be usable in the mode, and it must fit the type
/// of the virtual register.
pub open spec fn assignable<M: Machine + ?Sized>(
    machine: &M,
    ty: XvaType,
    reg: Register,
    mode: MachineMode,
) -> bool {
    &&& machine.knows_register(reg)
    &&& machine.knows_mode(mode)
    &&& machine.valid_in_mode_spec(reg, mode)
    &&& fits(
        ty,
        machine.size_spec(reg, mode),
        machine.align_spec(reg, mode),
        machine.category_spec(reg, mode),
    )
}

/// Checks that a virtual register can be given a register of the machine.
/// A register that is wider or narrower than the type, of another category,
/// or not usable in the mode is turned away.
pub fn check_assignment<M: Machine + ?Sized>(
    machine: &M,
    vreg: &EmphemeralRegister,
    reg: Register,
    mode: MachineMode,
) -> (r: Result<()>)
    ensures
        r is Ok <==> assignable(machine, vreg.ty, reg, mode),
        r matches Err(e) ==> e.kind_spec() is BadInstr,
{
    if !machine.has_register(reg) || !machine.has_mode(mode) {
        return Err(
            Error::new(ErrorKind::BadInstr, String::from_str("the register is not of the machine")),
        );
    }
    if !machine.register_valid_in_mode(reg, mode) {
        return Err(
            Error::new(
                ErrorKind::BadInstr,
                String::from_str("the register cannot be used in the mode"),
            ),
        );
    }
    let size: u32 = machine.register_size(reg, mode);
    let align: u32 = machine.register_align(reg, mode);
    let category = machine.register_category(reg, mode);
    if size == vreg.ty.size && category == vreg.ty.category && align >= vreg.ty.align {
        Ok(())
    } else {
        Err(
            Error::new(
                ErrorKind::BadInstr,
                String::from_str("the register does not fit the type of the virtual register"),
            ),
        )
    }
}

/// Whether what was put out for one statement refers to nothing but what the
/// architecture has.
pub open spec fn output_refers_within<O: Opcodes>(ops: &O, out: MceInstr) -> bool {
    match out {
        MceInstr::Single(instr) => refers_within(ops, &instr),
        MceInstr::Multiple(instrs) => forall|i: int|
            0 <= i < instrs@.len() ==> refers_within(ops, #[trigger] &instrs@[i]),
        _ => true,
    }
}

fn check_instructions<O: Opcodes>(ops: &O, instrs: &Vec<Instruction>) -> (r: Result<()>)
    ensures
        r is Ok <==> forall|i: int|
            0 <= i < instrs@.len() ==> refers_within(ops, #[trigger] &instrs@[i]),
        r matches Err(e) ==> e.kind_spec() is BadInstr,
{
    let mut k: usize = 0;
    while k < instrs.len()
        invariant
            k <= instrs.len(),
            forall|n: int| 0 <= n < k ==> refers_within(ops, #[trigger] &instrs@[n]),
        decreases instrs.len() - k,
    {
        match check_instruction(ops, &instrs[k]) {
            Err(e) => {
                return Err(e);
            },
            Ok(()) => {},
        }
        k = k + 1;
    }
    Ok(())
}

/// Checks that lowered code refers to nothing but what the architecture has:
/// its instructions, its prefixes and its registers.
pub fn check_lowered<O: Opcodes>(ops: &O, mc: &[MceInstr]) -> (r: Result<()>)
    ensures
        r is Ok <==> forall|i: int|
            0 <= i < mc@.len() ==> output_refers_within(ops, #[trigger] mc@[i]),
        r matches Err(e) ==> e.kind_spec() is BadInstr,
{
    let mut i: usize = 0;
    while i < mc.len()
        invariant
            i <= mc.len(),
            forall|j: int| 0 <= j < i ==> output_refers_within(ops, #[trigger] mc@[j]),
        decreases mc.len() - i,
    {
        let checked = match &mc[i] {
            MceInstr::Single(instr) => check_instruction(ops, instr),
            MceInstr::Multiple(instrs) => check_instructions(ops, instrs),
            _ => Ok(()),
        };
        match checked {
            Err(e) => {
                assert(!output_refers_within(ops, mc@[i as int]));
                return Err(e);
            },
            Ok(()) => {},
        }
        i = i + 1;
    }
    Ok(())
}

/// Whether the register `after` is what the register `before` becomes under
/// the assignment `assign`: a register of the machine stays what it is, and
/// a virtual register becomes the register that is assigned to its number,
/// which must be one that it can be given.
pub open spec fn allocates_reg<M: Machine + ?Sized>(
    machine: &M,
    mode: MachineMode,
    before: PsuedoReg,
    after: PsuedoReg,
    assign: Map<u64, Register>,
) -> bool {
    match before {
        PsuedoReg::Physical(_) => after == before,
        PsuedoReg::Virtual(v) => assign.contains_key(v.id) && after == PsuedoReg::Physical(
            assign[v.id],
        ) && assignable(machine, v.ty, assign[v.id], mode),
    }
}

/// Whether the first `k` registers of the statement `after` are what those
/// of the statement `before` become under the assignment `assign`.
pub open spec fn allocates_regs<M: Machine + ?Sized>(
    machine: &M,
    mode: MachineMode,
    before: XvaInstr,
    after: XvaInstr,
    assign: Map<u64, Register>,
    k: int,
) -> bool {
    forall|n: int|
        0 <= n < k ==> allocates_reg(
            machine,
            mode,
            #[trigger] before.regs_spec()[n],
            after.regs_spec()[n],
            assign,
        )
}

/// Whether the statement `after` is the statement `before` with its
/// registers replaced as the assignment `assign` says, and with nothing else
/// changed.
pub open spec fn allocates_instr<M: Machine + ?Sized>(
    machine: &M,
    mode: MachineMode,
    before: XvaInstr,
    after: XvaInstr,
    assign: Map<u64, Register>,
) -> bool {
    &&& after.regs_spec().len() == before.regs_spec().len()
    &&& after == before.with_regs_spec(after.regs_spec())
    &&& allocates_regs(machine, mode, before, after, assign, before.regs_spec().len() as int)
}

/// Whether the first `i` statements of `after` are those of `before` with
/// their registers replaced as the assignment `assign` says.
pub open spec fn allocates_upto<M: Machine + ?Sized>(
    machine: &M,
    mode: MachineMode,
    before: Seq<XvaInstr>,
    after: Seq<XvaInstr>,
    assign: Map<u64, Register>,
    i: int,
) -> bool {
    forall|j: int|
        0 <= j < i ==> allocates_instr(machine, mode, #[trigger] before[j], after[j], assign)
}

/// One place at which a register is named: the register as it was named
/// before allocation, the statement, whether the statement writes the
/// register (as the one that takes its result, or as its auxiliary register)
/// or its operation reads it, and the register that stands there after
/// allocation.
#[derive(Copy, Clone, Debug, PartialEq, Eq, Structural)]
pub struct Mention {
    pub reg: PsuedoReg,
    pub at: usize,
    pub written: bool,
    pub now: PsuedoReg,
}

/// Whether two registers, as they are named before allocation, name the
/// same value: virtual registers do where they have the same number,
/// registers of the machine where they are the same register.
pub open spec fn same_value(a: PsuedoReg, b: PsuedoReg) -> bool {
    match (a, b) {
        (PsuedoReg::Virtual(v), PsuedoReg::Virtual(w)) => v.id == w.id,
        (PsuedoReg::Physical(p), PsuedoReg::Physical(q)) => p == q,
        _ => false,
    }
}

/// Whether the first place is not later than the second: an earlier
/// statement comes first, and within a statement the operation reads its
/// registers before the result is written.
pub open spec fn not_after(a: Mention, b: Mention) -> bool {
    a.at < b.at || (a.at == b.at && (!a.written || b.written))
}

/// The places at which the first `k` registers of a statement are named.
pub open spec fn instr_mentions(before: XvaInstr, after: XvaInstr, at: usize, k: nat) -> Seq<
    Mention,
>
    decreases k,
{
    if k == 0 {
        Seq::<Mention>::empty()
    } else {
        instr_mentions(before, after, at, (k - 1) as nat).push(
            Mention {
                reg: before.regs_spec()[k - 1],
                at,
                written: k - 1 < 1 + opt_regs(before.aux).len(),
                now: after.regs_spec()[k - 1],
            },
        )
    }
}

/// The places at which the first `i` statements name registers, in order.
pub open spec fn mentions_upto(before: Seq<XvaInstr>, after: Seq<XvaInstr>, i: nat) -> Seq<Mention>
    decreases i,
{
    if i == 0 {
        Seq::<Mention>::empty()
    } else {
        mentions_upto(before, after, (i - 1) as nat) + instr_mentions(
            before[i - 1],
            after[i - 1],
            (i - 1) as usize,
            before[i - 1].regs_spec().len(),
        )
    }
}

/// Every place at which the statements name a register, in order.
pub open spec fn mentions(before: Seq<XvaInstr>, after: Seq<XvaInstr>) -> Seq<Mention> {
    mentions_upto(before, after, before.len())
}

/// Whether the place `s` names the value `x`, the place `e` names the value
/// `y`, and `s` is not later than `e`.
pub open spec fn reaches(ms: Seq<Mention>, s: int, e: int, x: PsuedoReg, y: PsuedoReg) -> bool {
    &&& 0 <= s < ms.len()
    &&& 0 <= e < ms.len()
    &&& same_value(ms[s].reg, x)
    &&& same_value(ms[e].reg, y)
    &&& not_after(ms[s], ms[e])
}

/// Whether the value `x` is named somewhere not later than the value `y` is
/// named somewhere.
pub open spec fn starts_by_end(ms: Seq<Mention>, x: PsuedoReg, y: PsuedoReg) -> bool {
    exists|s: int, e: int| #[trigger] reaches(ms, s, e, x, y)
}

/// Whether two values are live at once. A value is taken to be live from
/// the first place at which it is named to the last, so two values are live
/// at once where each is first named before the other is last named.
pub open spec fn live_together(ms: Seq<Mention>, x: PsuedoReg, y: PsuedoReg) -> bool {
    starts_by_end(ms, x, y) && starts_by_end(ms, y, x)
}

/// Whether two registers, as they stand after allocation, are registers of
/// the machine that share storage.
pub open spec fn collide<M: Machine + ?Sized>(machine: &M, a: PsuedoReg, b: PsuedoReg) -> bool {
    match (a, b) {
        (PsuedoReg::Physical(p), PsuedoReg::Physical(q)) => machine.knows_register(p)
            && machine.knows_register(q) && machine.overlaps_spec(p, q),
        _ => false,
    }
}

/// Whether the places `p` and `q` clash: they name two values of which at
/// least one was a virtual register, the values are live at once, and the
/// registers that stand there after allocation share storage.
pub open spec fn clash<M: Machine + ?Sized>(machine: &M, ms: Seq<Mention>, p: int, q: int) -> bool {
    &&& !same_value(ms[p].reg, ms[q].reg)
    &&& ms[p].reg is Virtual || ms[q].reg is Virtual
    &&& live_together(ms, ms[p].reg, ms[q].reg)
    &&& collide(machine, ms[p].now, ms[q].now)
}

/// Whether no two values that are live at once were given registers that
/// share storage.
pub open spec fn no_clash<M: Machine + ?Sized>(machine: &M, ms: Seq<Mention>) -> bool {
    forall|p: int, q: int| 0 <= p < ms.len() && 0 <= q < ms.len() ==> !#[trigger] clash(machine, ms, p, q)
}

/// Whether `after` is an allocation of `before` under the assignment
/// `assign`: the statements are the same but for their registers, every
/// register of the machine is where it was, and every virtual register was
/// replaced, wherever it stands, by the one register that is assigned to its
/// number, which is usable in the mode and fits the type of the virtual
/// register; and no two values that are live at once have registers that
/// share storage.
pub open spec fn allocates<M: Machine + ?Sized>(
    machine: &M,
    mode: MachineMode,
    before: Seq<XvaInstr>,
    after: Seq<XvaInstr>,
    assign: Map<u64, Register>,
) -> bool {
    &&& before.len() == after.len()
    &&& allocates_upto(machine, mode, before, after, assign, before.len() as int)
    &&& no_clash(machine, mentions(before, after))
}

/// Whether every assignment of `small` is one of `large`.
pub open spec fn agrees(small: Map<u64, Register>, large: Map<u64, Register>) -> bool {
    forall|id: u64| #[trigger]
        small.contains_key(id) ==> large.contains_key(id) && large[id] == small[id]
}

/// What was allocated under an assignment is allocated under every
/// assignment that holds it.
pub proof fn lemma_allocates_more<M: Machine + ?Sized>(
    machine: &M,
    mode: MachineMode,
    before: Seq<XvaInstr>,
    after: Seq<XvaInstr>,
    small: Map<u64, Register>,
    large: Map<u64, Register>,
    i: int,
)
    requires
        agrees(small, large),
        allocates_upto(machine, mode, before, after, small, i),
    ensures
        allocates_upto(machine, mode, before, after, large, i),
{
    assert forall|j: int| 0 <= j < i implies allocates_instr(
        machine,
        mode,
        #[trigger] before[j],
        after[j],
        large,
    ) by {
        assert(allocates_instr(machine, mode, before[j], after[j], small));
        lemma_allocates_regs_more(
            machine,
            mode,
            before[j],
            after[j],
            small,
            large,
            before[j].regs_spec().len() as int,
        );
    }
}

/// The registers that were allocated under an assignment are allocated
/// under every assignment that holds it.
pub proof fn lemma_allocates_regs_more<M: Machine + ?Sized>(
    machine: &M,
    mode: MachineMode,
    before: XvaInstr,
    after: XvaInstr,
    small: Map<u64, Register>,
    large: Map<u64, Register>,
    k: int,
)
    requires
        agrees(small, large),
        allocates_regs(machine, mode, before, after, small, k),
    ensures
        allocates_regs(machine, mode, before, after, large, k),
{
    assert forall|n: int| 0 <= n < k implies allocates_reg(
        machine,
        mode,
        #[trigger] before.regs_spec()[n],
        after.regs_spec()[n],
        large,
    ) by {
        let b = before.regs_spec()[n];
        assert(allocates_reg(machine, mode, b, after.regs_spec()[n], small));
        match b {
            PsuedoReg::Virtual(v) => {
                assert(small.contains_key(v.id));
            },
            PsuedoReg::Physical(_) => {},
        }
    }
}

fn not_an_allocation() -> (e: Error)
    ensures
        e.kind_spec() is BadInstr,
{
    Error::new(
        ErrorKind::BadInstr,
        String::from_str("the statements are not an allocation of those before"),
    )
}

/// Extends an assignment so that the first `k` registers of the statement
/// `after` are what those of `before` become, if any assignment does that.
fn check_regs<M: Machine + ?Sized>(
    machine: &M,
    mode: MachineMode,
    before: &XvaInstr,
    after: &XvaInstr,
    assign: &mut HashMap<u64, Register>,
) -> (ok: bool)
    requires
        after.regs_spec().len() == before.regs_spec().len(),
    ensures
        ok ==> agrees(old(assign)@, final(assign)@) && allocates_regs(
            machine,
            mode,
            *before,
            *after,
            final(assign)@,
            before.regs_spec().len() as int,
        ),
        ok ==> forall|other: Map<u64, Register>|
            agrees(old(assign)@, other) && #[trigger] allocates_regs(
                machine,
                mode,
                *before,
                *after,
                other,
                before.regs_spec().len() as int,
            ) ==> agrees(final(assign)@, other),
        !ok ==> forall|other: Map<u64, Register>|
            agrees(old(assign)@, other) ==> !#[trigger] allocates_regs(
                machine,
                mode,
                *before,
                *after,
                other,
                before.regs_spec().len() as int,
            ),
{
    broadcast use vstd::std_specs::hash::group_hash_axioms;

    let regs_before = before.regs();
    let regs_after = after.regs();
    let mut k: usize = 0;
    while k < regs_before.len()
        invariant
            k <= regs_before.len(),
            regs_before@ == before.regs_spec(),
            regs_after@ == after.regs_spec(),
            regs_after@.len() == regs_before@.len(),
            agrees(old(assign)@, assign@),
            allocates_regs(machine, mode, *before, *after, assign@, k as int),
            forall|other: Map<u64, Register>|
                agrees(old(assign)@, other) && #[trigger] allocates_regs(
                    machine,
                    mode,
                    *before,
                    *after,
                    other,
                    k as int,
                ) ==> agrees(assign@, other),
        decreases regs_before.len() - k,
    {
        let ghost len = before.regs_spec().len() as int;
        let ghost held = assign@;
        let b = regs_before[k];
        let a = regs_after[k];
        let fine: bool = match b {
            PsuedoReg::Physical(pb) => match a {
                PsuedoReg::Physical(pa) => pa == pb,
                PsuedoReg::Virtual(_) => false,
            },
            PsuedoReg::Virtual(v) => match a {
                PsuedoReg::Virtual(_) => false,
                PsuedoReg::Physical(p) => {
                    if check_assignment(machine, &v, p, mode).is_err() {
                        false
                    } else {
                        match assign.get(&v.id) {
                            Some(q) => *q == p,
                            None => {
                                assign.insert(v.id, p);
                                true
                            },
                        }
                    }
                },
            },
        };
        if !fine {
            proof {
                assert(assign@ == held);
                assert forall|other: Map<u64, Register>|
                    agrees(old(assign)@, other) implies !#[trigger] allocates_regs(
                    machine,
                    mode,
                    *before,
                    *after,
                    other,
                    len,
                ) by {
                    if allocates_regs(machine, mode, *before, *after, other, len) {
                        assert(allocates_regs(machine, mode, *before, *after, other, k as int));
                        assert(agrees(held, other));
                        assert(allocates_reg(
                            machine,
                            mode,
                            before.regs_spec()[k as int],
                            after.regs_spec()[k as int],
                            other,
                        ));
                        match b {
                            PsuedoReg::Virtual(v) => {
                                if held.contains_key(v.id) {
                                    assert(other[v.id] == held[v.id]);
                                }
                            },
                            PsuedoReg::Physical(_) => {},
                        }
                    }
                }
            }
            return false;
        }
        proof {
            assert(agrees(held, assign@));
            lemma_allocates_regs_more(machine, mode, *before, *after, held, assign@, k as int);
            assert(allocates_reg(
                machine,
                mode,
                before.regs_spec()[k as int],
                after.regs_spec()[k as int],
                assign@,
            ));
            assert forall|other: Map<u64, Register>|
                agrees(old(assign)@, other) && #[trigger] allocates_regs(
                    machine,
                    mode,
                    *before,
                    *after,
                    other,
                    k + 1,
                ) implies agrees(assign@, other) by {
                assert(allocates_regs(machine, mode, *before, *after, other, k as int));
                assert(agrees(held, other));
                assert(allocates_reg(
                    machine,
                    mode,
                    before.regs_spec()[k as int],
                    after.regs_spec()[k as int],
                    other,
                ));
            }
        }
        k = k + 1;
    }
    true
}

fn names_same_value(a: &PsuedoReg, b: &PsuedoReg) -> (same: bool)
    ensures
        same == same_value(*a, *b),
{
    match (a, b) {
        (PsuedoReg::Virtual(v), PsuedoReg::Virtual(w)) => v.id == w.id,
        (PsuedoReg::Physical(p), PsuedoReg::Physical(q)) => *p == *q,
        _ => false,
    }
}

fn is_not_after(a: &Mention, b: &Mention) -> (r: bool)
    ensures
        r == not_after(*a, *b),
{
    a.at < b.at || (a.at == b.at && (!a.written || b.written))
}

fn collect_mentions(before: &[XvaInstr], after: &[XvaInstr]) -> (ms: Vec<Mention>)
    requires
        before@.len() == after@.len(),
        forall|i: int|
            0 <= i < before@.len() ==> (#[trigger] after@[i]).regs_spec().len()
                == before@[i].regs_spec().len(),
    ensures
        ms@ == mentions(before@, after@),
{
    let mut ms: Vec<Mention> = Vec::new();
    let mut i: usize = 0;
    while i < before.len()
        invariant
            i <= before.len(),
            before@.len() == after@.len(),
            forall|j: int|
                0 <= j < before@.len() ==> (#[trigger] after@[j]).regs_spec().len()
                    == before@[j].regs_spec().len(),
            ms@ == mentions_upto(before@, after@, i as nat),
        decreases before.len() - i,
    {
        let regs_before = before[i].regs();
        let regs_after = after[i].regs();
        assert(after@[i as int].regs_spec().len() == before@[i as int].regs_spec().len());
        let writes: usize = match before[i].aux {
            Some(_) => 2,
            None => 1,
        };
        let ghost head = ms@;
        let mut k: usize = 0;
        while k < regs_before.len()
            invariant
                k <= regs_before.len(),
                i < before.len(),
                regs_before@ == before@[i as int].regs_spec(),
                regs_after@ == after@[i as int].regs_spec(),
                regs_after@.len() == regs_before@.len(),
                writes == 1 + opt_regs(before@[i as int].aux).len(),
                ms@ == head + instr_mentions(before@[i as int], after@[i as int], i, k as nat),
            decreases regs_before.len() - k,
        {
            ms.push(Mention { reg: regs_before[k], at: i, written: k < writes, now: regs_after[k] });
            assert(ms@ =~= head + instr_mentions(
                before@[i as int],
                after@[i as int],
                i,
                (k + 1) as nat,
            ));
            k = k + 1;
        }
        i = i + 1;
    }
    ms
}

/// Whether the place `f` is the first at which the value of the place `p`
/// is named.
pub open spec fn is_first(ms: Seq<Mention>, p: int, f: int) -> bool {
    &&& 0 <= f < ms.len()
    &&& same_value(ms[f].reg, ms[p].reg)
    &&& forall|t: int|
        0 <= t < ms.len() && same_value((#[trigger] ms[t]).reg, ms[p].reg) ==> not_after(
            ms[f],
            ms[t],
        )
}

/// Whether the place `l` is the last at which the value of the place `p` is
/// named.
pub open spec fn is_last(ms: Seq<Mention>, p: int, l: int) -> bool {
    &&& 0 <= l < ms.len()
    &&& same_value(ms[l].reg, ms[p].reg)
    &&& forall|t: int|
        0 <= t < ms.len() && same_value((#[trigger] ms[t]).reg, ms[p].reg) ==> not_after(
            ms[t],
            ms[l],
        )
}

fn first_mention(ms: &Vec<Mention>, p: usize) -> (f: usize)
    requires
        p < ms@.len(),
    ensures
        is_first(ms@, p as int, f as int),
{
    let mut f: usize = p;
    let mut t: usize = 0;
    while t < ms.len()
        invariant
            t <= ms.len(),
            p < ms@.len(),
            f < ms@.len(),
            same_value(ms@[f as int].reg, ms@[p as int].reg),
            forall|u: int|
                0 <= u < t && same_value((#[trigger] ms@[u]).reg, ms@[p as int].reg) ==> not_after(
                    ms@[f as int],
                    ms@[u],
                ),
            not_after(ms@[f as int], ms@[p as int]),
        decreases ms.len() - t,
    {
        if names_same_value(&ms[t].reg, &ms[p].reg) && !is_not_after(&ms[f], &ms[t]) {
            f = t;
        }
        t = t + 1;
    }
    f
}

fn last_mention(ms: &Vec<Mention>, p: usize) -> (l: usize)
    requires
        p < ms@.len(),
    ensures
        is_last(ms@, p as int, l as int),
{
    let mut l: usize = p;
    let mut t: usize = 0;
    while t < ms.len()
        invariant
            t <= ms.len(),
            p < ms@.len(),
            l < ms@.len(),
            same_value(ms@[l as int].reg, ms@[p as int].reg),
            forall|u: int|
                0 <= u < t && same_value((#[trigger] ms@[u]).reg, ms@[p as int].reg) ==> not_after(
                    ms@[u],
                    ms@[l as int],
                ),
            not_after(ms@[p as int], ms@[l as int]),
        decreases ms.len() - t,
    {
        if names_same_value(&ms[t].reg, &ms[p].reg) && !is_not_after(&ms[t], &ms[l]) {
            l = t;
        }
        t = t + 1;
    }
    l
}

/// A value is named not later than another is named exactly where its first
/// place is not later than the last place of the other.
pub proof fn lemma_starts_by_end(ms: Seq<Mention>, p: int, q: int, f: int, l: int)
    requires
        0 <= p < ms.len(),
        0 <= q < ms.len(),
        is_first(ms, p, f),
        is_last(ms, q, l),
    ensures
        starts_by_end(ms, ms[p].reg, ms[q].reg) == not_after(ms[f], ms[l]),
{
    let x = ms[p].reg;
    let y = ms[q].reg;
    if not_after(ms[f], ms[l]) {
        assert(reaches(ms, f, l, x, y));
    }
    if starts_by_end(ms, x, y) {
        let (s, e) = choose|s: int, e: int| #[trigger] reaches(ms, s, e, x, y);
        assert(reaches(ms, s, e, x, y));
        assert(not_after(ms[f], ms[s]));
        assert(not_after(ms[e], ms[l]));
    }
}

fn registers_collide<M: Machine + ?Sized>(machine: &M, a: &PsuedoReg, b: &PsuedoReg) -> (c: bool)
    ensures
        c == collide(machine, *a, *b),
{
    match (a, b) {
        (PsuedoReg::Physical(p), PsuedoReg::Physical(q)) => {
            machine.has_register(*p) && machine.has_register(*q) && machine.register_overlaps(*p, *q)
        },
        _ => false,
    }
}

/// Checks that no two values that are live at once were given registers
/// that share storage.
pub fn check_clashes<M: Machine + ?Sized>(machine: &M, ms: &Vec<Mention>) -> (ok: bool)
    ensures
        ok == no_clash(machine, ms@),
{
    let mut firsts: Vec<usize> = Vec::new();
    let mut lasts: Vec<usize> = Vec::new();
    let mut n: usize = 0;
    while n < ms.len()
        invariant
            n <= ms.len(),
            firsts@.len() == n,
            lasts@.len() == n,
            forall|j: int| 0 <= j < n ==> is_first(ms@, j, #[trigger] firsts@[j] as int),
            forall|j: int| 0 <= j < n ==> is_last(ms@, j, #[trigger] lasts@[j] as int),
        decreases ms.len() - n,
    {
        firsts.push(first_mention(ms, n));
        lasts.push(last_mention(ms, n));
        n = n + 1;
    }
    let mut p: usize = 0;
    while p < ms.len()
        invariant
            p <= ms.len(),
            firsts@.len() == ms@.len(),
            lasts@.len() == ms@.len(),
            forall|j: int| 0 <= j < ms@.len() ==> is_first(ms@, j, #[trigger] firsts@[j] as int),
            forall|j: int| 0 <= j < ms@.len() ==> is_last(ms@, j, #[trigger] lasts@[j] as int),
            forall|a: int, b: int|
                0 <= a < p && 0 <= b < ms@.len() ==> !#[trigger] clash(machine, ms@, a, b),
        decreases ms.len() - p,
    {
        let mut q: usize = 0;
        while q < ms.len()
            invariant
                q <= ms.len(),
                p < ms.len(),
                firsts@.len() == ms@.len(),
                lasts@.len() == ms@.len(),
                forall|j: int|
                    0 <= j < ms@.len() ==> is_first(ms@, j, #[trigger] firsts@[j] as int),
                forall|j: int| 0 <= j < ms@.len() ==> is_last(ms@, j, #[trigger] lasts@[j] as int),
                forall|b: int| 0 <= b < q ==> !#[trigger] clash(machine, ms@, p as int, b),
            decreases ms.len() - q,
        {
            let x = &ms[p];
            let y = &ms[q];
            proof {
                assert(is_first(ms@, p as int, firsts@[p as int] as int));
                assert(is_last(ms@, p as int, lasts@[p as int] as int));
                assert(is_first(ms@, q as int, firsts@[q as int] as int));
                assert(is_last(ms@, q as int, lasts@[q as int] as int));
                lemma_starts_by_end(
                    ms@,
                    p as int,
                    q as int,
                    firsts@[p as int] as int,
                    lasts@[q as int] as int,
                );
                lemma_starts_by_end(
                    ms@,
                    q as int,
                    p as int,
                    firsts@[q as int] as int,
                    lasts@[p as int] as int,
                );
            }
            let candidates: bool = !names_same_value(&x.reg, &y.reg) && (x.reg.is_virtual()
                || y.reg.is_virtual()) && is_not_after(&ms[firsts[p]], &ms[lasts[q]])
                && is_not_after(&ms[firsts[q]], &ms[lasts[p]]);
            if candidates && registers_collide(machine, &x.now, &y.now) {
                assert(clash(machine, ms@, p as int, q as int));
                return false;
            }
            q = q + 1;
        }
        p = p + 1;
    }
    true
}

/// Checks that the statements `after` are an allocation of the statements
/// `before`, and returns the assignment of registers to the numbers of the
/// virtual registers under which they are. Where no assignment makes them
/// one, that is an error.
pub fn check_allocation<M: Machine + ?Sized>(
    machine: &M,
    mode: MachineMode,
    before: &[XvaInstr],
    after: &[XvaInstr],
) -> (r: Result<HashMap<u64, Register>>)
    ensures
        match r {
            Ok(assign) => allocates(machine, mode, before@, after@, assign@),
            Err(e) => e.kind_spec() is BadInstr && forall|assign: Map<u64, Register>|
                !#[trigger] allocates(machine, mode, before@, after@, assign),
        },
{
    broadcast use vstd::std_specs::hash::group_hash_axioms;

    if before.len() != after.len() {
        return Err(not_an_allocation());
    }
    let mut assign: HashMap<u64, Register> = HashMap::new();
    let mut i: usize = 0;
    while i < before.len()
        invariant
            i <= before.len(),
            before@.len() == after@.len(),
            allocates_upto(machine, mode, before@, after@, assign@, i as int),
            forall|other: Map<u64, Register>| #[trigger]
                allocates_upto(machine, mode, before@, after@, other, i as int) ==> agrees(
                    assign@,
                    other,
                ),
        decreases before.len() - i,
    {
        let ghost held = assign@;
        let b = &before[i];
        let a = &after[i];
        let regs_after = a.regs();
        let same_shape: bool = regs_after.len() == b.regs().len() && *a == b.with_regs(&regs_after);
        if !same_shape {
            proof {
                assert forall|other: Map<u64, Register>|
                    !#[trigger] allocates(machine, mode, before@, after@, other) by {
                    if allocates(machine, mode, before@, after@, other) {
                        assert(allocates_instr(
                            machine,
                            mode,
                            before@[i as int],
                            after@[i as int],
                            other,
                        ));
                    }
                }
            }
            return Err(not_an_allocation());
        }
        let ok = check_regs(machine, mode, b, a, &mut assign);
        if !ok {
            proof {
                assert forall|other: Map<u64, Register>|
                    !#[trigger] allocates(machine, mode, before@, after@, other) by {
                    if allocates(machine, mode, before@, after@, other) {
                        assert(allocates_upto(machine, mode, before@, after@, other, i as int));
                        assert(agrees(held, other));
                        assert(allocates_instr(
                            machine,
                            mode,
                            before@[i as int],
                            after@[i as int],
                            other,
                        ));
                    }
                }
            }
            return Err(not_an_allocation());
        }
        proof {
            lemma_allocates_more(machine, mode, before@, after@, held, assign@, i as int);
            assert(allocates_instr(machine, mode, before@[i as int], after@[i as int], assign@));
            assert forall|other: Map<u64, Register>| #[trigger]
                allocates_upto(machine, mode, before@, after@, other, i + 1) implies agrees(
                assign@,
                other,
            ) by {
                assert(allocates_upto(machine, mode, before@, after@, other, i as int));
                assert(agrees(held, other));
                assert(allocates_instr(
                    machine,
                    mode,
                    before@[i as int],
                    after@[i as int],
                    other,
                ));
            }
        }
        i = i + 1;
    }
    let ms = collect_mentions(before, after);
    if !check_clashes(machine, &ms) {
        return Err(not_an_allocation());
    }
    Ok(assign)
}

/// An allocation leaves no virtual register behind.
pub proof fn lemma_allocation_leaves_no_virtual<M: Machine + ?Sized>(
    machine: &M,
    mode: MachineMode,
    before: Seq<XvaInstr>,
    after: Seq<XvaInstr>,
    assign: Map<u64, Register>,
)
    requires
        allocates(machine, mode, before, after, assign),
    ensures
        !any_virtual(after),
{
    assert forall|i: int| 0 <= i < after.len() implies !(#[trigger] after[i]).names_virtual() by {
        assert(allocates_instr(machine, mode, before[i], after[i], assign));
        lemma_names_virtual(after[i]);
        assert forall|n: int| 0 <= n < after[i].regs_spec().len() implies !(
        #[trigger] after[i].regs_spec()[n] is Virtual) by {
            assert(allocates_reg(
                machine,
                mode,
                before[i].regs_spec()[n],
                after[i].regs_spec()[n],
                assign,
            ));
        }
    }
}

fn copy_of(xva: &Vec<XvaInstr>) -> (copy: Vec<XvaInstr>)
    ensures
        copy@ == xva@,
{
    let mut copy: Vec<XvaInstr> = Vec::new();
    let mut i: usize = 0;
    while i < xva.len()
        invariant
            i <= xva.len(),
            copy@ == xva@.subrange(0, i as int),
        decreases xva.len() - i,
    {
        copy.push(xva[i]);
        assert(copy@ =~= xva@.subrange(0, i + 1));
        i = i + 1;
    }
    assert(xva@.subrange(0, i as int) =~= xva@);
    copy
}

/// Says what an allocation stage has achieved, given what it reported and
/// the statements before and after it ran. A failure that the stage reported
/// is passed on as it is. Where the stage reported success, the statements
/// after it are checked: the assignment under which they are an allocation
/// of those before is returned, and where there is none, that is an error.
pub fn settle_allocation<M: Machine + ?Sized>(
    machine: &M,
    mode: MachineMode,
    before: &[XvaInstr],
    after: &[XvaInstr],
    outcome: Result<()>,
) -> (r: Result<HashMap<u64, Register>>)
    ensures
        match outcome {
            Err(e) => r matches Err(f) && f == e,
            Ok(()) => match r {
                Ok(assign) => allocates(machine, mode, before@, after@, assign@) && !any_virtual(
                    after@,
                ),
                Err(f) => f.kind_spec() is BadInstr && forall|assign: Map<u64, Register>|
                    !#[trigger] allocates(machine, mode, before@, after@, assign),
            },
        },
{
    match outcome {
        Err(e) => Err(e),
        Ok(()) => match check_allocation(machine, mode, before, after) {
            Err(e) => Err(e),
            Ok(assign) => {
                proof {
                    lemma_allocation_leaves_no_virtual(machine, mode, before@, after@, assign@);
                }
                Ok(assign)
            },
        },
    }
}

/// Runs the allocation stage, and holds it to what it is for: where this
/// reports success, the statements are an allocation of those before under
/// the assignment returned, and no virtual register is left. Whether the
/// stage succeeds is for the stage to say; what follows from what it said is
/// settled by `settle_allocation`.
pub fn allocate<C: Compiler, M: Machine + ?Sized>(
    compiler: &C,
    machine: &M,
    mode: MachineMode,
    xva: &mut Vec<XvaInstr>,
) -> (r: Result<HashMap<u64, Register>>)
    ensures
        r matches Ok(assign) ==> allocates(machine, mode, old(xva)@, final(xva)@, assign@)
            && !any_virtual(final(xva)@),
{
    let before = copy_of(xva);
    let outcome = compiler.allocate_registers(xva);
    settle_allocation(machine, mode, before.as_slice(), xva.as_slice(), outcome)
}

/// Runs the stages in their order: allocation, lowering, legalization,
/// optimization. Statements whose optimization barriers do not nest are
/// turned away before any stage runs, the allocation is checked before it
/// is lowered, and what comes out is checked against the architecture. The
/// first failure ends the run.
pub fn compile<C: Compiler, O: Opcodes, M: Machine + ?Sized>(
    compiler: &C,
    ops: &O,
    machine: &M,
    mode: MachineMode,
    xva: &mut Vec<XvaInstr>,
) -> (r: Result<Vec<MceInstr>>)
    ensures
        !well_nested(old(xva)@) ==> r is Err && r->Err_0.kind_spec() is BadInstr && final(xva)@
            == old(xva)@,
        r matches Ok(mc) ==> {
            &&& !any_virtual(final(xva)@)
            &&& exists|assign: Map<u64, Register>| #[trigger]
                allocates(machine, mode, old(xva)@, final(xva)@, assign)
            &&& forall|i: int| 0 <= i < mc@.len() ==> output_refers_within(ops, #[trigger] mc@[i])
        },
{
    if check_barriers(xva.as_slice()).is_err() {
        return Err(
            Error::new(
                ErrorKind::BadInstr,
                String::from_str("optimization barriers do not nest"),
            ),
        );
    }
    let assign = match allocate(compiler, machine, mode, xva) {
        Err(e) => {
            return Err(e);
        },
        Ok(assign) => assign,
    };
    assert(allocates(machine, mode, old(xva)@, xva@, assign@));
    let mut mc: Vec<MceInstr> = Vec::new();
    match lower(compiler, xva.as_slice(), &mut mc) {
        Err(e) => {
            return Err(e);
        },
        Ok(()) => {},
    }
    match compiler.legalize_mc(&mut mc) {
        Err(e) => {
            return Err(e);
        },
        Ok(()) => {},
    }
    match compiler.optimize_mc(&mut mc) {
        Err(e) => {
            return Err(e);
        },
        Ok(()) => {},
    }
    match check_lowered(ops, mc.as_slice()) {
        Err(e) => {
            return Err(e);
        },
        Ok(()) => {},
    }
    Ok(mc)
}

} // verus!
