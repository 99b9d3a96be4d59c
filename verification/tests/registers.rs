use cmli::archs::x86::{
    GprSize, X86Mode, X86Register, X86RegisterClass, XmmSize, X86,
};
use cmli::instr::RegisterKind;
use cmli::mach::{next_power_of_two, Machine, MachineMode, Register, RegisterSpec};
use cmli::traits::Name;
use cmli::xva::XvaCategory;

fn odd_registers() -> Vec<X86Register> {
    let mut all = X86Register::all_registers();
    for n in [8u8, 9, 31, 32, 40, 128, 255] {
        for k in 0..17u64 {
            all.push(X86Register::make(X86RegisterClass::from_ordinal(k).unwrap(), n));
        }
    }
    all
}

#[test]
fn low_byte_overlaps_its_double_word() {
    assert!(X86Register::Byte(1).overlaps(&X86Register::Double(1)));
    assert!(X86Register::Double(1).overlaps(&X86Register::Byte(1)));
    assert!(!X86Register::Byte(1).overlaps(&X86Register::Double(2)));
    assert!(!X86Register::Double(2).overlaps(&X86Register::Byte(1)));
}

#[test]
fn overlap_goes_both_ways() {
    let all = odd_registers();
    for a in &all {
        assert!(a.overlaps(a));
        for b in &all {
            assert_eq!(a.overlaps(b), b.overlaps(a));
        }
    }
}

#[test]
fn overlap_within_the_families() {
    assert!(X86Register::Word(12).overlaps(&X86Register::Quad(12)));
    assert!(X86Register::ByteRex(5).overlaps(&X86Register::Double(5)));
    assert!(!X86Register::Word(12).overlaps(&X86Register::Quad(13)));
    assert!(!X86Register::Word(3).overlaps(&X86Register::Word(4)));
    assert!(X86Register::Xmm(7).overlaps(&X86Register::Zmm(7)));
    assert!(X86Register::Ymm(7).overlaps(&X86Register::Xmm(7)));
    assert!(!X86Register::Ymm(7).overlaps(&X86Register::Xmm(8)));
    assert!(!X86Register::Xmm(0).overlaps(&X86Register::Quad(0)));
    assert!(!X86Register::Tmm(0).overlaps(&X86Register::Zmm(0)));
    assert!(!X86Register::Kreg(1).overlaps(&X86Register::Kreg(2)));
}

#[test]
fn overlap_of_the_byte_registers() {
    assert!(X86Register::Byte(2).overlaps(&X86Register::ByteRex(2)));
    assert!(!X86Register::Byte(2).overlaps(&X86Register::ByteRex(3)));
    assert!(!X86Register::Byte(4).overlaps(&X86Register::ByteRex(4)));
    assert!(X86Register::Byte(5).overlaps(&X86Register::Word(1)));
    assert!(!X86Register::Byte(5).overlaps(&X86Register::Word(5)));
    assert!(X86Register::Byte(0).overlaps(&X86Register::Quad(0)));
}

#[test]
fn overlap_of_the_old_byte_registers() {
    let al = X86Register::ByteLegacy(0);
    let bl = X86Register::ByteLegacy(3);
    let ah = X86Register::ByteLegacy(4);
    let bh = X86Register::ByteLegacy(7);
    assert!(al.overlaps(&X86Register::Double(0)));
    assert!(X86Register::Double(0).overlaps(&al));
    assert!(al.overlaps(&X86Register::Word(0)));
    assert!(al.overlaps(&X86Register::Quad(0)));
    assert!(al.overlaps(&X86Register::Byte(0)));
    assert!(al.overlaps(&X86Register::ByteRex(0)));
    assert!(!al.overlaps(&X86Register::Double(1)));
    assert!(!al.overlaps(&X86Register::Byte(1)));
    assert!(!al.overlaps(&X86Register::ByteRex(4)));
    assert!(bl.overlaps(&X86Register::Quad(3)));
    assert!(bl.overlaps(&X86Register::ByteRex(3)));
    assert!(!bl.overlaps(&X86Register::Quad(7)));
    assert!(ah.overlaps(&X86Register::Word(0)));
    assert!(ah.overlaps(&X86Register::Double(0)));
    assert!(ah.overlaps(&X86Register::Quad(0)));
    assert!(X86Register::Quad(0).overlaps(&ah));
    assert!(!ah.overlaps(&X86Register::Word(4)));
    assert!(!ah.overlaps(&X86Register::Byte(0)));
    assert!(!ah.overlaps(&X86Register::ByteRex(0)));
    assert!(!ah.overlaps(&X86Register::ByteRex(4)));
    assert!(!ah.overlaps(&al));
    assert!(bh.overlaps(&X86Register::Double(3)));
    assert!(!bh.overlaps(&X86Register::Double(7)));
    assert!(al.overlaps(&al));
    assert!(al.overlaps(&X86Register::ByteLegacy(8)));
    assert!(X86Register::ByteLegacy(12).overlaps(&ah));
    assert!(X86Register::ByteLegacy(12).overlaps(&X86Register::Word(0)));
    assert!(!al.overlaps(&X86Register::Xmm(0)));
    assert!(!al.overlaps(&X86Register::Segment(0)));
    assert!(X86Register::Segment(1).overlaps(&X86Register::Segment(9)));
    assert!(!X86Register::Segment(1).overlaps(&X86Register::Segment(2)));
    assert!(X86Register::Mmx(1).overlaps(&X86Register::Mmx(9)));
}

#[test]
fn overlap_of_the_stack_and_mmx() {
    assert!(X86Register::Mmx(0).overlaps(&X86Register::St(0)));
    assert!(X86Register::Mmx(1).overlaps(&X86Register::St(7)));
    assert!(X86Register::St(5).overlaps(&X86Register::Mmx(3)));
    assert!(!X86Register::Mmx(1).overlaps(&X86Register::St(1)));
    assert!(X86Register::Mmx(8).overlaps(&X86Register::St(0)));
    assert!(X86Register::Mmx(255).overlaps(&X86Register::St(1)));
}

#[test]
fn alignment_is_a_power_of_two() {
    for reg in odd_registers() {
        for mode in X86Mode::all_modes() {
            let align = reg.align(mode);
            assert!(align >= 1);
            assert!(align.is_power_of_two());
            assert_eq!(reg.align(mode), align);
            assert_eq!(reg.size(mode), reg.size(mode));
        }
    }
}

#[test]
fn sizes_and_alignments() {
    assert_eq!(RegisterSpec::size(&X86Register::Byte(0), X86Mode::Real), 1);
    assert_eq!(RegisterSpec::size(&X86Register::Word(0), X86Mode::Real), 2);
    assert_eq!(RegisterSpec::size(&X86Register::Double(0), X86Mode::Long), 4);
    assert_eq!(RegisterSpec::size(&X86Register::Quad(0), X86Mode::Long), 8);
    assert_eq!(RegisterSpec::size(&X86Register::Segment(0), X86Mode::Long), 2);
    assert_eq!(RegisterSpec::size(&X86Register::St(0), X86Mode::Long), 10);
    assert_eq!(RegisterSpec::align(&X86Register::St(0), X86Mode::Long), 2);
    assert_eq!(RegisterSpec::size(&X86Register::Mmx(0), X86Mode::Long), 8);
    assert_eq!(RegisterSpec::size(&X86Register::Xmm(0), X86Mode::Long), 16);
    assert_eq!(RegisterSpec::size(&X86Register::Ymm(0), X86Mode::Long), 32);
    assert_eq!(RegisterSpec::size(&X86Register::Zmm(0), X86Mode::Long), 64);
    assert_eq!(RegisterSpec::size(&X86Register::Tmm(0), X86Mode::Long), 1024);
    assert_eq!(RegisterSpec::align(&X86Register::Tmm(0), X86Mode::Long), 1024);
    assert_eq!(RegisterSpec::size(&X86Register::Kreg(0), X86Mode::Long), 8);
    assert_eq!(RegisterSpec::size(&X86Register::Control(0), X86Mode::Real), 2);
    assert_eq!(RegisterSpec::size(&X86Register::Control(0), X86Mode::Protected16), 2);
    assert_eq!(RegisterSpec::size(&X86Register::Debug(0), X86Mode::Protected), 4);
    assert_eq!(RegisterSpec::size(&X86Register::ExtControl(0), X86Mode::Long), 8);
    assert_eq!(RegisterSpec::align(&X86Register::ExtControl(0), X86Mode::Long), 8);
}

#[test]
fn largest_general_purpose_register() {
    assert_eq!(X86Mode::Real.largest_gpr(), 16);
    assert_eq!(X86Mode::Protected16.largest_gpr(), 16);
    assert_eq!(X86Mode::Protected.largest_gpr(), 32);
    assert_eq!(X86Mode::Long.largest_gpr(), 64);
}

#[test]
fn widths() {
    assert_eq!(GprSize::Byte.size(), 1);
    assert_eq!(GprSize::Word.size(), 2);
    assert_eq!(GprSize::Double.size(), 4);
    assert_eq!(GprSize::Quad.size(), 8);
    assert_eq!(GprSize::Byte.bits(), 8);
    assert_eq!(GprSize::Word.bits(), 16);
    assert_eq!(GprSize::Double.bits(), 32);
    assert_eq!(GprSize::Quad.bits(), 64);
}

#[test]
fn rounding_up_to_a_power_of_two() {
    assert_eq!(next_power_of_two(0), 1);
    assert_eq!(next_power_of_two(1), 1);
    assert_eq!(next_power_of_two(2), 2);
    assert_eq!(next_power_of_two(3), 4);
    assert_eq!(next_power_of_two(10), 16);
    assert_eq!(next_power_of_two(1024), 1024);
    assert_eq!(next_power_of_two(1025), 2048);
    assert_eq!(next_power_of_two(0x8000_0000), 0x8000_0000);
    assert_eq!(next_power_of_two(0x7fff_ffff), 0x8000_0000);
}

#[test]
fn kinds_and_categories() {
    assert_eq!(RegisterSpec::kind(&X86Register::Byte(0)), RegisterKind::GeneralPurpose);
    assert_eq!(RegisterSpec::kind(&X86Register::Segment(0)), RegisterKind::AddressSegment);
    assert_eq!(RegisterSpec::kind(&X86Register::St(0)), RegisterKind::ScalarFp);
    assert_eq!(RegisterSpec::kind(&X86Register::Mmx(0)), RegisterKind::VectorInt);
    assert_eq!(RegisterSpec::kind(&X86Register::Xmm(0)), RegisterKind::VectorAny);
    assert_eq!(RegisterSpec::kind(&X86Register::Kreg(0)), RegisterKind::VectorBit);
    assert_eq!(RegisterSpec::kind(&X86Register::Debug(0)), RegisterKind::System);
    assert_eq!(RegisterSpec::category(&X86Register::Quad(0), X86Mode::Long), XvaCategory::Int);
    assert_eq!(RegisterSpec::category(&X86Register::St(0), X86Mode::Long), XvaCategory::Float);
    assert_eq!(RegisterSpec::category(&X86Register::Kreg(0), X86Mode::Long), XvaCategory::VectorInt);
    assert_eq!(RegisterSpec::category(&X86Register::Zmm(0), X86Mode::Long), XvaCategory::VectorAny);
    assert_eq!(
        RegisterSpec::category(&X86Register::Segment(0), X86Mode::Long),
        XvaCategory::Custom(RegisterKind::AddressSegment)
    );
    assert_eq!(
        RegisterSpec::category(&X86Register::Control(0), X86Mode::Long),
        XvaCategory::Custom(RegisterKind::System)
    );
}

#[test]
fn validity_is_decided_for_every_register_and_mode() {
    for reg in odd_registers() {
        for mode in X86Mode::all_modes() {
            let valid = reg.valid_in_mode(mode);
            assert_eq!(valid, RegisterSpec::valid_in_mode(&reg, mode));
            if reg.regno() >= 8 && mode != X86Mode::Long {
                assert!(!valid);
            }
        }
    }
}

#[test]
fn validity_in_the_modes() {
    assert!(X86Register::Word(0).valid_in_mode(X86Mode::Real));
    assert!(X86Register::Word(7).valid_in_mode(X86Mode::Real));
    assert!(!X86Register::Word(8).valid_in_mode(X86Mode::Real));
    assert!(!X86Register::Word(8).valid_in_mode(X86Mode::Protected));
    assert!(X86Register::Word(8).valid_in_mode(X86Mode::Long));
    assert!(!X86Register::Double(0).valid_in_mode(X86Mode::Real));
    assert!(X86Register::Double(0).valid_in_mode(X86Mode::Protected16));
    assert!(X86Register::Double(0).valid_in_mode(X86Mode::Protected));
    assert!(!X86Register::Quad(0).valid_in_mode(X86Mode::Protected));
    assert!(X86Register::Quad(0).valid_in_mode(X86Mode::Long));
    assert!(X86Register::Xmm(0).valid_in_mode(X86Mode::Real));
    assert!(!X86Register::Ymm(0).valid_in_mode(X86Mode::Real));
    assert!(X86Register::Ymm(0).valid_in_mode(X86Mode::Protected));
    assert!(!X86Register::Zmm(9).valid_in_mode(X86Mode::Protected));
    assert!(X86Register::Zmm(9).valid_in_mode(X86Mode::Long));
    assert!(!X86Register::Control(0).valid_in_mode(X86Mode::Real));
    assert!(!X86Register::Debug(0).valid_in_mode(X86Mode::Real));
    assert!(!X86Register::ExtControl(0).valid_in_mode(X86Mode::Real));
    assert!(X86Register::Control(0).valid_in_mode(X86Mode::Protected));
    assert!(X86Register::Segment(13).valid_in_mode(X86Mode::Real));
    assert!(X86Register::ByteLegacy(12).valid_in_mode(X86Mode::Protected));
    assert!(X86Register::St(7).valid_in_mode(X86Mode::Real));
}

#[test]
fn register_numbers() {
    assert_eq!(X86Register::Quad(15).regno(), 15);
    assert_eq!(X86Register::ByteLegacy(12).regno(), 4);
    assert_eq!(X86Register::Segment(9).regno(), 1);
    assert_eq!(X86Register::Mmx(8).regno(), 0);
    assert_eq!(X86Register::Xmm(31).regno(), 31);
    assert_eq!(X86Register::Quad(15).index(), 15);
    assert_eq!(X86Register::ByteLegacy(12).index(), 12);
    assert_eq!(X86Register::Quad(15).class(), X86RegisterClass::Quad);
}

#[test]
fn names_of_registers() {
    assert_eq!(X86Register::Byte(0).name(), "al");
    assert_eq!(X86Register::Byte(3).name(), "bl");
    assert_eq!(X86Register::Byte(4).name(), "**Unknown Register**");
    assert_eq!(X86Register::ByteLegacy(4).name(), "ah");
    assert_eq!(X86Register::ByteLegacy(15).name(), "bh");
    assert_eq!(X86Register::ByteRex(4).name(), "spl");
    assert_eq!(X86Register::ByteRex(9).name(), "r9b");
    assert_eq!(X86Register::Word(5).name(), "bp");
    assert_eq!(X86Register::Word(31).name(), "r31w");
    assert_eq!(X86Register::Word(32).name(), "**Unknown Register**");
    assert_eq!(X86Register::Double(7).name(), "edi");
    assert_eq!(X86Register::Double(8).name(), "r8d");
    assert_eq!(X86Register::Quad(4).name(), "rsp");
    assert_eq!(X86Register::Quad(15).name(), "r15");
    assert_eq!(X86Register::Segment(1).name(), "cs");
    assert_eq!(X86Register::Segment(5).name(), "gs");
    assert_eq!(X86Register::Segment(6).name(), "**Unknown Register**");
    assert_eq!(X86Register::Segment(8).name(), "es");
    assert_eq!(X86Register::St(0).name(), "st0");
    assert_eq!(X86Register::St(7).name(), "st7");
    assert_eq!(X86Register::St(9).name(), "**Unknown Register**");
    assert_eq!(X86Register::Mmx(7).name(), "mm7");
    assert_eq!(X86Register::Mmx(9).name(), "mm9");
    assert_eq!(X86Register::Mmx(32).name(), "**Unknown Register**");
    assert_eq!(X86Register::Xmm(31).name(), "xmm31");
    assert_eq!(X86Register::Ymm(10).name(), "ymm10");
    assert_eq!(X86Register::Zmm(0).name(), "zmm0");
    assert_eq!(X86Register::Tmm(7).name(), "tmm7");
    assert_eq!(X86Register::Kreg(1).name(), "k1");
    assert_eq!(X86Register::Control(3).name(), "cr3");
    assert_eq!(X86Register::Debug(7).name(), "dr7");
    assert_eq!(X86Register::ExtControl(0).name(), "xcr0");
    assert_eq!(X86Register::ExtControl(32).name(), "**Unknown Register**");
}

#[test]
fn registers_by_name() {
    assert_eq!(X86Register::from_name("eax"), Some(X86Register::Double(0)));
    assert_eq!(X86Register::from_name("al"), Some(X86Register::Byte(0)));
    assert_eq!(X86Register::from_name("ah"), Some(X86Register::ByteLegacy(4)));
    assert_eq!(X86Register::from_name("spl"), Some(X86Register::ByteRex(4)));
    assert_eq!(X86Register::from_name("r12w"), Some(X86Register::Word(12)));
    assert_eq!(X86Register::from_name("r8"), Some(X86Register::Quad(8)));
    assert_eq!(X86Register::from_name("r31b"), Some(X86Register::ByteRex(31)));
    assert_eq!(X86Register::from_name("st3"), Some(X86Register::St(3)));
    assert_eq!(X86Register::from_name("mm3"), Some(X86Register::Mmx(3)));
    assert_eq!(X86Register::from_name("k7"), Some(X86Register::Kreg(7)));
    assert_eq!(X86Register::from_name("xcr0"), Some(X86Register::ExtControl(0)));
    assert_eq!(X86Register::from_name("gs"), Some(X86Register::Segment(5)));
    assert_eq!(X86Register::from_name("r0b"), None);
    assert_eq!(X86Register::from_name("r08b"), None);
    assert_eq!(X86Register::from_name("r32"), None);
    assert_eq!(X86Register::from_name("st8"), None);
    assert_eq!(X86Register::from_name("mm8"), None);
    assert_eq!(X86Register::from_name(""), None);
    assert_eq!(X86Register::from_name("EAX"), None);
    assert_eq!(X86Register::from_name("**Unknown Register**"), None);
}

#[test]
fn names_and_lookup_agree() {
    for reg in X86Register::all_registers() {
        if reg.is_named() {
            let found = X86Register::from_name(&reg.name()).unwrap();
            assert_eq!(found.name(), reg.name());
        } else {
            assert_eq!(reg.name(), "**Unknown Register**");
        }
    }
}

#[test]
fn listing_of_registers() {
    let all = X86Register::all_registers();
    assert_eq!(all.len(), 444);
    assert_eq!(all[0], X86Register::Byte(0));
    assert_eq!(all[3], X86Register::Byte(3));
    assert_eq!(all[4], X86Register::ByteLegacy(0));
    assert_eq!(all[12], X86Register::ByteRex(0));
    assert_eq!(all[443], X86Register::ExtControl(31));
    for k in 0..17u64 {
        let class = X86RegisterClass::from_ordinal(k).unwrap();
        assert_eq!(class.ordinal(), k);
        let listed = all.iter().filter(|r| r.class() == class).count();
        assert_eq!(listed, class.count() as usize);
    }
    assert_eq!(X86RegisterClass::from_ordinal(17), None);
    assert!(X86RegisterClass::ByteLegacy.norex());
    assert!(X86RegisterClass::Segment.norex());
    assert!(X86RegisterClass::Mmx.norex());
    assert!(!X86RegisterClass::Byte.norex());
}

#[test]
fn promoting_general_purpose_registers() {
    assert_eq!(X86Register::ByteLegacy(1).promote_gpr(GprSize::Byte), X86Register::Byte(1));
    assert_eq!(X86Register::ByteLegacy(1).promote_gpr(GprSize::Word), X86Register::Word(1));
    assert_eq!(X86Register::ByteLegacy(1).promote_gpr(GprSize::Double), X86Register::Double(1));
    assert_eq!(X86Register::ByteLegacy(1).promote_gpr(GprSize::Quad), X86Register::Quad(1));
    assert_eq!(X86Register::ByteLegacy(5).promote_gpr(GprSize::Byte), X86Register::ByteLegacy(5));
    assert_eq!(X86Register::Quad(2).promote_gpr(GprSize::Byte), X86Register::Byte(2));
    assert_eq!(X86Register::Quad(12).promote_gpr(GprSize::Byte), X86Register::ByteRex(12));
    assert_eq!(X86Register::Byte(2).promote_gpr(GprSize::Double), X86Register::Double(2));
    assert_eq!(X86Register::ByteRex(9).promote_gpr(GprSize::Word), X86Register::Word(9));
    assert_eq!(X86Register::Word(9).promote_gpr(GprSize::Quad), X86Register::Quad(9));
    assert_eq!(X86Register::Double(9).promote_gpr(GprSize::Double), X86Register::Double(9));
}

#[test]
fn what_can_be_promoted() {
    assert!(X86Register::Quad(0).accepts_gpr_size(GprSize::Byte));
    assert!(X86Register::ByteLegacy(3).accepts_gpr_size(GprSize::Quad));
    assert!(X86Register::ByteLegacy(4).accepts_gpr_size(GprSize::Byte));
    assert!(!X86Register::ByteLegacy(4).accepts_gpr_size(GprSize::Word));
    assert!(!X86Register::Xmm(0).accepts_gpr_size(GprSize::Quad));
    assert!(!X86Register::Segment(0).accepts_gpr_size(GprSize::Word));
}

#[test]
fn widths_of_registers() {
    assert_eq!(X86Register::Byte(0).gpr_size(), Some(GprSize::Byte));
    assert_eq!(X86Register::ByteRex(0).gpr_size(), Some(GprSize::Byte));
    assert_eq!(X86Register::Word(0).gpr_size(), Some(GprSize::Word));
    assert_eq!(X86Register::Double(0).gpr_size(), Some(GprSize::Double));
    assert_eq!(X86Register::Quad(0).gpr_size(), Some(GprSize::Quad));
    assert_eq!(X86Register::ByteLegacy(0).gpr_size(), None);
    assert_eq!(X86Register::Xmm(0).gpr_size(), None);
    assert_eq!(X86Register::Xmm(0).xmm_size(), Some(XmmSize::Xmm));
    assert_eq!(X86Register::Ymm(0).xmm_size(), Some(XmmSize::Ymm));
    assert_eq!(X86Register::Zmm(0).xmm_size(), Some(XmmSize::Zmm));
    assert_eq!(X86Register::Tmm(0).xmm_size(), None);
    assert_eq!(X86Register::Quad(0).xmm_size(), None);
}

#[test]
fn promoting_vector_registers() {
    assert_eq!(X86Register::Xmm(3).promote_xmm(XmmSize::Zmm), X86Register::Zmm(3));
    assert_eq!(X86Register::Zmm(31).promote_xmm(XmmSize::Xmm), X86Register::Xmm(31));
    assert_eq!(X86Register::Ymm(9).promote_xmm(XmmSize::Ymm), X86Register::Ymm(9));
}

#[test]
fn facade_answers_for_its_own_registers() {
    let m: &dyn Machine = &X86;
    let reg = Register::new(X86Register::Quad(0));
    let mode = MachineMode::new(X86Mode::Long);
    assert!(m.has_register(reg));
    assert!(m.has_mode(mode));
    assert_eq!(m.register_size(reg, mode), 8);
    assert_eq!(m.register_align(reg, mode), 8);
    assert_eq!(m.register_kind(reg), RegisterKind::GeneralPurpose);
    assert_eq!(m.register_category(reg, mode), XvaCategory::Int);
    assert!(m.register_valid_in_mode(reg, mode));
    assert!(!m.register_valid_in_mode(reg, MachineMode::new(X86Mode::Real)));
    assert!(m.register_overlaps(reg, Register::new(X86Register::Byte(0))));
    assert!(m.register_overlaps(reg, reg));
    assert!(!m.register_overlaps(reg, Register::new(X86Register::Quad(1))));
    assert_eq!(m.register_name(reg), "rax");
    assert_eq!(m.registers().len(), 444);
}
