use cmli::archs::x86::{X86Mode, X86Opcode, X86Register, X86};
use cmli::fmt::{format_list, pretty_print_list, PrettyPrint, PrettyPrinter};
use cmli::mach::{DynList, Machine, MachineMode, MachineSpec, OneMachine, Opcode, Register, Registers};
use cmli::traits::{IdType, Name};

#[test]
fn machine_has_a_name() {
    let m: &dyn Machine = &X86;
    assert_eq!(m.name(), "x86");
    assert_eq!(MachineSpec::name(&X86), "x86");
}

#[test]
fn listings_are_the_erased_values() {
    let m: &dyn Machine = &X86;
    let opcodes = m.opcodes();
    assert_eq!(opcodes.len(), 8);
    for (id, op) in opcodes.iter().zip(X86Opcode::all_opcodes()) {
        assert_eq!(*id, Opcode::new(op));
    }
    let modes = m.modes();
    assert_eq!(
        modes,
        vec![
            MachineMode::new(X86Mode::Real),
            MachineMode::new(X86Mode::Protected16),
            MachineMode::new(X86Mode::Protected),
            MachineMode::new(X86Mode::Long)
        ]
    );
    let registers = m.registers();
    for (id, reg) in registers.iter().zip(X86Register::all_registers()) {
        assert_eq!(*id, Register::new(reg));
    }
    assert_eq!(<X86 as DynList<Register>>::list(&X86), registers);
    assert_eq!(<X86 as DynList<Opcode>>::list(&X86), opcodes);
    assert_eq!(<X86 as DynList<MachineMode>>::list(&X86), modes);
}

#[test]
fn names_of_what_the_machine_has() {
    let m: &dyn Machine = &X86;
    assert_eq!(m.opcode_name(Opcode::new(X86Opcode::Lock)), "lock");
    assert_eq!(m.opcode_name(Opcode::new(X86Opcode::AddrOverride)), "addro");
    assert_eq!(m.opcode_name(Opcode::new(X86Opcode::DataOverride)), "datao");
    assert_eq!(m.opcode_name(Opcode::new(X86Opcode::Repnz)), "repnz");
    assert_eq!(m.opcode_name(Opcode::new(X86Opcode::Repz)), "repz");
    assert_eq!(m.opcode_name(Opcode::new(X86Opcode::Rep)), "rep");
    assert_eq!(m.opcode_name(Opcode::new(X86Opcode::Wait)), "fwait");
    assert_eq!(m.opcode_name(Opcode::new(X86Opcode::Add)), "add");
    assert_eq!(m.mode_name(MachineMode::new(X86Mode::Real)), "Real");
    assert_eq!(m.mode_name(MachineMode::new(X86Mode::Protected16)), "Protected16");
    assert_eq!(m.mode_name(MachineMode::new(X86Mode::Protected)), "Protected");
    assert_eq!(m.mode_name(MachineMode::new(X86Mode::Long)), "Long");
    assert_eq!(m.register_name(Register::new(X86Register::Ymm(12))), "ymm12");
    assert_eq!(OneMachine::Singleton.name(), "Singleton");
    assert!(X86Opcode::Lock.is_prefix());
    assert!(!X86Opcode::Add.is_prefix());
}

#[test]
fn what_the_machine_does_not_have_is_shown_as_unknown() {
    let m: &dyn Machine = &X86;
    assert_eq!(m.mode_name(MachineMode::new(OneMachine::Singleton)), "**Unknown MachineMode**");
    assert_eq!(m.opcode_name(Opcode::from_raw_parts(1, 0)), "**Unknown Opcode**");
    assert_eq!(m.register_name(Register::from_raw_parts(1, 0)), "**Unknown Register**");
    let tag = Opcode::new(X86Opcode::Add).type_tag();
    assert_eq!(m.opcode_name(Opcode::from_raw_parts(tag, 99)), "**Unknown Opcode**");
    assert_eq!(<X86 as DynList<Opcode>>::name_of(&X86, Opcode::from_raw_parts(1, 0)), "**Unknown Opcode**");
}

#[test]
fn machine_tells_its_own_from_the_rest() {
    let m: &dyn Machine = &X86;
    assert!(!m.has_mode(MachineMode::new(OneMachine::Singleton)));
    assert!(m.has_mode(MachineMode::new(X86Mode::Protected16)));
    assert!(!m.has_register(Register::from_raw_parts(1, 0)));
    let tag = Register::new(X86Register::Byte(0)).type_tag();
    assert!(!m.has_register(Register::from_raw_parts(tag, 17 * 256)));
    assert!(m.has_register(Register::from_raw_parts(tag, 0)));
    assert!(Registers::has_register(&X86, Register::new(X86Register::St(1))));
    assert_eq!(
        Registers::register_size(&X86, Register::new(X86Register::St(1)), MachineMode::new(X86Mode::Real)),
        10
    );
}

#[test]
fn lists_are_shown_with_separators() {
    let list = format_list(vec![String::from("a"), String::from("bc"), String::from("")], ", ");
    assert_eq!(list.render(), "a, bc, ");
    assert_eq!(list.render(), "a, bc, ");
    assert_eq!(format_list(vec![String::from("one")], ", ").render(), "one");
    assert_eq!(format_list(Vec::new(), ", ").render(), "");
    assert_eq!(format_list(vec![String::from("a"), String::from("b")], "").render(), "ab");
}

#[test]
fn identifiers_are_shown_by_the_machine() {
    let regs = vec![
        Register::new(X86Register::Double(0)),
        Register::new(X86Register::Quad(9)),
        Register::from_raw_parts(1, 0),
    ];
    let list = pretty_print_list(regs, " ", &X86);
    assert_eq!(list.render(), "eax r9 **Unknown Register**");
    let m: &dyn Machine = &X86;
    let ops = pretty_print_list(vec![Opcode::new(X86Opcode::Rep), Opcode::new(X86Opcode::Add)], "/", m);
    assert_eq!(ops.render(), "rep/add");
    let none = pretty_print_list(Vec::<Register>::new(), ",", &X86);
    assert_eq!(none.render(), "");
    let mode = MachineMode::new(X86Mode::Long);
    assert_eq!(PrettyPrinter(&mode, &X86).render(), "Long");
    assert_eq!(PrettyPrint::fmt(&mode, &X86), "Long");
}
