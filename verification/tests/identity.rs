use cmli::arch::{FeatureId, MachId, UniformMachine};
use cmli::archs::x86::{X86Mode, X86Opcode, X86Register, X86RegisterClass};
use cmli::encode::RelocId;
use cmli::helpers::{downcast, erase, IdDowncastError};
use cmli::instr::{InstructionId, PrefixId, RegisterClassId, RegisterId};
use cmli::mach::{one_machine, MachineMode, OneMachine, Opcode, Register};
use cmli::traits::{AsU64, IdType, IntoId, NonZero64};

#[test]
fn erased_modes_come_back() {
    for mode in X86Mode::all_modes() {
        let id = MachineMode::new(mode);
        assert_eq!(id.downcast::<X86Mode>().ok(), Some(mode));
    }
}

#[test]
fn erased_opcodes_come_back() {
    for op in X86Opcode::all_opcodes() {
        assert_eq!(Opcode::new(op).downcast::<X86Opcode>().ok(), Some(op));
        assert_eq!(InstructionId::new(op).downcast::<X86Opcode>().ok(), Some(op));
        assert_eq!(PrefixId::new(op).downcast::<X86Opcode>().ok(), Some(op));
    }
}

#[test]
fn erased_registers_come_back() {
    for reg in X86Register::all_registers() {
        assert_eq!(Register::new(reg).downcast::<X86Register>().ok(), Some(reg));
        assert_eq!(RegisterId::new(reg).downcast::<X86Register>().ok(), Some(reg));
        let class = reg.class();
        assert_eq!(RegisterClassId::new(class).downcast::<X86RegisterClass>().ok(), Some(class));
    }
    let odd = X86Register::ExtControl(255);
    assert_eq!(Register::new(odd).downcast::<X86Register>().ok(), Some(odd));
    assert_eq!(erase::<Register, X86Register>(odd), Register::new(odd));
    assert_eq!(downcast::<Register, X86Register>(Register::new(odd)).ok(), Some(odd));
}

#[test]
fn payloads_are_ordinals() {
    assert_eq!(MachineMode::new(X86Mode::Real).raw_payload(), 0);
    assert_eq!(MachineMode::new(X86Mode::Long).raw_payload(), 3);
    assert_eq!(Opcode::new(X86Opcode::Lock).raw_payload(), 0);
    assert_eq!(Opcode::new(X86Opcode::Add).raw_payload(), 7);
    assert_eq!(Register::new(X86Register::Byte(3)).raw_payload(), 3);
    assert_eq!(Register::new(X86Register::Quad(15)).raw_payload(), 5 * 256 + 15);
    assert_eq!(Register::new(X86Register::ExtControl(255)).raw_payload(), 16 * 256 + 255);
    assert_eq!(MachId::new(UniformMachine::Simple).raw_payload(), 0);
}

#[test]
fn tags_are_those_of_the_types() {
    let id = MachineMode::new(X86Mode::Protected);
    assert_eq!(id.type_tag(), <X86Mode as IntoId<MachineMode>>::exec_id_type());
    assert_ne!(id.type_tag(), 0);
    assert_ne!(
        <X86Mode as IntoId<MachineMode>>::exec_id_type(),
        <OneMachine as IntoId<MachineMode>>::exec_id_type()
    );
    assert_eq!(
        <X86Mode as IntoId<MachineMode>>::exec_id_type(),
        <X86Mode as IntoId<MachineMode>>::exec_id_type()
    );
}

#[test]
fn identifier_of_another_type_is_of_the_wrong_type() {
    let foreign = MachineMode::new(OneMachine::Singleton);
    assert!(matches!(foreign.downcast::<X86Mode>(), Err(IdDowncastError::WrongType)));
    let own = MachineMode::new(X86Mode::Real);
    assert!(matches!(own.downcast::<OneMachine>(), Err(IdDowncastError::WrongType)));
    assert!(matches!(own.downcast::<X86Mode>(), Ok(X86Mode::Real)));
    for mode in X86Mode::all_modes() {
        assert!(MachineMode::new(mode).downcast::<OneMachine>().is_err());
    }
}

#[test]
fn payload_without_a_value_is_malformed() {
    let tag = <X86Mode as IntoId<MachineMode>>::exec_id_type();
    let id = MachineMode::from_raw_parts(tag, 4);
    assert!(matches!(id.downcast::<X86Mode>(), Err(IdDowncastError::MalformedValue)));
    let tag = <X86Register as IntoId<Register>>::exec_id_type();
    let id = Register::from_raw_parts(tag, 17 * 256);
    assert!(matches!(id.downcast::<X86Register>(), Err(IdDowncastError::MalformedValue)));
    let id = Register::from_raw_parts(tag, u64::MAX);
    assert!(matches!(id.downcast::<X86Register>(), Err(IdDowncastError::MalformedValue)));
    let id = Register::from_raw_parts(tag, 16 * 256 + 255);
    assert!(matches!(id.downcast::<X86Register>(), Ok(X86Register::ExtControl(255))));
    let tag = <X86Opcode as IntoId<Opcode>>::exec_id_type();
    assert!(matches!(
        Opcode::from_raw_parts(tag, 8).downcast::<X86Opcode>(),
        Err(IdDowncastError::MalformedValue)
    ));
    let tag = <UniformMachine as IntoId<MachId>>::exec_id_type();
    assert!(matches!(
        MachId::from_raw_parts(tag, 1).downcast::<UniformMachine>(),
        Err(IdDowncastError::MalformedValue)
    ));
}

#[test]
fn identifiers_are_their_parts() {
    let a = FeatureId::from_raw_parts(5, 9);
    let b = FeatureId::from_raw_parts(5, 9);
    let c = FeatureId::from_raw_parts(5, 10);
    let d = FeatureId::from_raw_parts(6, 9);
    assert_eq!(a, b);
    assert_ne!(a, c);
    assert_ne!(a, d);
    assert_eq!(a.type_tag(), 5);
    assert_eq!(a.raw_payload(), 9);
    let r = RelocId::from_raw_parts(1, 0);
    assert_eq!(r.type_tag(), 1);
    assert_eq!(r.raw_payload(), 0);
}

#[test]
fn listing_of_a_machine_with_one_mode() {
    let modes = one_machine();
    assert_eq!(modes, vec![MachineMode::new(OneMachine::Singleton)]);
    assert!(matches!(modes[0].downcast::<OneMachine>(), Ok(OneMachine::Singleton)));
}

#[test]
fn every_word_carries_a_number() {
    assert_eq!(<u64 as AsU64>::value_from(0), Some(0));
    assert_eq!(<u64 as AsU64>::value_from(u64::MAX), Some(u64::MAX));
}

#[test]
fn zero_carries_no_number_that_is_not_zero() {
    assert_eq!(<NonZero64 as AsU64>::value_from(0), None);
    assert_eq!(<NonZero64 as AsU64>::value_from(7).map(|n| n.get()), Some(7));
    assert_eq!(NonZero64::new(0), None);
    assert_eq!(NonZero64::new(u64::MAX).unwrap().get(), u64::MAX);
    assert_eq!(NonZero64::new(5), <NonZero64 as AsU64>::value_from(5));
}
