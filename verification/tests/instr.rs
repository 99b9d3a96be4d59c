use cmli::archs::x86::{X86Opcode, X86Register, X86RegisterClass};
use cmli::error::ErrorKind;
use cmli::instr::{
    check_instruction, find_instr, find_prefix, Address, ComplexAddress, ConditionCode, EncodingId, Instruction,
    InstructionFieldId, InstructionFieldValue, InstructionId, InstructionSpec, Offset, OpcodeTable,
    Opcodes, OpcodesEncoding, Operand, Prefix, PrefixId, PrefixSpec, RegisterClassId, RegisterId,
};
use cmli::traits::IdType;

fn add_spec() -> InstructionSpec<'static> {
    InstructionSpec { name: "add", id: InstructionId::new(X86Opcode::Add), fields: &[], valid_prefixes: &[] }
}

fn table() -> OpcodeTable<'static> {
    OpcodeTable {
        encoding: OpcodesEncoding { min_op_bytes: 1, max_op_bytes: 15, op_word_size: 1, op_word_alignment: 1 },
        default_encoding: EncodingId::from_raw_parts(3, 0),
        instrs: vec![add_spec()],
        prefixes: vec![
            PrefixSpec { name: "lock", id: PrefixId::new(X86Opcode::Lock), fields: &[] },
            PrefixSpec { name: "rep", id: PrefixId::new(X86Opcode::Rep), fields: &[] },
        ],
        classes: vec![
            (RegisterId::new(X86Register::Quad(0)), RegisterClassId::new(X86RegisterClass::Quad)),
            (RegisterId::new(X86Register::Xmm(1)), RegisterClassId::new(X86RegisterClass::Xmm)),
        ],
    }
}

fn field(n: u64) -> InstructionFieldId {
    InstructionFieldId::from_raw_parts(11, n)
}

#[test]
fn unknown_instruction_is_an_error() {
    let t = table();
    let err = t.instr_spec(InstructionId::new(X86Opcode::Lock)).unwrap_err();
    assert_eq!(err.kind(), ErrorKind::BadInstr);
    let id = InstructionId::new(X86Opcode::Lock);
    let text = format!("unknown instruction {}:{}", id.type_tag(), id.raw_payload());
    assert_eq!(err.payload(), Some(text.as_str()));
    assert_eq!(err.source_file(), None);
    assert_eq!(err.message(), format!("invalid instruction: {}", text));
}

#[test]
fn known_instruction_is_found() {
    let t = table();
    let spec = t.instr_spec(InstructionId::new(X86Opcode::Add)).unwrap();
    assert_eq!(spec, add_spec());
    assert_eq!(spec.name, "add");
}

#[test]
fn unknown_prefix_is_an_error() {
    let t = table();
    let id = PrefixId::new(X86Opcode::Wait);
    let err = t.prefix_spec(id).unwrap_err();
    assert_eq!(err.kind(), ErrorKind::BadInstr);
    let text = format!("unknown prefix {}:{}", id.type_tag(), id.raw_payload());
    assert_eq!(err.payload(), Some(text.as_str()));
    assert_eq!(t.prefix_spec(PrefixId::new(X86Opcode::Rep)).unwrap().name, "rep");
    assert_eq!(t.prefix_spec(PrefixId::new(X86Opcode::Lock)).unwrap().name, "lock");
}

#[test]
fn first_entry_of_a_table_wins() {
    let id = InstructionId::from_raw_parts(9, 1);
    let specs = vec![
        InstructionSpec { name: "first", id, fields: &[], valid_prefixes: &[] },
        InstructionSpec { name: "second", id, fields: &[], valid_prefixes: &[] },
    ];
    assert_eq!(find_instr(&specs, id).unwrap().name, "first");
    assert!(find_instr(&[], id).is_err());
    assert!(find_prefix(&[], PrefixId::from_raw_parts(9, 1)).is_err());
    let err = find_instr(&specs, InstructionId::from_raw_parts(9, 2)).unwrap_err();
    assert_eq!(err.payload(), Some("unknown instruction 9:2"));
    let err = find_prefix(&[], PrefixId::from_raw_parts(18446744073709551615, 0)).unwrap_err();
    assert_eq!(err.payload(), Some("unknown prefix 18446744073709551615:0"));
}

#[test]
fn classes_of_registers() {
    let t = table();
    let rax = RegisterId::new(X86Register::Quad(0));
    assert!(t.knows_register(rax));
    assert_eq!(t.reg_class(rax), RegisterClassId::new(X86RegisterClass::Quad));
    assert_eq!(
        t.reg_class(RegisterId::new(X86Register::Xmm(1))),
        RegisterClassId::new(X86RegisterClass::Xmm)
    );
    assert!(!t.knows_register(RegisterId::new(X86Register::Quad(1))));
    assert_eq!(t.find_class(RegisterId::new(X86Register::Quad(1))), None);
    assert_eq!(t.encoding_info().max_op_bytes, 15);
    assert_eq!(t.default_encoding_mode(), EncodingId::from_raw_parts(3, 0));
    assert_eq!(OpcodesEncoding::default().min_op_bytes, 0);
    assert_eq!(OpcodesEncoding::default().op_word_alignment, 0);
}

#[test]
fn fields_keep_the_order_in_which_they_were_set() {
    let mut i = Instruction::new(InstructionId::new(X86Opcode::Add));
    assert_eq!(i.field_count(), 0);
    assert_eq!(i.field(field(1)), None);
    assert_eq!(i.set_field(field(1), InstructionFieldValue::Val(10)), None);
    assert_eq!(i.set_field(field(2), InstructionFieldValue::Flag(true)), None);
    assert_eq!(i.field_count(), 2);
    assert_eq!(i.field(field(1)), Some(InstructionFieldValue::Val(10)));
    assert_eq!(i.field(field(2)), Some(InstructionFieldValue::Flag(true)));
    assert_eq!(i.field(field(3)), None);
    assert_eq!(
        i.set_field(field(1), InstructionFieldValue::ConditionCode(ConditionCode::Equal)),
        Some(InstructionFieldValue::Val(10))
    );
    assert_eq!(i.field_count(), 2);
    assert_eq!(i.field(field(1)), Some(InstructionFieldValue::ConditionCode(ConditionCode::Equal)));
    assert_eq!(i.field(field(2)), Some(InstructionFieldValue::Flag(true)));
    let mut other = Instruction::new(InstructionId::new(X86Opcode::Add));
    other.set_field(field(2), InstructionFieldValue::Flag(true));
    other.set_field(field(1), InstructionFieldValue::ConditionCode(ConditionCode::Equal));
    assert_eq!(other.field_count(), 2);
    assert_eq!(other.field(field(1)), i.field(field(1)));
}

#[test]
fn fields_are_told_apart_by_tag_and_payload() {
    let mut i = Instruction::new(InstructionId::new(X86Opcode::Add));
    i.set_field(InstructionFieldId::from_raw_parts(1, 2), InstructionFieldValue::Val(1));
    i.set_field(InstructionFieldId::from_raw_parts(2, 1), InstructionFieldValue::Val(2));
    assert_eq!(i.field(InstructionFieldId::from_raw_parts(1, 2)), Some(InstructionFieldValue::Val(1)));
    assert_eq!(i.field(InstructionFieldId::from_raw_parts(2, 1)), Some(InstructionFieldValue::Val(2)));
    assert_eq!(i.field(InstructionFieldId::from_raw_parts(2, 2)), None);
    assert_eq!(i.field_count(), 2);
}

#[test]
fn instruction_is_built_piece_by_piece() {
    let mut i = Instruction::new(InstructionId::new(X86Opcode::Add));
    assert_eq!(i.spec(), InstructionId::new(X86Opcode::Add));
    assert_eq!(i.encoding_override(), None);
    assert!(i.prefixes().is_empty());
    assert!(i.operands().is_empty());
    i.set_encoding_override(Some(EncodingId::from_raw_parts(3, 1)));
    assert_eq!(i.encoding_override(), Some(EncodingId::from_raw_parts(3, 1)));
    i.push_operand(Operand::Register(RegisterId::new(X86Register::Quad(0))));
    i.push_operand(Operand::Immediate(7));
    i.push_operand(Operand::Memory(Address::Abs(Offset { sym: None, disp: -8 }), Some(4)));
    i.push_operand(Operand::Address(Address::Complex(ComplexAddress {})));
    let mut lock = Prefix::new(PrefixId::new(X86Opcode::Lock));
    assert_eq!(lock.field(field(1)), None);
    assert_eq!(lock.set_field(field(1), InstructionFieldValue::Flag(false)), None);
    assert_eq!(lock.set_field(field(1), InstructionFieldValue::Flag(true)), Some(InstructionFieldValue::Flag(false)));
    assert_eq!(lock.field(field(1)), Some(InstructionFieldValue::Flag(true)));
    assert_eq!(lock.spec(), PrefixId::new(X86Opcode::Lock));
    i.push_prefix(lock.clone());
    assert_eq!(i.prefixes(), &vec![lock]);
    assert_eq!(i.operands().len(), 4);
    assert_eq!(i.operands()[1], Operand::Immediate(7));
    i.set_encoding_override(None);
    assert_eq!(i.encoding_override(), None);
    assert_eq!(i.operands().len(), 4);
}

#[test]
fn copies_are_equal_and_apart() {
    let mut i = Instruction::new(InstructionId::new(X86Opcode::Add));
    i.set_field(field(1), InstructionFieldValue::Val(1));
    i.push_operand(Operand::Memory(Address::Rel(Offset { sym: None, disp: 16 }), None));
    i.push_prefix(Prefix::new(PrefixId::new(X86Opcode::Rep)));
    let mut copy = i.clone();
    assert_eq!(copy, i);
    copy.set_field(field(1), InstructionFieldValue::Val(2));
    assert_ne!(copy, i);
    assert_eq!(i.field(field(1)), Some(InstructionFieldValue::Val(1)));
    assert_eq!(copy.field(field(1)), Some(InstructionFieldValue::Val(2)));
    let op = Operand::Address(Address::Complex(ComplexAddress {}));
    assert_eq!(op.clone(), op);
}

#[test]
fn legal_instruction_is_kept() {
    let t = table();
    let mut i = Instruction::new(InstructionId::new(X86Opcode::Add));
    i.push_operand(Operand::Immediate(1));
    let out = t.legalize(&i);
    assert_eq!(out, vec![i]);
}

#[test]
fn fields_are_kept_in_the_order_of_their_first_setting() {
    let mut i = Instruction::new(InstructionId::new(X86Opcode::Add));
    i.set_field(field(5), InstructionFieldValue::Val(1));
    i.set_field(field(3), InstructionFieldValue::Val(2));
    i.set_field(field(5), InstructionFieldValue::Val(3));
    assert_eq!(i.field_at(0), Some(((11, 5), InstructionFieldValue::Val(3))));
    assert_eq!(i.field_at(1), Some(((11, 3), InstructionFieldValue::Val(2))));
    assert_eq!(i.field_at(2), None);
    assert_eq!(Instruction::new(InstructionId::new(X86Opcode::Add)).field_at(0), None);
}

#[test]
fn instruction_may_refer_to_what_the_architecture_has() {
    let t = table();
    let mut i = Instruction::new(InstructionId::new(X86Opcode::Add));
    i.push_prefix(Prefix::new(PrefixId::new(X86Opcode::Lock)));
    i.push_operand(Operand::Register(RegisterId::new(X86Register::Quad(0))));
    i.push_operand(Operand::Immediate(1));
    i.set_field(field(1), InstructionFieldValue::Register(RegisterId::new(X86Register::Xmm(1))));
    i.set_field(field(2), InstructionFieldValue::Flag(true));
    assert!(check_instruction(&t, &i).is_ok());
}

#[test]
fn instruction_may_not_refer_to_anything_else() {
    let t = table();
    let unknown = Instruction::new(InstructionId::new(X86Opcode::Rep));
    let err = check_instruction(&t, &unknown).unwrap_err();
    assert_eq!(err.kind(), ErrorKind::BadInstr);

    let mut prefixed = Instruction::new(InstructionId::new(X86Opcode::Add));
    prefixed.push_prefix(Prefix::new(PrefixId::new(X86Opcode::Lock)));
    prefixed.push_prefix(Prefix::new(PrefixId::new(X86Opcode::Wait)));
    let id = PrefixId::new(X86Opcode::Wait);
    let err = check_instruction(&t, &prefixed).unwrap_err();
    assert_eq!(err.payload(), Some(format!("unknown prefix {}:{}", id.type_tag(), id.raw_payload()).as_str()));

    let foreign = RegisterId::new(X86Register::Quad(1));
    let mut operand = Instruction::new(InstructionId::new(X86Opcode::Add));
    operand.push_operand(Operand::Register(RegisterId::new(X86Register::Quad(0))));
    operand.push_operand(Operand::Register(foreign));
    let err = check_instruction(&t, &operand).unwrap_err();
    assert_eq!(
        err.payload(),
        Some(format!("unknown register {}:{}", foreign.type_tag(), foreign.raw_payload()).as_str())
    );

    let mut with_field = Instruction::new(InstructionId::new(X86Opcode::Add));
    with_field.set_field(field(1), InstructionFieldValue::Val(1));
    with_field.set_field(field(2), InstructionFieldValue::Register(foreign));
    assert_eq!(check_instruction(&t, &with_field).unwrap_err().kind(), ErrorKind::BadInstr);
    with_field.set_field(field(2), InstructionFieldValue::Register(RegisterId::new(X86Register::Quad(0))));
    assert!(check_instruction(&t, &with_field).is_ok());
}
