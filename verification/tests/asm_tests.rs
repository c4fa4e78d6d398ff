use nexel_core::bios::{BIOS_CODE_OFFSET, BIOS_IMAGE_SIZE, bios_source, default_bios};
use nexel_core::nraw::{AsmError, assemble};

#[test]
fn assembles_simple_program() {
    let source = "
start:
    LDA #0x1234
    STA data
    BRA start

data:
    NOP
";
    let program = assemble(source).expect("assemble");
    assert_eq!(program.labels.get("start"), Some(0));
    assert_eq!(program.labels.get("data"), Some(9));
    assert_eq!(
        program.bytes,
        vec![0x01, 0x34, 0x12, 0x02, 0x09, 0x00, 0x00, 0x30, 0xF7, 0x00,]
    );
}

#[test]
fn branch_out_of_range_error() {
    let mut source = String::from("start:\n    BRA far\n");
    for _ in 0..130 {
        source.push_str("    NOP\n");
    }
    source.push_str("far:\n    NOP\n");
    let result = assemble(&source);
    assert!(matches!(result, Err(AsmError::BranchOutOfRange { .. })));
}

#[test]
fn assembles_backward_branch_bytes() {
    let program = assemble("start:\n    LDA #0x0100\n    BRA start\n").expect("assemble");
    assert_eq!(program.bytes, vec![0x01, 0x00, 0x01, 0x30, 0xFB]);
}

#[test]
fn duplicate_label_is_fatal() {
    let result = assemble("a:\na:\n    NOP\n");
    assert!(matches!(result, Err(AsmError::DuplicateLabel { .. })));
}

#[test]
fn unresolved_label_is_fatal() {
    let result = assemble("    JMP nowhere\n");
    assert!(matches!(result, Err(AsmError::LabelNotFound { .. })));
}

#[test]
fn unknown_mnemonic_is_fatal() {
    let result = assemble("    FROB #1\n");
    assert!(matches!(result, Err(AsmError::UnknownInstruction { .. })));
}

#[test]
fn immediate_requires_hash_prefix() {
    let result = assemble("    ADD 5\n");
    assert!(matches!(result, Err(AsmError::InvalidNumber { .. })));
}

#[test]
fn operand_rules_per_class() {
    assert!(matches!(assemble("    NOP #1\n"), Err(AsmError::UnexpectedOperand { .. })));
    assert!(matches!(assemble("    LDA\n"), Err(AsmError::MissingOperand { .. })));
    let program = assemble("    LDA $12\n").expect("absolute load");
    assert_eq!(program.bytes, vec![0x07, 0x12, 0x00, 0x00]);
}

#[test]
fn hex_and_decimal_operands_agree() {
    let a = assemble("    LDA #0x0010\n").expect("hex");
    let b = assemble("    LDA #16\n").expect("decimal");
    let c = assemble("    LDA #$10\n").expect("dollar hex");
    assert_eq!(a.bytes, b.bytes);
    assert_eq!(a.bytes, c.bytes);
}

#[test]
fn default_bios_is_sized() {
    assert_eq!(default_bios().len(), BIOS_IMAGE_SIZE);
}

#[test]
fn reset_vector_points_to_start() {
    let bios = default_bios();
    let program = assemble(bios_source()).expect("assemble boot source");
    let start_offset = program.labels.get("start").unwrap_or(0);
    let entry = 0xFF0000 + BIOS_CODE_OFFSET as u32 + start_offset;
    assert_eq!(bios[0x00], (entry & 0xFF) as u8);
    assert_eq!(bios[0x01], ((entry >> 8) & 0xFF) as u8);
    assert_eq!(bios[0x02], ((entry >> 16) & 0xFF) as u8);
}

#[test]
fn interrupt_vectors_are_set() {
    let bios = default_bios();
    let program = assemble(bios_source()).expect("assemble boot source");
    let handlers = [("swi_handler", 0x03usize), ("nmi_handler", 0x18usize)];
    for (label, offset) in handlers.iter() {
        if let Some(label_addr) = program.labels.get(label) {
            let entry = 0xFF0000 + BIOS_CODE_OFFSET as u32 + label_addr;
            assert_eq!(bios[*offset], (entry & 0xFF) as u8);
            assert_eq!(bios[*offset + 1], ((entry >> 8) & 0xFF) as u8);
            assert_eq!(bios[*offset + 2], ((entry >> 16) & 0xFF) as u8);
        }
    }
}

#[test]
fn syscall_entry_exists() {
    let bios = default_bios();
    assert_eq!(bios[0x100], 0x20);
}
