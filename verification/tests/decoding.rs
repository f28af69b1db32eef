use rjvm::bytecode::{parse_instruction, printable_instructions, Instruction};
use rjvm::error::ClassParseError;
use rjvm::vm::VmError;

#[test]
fn decodes_operands_big_endian() {
    let code = vec![0x11, 0x12, 0x34];
    assert_eq!(parse_instruction(&code, 0), Ok((Instruction::SIPUSH(0x1234), 3)));
}

#[test]
fn decodes_iinc_with_signed_amount() {
    let code = vec![0x84, 0x02, 0xff];
    assert_eq!(parse_instruction(&code, 0), Ok((Instruction::IINC(2, -1), 3)));
}

#[test]
fn branch_targets_are_absolute() {
    // nop; nop; goto -2 (to position 0)
    let code = vec![0x00, 0x00, 0xa7, 0xff, 0xfe];
    assert_eq!(parse_instruction(&code, 2), Ok((Instruction::GOTO(0), 5)));
    let code = vec![0x00, 0xc6, 0x00, 0x10];
    assert_eq!(parse_instruction(&code, 1), Ok((Instruction::IFNULL(17), 4)));
}

#[test]
fn truncated_code_is_a_read_error() {
    let code = vec![0xb6, 0x00];
    assert_eq!(parse_instruction(&code, 0), Err(VmError::ParseError(ClassParseError::ReadError)));
    assert_eq!(parse_instruction(&code, 2), Err(VmError::ParseError(ClassParseError::ReadError)));
}

#[test]
fn tableswitch_skips_padding() {
    // at position 0: opcode, 3 padding bytes, default 10, low 1, high 2, offsets 20, 30
    let mut code = vec![0xaa, 0, 0, 0];
    for v in [10i32, 1, 2, 20, 30] {
        code.extend_from_slice(&v.to_be_bytes());
    }
    assert_eq!(parse_instruction(&code, 0), Ok((Instruction::TABLESWITCH(10, 1, 2, vec![20, 30]), 24)));
}

#[test]
fn lookupswitch_targets_are_absolute() {
    // nop at 0, lookupswitch at 1 (padding 2), default +8, one pair (5 -> +12)
    let mut code = vec![0x00, 0xab, 0, 0];
    for v in [8i32, 1, 5, 12] {
        code.extend_from_slice(&v.to_be_bytes());
    }
    assert_eq!(parse_instruction(&code, 1), Ok((Instruction::LOOKUPSWITCH(9, vec![5, 13]), 20)));
}

#[test]
fn printable_instructions_stops_at_the_end() {
    let code = vec![0x2a, 0xb7, 0x00, 0x01, 0xb1];
    assert_eq!(
        printable_instructions(&code),
        vec![Instruction::ALOAD0, Instruction::INVOKESPECIAL(1), Instruction::RETURN]
    );
    let truncated = vec![0x2a, 0xb7, 0x00];
    assert_eq!(printable_instructions(&truncated), vec![Instruction::ALOAD0]);
}
