use rjvm::bytecode::Instruction;
use rjvm::vm::bytecode::{il, raw, InstructionBlock};

/// The code of `Slot.containsKey(Ljava/lang/Comparable;)Z`.
fn contains_key_code() -> Vec<u8> {
    vec![
        0x2a, // 0: aload_0
        0xb4, 0x00, 0x13, // 1: getfield #19
        0xb6, 0x00, 0x24, // 4: invokevirtual #36
        0x4d, // 7: astore_2
        0x2c, // 8: aload_2
        0xb9, 0x00, 0x28, 0x01, 0x00, // 9: invokeinterface #40, 1
        0x99, 0x00, 0x1f, // 14: ifeq 45
        0x2c, // 17: aload_2
        0xb9, 0x00, 0x2e, 0x01, 0x00, // 18: invokeinterface #46, 1
        0xc0, 0x00, 0x1b, // 23: checkcast #27
        0x4e, // 26: astore_3
        0x2d, // 27: aload_3
        0xb4, 0x00, 0x32, // 28: getfield #50
        0x2b, // 31: aload_1
        0xb9, 0x00, 0x36, 0x02, 0x00, // 32: invokeinterface #54, 2
        0x9a, 0x00, 0x05, // 37: ifne 42
        0x04, // 40: iconst_1
        0xac, // 41: ireturn
        0xa7, 0xff, 0xde, // 42: goto 8
        0x03, // 45: iconst_0
        0xac, // 46: ireturn
    ]
}

#[test]
fn test_raw() {
    let bytes = contains_key_code();
    let blocks = raw::get_blocks(&bytes);

    let expected = vec![
        Instruction::ALOAD0,
        Instruction::GETFIELD(19),
        Instruction::INVOKEVIRTUAL(36),
        Instruction::ASTORE2,
        Instruction::ALOAD2,
        Instruction::INVOKEINTERFACE(40, 1, 0),
        Instruction::IFEQ(19),
        Instruction::ALOAD2,
        Instruction::INVOKEINTERFACE(46, 1, 0),
        Instruction::CHECKCAST(27),
        Instruction::ASTORE3,
        Instruction::ALOAD3,
        Instruction::GETFIELD(50),
        Instruction::ALOAD1,
        Instruction::INVOKEINTERFACE(54, 2, 0),
        Instruction::IFNE(18),
        Instruction::ICONST1,
        Instruction::IRETURN,
        Instruction::GOTO(4),
        Instruction::ICONST0,
        Instruction::IRETURN,
    ];
    for (index, expected_instruction) in expected.iter().enumerate() {
        if let InstructionBlock::Single(instruction) = &blocks[index] {
            assert_eq!(
                expected_instruction, instruction,
                "Instruction does not match. Expected {:?}, but found {:?}",
                expected_instruction, instruction
            );
        } else {
            assert!(false, "not a raw block");
        }
    }
}

#[test]
fn test_il() {
    let bytes = contains_key_code();
    let blocks = il::get_blocks(&bytes);

    let expected = vec![
        InstructionBlock::Single(Instruction::ALOAD0),
        InstructionBlock::Single(Instruction::GETFIELD(19)),
        InstructionBlock::Single(Instruction::INVOKEVIRTUAL(36)),
        InstructionBlock::Single(Instruction::ASTORE2),
        InstructionBlock::Single(Instruction::ALOAD2),
        InstructionBlock::Single(Instruction::INVOKEINTERFACE(40, 1, 0)),
        InstructionBlock::Single(Instruction::IFEQ(45)),
        InstructionBlock::Single(Instruction::ALOAD2),
        InstructionBlock::Single(Instruction::INVOKEINTERFACE(46, 1, 0)),
        InstructionBlock::Single(Instruction::CHECKCAST(27)),
        InstructionBlock::AStoreWithoutPop(3),
        InstructionBlock::Single(Instruction::GETFIELD(50)),
        InstructionBlock::Single(Instruction::ALOAD1),
        InstructionBlock::Single(Instruction::INVOKEINTERFACE(54, 2, 0)),
        InstructionBlock::Single(Instruction::IFNE(42)),
        InstructionBlock::IConstReturn(1),
        InstructionBlock::Single(Instruction::GOTO(8)),
        InstructionBlock::IConstReturn(0),
    ];
    println!("{:#?}", blocks);
    assert_eq!(expected.len(), blocks.len());
    let mut actual_block_iter = blocks.values();
    let mut expected_block_iter = expected.iter();
    while let (Some(expected), Some(actual)) = (expected_block_iter.next(), actual_block_iter.next()) {
        assert_eq!(
            expected, actual,
            "Instruction does not match. Expected {:?}, but found {:?}",
            expected, actual
        );
    }
}

#[test]
fn il_keys_are_block_start_positions() {
    let blocks = il::get_blocks(&contains_key_code());
    let keys: Vec<u16> = blocks.keys().cloned().collect();
    assert_eq!(keys, vec![0, 1, 4, 7, 8, 9, 14, 17, 18, 23, 26, 28, 31, 32, 37, 40, 42, 45]);
}

#[test]
fn il_fuses_store_load_when_not_a_target() {
    // astore 5; aload 5; areturn
    let blocks = il::get_blocks(&vec![0x3a, 0x05, 0x19, 0x05, 0xb0]);
    let values: Vec<InstructionBlock> = blocks.values().cloned().collect();
    assert_eq!(values, vec![InstructionBlock::AStoreWithoutPop(5), InstructionBlock::Single(Instruction::ARETURN)]);
    // astore 5; aload 6 stays apart
    let blocks = il::get_blocks(&vec![0x3a, 0x05, 0x19, 0x06]);
    assert_eq!(blocks.len(), 2);
}

#[test]
fn il_fuses_constant_returns() {
    let blocks = il::get_blocks(&vec![0x02, 0xac, 0x0a, 0xad, 0x0c, 0xae, 0x0f, 0xaf, 0x0e, 0xaf, 0x01, 0xb0]);
    let values: Vec<InstructionBlock> = blocks.values().cloned().collect();
    assert_eq!(
        values,
        vec![
            InstructionBlock::IConstReturn(-1),
            InstructionBlock::LConstReturn(1),
            InstructionBlock::FConstReturn(1.0f32.to_bits()),
            InstructionBlock::DConstReturn(1.0f64.to_bits()),
            InstructionBlock::DConstReturn(0.0f64.to_bits()),
            InstructionBlock::NullReturn,
        ]
    );
}

#[test]
fn get_blocks_uses_fused_blocks() {
    let bytes = contains_key_code();
    assert_eq!(rjvm::vm::bytecode::get_blocks(&bytes), il::get_blocks(&bytes));
}
