use vstd::prelude::*;

verus! {

/// The mathematical content of an instruction: its opcode and its operands as integers.
pub struct InstructionModel {
    pub opcode: u8,
    pub operands: Seq<int>,
}

/// The instruction model with the given opcode and operands.
pub open spec fn model(opcode: u8, operands: Seq<int>) -> InstructionModel {
    InstructionModel { opcode, operands }
}

/// How the bytes that follow an opcode are read.
#[derive(Clone, Copy, PartialEq, Eq, Structural, Debug)]
pub enum OperandLayout {
    /// No operand bytes.
    Plain,
    /// One unsigned byte.
    U1,
    /// One unsigned big-endian 16-bit value.
    U2,
    /// A signed 16-bit branch offset, relative to the opcode's position.
    Offset,
    /// A 16-bit index followed by two bytes.
    U2U1U1,
    /// An unsigned byte followed by a signed byte.
    U1I1,
    /// A `tableswitch` body.
    TableSwitch,
    /// A `lookupswitch` body.
    LookupSwitch,
    /// An opcode this decoder does not handle.
    Unsupported,
}

/// A decoded JVM instruction, named by its mnemonic, with its operands.
#[allow(non_camel_case_types)]
#[derive(Debug, PartialEq, Clone)]
pub enum Instruction {
    NOP,
    ACONST_NULL,
    ICONSTM1,
    ICONST0,
    ICONST1,
    ICONST2,
    ICONST3,
    ICONST4,
    ICONST5,
    LCONST0,
    LCONST1,
    FCONST0,
    FCONST1,
    FCONST2,
    DCONST0,
    DCONST1,
    BIPUSH(u8),
    SIPUSH(u16),
    LDC(u8),
    LDCW(u16),
    LDC2W(u16),
    ILOAD(u8),
    LLOAD(u8),
    FLOAD(u8),
    DLOAD(u8),
    ALOAD(u8),
    ILOAD0,
    ILOAD1,
    ILOAD2,
    ILOAD3,
    LLOAD0,
    LLOAD1,
    LLOAD2,
    LLOAD3,
    FLOAD0,
    FLOAD1,
    FLOAD2,
    FLOAD3,
    DLOAD0,
    DLOAD1,
    DLOAD2,
    DLOAD3,
    ALOAD0,
    ALOAD1,
    ALOAD2,
    ALOAD3,
    IALOAD,
    LALOAD,
    FALOAD,
    DALOAD,
    AALOAD,
    BALOAD,
    CALOAD,
    SALOAD,
    ISTORE(u8),
    LSTORE(u8),
    FSTORE(u8),
    DSTORE(u8),
    ASTORE(u8),
    ISTORE0,
    ISTORE1,
    ISTORE2,
    ISTORE3,
    LSTORE0,
    LSTORE1,
    LSTORE2,
    LSTORE3,
    FSTORE0,
    FSTORE1,
    FSTORE2,
    FSTORE3,
    DSTORE0,
    DSTORE1,
    DSTORE2,
    DSTORE3,
    ASTORE0,
    ASTORE1,
    ASTORE2,
    ASTORE3,
    IASTORE,
    LASTORE,
    FASTORE,
    DASTORE,
    AASTORE,
    BASTORE,
    CASTORE,
    SASTORE,
    POP,
    POP2,
    DUP,
    DUPX1,
    DUPX2,
    DUP2,
    DUP2X1,
    DUP2X2,
    SWAP,
    IADD,
    LADD,
    FADD,
    DADD,
    ISUB,
    LSUB,
    FSUB,
    DSUB,
    IMUL,
    LMUL,
    FMUL,
    DMUL,
    IDIV,
    LDIV,
    FDIV,
    DDIV,
    IREM,
    LREM,
    FREM,
    DREM,
    INEG,
    LNEG,
    FNEG,
    DNEG,
    ISHL,
    LSHL,
    ISHR,
    LSHR,
    IUSHR,
    LUSHR,
    IAND,
    LAND,
    IOR,
    LOR,
    IXOR,
    LXOR,
    IINC(u8, i8),
    I2L,
    I2F,
    I2D,
    L2I,
    L2F,
    L2D,
    F2I,
    F2L,
    F2D,
    D2I,
    D2L,
    D2F,
    I2B,
    I2C,
    I2S,
    LCMP,
    FCMPL,
    FCMPG,
    DCMPL,
    DCMPG,
    IFEQ(u16),
    IFNE(u16),
    IFLT(u16),
    IFGE(u16),
    IFGT(u16),
    IFLE(u16),
    IF_ICMPEQ(u16),
    IF_ICMPNE(u16),
    IF_ICMPLT(u16),
    IF_ICMPGE(u16),
    IF_ICMPGT(u16),
    IF_ICMPLE(u16),
    IF_ACMPEQ(u16),
    IF_ACMPNE(u16),
    GOTO(u16),
    JSR(u16),
    RET(u8),
    TABLESWITCH(i32, i32, i32, Vec<i32>),
    LOOKUPSWITCH(i32, Vec<i32>),
    IRETURN,
    LRETURN,
    FRETURN,
    DRETURN,
    ARETURN,
    RETURN,
    GETSTATIC(u16),
    PUTSTATIC(u16),
    GETFIELD(u16),
    PUTFIELD(u16),
    INVOKEVIRTUAL(u16),
    INVOKESPECIAL(u16),
    INVOKESTATIC(u16),
    INVOKEINTERFACE(u16, u8, u8),
    INVOKEDYNAMIC(u16, u8, u8),
    NEW(u16),
    NEWARRAY(u8),
    ANEWARRAY(u16),
    ARRAYLENGTH,
    ATHROW,
    CHECKCAST(u16),
    INSTANCEOF(u16),
    MONITORENTER,
    MONITOREXIT,
    WIDE(u8, u16, Option<u16>),
    MULTIANEWARRAY(u16, u8),
    IFNULL(u16),
    IFNONNULL(u16),
    GOTO_W(u32),
    JSR_w(u32),
}

impl Instruction {
    /// The opcode byte that introduces this instruction in a method's code.
    pub open spec fn spec_opcode(&self) -> u8 {
        match self {
            Instruction::NOP => 0x00,
            Instruction::ACONST_NULL => 0x01,
            Instruction::ICONSTM1 => 0x02,
            Instruction::ICONST0 => 0x03,
            Instruction::ICONST1 => 0x04,
            Instruction::ICONST2 => 0x05,
            Instruction::ICONST3 => 0x06,
            Instruction::ICONST4 => 0x07,
            Instruction::ICONST5 => 0x08,
            Instruction::LCONST0 => 0x09,
            Instruction::LCONST1 => 0x0a,
            Instruction::FCONST0 => 0x0b,
            Instruction::FCONST1 => 0x0c,
            Instruction::FCONST2 => 0x0d,
            Instruction::DCONST0 => 0x0e,
            Instruction::DCONST1 => 0x0f,
            Instruction::BIPUSH(_) => 0x10,
            Instruction::SIPUSH(_) => 0x11,
            Instruction::LDC(_) => 0x12,
            Instruction::LDCW(_) => 0x13,
            Instruction::LDC2W(_) => 0x14,
            Instruction::ILOAD(_) => 0x15,
            Instruction::LLOAD(_) => 0x16,
            Instruction::FLOAD(_) => 0x17,
            Instruction::DLOAD(_) => 0x18,
            Instruction::ALOAD(_) => 0x19,
            Instruction::ILOAD0 => 0x1a,
            Instruction::ILOAD1 => 0x1b,
            Instruction::ILOAD2 => 0x1c,
            Instruction::ILOAD3 => 0x1d,
            Instruction::LLOAD0 => 0x1e,
            Instruction::LLOAD1 => 0x1f,
            Instruction::LLOAD2 => 0x20,
            Instruction::LLOAD3 => 0x21,
            Instruction::FLOAD0 => 0x22,
            Instruction::FLOAD1 => 0x23,
            Instruction::FLOAD2 => 0x24,
            Instruction::FLOAD3 => 0x25,
            Instruction::DLOAD0 => 0x26,
            Instruction::DLOAD1 => 0x27,
            Instruction::DLOAD2 => 0x28,
            Instruction::DLOAD3 => 0x29,
            Instruction::ALOAD0 => 0x2a,
            Instruction::ALOAD1 => 0x2b,
            Instruction::ALOAD2 => 0x2c,
            Instruction::ALOAD3 => 0x2d,
            Instruction::IALOAD => 0x2e,
            Instruction::LALOAD => 0x2f,
            Instruction::FALOAD => 0x30,
            Instruction::DALOAD => 0x31,
            Instruction::AALOAD => 0x32,
            Instruction::BALOAD => 0x33,
            Instruction::CALOAD => 0x34,
            Instruction::SALOAD => 0x35,
            Instruction::ISTORE(_) => 0x36,
            Instruction::LSTORE(_) => 0x37,
            Instruction::FSTORE(_) => 0x38,
            Instruction::DSTORE(_) => 0x39,
            Instruction::ASTORE(_) => 0x3a,
            Instruction::ISTORE0 => 0x3b,
            Instruction::ISTORE1 => 0x3c,
            Instruction::ISTORE2 => 0x3d,
            Instruction::ISTORE3 => 0x3e,
            Instruction::LSTORE0 => 0x3f,
            Instruction::LSTORE1 => 0x40,
            Instruction::LSTORE2 => 0x41,
            Instruction::LSTORE3 => 0x42,
            Instruction::FSTORE0 => 0x43,
            Instruction::FSTORE1 => 0x44,
            Instruction::FSTORE2 => 0x45,
            Instruction::FSTORE3 => 0x46,
            Instruction::DSTORE0 => 0x47,
            Instruction::DSTORE1 => 0x48,
            Instruction::DSTORE2 => 0x49,
            Instruction::DSTORE3 => 0x4a,
            Instruction::ASTORE0 => 0x4b,
            Instruction::ASTORE1 => 0x4c,
            Instruction::ASTORE2 => 0x4d,
            Instruction::ASTORE3 => 0x4e,
            Instruction::IASTORE => 0x4f,
            Instruction::LASTORE => 0x50,
            Instruction::FASTORE => 0x51,
            Instruction::DASTORE => 0x52,
            Instruction::AASTORE => 0x53,
            Instruction::BASTORE => 0x54,
            Instruction::CASTORE => 0x55,
            Instruction::SASTORE => 0x56,
            Instruction::POP => 0x57,
            Instruction::POP2 => 0x58,
            Instruction::DUP => 0x59,
            Instruction::DUPX1 => 0x5a,
            Instruction::DUPX2 => 0x5b,
            Instruction::DUP2 => 0x5c,
            Instruction::DUP2X1 => 0x5d,
            Instruction::DUP2X2 => 0x5e,
            Instruction::SWAP => 0x5f,
            Instruction::IADD => 0x60,
            Instruction::LADD => 0x61,
            Instruction::FADD => 0x62,
            Instruction::DADD => 0x63,
            Instruction::ISUB => 0x64,
            Instruction::LSUB => 0x65,
            Instruction::FSUB => 0x66,
            Instruction::DSUB => 0x67,
            Instruction::IMUL => 0x68,
            Instruction::LMUL => 0x69,
            Instruction::FMUL => 0x6a,
            Instruction::DMUL => 0x6b,
            Instruction::IDIV => 0x6c,
            Instruction::LDIV => 0x6d,
            Instruction::FDIV => 0x6e,
            Instruction::DDIV => 0x6f,
            Instruction::IREM => 0x70,
            Instruction::LREM => 0x71,
            Instruction::FREM => 0x72,
            Instruction::DREM => 0x73,
            Instruction::INEG => 0x74,
            Instruction::LNEG => 0x75,
            Instruction::FNEG => 0x76,
            Instruction::DNEG => 0x77,
            Instruction::ISHL => 0x78,
            Instruction::LSHL => 0x79,
            Instruction::ISHR => 0x7a,
            Instruction::LSHR => 0x7b,
            Instruction::IUSHR => 0x7c,
            Instruction::LUSHR => 0x7d,
            Instruction::IAND => 0x7e,
            Instruction::LAND => 0x7f,
            Instruction::IOR => 0x80,
            Instruction::LOR => 0x81,
            Instruction::IXOR => 0x82,
            Instruction::LXOR => 0x83,
            Instruction::IINC(_, _) => 0x84,
            Instruction::I2L => 0x85,
            Instruction::I2F => 0x86,
            Instruction::I2D => 0x87,
            Instruction::L2I => 0x88,
            Instruction::L2F => 0x89,
            Instruction::L2D => 0x8a,
            Instruction::F2I => 0x8b,
            Instruction::F2L => 0x8c,
            Instruction::F2D => 0x8d,
            Instruction::D2I => 0x8e,
            Instruction::D2L => 0x8f,
            Instruction::D2F => 0x90,
            Instruction::I2B => 0x91,
            Instruction::I2C => 0x92,
            Instruction::I2S => 0x93,
            Instruction::LCMP => 0x94,
            Instruction::FCMPL => 0x95,
            Instruction::FCMPG => 0x96,
            Instruction::DCMPL => 0x97,
            Instruction::DCMPG => 0x98,
            Instruction::IFEQ(_) => 0x99,
            Instruction::IFNE(_) => 0x9a,
            Instruction::IFLT(_) => 0x9b,
            Instruction::IFGE(_) => 0x9c,
            Instruction::IFGT(_) => 0x9d,
            Instruction::IFLE(_) => 0x9e,
            Instruction::IF_ICMPEQ(_) => 0x9f,
            Instruction::IF_ICMPNE(_) => 0xa0,
            Instruction::IF_ICMPLT(_) => 0xa1,
            Instruction::IF_ICMPGE(_) => 0xa2,
            Instruction::IF_ICMPGT(_) => 0xa3,
            Instruction::IF_ICMPLE(_) => 0xa4,
            Instruction::IF_ACMPEQ(_) => 0xa5,
            Instruction::IF_ACMPNE(_) => 0xa6,
            Instruction::GOTO(_) => 0xa7,
            Instruction::JSR(_) => 0xa8,
            Instruction::RET(_) => 0xa9,
            Instruction::TABLESWITCH(_, _, _, _) => 0xaa,
            Instruction::LOOKUPSWITCH(_, _) => 0xab,
            Instruction::IRETURN => 0xac,
            Instruction::LRETURN => 0xad,
            Instruction::FRETURN => 0xae,
            Instruction::DRETURN => 0xaf,
            Instruction::ARETURN => 0xb0,
            Instruction::RETURN => 0xb1,
            Instruction::GETSTATIC(_) => 0xb2,
            Instruction::PUTSTATIC(_) => 0xb3,
            Instruction::GETFIELD(_) => 0xb4,
            Instruction::PUTFIELD(_) => 0xb5,
            Instruction::INVOKEVIRTUAL(_) => 0xb6,
            Instruction::INVOKESPECIAL(_) => 0xb7,
            Instruction::INVOKESTATIC(_) => 0xb8,
            Instruction::INVOKEINTERFACE(_, _, _) => 0xb9,
            Instruction::INVOKEDYNAMIC(_, _, _) => 0xba,
            Instruction::NEW(_) => 0xbb,
            Instruction::NEWARRAY(_) => 0xbc,
            Instruction::ANEWARRAY(_) => 0xbd,
            Instruction::ARRAYLENGTH => 0xbe,
            Instruction::ATHROW => 0xbf,
            Instruction::CHECKCAST(_) => 0xc0,
            Instruction::INSTANCEOF(_) => 0xc1,
            Instruction::MONITORENTER => 0xc2,
            Instruction::MONITOREXIT => 0xc3,
            Instruction::WIDE(_, _, _) => 0xc4,
            Instruction::MULTIANEWARRAY(_, _) => 0xc5,
            Instruction::IFNULL(_) => 0xc6,
            Instruction::IFNONNULL(_) => 0xc7,
            Instruction::GOTO_W(_) => 0xc8,
            Instruction::JSR_w(_) => 0xc9,
        }
    }

    /// The operands of this instruction as integers, in the order they stand in the variant.
    pub open spec fn spec_operands(&self) -> Seq<int> {
        match self {
            Instruction::NOP => Seq::<int>::empty(),
            Instruction::ACONST_NULL => Seq::<int>::empty(),
            Instruction::ICONSTM1 => Seq::<int>::empty(),
            Instruction::ICONST0 => Seq::<int>::empty(),
            Instruction::ICONST1 => Seq::<int>::empty(),
            Instruction::ICONST2 => Seq::<int>::empty(),
            Instruction::ICONST3 => Seq::<int>::empty(),
            Instruction::ICONST4 => Seq::<int>::empty(),
            Instruction::ICONST5 => Seq::<int>::empty(),
            Instruction::LCONST0 => Seq::<int>::empty(),
            Instruction::LCONST1 => Seq::<int>::empty(),
            Instruction::FCONST0 => Seq::<int>::empty(),
            Instruction::FCONST1 => Seq::<int>::empty(),
            Instruction::FCONST2 => Seq::<int>::empty(),
            Instruction::DCONST0 => Seq::<int>::empty(),
            Instruction::DCONST1 => Seq::<int>::empty(),
            Instruction::BIPUSH(a0) => seq![a0 as int],
            Instruction::SIPUSH(a0) => seq![a0 as int],
            Instruction::LDC(a0) => seq![a0 as int],
            Instruction::LDCW(a0) => seq![a0 as int],
            Instruction::LDC2W(a0) => seq![a0 as int],
            Instruction::ILOAD(a0) => seq![a0 as int],
            Instruction::LLOAD(a0) => seq![a0 as int],
            Instruction::FLOAD(a0) => seq![a0 as int],
            Instruction::DLOAD(a0) => seq![a0 as int],
            Instruction::ALOAD(a0) => seq![a0 as int],
            Instruction::ILOAD0 => Seq::<int>::empty(),
            Instruction::ILOAD1 => Seq::<int>::empty(),
            Instruction::ILOAD2 => Seq::<int>::empty(),
            Instruction::ILOAD3 => Seq::<int>::empty(),
            Instruction::LLOAD0 => Seq::<int>::empty(),
            Instruction::LLOAD1 => Seq::<int>::empty(),
            Instruction::LLOAD2 => Seq::<int>::empty(),
            Instruction::LLOAD3 => Seq::<int>::empty(),
            Instruction::FLOAD0 => Seq::<int>::empty(),
            Instruction::FLOAD1 => Seq::<int>::empty(),
            Instruction::FLOAD2 => Seq::<int>::empty(),
            Instruction::FLOAD3 => Seq::<int>::empty(),
            Instruction::DLOAD0 => Seq::<int>::empty(),
            Instruction::DLOAD1 => Seq::<int>::empty(),
            Instruction::DLOAD2 => Seq::<int>::empty(),
            Instruction::DLOAD3 => Seq::<int>::empty(),
            Instruction::ALOAD0 => Seq::<int>::empty(),
            Instruction::ALOAD1 => Seq::<int>::empty(),
            Instruction::ALOAD2 => Seq::<int>::empty(),
            Instruction::ALOAD3 => Seq::<int>::empty(),
            Instruction::IALOAD => Seq::<int>::empty(),
            Instruction::LALOAD => Seq::<int>::empty(),
            Instruction::FALOAD => Seq::<int>::empty(),
            Instruction::DALOAD => Seq::<int>::empty(),
            Instruction::AALOAD => Seq::<int>::empty(),
            Instruction::BALOAD => Seq::<int>::empty(),
            Instruction::CALOAD => Seq::<int>::empty(),
            Instruction::SALOAD => Seq::<int>::empty(),
            Instruction::ISTORE(a0) => seq![a0 as int],
            Instruction::LSTORE(a0) => seq![a0 as int],
            Instruction::FSTORE(a0) => seq![a0 as int],
            Instruction::DSTORE(a0) => seq![a0 as int],
            Instruction::ASTORE(a0) => seq![a0 as int],
            Instruction::ISTORE0 => Seq::<int>::empty(),
            Instruction::ISTORE1 => Seq::<int>::empty(),
            Instruction::ISTORE2 => Seq::<int>::empty(),
            Instruction::ISTORE3 => Seq::<int>::empty(),
            Instruction::LSTORE0 => Seq::<int>::empty(),
            Instruction::LSTORE1 => Seq::<int>::empty(),
            Instruction::LSTORE2 => Seq::<int>::empty(),
            Instruction::LSTORE3 => Seq::<int>::empty(),
            Instruction::FSTORE0 => Seq::<int>::empty(),
            Instruction::FSTORE1 => Seq::<int>::empty(),
            Instruction::FSTORE2 => Seq::<int>::empty(),
            Instruction::FSTORE3 => Seq::<int>::empty(),
            Instruction::DSTORE0 => Seq::<int>::empty(),
            Instruction::DSTORE1 => Seq::<int>::empty(),
            Instruction::DSTORE2 => Seq::<int>::empty(),
            Instruction::DSTORE3 => Seq::<int>::empty(),
            Instruction::ASTORE0 => Seq::<int>::empty(),
            Instruction::ASTORE1 => Seq::<int>::empty(),
            Instruction::ASTORE2 => Seq::<int>::empty(),
            Instruction::ASTORE3 => Seq::<int>::empty(),
            Instruction::IASTORE => Seq::<int>::empty(),
            Instruction::LASTORE => Seq::<int>::empty(),
            Instruction::FASTORE => Seq::<int>::empty(),
            Instruction::DASTORE => Seq::<int>::empty(),
            Instruction::AASTORE => Seq::<int>::empty(),
            Instruction::BASTORE => Seq::<int>::empty(),
            Instruction::CASTORE => Seq::<int>::empty(),
            Instruction::SASTORE => Seq::<int>::empty(),
            Instruction::POP => Seq::<int>::empty(),
            Instruction::POP2 => Seq::<int>::empty(),
            Instruction::DUP => Seq::<int>::empty(),
            Instruction::DUPX1 => Seq::<int>::empty(),
            Instruction::DUPX2 => Seq::<int>::empty(),
            Instruction::DUP2 => Seq::<int>::empty(),
            Instruction::DUP2X1 => Seq::<int>::empty(),
            Instruction::DUP2X2 => Seq::<int>::empty(),
            Instruction::SWAP => Seq::<int>::empty(),
            Instruction::IADD => Seq::<int>::empty(),
            Instruction::LADD => Seq::<int>::empty(),
            Instruction::FADD => Seq::<int>::empty(),
            Instruction::DADD => Seq::<int>::empty(),
            Instruction::ISUB => Seq::<int>::empty(),
            Instruction::LSUB => Seq::<int>::empty(),
            Instruction::FSUB => Seq::<int>::empty(),
            Instruction::DSUB => Seq::<int>::empty(),
            Instruction::IMUL => Seq::<int>::empty(),
            Instruction::LMUL => Seq::<int>::empty(),
            Instruction::FMUL => Seq::<int>::empty(),
            Instruction::DMUL => Seq::<int>::empty(),
            Instruction::IDIV => Seq::<int>::empty(),
            Instruction::LDIV => Seq::<int>::empty(),
            Instruction::FDIV => Seq::<int>::empty(),
            Instruction::DDIV => Seq::<int>::empty(),
            Instruction::IREM => Seq::<int>::empty(),
            Instruction::LREM => Seq::<int>::empty(),
            Instruction::FREM => Seq::<int>::empty(),
            Instruction::DREM => Seq::<int>::empty(),
            Instruction::INEG => Seq::<int>::empty(),
            Instruction::LNEG => Seq::<int>::empty(),
            Instruction::FNEG => Seq::<int>::empty(),
            Instruction::DNEG => Seq::<int>::empty(),
            Instruction::ISHL => Seq::<int>::empty(),
            Instruction::LSHL => Seq::<int>::empty(),
            Instruction::ISHR => Seq::<int>::empty(),
            Instruction::LSHR => Seq::<int>::empty(),
            Instruction::IUSHR => Seq::<int>::empty(),
            Instruction::LUSHR => Seq::<int>::empty(),
            Instruction::IAND => Seq::<int>::empty(),
            Instruction::LAND => Seq::<int>::empty(),
            Instruction::IOR => Seq::<int>::empty(),
            Instruction::LOR => Seq::<int>::empty(),
            Instruction::IXOR => Seq::<int>::empty(),
            Instruction::LXOR => Seq::<int>::empty(),
            Instruction::IINC(a0, a1) => seq![a0 as int, a1 as int],
            Instruction::I2L => Seq::<int>::empty(),
            Instruction::I2F => Seq::<int>::empty(),
            Instruction::I2D => Seq::<int>::empty(),
            Instruction::L2I => Seq::<int>::empty(),
            Instruction::L2F => Seq::<int>::empty(),
            Instruction::L2D => Seq::<int>::empty(),
            Instruction::F2I => Seq::<int>::empty(),
            Instruction::F2L => Seq::<int>::empty(),
            Instruction::F2D => Seq::<int>::empty(),
            Instruction::D2I => Seq::<int>::empty(),
            Instruction::D2L => Seq::<int>::empty(),
            Instruction::D2F => Seq::<int>::empty(),
            Instruction::I2B => Seq::<int>::empty(),
            Instruction::I2C => Seq::<int>::empty(),
            Instruction::I2S => Seq::<int>::empty(),
            Instruction::LCMP => Seq::<int>::empty(),
            Instruction::FCMPL => Seq::<int>::empty(),
            Instruction::FCMPG => Seq::<int>::empty(),
            Instruction::DCMPL => Seq::<int>::empty(),
            Instruction::DCMPG => Seq::<int>::empty(),
            Instruction::IFEQ(a0) => seq![a0 as int],
            Instruction::IFNE(a0) => seq![a0 as int],
            Instruction::IFLT(a0) => seq![a0 as int],
            Instruction::IFGE(a0) => seq![a0 as int],
            Instruction::IFGT(a0) => seq![a0 as int],
            Instruction::IFLE(a0) => seq![a0 as int],
            Instruction::IF_ICMPEQ(a0) => seq![a0 as int],
            Instruction::IF_ICMPNE(a0) => seq![a0 as int],
            Instruction::IF_ICMPLT(a0) => seq![a0 as int],
            Instruction::IF_ICMPGE(a0) => seq![a0 as int],
            Instruction::IF_ICMPGT(a0) => seq![a0 as int],
            Instruction::IF_ICMPLE(a0) => seq![a0 as int],
            Instruction::IF_ACMPEQ(a0) => seq![a0 as int],
            Instruction::IF_ACMPNE(a0) => seq![a0 as int],
            Instruction::GOTO(a0) => seq![a0 as int],
            Instruction::JSR(a0) => seq![a0 as int],
            Instruction::RET(a0) => seq![a0 as int],
            Instruction::TABLESWITCH(a0, a1, a2, a3) => seq![a0 as int, a1 as int, a2 as int] + a3@.map_values(|x: i32| x as int),
            Instruction::LOOKUPSWITCH(a0, a1) => seq![a0 as int] + a1@.map_values(|x: i32| x as int),
            Instruction::IRETURN => Seq::<int>::empty(),
            Instruction::LRETURN => Seq::<int>::empty(),
            Instruction::FRETURN => Seq::<int>::empty(),
            Instruction::DRETURN => Seq::<int>::empty(),
            Instruction::ARETURN => Seq::<int>::empty(),
            Instruction::RETURN => Seq::<int>::empty(),
            Instruction::GETSTATIC(a0) => seq![a0 as int],
            Instruction::PUTSTATIC(a0) => seq![a0 as int],
            Instruction::GETFIELD(a0) => seq![a0 as int],
            Instruction::PUTFIELD(a0) => seq![a0 as int],
            Instruction::INVOKEVIRTUAL(a0) => seq![a0 as int],
            Instruction::INVOKESPECIAL(a0) => seq![a0 as int],
            Instruction::INVOKESTATIC(a0) => seq![a0 as int],
            Instruction::INVOKEINTERFACE(a0, a1, a2) => seq![a0 as int, a1 as int, a2 as int],
            Instruction::INVOKEDYNAMIC(a0, a1, a2) => seq![a0 as int, a1 as int, a2 as int],
            Instruction::NEW(a0) => seq![a0 as int],
            Instruction::NEWARRAY(a0) => seq![a0 as int],
            Instruction::ANEWARRAY(a0) => seq![a0 as int],
            Instruction::ARRAYLENGTH => Seq::<int>::empty(),
            Instruction::ATHROW => Seq::<int>::empty(),
            Instruction::CHECKCAST(a0) => seq![a0 as int],
            Instruction::INSTANCEOF(a0) => seq![a0 as int],
            Instruction::MONITORENTER => Seq::<int>::empty(),
            Instruction::MONITOREXIT => Seq::<int>::empty(),
            Instruction::WIDE(a0, a1, a2) => seq![a0 as int, a1 as int] + (match a2 { Some(x) => seq![1int, x as int], None => seq![0int] }),
            Instruction::MULTIANEWARRAY(a0, a1) => seq![a0 as int, a1 as int],
            Instruction::IFNULL(a0) => seq![a0 as int],
            Instruction::IFNONNULL(a0) => seq![a0 as int],
            Instruction::GOTO_W(a0) => seq![a0 as int],
            Instruction::JSR_w(a0) => seq![a0 as int],
        }
    }
}

/// How the bytes that follow an opcode are decoded.
pub open spec fn spec_layout(op: u8) -> OperandLayout {
    if (0x00 <= op && op <= 0x0c) || (0x0e <= op && op <= 0x0f) || (0x1a <= op && op <= 0x35) || (0x3b <= op && op <= 0x42) || (0x47 <= op && op <= 0x5a) || (0x5c <= op && op <= 0x5d) || (0x60 <= op && op <= 0x70) || (0x74 <= op && op <= 0x76) || (0x78 <= op && op <= 0x83) || (0x85 <= op && op <= 0x98) || (0xac <= op && op <= 0xb1) || (0xbe <= op && op <= 0xbf) || (0xc2 <= op && op <= 0xc3) {
        OperandLayout::Plain
    } else if op == 0x10 || op == 0x12 || (0x15 <= op && op <= 0x19) || (0x36 <= op && op <= 0x3a) || op == 0xbc {
        OperandLayout::U1
    } else if op == 0x11 || (0x13 <= op && op <= 0x14) || (0xb2 <= op && op <= 0xb8) || op == 0xbb || op == 0xbd || (0xc0 <= op && op <= 0xc1) {
        OperandLayout::U2
    } else if (0x99 <= op && op <= 0xa7) || (0xc6 <= op && op <= 0xc7) {
        OperandLayout::Offset
    } else if (0xb9 <= op && op <= 0xba) {
        OperandLayout::U2U1U1
    } else if op == 0x84 {
        OperandLayout::U1I1
    } else if op == 0xaa {
        OperandLayout::TableSwitch
    } else if op == 0xab {
        OperandLayout::LookupSwitch
    } else {
        OperandLayout::Unsupported
    }
}

/// How the bytes that follow an opcode are decoded.
pub fn operand_layout(op: u8) -> (r: OperandLayout)
    ensures
        r == spec_layout(op),
{
    if (0x00 <= op && op <= 0x0c) || (0x0e <= op && op <= 0x0f) || (0x1a <= op && op <= 0x35) || (0x3b <= op && op <= 0x42) || (0x47 <= op && op <= 0x5a) || (0x5c <= op && op <= 0x5d) || (0x60 <= op && op <= 0x70) || (0x74 <= op && op <= 0x76) || (0x78 <= op && op <= 0x83) || (0x85 <= op && op <= 0x98) || (0xac <= op && op <= 0xb1) || (0xbe <= op && op <= 0xbf) || (0xc2 <= op && op <= 0xc3) {
        OperandLayout::Plain
    } else if op == 0x10 || op == 0x12 || (0x15 <= op && op <= 0x19) || (0x36 <= op && op <= 0x3a) || op == 0xbc {
        OperandLayout::U1
    } else if op == 0x11 || (0x13 <= op && op <= 0x14) || (0xb2 <= op && op <= 0xb8) || op == 0xbb || op == 0xbd || (0xc0 <= op && op <= 0xc1) {
        OperandLayout::U2
    } else if (0x99 <= op && op <= 0xa7) || (0xc6 <= op && op <= 0xc7) {
        OperandLayout::Offset
    } else if (0xb9 <= op && op <= 0xba) {
        OperandLayout::U2U1U1
    } else if op == 0x84 {
        OperandLayout::U1I1
    } else if op == 0xaa {
        OperandLayout::TableSwitch
    } else if op == 0xab {
        OperandLayout::LookupSwitch
    } else {
        OperandLayout::Unsupported
    }
}

/// The instruction for an opcode that takes no operands.
pub(crate) fn plain_instruction(op: u8) -> (r: Instruction)
    requires
        spec_layout(op) == OperandLayout::Plain,
    ensures
        r.spec_opcode() == op,
        r.spec_operands() == Seq::<int>::empty(),
{
    match op {
        0x00 => Instruction::NOP,
        0x01 => Instruction::ACONST_NULL,
        0x02 => Instruction::ICONSTM1,
        0x03 => Instruction::ICONST0,
        0x04 => Instruction::ICONST1,
        0x05 => Instruction::ICONST2,
        0x06 => Instruction::ICONST3,
        0x07 => Instruction::ICONST4,
        0x08 => Instruction::ICONST5,
        0x09 => Instruction::LCONST0,
        0x0a => Instruction::LCONST1,
        0x0b => Instruction::FCONST0,
        0x0c => Instruction::FCONST1,
        0x0e => Instruction::DCONST0,
        0x0f => Instruction::DCONST1,
        0x1a => Instruction::ILOAD0,
        0x1b => Instruction::ILOAD1,
        0x1c => Instruction::ILOAD2,
        0x1d => Instruction::ILOAD3,
        0x1e => Instruction::LLOAD0,
        0x1f => Instruction::LLOAD1,
        0x20 => Instruction::LLOAD2,
        0x21 => Instruction::LLOAD3,
        0x22 => Instruction::FLOAD0,
        0x23 => Instruction::FLOAD1,
        0x24 => Instruction::FLOAD2,
        0x25 => Instruction::FLOAD3,
        0x26 => Instruction::DLOAD0,
        0x27 => Instruction::DLOAD1,
        0x28 => Instruction::DLOAD2,
        0x29 => Instruction::DLOAD3,
        0x2a => Instruction::ALOAD0,
        0x2b => Instruction::ALOAD1,
        0x2c => Instruction::ALOAD2,
        0x2d => Instruction::ALOAD3,
        0x2e => Instruction::IALOAD,
        0x2f => Instruction::LALOAD,
        0x30 => Instruction::FALOAD,
        0x31 => Instruction::DALOAD,
        0x32 => Instruction::AALOAD,
        0x33 => Instruction::BALOAD,
        0x34 => Instruction::CALOAD,
        0x35 => Instruction::SALOAD,
        0x3b => Instruction::ISTORE0,
        0x3c => Instruction::ISTORE1,
        0x3d => Instruction::ISTORE2,
        0x3e => Instruction::ISTORE3,
        0x3f => Instruction::LSTORE0,
        0x40 => Instruction::LSTORE1,
        0x41 => Instruction::LSTORE2,
        0x42 => Instruction::LSTORE3,
        0x47 => Instruction::DSTORE0,
        0x48 => Instruction::DSTORE1,
        0x49 => Instruction::DSTORE2,
        0x4a => Instruction::DSTORE3,
        0x4b => Instruction::ASTORE0,
        0x4c => Instruction::ASTORE1,
        0x4d => Instruction::ASTORE2,
        0x4e => Instruction::ASTORE3,
        0x4f => Instruction::IASTORE,
        0x50 => Instruction::LASTORE,
        0x51 => Instruction::FASTORE,
        0x52 => Instruction::DASTORE,
        0x53 => Instruction::AASTORE,
        0x54 => Instruction::BASTORE,
        0x55 => Instruction::CASTORE,
        0x56 => Instruction::SASTORE,
        0x57 => Instruction::POP,
        0x58 => Instruction::POP2,
        0x59 => Instruction::DUP,
        0x5a => Instruction::DUPX1,
        0x5c => Instruction::DUP2,
        0x5d => Instruction::DUP2X1,
        0x60 => Instruction::IADD,
        0x61 => Instruction::LADD,
        0x62 => Instruction::FADD,
        0x63 => Instruction::DADD,
        0x64 => Instruction::ISUB,
        0x65 => Instruction::LSUB,
        0x66 => Instruction::FSUB,
        0x67 => Instruction::DSUB,
        0x68 => Instruction::IMUL,
        0x69 => Instruction::LMUL,
        0x6a => Instruction::FMUL,
        0x6b => Instruction::DMUL,
        0x6c => Instruction::IDIV,
        0x6d => Instruction::LDIV,
        0x6e => Instruction::FDIV,
        0x6f => Instruction::DDIV,
        0x70 => Instruction::IREM,
        0x74 => Instruction::INEG,
        0x75 => Instruction::LNEG,
        0x76 => Instruction::FNEG,
        0x78 => Instruction::ISHL,
        0x79 => Instruction::LSHL,
        0x7a => Instruction::ISHR,
        0x7b => Instruction::LSHR,
        0x7c => Instruction::IUSHR,
        0x7d => Instruction::LUSHR,
        0x7e => Instruction::IAND,
        0x7f => Instruction::LAND,
        0x80 => Instruction::IOR,
        0x81 => Instruction::LOR,
        0x82 => Instruction::IXOR,
        0x83 => Instruction::LXOR,
        0x85 => Instruction::I2L,
        0x86 => Instruction::I2F,
        0x87 => Instruction::I2D,
        0x88 => Instruction::L2I,
        0x89 => Instruction::L2F,
        0x8a => Instruction::L2D,
        0x8b => Instruction::F2I,
        0x8c => Instruction::F2L,
        0x8d => Instruction::F2D,
        0x8e => Instruction::D2I,
        0x8f => Instruction::D2L,
        0x90 => Instruction::D2F,
        0x91 => Instruction::I2B,
        0x92 => Instruction::I2C,
        0x93 => Instruction::I2S,
        0x94 => Instruction::LCMP,
        0x95 => Instruction::FCMPL,
        0x96 => Instruction::FCMPG,
        0x97 => Instruction::DCMPL,
        0x98 => Instruction::DCMPG,
        0xac => Instruction::IRETURN,
        0xad => Instruction::LRETURN,
        0xae => Instruction::FRETURN,
        0xaf => Instruction::DRETURN,
        0xb0 => Instruction::ARETURN,
        0xb1 => Instruction::RETURN,
        0xbe => Instruction::ARRAYLENGTH,
        0xbf => Instruction::ATHROW,
        0xc2 => Instruction::MONITORENTER,
        0xc3 => Instruction::MONITOREXIT,
        _ => Instruction::NOP,
    }
}

/// The instruction for an opcode that takes one unsigned byte.
pub(crate) fn u1_instruction(op: u8, v: u8) -> (r: Instruction)
    requires
        spec_layout(op) == OperandLayout::U1,
    ensures
        r.spec_opcode() == op,
        r.spec_operands() == seq![v as int],
{
    match op {
        0x10 => Instruction::BIPUSH(v),
        0x12 => Instruction::LDC(v),
        0x15 => Instruction::ILOAD(v),
        0x16 => Instruction::LLOAD(v),
        0x17 => Instruction::FLOAD(v),
        0x18 => Instruction::DLOAD(v),
        0x19 => Instruction::ALOAD(v),
        0x36 => Instruction::ISTORE(v),
        0x37 => Instruction::LSTORE(v),
        0x38 => Instruction::FSTORE(v),
        0x39 => Instruction::DSTORE(v),
        0x3a => Instruction::ASTORE(v),
        0xbc => Instruction::NEWARRAY(v),
        _ => Instruction::BIPUSH(v),
    }
}

/// The instruction for an opcode that takes one unsigned 16-bit index.
pub(crate) fn u2_instruction(op: u8, v: u16) -> (r: Instruction)
    requires
        spec_layout(op) == OperandLayout::U2,
    ensures
        r.spec_opcode() == op,
        r.spec_operands() == seq![v as int],
{
    match op {
        0x11 => Instruction::SIPUSH(v),
        0x13 => Instruction::LDCW(v),
        0x14 => Instruction::LDC2W(v),
        0xb2 => Instruction::GETSTATIC(v),
        0xb3 => Instruction::PUTSTATIC(v),
        0xb4 => Instruction::GETFIELD(v),
        0xb5 => Instruction::PUTFIELD(v),
        0xb6 => Instruction::INVOKEVIRTUAL(v),
        0xb7 => Instruction::INVOKESPECIAL(v),
        0xb8 => Instruction::INVOKESTATIC(v),
        0xbb => Instruction::NEW(v),
        0xbd => Instruction::ANEWARRAY(v),
        0xc0 => Instruction::CHECKCAST(v),
        0xc1 => Instruction::INSTANCEOF(v),
        _ => Instruction::SIPUSH(v),
    }
}

/// The instruction for a branch opcode, given its absolute target.
pub(crate) fn branch_instruction(op: u8, target: u16) -> (r: Instruction)
    requires
        spec_layout(op) == OperandLayout::Offset,
    ensures
        r.spec_opcode() == op,
        r.spec_operands() == seq![target as int],
{
    match op {
        0x99 => Instruction::IFEQ(target),
        0x9a => Instruction::IFNE(target),
        0x9b => Instruction::IFLT(target),
        0x9c => Instruction::IFGE(target),
        0x9d => Instruction::IFGT(target),
        0x9e => Instruction::IFLE(target),
        0x9f => Instruction::IF_ICMPEQ(target),
        0xa0 => Instruction::IF_ICMPNE(target),
        0xa1 => Instruction::IF_ICMPLT(target),
        0xa2 => Instruction::IF_ICMPGE(target),
        0xa3 => Instruction::IF_ICMPGT(target),
        0xa4 => Instruction::IF_ICMPLE(target),
        0xa5 => Instruction::IF_ACMPEQ(target),
        0xa6 => Instruction::IF_ACMPNE(target),
        0xa7 => Instruction::GOTO(target),
        0xc6 => Instruction::IFNULL(target),
        0xc7 => Instruction::IFNONNULL(target),
        _ => Instruction::IFEQ(target),
    }
}

/// The instruction for an opcode that takes a 16-bit index and two bytes.
pub(crate) fn invoke_instruction(op: u8, index: u16, count: u8, zero: u8) -> (r: Instruction)
    requires
        spec_layout(op) == OperandLayout::U2U1U1,
    ensures
        r.spec_opcode() == op,
        r.spec_operands() == seq![index as int, count as int, zero as int],
{
    match op {
        0xb9 => Instruction::INVOKEINTERFACE(index, count, zero),
        0xba => Instruction::INVOKEDYNAMIC(index, count, zero),
        _ => Instruction::INVOKEINTERFACE(index, count, zero),
    }
}

impl Instruction {
    /// The opcode byte that introduces this instruction.
    pub fn opcode(&self) -> (r: u8)
        ensures
            r == self.spec_opcode(),
    {
        match self {
            Instruction::NOP => 0x00,
            Instruction::ACONST_NULL => 0x01,
            Instruction::ICONSTM1 => 0x02,
            Instruction::ICONST0 => 0x03,
            Instruction::ICONST1 => 0x04,
            Instruction::ICONST2 => 0x05,
            Instruction::ICONST3 => 0x06,
            Instruction::ICONST4 => 0x07,
            Instruction::ICONST5 => 0x08,
            Instruction::LCONST0 => 0x09,
            Instruction::LCONST1 => 0x0a,
            Instruction::FCONST0 => 0x0b,
            Instruction::FCONST1 => 0x0c,
            Instruction::FCONST2 => 0x0d,
            Instruction::DCONST0 => 0x0e,
            Instruction::DCONST1 => 0x0f,
            Instruction::BIPUSH(_) => 0x10,
            Instruction::SIPUSH(_) => 0x11,
            Instruction::LDC(_) => 0x12,
            Instruction::LDCW(_) => 0x13,
            Instruction::LDC2W(_) => 0x14,
            Instruction::ILOAD(_) => 0x15,
            Instruction::LLOAD(_) => 0x16,
            Instruction::FLOAD(_) => 0x17,
            Instruction::DLOAD(_) => 0x18,
            Instruction::ALOAD(_) => 0x19,
            Instruction::ILOAD0 => 0x1a,
            Instruction::ILOAD1 => 0x1b,
            Instruction::ILOAD2 => 0x1c,
            Instruction::ILOAD3 => 0x1d,
            Instruction::LLOAD0 => 0x1e,
            Instruction::LLOAD1 => 0x1f,
            Instruction::LLOAD2 => 0x20,
            Instruction::LLOAD3 => 0x21,
            Instruction::FLOAD0 => 0x22,
            Instruction::FLOAD1 => 0x23,
            Instruction::FLOAD2 => 0x24,
            Instruction::FLOAD3 => 0x25,
            Instruction::DLOAD0 => 0x26,
            Instruction::DLOAD1 => 0x27,
            Instruction::DLOAD2 => 0x28,
            Instruction::DLOAD3 => 0x29,
            Instruction::ALOAD0 => 0x2a,
            Instruction::ALOAD1 => 0x2b,
            Instruction::ALOAD2 => 0x2c,
            Instruction::ALOAD3 => 0x2d,
            Instruction::IALOAD => 0x2e,
            Instruction::LALOAD => 0x2f,
            Instruction::FALOAD => 0x30,
            Instruction::DALOAD => 0x31,
            Instruction::AALOAD => 0x32,
            Instruction::BALOAD => 0x33,
            Instruction::CALOAD => 0x34,
            Instruction::SALOAD => 0x35,
            Instruction::ISTORE(_) => 0x36,
            Instruction::LSTORE(_) => 0x37,
            Instruction::FSTORE(_) => 0x38,
            Instruction::DSTORE(_) => 0x39,
            Instruction::ASTORE(_) => 0x3a,
            Instruction::ISTORE0 => 0x3b,
            Instruction::ISTORE1 => 0x3c,
            Instruction::ISTORE2 => 0x3d,
            Instruction::ISTORE3 => 0x3e,
            Instruction::LSTORE0 => 0x3f,
            Instruction::LSTORE1 => 0x40,
            Instruction::LSTORE2 => 0x41,
            Instruction::LSTORE3 => 0x42,
            Instruction::FSTORE0 => 0x43,
            Instruction::FSTORE1 => 0x44,
            Instruction::FSTORE2 => 0x45,
            Instruction::FSTORE3 => 0x46,
            Instruction::DSTORE0 => 0x47,
            Instruction::DSTORE1 => 0x48,
            Instruction::DSTORE2 => 0x49,
            Instruction::DSTORE3 => 0x4a,
            Instruction::ASTORE0 => 0x4b,
            Instruction::ASTORE1 => 0x4c,
            Instruction::ASTORE2 => 0x4d,
            Instruction::ASTORE3 => 0x4e,
            Instruction::IASTORE => 0x4f,
            Instruction::LASTORE => 0x50,
            Instruction::FASTORE => 0x51,
            Instruction::DASTORE => 0x52,
            Instruction::AASTORE => 0x53,
            Instruction::BASTORE => 0x54,
            Instruction::CASTORE => 0x55,
            Instruction::SASTORE => 0x56,
            Instruction::POP => 0x57,
            Instruction::POP2 => 0x58,
            Instruction::DUP => 0x59,
            Instruction::DUPX1 => 0x5a,
            Instruction::DUPX2 => 0x5b,
            Instruction::DUP2 => 0x5c,
            Instruction::DUP2X1 => 0x5d,
            Instruction::DUP2X2 => 0x5e,
            Instruction::SWAP => 0x5f,
            Instruction::IADD => 0x60,
            Instruction::LADD => 0x61,
            Instruction::FADD => 0x62,
            Instruction::DADD => 0x63,
            Instruction::ISUB => 0x64,
            Instruction::LSUB => 0x65,
            Instruction::FSUB => 0x66,
            Instruction::DSUB => 0x67,
            Instruction::IMUL => 0x68,
            Instruction::LMUL => 0x69,
            Instruction::FMUL => 0x6a,
            Instruction::DMUL => 0x6b,
            Instruction::IDIV => 0x6c,
            Instruction::LDIV => 0x6d,
            Instruction::FDIV => 0x6e,
            Instruction::DDIV => 0x6f,
            Instruction::IREM => 0x70,
            Instruction::LREM => 0x71,
            Instruction::FREM => 0x72,
            Instruction::DREM => 0x73,
            Instruction::INEG => 0x74,
            Instruction::LNEG => 0x75,
            Instruction::FNEG => 0x76,
            Instruction::DNEG => 0x77,
            Instruction::ISHL => 0x78,
            Instruction::LSHL => 0x79,
            Instruction::ISHR => 0x7a,
            Instruction::LSHR => 0x7b,
            Instruction::IUSHR => 0x7c,
            Instruction::LUSHR => 0x7d,
            Instruction::IAND => 0x7e,
            Instruction::LAND => 0x7f,
            Instruction::IOR => 0x80,
            Instruction::LOR => 0x81,
            Instruction::IXOR => 0x82,
            Instruction::LXOR => 0x83,
            Instruction::IINC(_, _) => 0x84,
            Instruction::I2L => 0x85,
            Instruction::I2F => 0x86,
            Instruction::I2D => 0x87,
            Instruction::L2I => 0x88,
            Instruction::L2F => 0x89,
            Instruction::L2D => 0x8a,
            Instruction::F2I => 0x8b,
            Instruction::F2L => 0x8c,
            Instruction::F2D => 0x8d,
            Instruction::D2I => 0x8e,
            Instruction::D2L => 0x8f,
            Instruction::D2F => 0x90,
            Instruction::I2B => 0x91,
            Instruction::I2C => 0x92,
            Instruction::I2S => 0x93,
            Instruction::LCMP => 0x94,
            Instruction::FCMPL => 0x95,
            Instruction::FCMPG => 0x96,
            Instruction::DCMPL => 0x97,
            Instruction::DCMPG => 0x98,
            Instruction::IFEQ(_) => 0x99,
            Instruction::IFNE(_) => 0x9a,
            Instruction::IFLT(_) => 0x9b,
            Instruction::IFGE(_) => 0x9c,
            Instruction::IFGT(_) => 0x9d,
            Instruction::IFLE(_) => 0x9e,
            Instruction::IF_ICMPEQ(_) => 0x9f,
            Instruction::IF_ICMPNE(_) => 0xa0,
            Instruction::IF_ICMPLT(_) => 0xa1,
            Instruction::IF_ICMPGE(_) => 0xa2,
            Instruction::IF_ICMPGT(_) => 0xa3,
            Instruction::IF_ICMPLE(_) => 0xa4,
            Instruction::IF_ACMPEQ(_) => 0xa5,
            Instruction::IF_ACMPNE(_) => 0xa6,
            Instruction::GOTO(_) => 0xa7,
            Instruction::JSR(_) => 0xa8,
            Instruction::RET(_) => 0xa9,
            Instruction::TABLESWITCH(_, _, _, _) => 0xaa,
            Instruction::LOOKUPSWITCH(_, _) => 0xab,
            Instruction::IRETURN => 0xac,
            Instruction::LRETURN => 0xad,
            Instruction::FRETURN => 0xae,
            Instruction::DRETURN => 0xaf,
            Instruction::ARETURN => 0xb0,
            Instruction::RETURN => 0xb1,
            Instruction::GETSTATIC(_) => 0xb2,
            Instruction::PUTSTATIC(_) => 0xb3,
            Instruction::GETFIELD(_) => 0xb4,
            Instruction::PUTFIELD(_) => 0xb5,
            Instruction::INVOKEVIRTUAL(_) => 0xb6,
            Instruction::INVOKESPECIAL(_) => 0xb7,
            Instruction::INVOKESTATIC(_) => 0xb8,
            Instruction::INVOKEINTERFACE(_, _, _) => 0xb9,
            Instruction::INVOKEDYNAMIC(_, _, _) => 0xba,
            Instruction::NEW(_) => 0xbb,
            Instruction::NEWARRAY(_) => 0xbc,
            Instruction::ANEWARRAY(_) => 0xbd,
            Instruction::ARRAYLENGTH => 0xbe,
            Instruction::ATHROW => 0xbf,
            Instruction::CHECKCAST(_) => 0xc0,
            Instruction::INSTANCEOF(_) => 0xc1,
            Instruction::MONITORENTER => 0xc2,
            Instruction::MONITOREXIT => 0xc3,
            Instruction::WIDE(_, _, _) => 0xc4,
            Instruction::MULTIANEWARRAY(_, _) => 0xc5,
            Instruction::IFNULL(_) => 0xc6,
            Instruction::IFNONNULL(_) => 0xc7,
            Instruction::GOTO_W(_) => 0xc8,
            Instruction::JSR_w(_) => 0xc9,
        }
    }

    /// The absolute target of a branch instruction.
    pub fn branch_target(&self) -> (r: u16)
        requires
            spec_layout(self.spec_opcode()) == OperandLayout::Offset,
        ensures
            r as int == self.spec_operands()[0],
    {
        match self {
            Instruction::IFEQ(t) => *t,
            Instruction::IFNE(t) => *t,
            Instruction::IFLT(t) => *t,
            Instruction::IFGE(t) => *t,
            Instruction::IFGT(t) => *t,
            Instruction::IFLE(t) => *t,
            Instruction::IF_ICMPEQ(t) => *t,
            Instruction::IF_ICMPNE(t) => *t,
            Instruction::IF_ICMPLT(t) => *t,
            Instruction::IF_ICMPGE(t) => *t,
            Instruction::IF_ICMPGT(t) => *t,
            Instruction::IF_ICMPLE(t) => *t,
            Instruction::IF_ACMPEQ(t) => *t,
            Instruction::IF_ACMPNE(t) => *t,
            Instruction::GOTO(t) => *t,
            Instruction::IFNULL(t) => *t,
            Instruction::IFNONNULL(t) => *t,
            _ => 0,
        }
    }

    /// A copy of this instruction.
    pub fn duplicate(&self) -> (r: Instruction)
        ensures
            r@ == self@,
    {
        match self {
            Instruction::NOP => Instruction::NOP,
            Instruction::ACONST_NULL => Instruction::ACONST_NULL,
            Instruction::ICONSTM1 => Instruction::ICONSTM1,
            Instruction::ICONST0 => Instruction::ICONST0,
            Instruction::ICONST1 => Instruction::ICONST1,
            Instruction::ICONST2 => Instruction::ICONST2,
            Instruction::ICONST3 => Instruction::ICONST3,
            Instruction::ICONST4 => Instruction::ICONST4,
            Instruction::ICONST5 => Instruction::ICONST5,
            Instruction::LCONST0 => Instruction::LCONST0,
            Instruction::LCONST1 => Instruction::LCONST1,
            Instruction::FCONST0 => Instruction::FCONST0,
            Instruction::FCONST1 => Instruction::FCONST1,
            Instruction::FCONST2 => Instruction::FCONST2,
            Instruction::DCONST0 => Instruction::DCONST0,
            Instruction::DCONST1 => Instruction::DCONST1,
            Instruction::BIPUSH(a0) => Instruction::BIPUSH(*a0),
            Instruction::SIPUSH(a0) => Instruction::SIPUSH(*a0),
            Instruction::LDC(a0) => Instruction::LDC(*a0),
            Instruction::LDCW(a0) => Instruction::LDCW(*a0),
            Instruction::LDC2W(a0) => Instruction::LDC2W(*a0),
            Instruction::ILOAD(a0) => Instruction::ILOAD(*a0),
            Instruction::LLOAD(a0) => Instruction::LLOAD(*a0),
            Instruction::FLOAD(a0) => Instruction::FLOAD(*a0),
            Instruction::DLOAD(a0) => Instruction::DLOAD(*a0),
            Instruction::ALOAD(a0) => Instruction::ALOAD(*a0),
            Instruction::ILOAD0 => Instruction::ILOAD0,
            Instruction::ILOAD1 => Instruction::ILOAD1,
            Instruction::ILOAD2 => Instruction::ILOAD2,
            Instruction::ILOAD3 => Instruction::ILOAD3,
            Instruction::LLOAD0 => Instruction::LLOAD0,
            Instruction::LLOAD1 => Instruction::LLOAD1,
            Instruction::LLOAD2 => Instruction::LLOAD2,
            Instruction::LLOAD3 => Instruction::LLOAD3,
            Instruction::FLOAD0 => Instruction::FLOAD0,
            Instruction::FLOAD1 => Instruction::FLOAD1,
            Instruction::FLOAD2 => Instruction::FLOAD2,
            Instruction::FLOAD3 => Instruction::FLOAD3,
            Instruction::DLOAD0 => Instruction::DLOAD0,
            Instruction::DLOAD1 => Instruction::DLOAD1,
            Instruction::DLOAD2 => Instruction::DLOAD2,
            Instruction::DLOAD3 => Instruction::DLOAD3,
            Instruction::ALOAD0 => Instruction::ALOAD0,
            Instruction::ALOAD1 => Instruction::ALOAD1,
            Instruction::ALOAD2 => Instruction::ALOAD2,
            Instruction::ALOAD3 => Instruction::ALOAD3,
            Instruction::IALOAD => Instruction::IALOAD,
            Instruction::LALOAD => Instruction::LALOAD,
            Instruction::FALOAD => Instruction::FALOAD,
            Instruction::DALOAD => Instruction::DALOAD,
            Instruction::AALOAD => Instruction::AALOAD,
            Instruction::BALOAD => Instruction::BALOAD,
            Instruction::CALOAD => Instruction::CALOAD,
            Instruction::SALOAD => Instruction::SALOAD,
            Instruction::ISTORE(a0) => Instruction::ISTORE(*a0),
            Instruction::LSTORE(a0) => Instruction::LSTORE(*a0),
            Instruction::FSTORE(a0) => Instruction::FSTORE(*a0),
            Instruction::DSTORE(a0) => Instruction::DSTORE(*a0),
            Instruction::ASTORE(a0) => Instruction::ASTORE(*a0),
            Instruction::ISTORE0 => Instruction::ISTORE0,
            Instruction::ISTORE1 => Instruction::ISTORE1,
            Instruction::ISTORE2 => Instruction::ISTORE2,
            Instruction::ISTORE3 => Instruction::ISTORE3,
            Instruction::LSTORE0 => Instruction::LSTORE0,
            Instruction::LSTORE1 => Instruction::LSTORE1,
            Instruction::LSTORE2 => Instruction::LSTORE2,
            Instruction::LSTORE3 => Instruction::LSTORE3,
            Instruction::FSTORE0 => Instruction::FSTORE0,
            Instruction::FSTORE1 => Instruction::FSTORE1,
            Instruction::FSTORE2 => Instruction::FSTORE2,
            Instruction::FSTORE3 => Instruction::FSTORE3,
            Instruction::DSTORE0 => Instruction::DSTORE0,
            Instruction::DSTORE1 => Instruction::DSTORE1,
            Instruction::DSTORE2 => Instruction::DSTORE2,
            Instruction::DSTORE3 => Instruction::DSTORE3,
            Instruction::ASTORE0 => Instruction::ASTORE0,
            Instruction::ASTORE1 => Instruction::ASTORE1,
            Instruction::ASTORE2 => Instruction::ASTORE2,
            Instruction::ASTORE3 => Instruction::ASTORE3,
            Instruction::IASTORE => Instruction::IASTORE,
            Instruction::LASTORE => Instruction::LASTORE,
            Instruction::FASTORE => Instruction::FASTORE,
            Instruction::DASTORE => Instruction::DASTORE,
            Instruction::AASTORE => Instruction::AASTORE,
            Instruction::BASTORE => Instruction::BASTORE,
            Instruction::CASTORE => Instruction::CASTORE,
            Instruction::SASTORE => Instruction::SASTORE,
            Instruction::POP => Instruction::POP,
            Instruction::POP2 => Instruction::POP2,
            Instruction::DUP => Instruction::DUP,
            Instruction::DUPX1 => Instruction::DUPX1,
            Instruction::DUPX2 => Instruction::DUPX2,
            Instruction::DUP2 => Instruction::DUP2,
            Instruction::DUP2X1 => Instruction::DUP2X1,
            Instruction::DUP2X2 => Instruction::DUP2X2,
            Instruction::SWAP => Instruction::SWAP,
            Instruction::IADD => Instruction::IADD,
            Instruction::LADD => Instruction::LADD,
            Instruction::FADD => Instruction::FADD,
            Instruction::DADD => Instruction::DADD,
            Instruction::ISUB => Instruction::ISUB,
            Instruction::LSUB => Instruction::LSUB,
            Instruction::FSUB => Instruction::FSUB,
            Instruction::DSUB => Instruction::DSUB,
            Instruction::IMUL => Instruction::IMUL,
            Instruction::LMUL => Instruction::LMUL,
            Instruction::FMUL => Instruction::FMUL,
            Instruction::DMUL => Instruction::DMUL,
            Instruction::IDIV => Instruction::IDIV,
            Instruction::LDIV => Instruction::LDIV,
            Instruction::FDIV => Instruction::FDIV,
            Instruction::DDIV => Instruction::DDIV,
            Instruction::IREM => Instruction::IREM,
            Instruction::LREM => Instruction::LREM,
            Instruction::FREM => Instruction::FREM,
            Instruction::DREM => Instruction::DREM,
            Instruction::INEG => Instruction::INEG,
            Instruction::LNEG => Instruction::LNEG,
            Instruction::FNEG => Instruction::FNEG,
            Instruction::DNEG => Instruction::DNEG,
            Instruction::ISHL => Instruction::ISHL,
            Instruction::LSHL => Instruction::LSHL,
            Instruction::ISHR => Instruction::ISHR,
            Instruction::LSHR => Instruction::LSHR,
            Instruction::IUSHR => Instruction::IUSHR,
            Instruction::LUSHR => Instruction::LUSHR,
            Instruction::IAND => Instruction::IAND,
            Instruction::LAND => Instruction::LAND,
            Instruction::IOR => Instruction::IOR,
            Instruction::LOR => Instruction::LOR,
            Instruction::IXOR => Instruction::IXOR,
            Instruction::LXOR => Instruction::LXOR,
            Instruction::IINC(a0, a1) => Instruction::IINC(*a0, *a1),
            Instruction::I2L => Instruction::I2L,
            Instruction::I2F => Instruction::I2F,
            Instruction::I2D => Instruction::I2D,
            Instruction::L2I => Instruction::L2I,
            Instruction::L2F => Instruction::L2F,
            Instruction::L2D => Instruction::L2D,
            Instruction::F2I => Instruction::F2I,
            Instruction::F2L => Instruction::F2L,
            Instruction::F2D => Instruction::F2D,
            Instruction::D2I => Instruction::D2I,
            Instruction::D2L => Instruction::D2L,
            Instruction::D2F => Instruction::D2F,
            Instruction::I2B => Instruction::I2B,
            Instruction::I2C => Instruction::I2C,
            Instruction::I2S => Instruction::I2S,
            Instruction::LCMP => Instruction::LCMP,
            Instruction::FCMPL => Instruction::FCMPL,
            Instruction::FCMPG => Instruction::FCMPG,
            Instruction::DCMPL => Instruction::DCMPL,
            Instruction::DCMPG => Instruction::DCMPG,
            Instruction::IFEQ(a0) => Instruction::IFEQ(*a0),
            Instruction::IFNE(a0) => Instruction::IFNE(*a0),
            Instruction::IFLT(a0) => Instruction::IFLT(*a0),
            Instruction::IFGE(a0) => Instruction::IFGE(*a0),
            Instruction::IFGT(a0) => Instruction::IFGT(*a0),
            Instruction::IFLE(a0) => Instruction::IFLE(*a0),
            Instruction::IF_ICMPEQ(a0) => Instruction::IF_ICMPEQ(*a0),
            Instruction::IF_ICMPNE(a0) => Instruction::IF_ICMPNE(*a0),
            Instruction::IF_ICMPLT(a0) => Instruction::IF_ICMPLT(*a0),
            Instruction::IF_ICMPGE(a0) => Instruction::IF_ICMPGE(*a0),
            Instruction::IF_ICMPGT(a0) => Instruction::IF_ICMPGT(*a0),
            Instruction::IF_ICMPLE(a0) => Instruction::IF_ICMPLE(*a0),
            Instruction::IF_ACMPEQ(a0) => Instruction::IF_ACMPEQ(*a0),
            Instruction::IF_ACMPNE(a0) => Instruction::IF_ACMPNE(*a0),
            Instruction::GOTO(a0) => Instruction::GOTO(*a0),
            Instruction::JSR(a0) => Instruction::JSR(*a0),
            Instruction::RET(a0) => Instruction::RET(*a0),
            Instruction::TABLESWITCH(a0, a1, a2, a3) => Instruction::TABLESWITCH(*a0, *a1, *a2, copy_i32s(a3)),
            Instruction::LOOKUPSWITCH(a0, a1) => Instruction::LOOKUPSWITCH(*a0, copy_i32s(a1)),
            Instruction::IRETURN => Instruction::IRETURN,
            Instruction::LRETURN => Instruction::LRETURN,
            Instruction::FRETURN => Instruction::FRETURN,
            Instruction::DRETURN => Instruction::DRETURN,
            Instruction::ARETURN => Instruction::ARETURN,
            Instruction::RETURN => Instruction::RETURN,
            Instruction::GETSTATIC(a0) => Instruction::GETSTATIC(*a0),
            Instruction::PUTSTATIC(a0) => Instruction::PUTSTATIC(*a0),
            Instruction::GETFIELD(a0) => Instruction::GETFIELD(*a0),
            Instruction::PUTFIELD(a0) => Instruction::PUTFIELD(*a0),
            Instruction::INVOKEVIRTUAL(a0) => Instruction::INVOKEVIRTUAL(*a0),
            Instruction::INVOKESPECIAL(a0) => Instruction::INVOKESPECIAL(*a0),
            Instruction::INVOKESTATIC(a0) => Instruction::INVOKESTATIC(*a0),
            Instruction::INVOKEINTERFACE(a0, a1, a2) => Instruction::INVOKEINTERFACE(*a0, *a1, *a2),
            Instruction::INVOKEDYNAMIC(a0, a1, a2) => Instruction::INVOKEDYNAMIC(*a0, *a1, *a2),
            Instruction::NEW(a0) => Instruction::NEW(*a0),
            Instruction::NEWARRAY(a0) => Instruction::NEWARRAY(*a0),
            Instruction::ANEWARRAY(a0) => Instruction::ANEWARRAY(*a0),
            Instruction::ARRAYLENGTH => Instruction::ARRAYLENGTH,
            Instruction::ATHROW => Instruction::ATHROW,
            Instruction::CHECKCAST(a0) => Instruction::CHECKCAST(*a0),
            Instruction::INSTANCEOF(a0) => Instruction::INSTANCEOF(*a0),
            Instruction::MONITORENTER => Instruction::MONITORENTER,
            Instruction::MONITOREXIT => Instruction::MONITOREXIT,
            Instruction::WIDE(a0, a1, a2) => Instruction::WIDE(*a0, *a1, *a2),
            Instruction::MULTIANEWARRAY(a0, a1) => Instruction::MULTIANEWARRAY(*a0, *a1),
            Instruction::IFNULL(a0) => Instruction::IFNULL(*a0),
            Instruction::IFNONNULL(a0) => Instruction::IFNONNULL(*a0),
            Instruction::GOTO_W(a0) => Instruction::GOTO_W(*a0),
            Instruction::JSR_w(a0) => Instruction::JSR_w(*a0),
        }
    }
}

/// A copy of a list of 32-bit values.
pub fn copy_i32s(v: &Vec<i32>) -> (r: Vec<i32>)
    ensures
        r@ == v@,
{
    let mut r: Vec<i32> = Vec::new();
    let mut i: usize = 0;
    while i < v.len()
        invariant
            i <= v.len(),
            r@ == v@.take(i as int),
        decreases v.len() - i,
    {
        r.push(v[i]);
        i = i + 1;
        assert(r@ =~= v@.take(i as int));
    }
    assert(v@.take(v.len() as int) =~= v@);
    r
}

impl View for Instruction {
    type V = InstructionModel;

    open spec fn view(&self) -> InstructionModel {
        model(self.spec_opcode(), self.spec_operands())
    }
}

} // verus!
