use vstd::prelude::*;

verus! {

/// Opcode of the register-register arithmetic instructions.
pub const OPCODE_OP: u32 = 0b011_0011;

/// Opcode of the register-immediate arithmetic instructions.
pub const OPCODE_OP_IMM: u32 = 0b001_0011;

/// One instruction word split into the fields of its format.
#[derive(Debug, Clone, Copy, PartialEq, Eq, Structural)]
pub enum Instruction {
    /// Register-register form.
    RType { rd: u32, funct3: u32, rs1: u32, rs2: u32, funct7: u32 },
    /// Register-immediate form; `imm` is already sign-extended to 32 bits.
    IType { rd: u32, funct3: u32, rs1: u32, imm: u32 },
    /// Any other opcode, kept as it was read.
    Unclassified { opcode: u32 },
}

/// Bits 6..0.
pub open spec fn opcode_of(word: u32) -> u32 {
    word & 0x7f
}

/// Bits 11..7.
pub open spec fn rd_of(word: u32) -> u32 {
    (word >> 7) & 0x1f
}

/// Bits 14..12.
pub open spec fn funct3_of(word: u32) -> u32 {
    (word >> 12) & 0x7
}

/// Bits 19..15.
pub open spec fn rs1_of(word: u32) -> u32 {
    (word >> 15) & 0x1f
}

/// Bits 24..20.
pub open spec fn rs2_of(word: u32) -> u32 {
    (word >> 20) & 0x1f
}

/// Bits 31..25.
pub open spec fn funct7_of(word: u32) -> u32 {
    word >> 25
}

/// Bits 31..20 read as a 12-bit two's-complement number.
pub open spec fn immediate_value(word: u32) -> int {
    let raw = word >> 20;
    if raw < 0x800 {
        raw as int
    } else {
        raw - 0x1000
    }
}

/// The immediate sign-extended to 32 bits.
pub open spec fn immediate_of(word: u32) -> u32 {
    immediate_value(word) as u32
}

/// The fields of `word` in the format that its opcode selects.
pub open spec fn decoded(word: u32) -> Instruction {
    let opcode = opcode_of(word);
    if opcode == OPCODE_OP {
        Instruction::RType {
            rd: rd_of(word),
            funct3: funct3_of(word),
            rs1: rs1_of(word),
            rs2: rs2_of(word),
            funct7: funct7_of(word),
        }
    } else if opcode == OPCODE_OP_IMM {
        Instruction::IType {
            rd: rd_of(word),
            funct3: funct3_of(word),
            rs1: rs1_of(word),
            imm: immediate_of(word),
        }
    } else {
        Instruction::Unclassified { opcode }
    }
}

/// Every register index that a decoded instruction names is below 32.
pub open spec fn register_fields_in_range(inst: Instruction) -> bool {
    match inst {
        Instruction::RType { rd, rs1, rs2, .. } => rd < 32 && rs1 < 32 && rs2 < 32,
        Instruction::IType { rd, rs1, .. } => rd < 32 && rs1 < 32,
        Instruction::Unclassified { .. } => true,
    }
}

/// The five-bit register fields of any word name one of the 32 registers.
pub proof fn lemma_register_fields_in_range(word: u32)
    ensures
        register_fields_in_range(decoded(word)),
{
    assert(rd_of(word) < 32 && rs1_of(word) < 32 && rs2_of(word) < 32) by (bit_vector);
}

/// Splits `word` into its fields; never fails.
pub fn decode(word: u32) -> (r: Instruction)
    ensures
        r == decoded(word),
{
    let opcode = word & 0x7f;
    let rd = (word >> 7) & 0x1f;
    let funct3 = (word >> 12) & 0x7;
    let rs1 = (word >> 15) & 0x1f;
    if opcode == OPCODE_OP {
        Instruction::RType { rd, funct3, rs1, rs2: (word >> 20) & 0x1f, funct7: word >> 25 }
    } else if opcode == OPCODE_OP_IMM {
        let imm = ((word as i32) >> 20) as u32;
        assert(imm == immediate_of(word)) by (bit_vector)
            requires
                imm == ((word as i32) >> 20u32) as u32,
        ;
        Instruction::IType { rd, funct3, rs1, imm }
    } else {
        Instruction::Unclassified { opcode }
    }
}

} // verus!
