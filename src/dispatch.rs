use vstd::prelude::*;
use crate::alu::Operation;
use crate::decode::Instruction;

verus! {

/// `funct7` of the base form of an operation.
pub const FUNCT7_BASE: u32 = 0b000_0000;

/// `funct7` that selects the alternate form (SUB, SRA).
pub const FUNCT7_ALT: u32 = 0b010_0000;

/// Bits 11..5 of an I-type immediate, which tell the immediate shifts apart
/// as `funct7` does for the register shifts.
pub open spec fn immediate_high_bits(imm: u32) -> u32 {
    (imm >> 5) & 0x7f
}

/// The operation that a register-register instruction selects.
pub open spec fn register_operation(funct3: u32, funct7: u32) -> Option<Operation> {
    if funct7 == FUNCT7_BASE {
        if funct3 == 0 {
            Some(Operation::Add)
        } else if funct3 == 1 {
            Some(Operation::Sll)
        } else if funct3 == 2 {
            Some(Operation::Slt)
        } else if funct3 == 3 {
            Some(Operation::Sltu)
        } else if funct3 == 4 {
            Some(Operation::Xor)
        } else if funct3 == 5 {
            Some(Operation::Srl)
        } else if funct3 == 6 {
            Some(Operation::Or)
        } else if funct3 == 7 {
            Some(Operation::And)
        } else {
            None
        }
    } else if funct7 == FUNCT7_ALT {
        if funct3 == 0 {
            Some(Operation::Sub)
        } else if funct3 == 5 {
            Some(Operation::Sra)
        } else {
            None
        }
    } else {
        None
    }
}

/// The operation that a register-immediate instruction selects.
pub open spec fn immediate_operation(funct3: u32, imm: u32) -> Option<Operation> {
    let high = immediate_high_bits(imm);
    if funct3 == 0 {
        Some(Operation::Addi)
    } else if funct3 == 1 {
        if high == FUNCT7_BASE {
            Some(Operation::Slli)
        } else {
            None
        }
    } else if funct3 == 2 {
        Some(Operation::Slti)
    } else if funct3 == 3 {
        Some(Operation::Sltiu)
    } else if funct3 == 4 {
        Some(Operation::Xori)
    } else if funct3 == 5 {
        if high == FUNCT7_BASE {
            Some(Operation::Srli)
        } else if high == FUNCT7_ALT {
            Some(Operation::Srai)
        } else {
            None
        }
    } else if funct3 == 6 {
        Some(Operation::Ori)
    } else if funct3 == 7 {
        Some(Operation::Andi)
    } else {
        None
    }
}

/// The operation that a decoded instruction selects, if any.
pub open spec fn selected_operation(inst: Instruction) -> Option<Operation> {
    match inst {
        Instruction::RType { funct3, funct7, .. } => register_operation(funct3, funct7),
        Instruction::IType { funct3, imm, .. } => immediate_operation(funct3, imm),
        Instruction::Unclassified { .. } => None,
    }
}

/// Picks the operation of a decoded instruction; `None` for a combination of
/// fields outside the supported set.
pub fn select_operation(inst: &Instruction) -> (r: Option<Operation>)
    ensures
        r == selected_operation(*inst),
{
    match inst {
        Instruction::RType { funct3, funct7, .. } => {
            let funct3 = *funct3;
            let funct7 = *funct7;
            if funct7 == FUNCT7_BASE {
                match funct3 {
                    0 => Some(Operation::Add),
                    1 => Some(Operation::Sll),
                    2 => Some(Operation::Slt),
                    3 => Some(Operation::Sltu),
                    4 => Some(Operation::Xor),
                    5 => Some(Operation::Srl),
                    6 => Some(Operation::Or),
                    7 => Some(Operation::And),
                    _ => None,
                }
            } else if funct7 == FUNCT7_ALT {
                match funct3 {
                    0 => Some(Operation::Sub),
                    5 => Some(Operation::Sra),
                    _ => None,
                }
            } else {
                None
            }
        },
        Instruction::IType { funct3, imm, .. } => {
            let high = (*imm >> 5) & 0x7f;
            match *funct3 {
                0 => Some(Operation::Addi),
                1 => if high == FUNCT7_BASE {
                    Some(Operation::Slli)
                } else {
                    None
                },
                2 => Some(Operation::Slti),
                3 => Some(Operation::Sltiu),
                4 => Some(Operation::Xori),
                5 => if high == FUNCT7_BASE {
                    Some(Operation::Srli)
                } else if high == FUNCT7_ALT {
                    Some(Operation::Srai)
                } else {
                    None
                },
                6 => Some(Operation::Ori),
                7 => Some(Operation::Andi),
                _ => None,
            }
        },
        Instruction::Unclassified { .. } => None,
    }
}

} // verus!
