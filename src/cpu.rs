use vstd::prelude::*;
use crate::alu::{compute, execute, Operation};
use crate::decode::{decode, decoded, lemma_register_fields_in_range, Instruction};
use crate::dispatch::{select_operation, selected_operation};
use crate::registers::{valid_registers, written, RegisterError, RegisterFile, REGISTER_COUNT};

verus! {

/// The outcome of a register-register operation on the state `regs`: the new
/// state, or the error when one of the three indices is out of range.
pub open spec fn register_form(regs: Seq<u32>, op: Operation, rd: u32, rs1: u32, rs2: u32) -> Result<
    Seq<u32>,
    RegisterError,
> {
    if rd < REGISTER_COUNT && rs1 < REGISTER_COUNT && rs2 < REGISTER_COUNT {
        Ok(written(regs, rd as int, compute(op, regs[rs1 as int], regs[rs2 as int])))
    } else {
        Err(RegisterError::InvalidRegisterIndex)
    }
}

/// The outcome of a register-immediate operation on the state `regs`: the new
/// state, or the error when one of the two indices is out of range.
pub open spec fn immediate_form(regs: Seq<u32>, op: Operation, rd: u32, rs1: u32, imm: u32) -> Result<
    Seq<u32>,
    RegisterError,
> {
    if rd < REGISTER_COUNT && rs1 < REGISTER_COUNT {
        Ok(written(regs, rd as int, compute(op, regs[rs1 as int], imm)))
    } else {
        Err(RegisterError::InvalidRegisterIndex)
    }
}

/// A call that returned `r` and moved the state from `before` to `after`
/// agrees with `outcome`; a failed call changes nothing.
pub open spec fn agrees_with(
    before: Seq<u32>,
    after: Seq<u32>,
    r: Result<(), RegisterError>,
    outcome: Result<Seq<u32>, RegisterError>,
) -> bool {
    match outcome {
        Ok(state) => r is Ok && after == state,
        Err(e) => r == Err::<(), RegisterError>(e) && after == before,
    }
}

/// The register state after executing the instruction `word` on `regs`.
/// A word whose fields select no operation leaves the state as it was.
pub open spec fn executed(regs: Seq<u32>, word: u32) -> Seq<u32> {
    let inst = decoded(word);
    match selected_operation(inst) {
        Some(op) => match inst {
            Instruction::RType { rd, rs1, rs2, .. } => written(
                regs,
                rd as int,
                compute(op, regs[rs1 as int], regs[rs2 as int]),
            ),
            Instruction::IType { rd, rs1, imm, .. } => written(
                regs,
                rd as int,
                compute(op, regs[rs1 as int], imm),
            ),
            Instruction::Unclassified { .. } => regs,
        },
        None => regs,
    }
}

/// A processor core: its register file and the decode/execute step.
pub struct CPU {
    registers: RegisterFile,
}

impl View for CPU {
    type V = Seq<u32>;

    closed spec fn view(&self) -> Seq<u32> {
        self.registers@
    }
}

impl CPU {
    /// Register 0 holds zero and there are exactly 32 registers.
    pub open spec fn wf(&self) -> bool {
        valid_registers(self@)
    }

    /// A core with all 32 registers cleared.
    pub fn new() -> (r: CPU)
        ensures
            r.wf(),
            r@ == Seq::new(32, |i: int| 0u32),
    {
        CPU { registers: RegisterFile::new() }
    }

    /// Decodes `instruction` and executes it: at most one register changes.
    pub fn parse_instruction(&mut self, instruction: u32)
        requires
            old(self).wf(),
        ensures
            final(self).wf(),
            final(self)@ == executed(old(self)@, instruction),
    {
        let inst = decode(instruction);
        proof {
            lemma_register_fields_in_range(instruction);
        }
        match select_operation(&inst) {
            Some(op) => match inst {
                Instruction::RType { rd, rs1, rs2, .. } => {
                    let _ = self.run_register_form(op, rd, rs1, rs2);
                },
                Instruction::IType { rd, rs1, imm, .. } => {
                    let _ = self.run_immediate_form(op, rd, rs1, imm);
                },
                Instruction::Unclassified { .. } => {},
            },
            None => {},
        }
    }

    /// The value of register `rs`; register 0 always reads as zero.
    pub fn get_reg_val(&self, rs: u32) -> (r: Result<u32, RegisterError>)
        requires
            self.wf(),
        ensures
            rs < REGISTER_COUNT ==> r == Ok::<u32, RegisterError>(self@[rs as int]),
            rs >= REGISTER_COUNT ==> r == Err::<u32, RegisterError>(
                RegisterError::InvalidRegisterIndex,
            ),
    {
        self.registers.read(rs)
    }

    /// Stores `value` in register `rs`; a write to register 0 is discarded.
    pub fn set_register(&mut self, rs: u32, value: u32) -> (r: Result<(), RegisterError>)
        requires
            old(self).wf(),
        ensures
            final(self).wf(),
            rs < REGISTER_COUNT ==> r is Ok && final(self)@ == written(old(self)@, rs as int, value),
            rs >= REGISTER_COUNT ==> r == Err::<(), RegisterError>(
                RegisterError::InvalidRegisterIndex,
            ) && final(self)@ == old(self)@,
    {
        self.registers.write(rs, value)
    }

    /// Wrapping sum of registers `rs1` and `rs2` into `rd`.
    pub fn add(&mut self, rd: u32, rs1: u32, rs2: u32) -> (r: Result<(), RegisterError>)
        requires
            old(self).wf(),
        ensures
            final(self).wf(),
            agrees_with(
                old(self)@,
                final(self)@,
                r,
                register_form(old(self)@, Operation::Add, rd, rs1, rs2),
            ),
    {
        self.run_register_form(Operation::Add, rd, rs1, rs2)
    }

    /// Wrapping difference of registers `rs1` and `rs2` into `rd`.
    pub fn sub(&mut self, rd: u32, rs1: u32, rs2: u32) -> (r: Result<(), RegisterError>)
        requires
            old(self).wf(),
        ensures
            final(self).wf(),
            agrees_with(
                old(self)@,
                final(self)@,
                r,
                register_form(old(self)@, Operation::Sub, rd, rs1, rs2),
            ),
    {
        self.run_register_form(Operation::Sub, rd, rs1, rs2)
    }

    /// Bitwise exclusive or of registers `rs1` and `rs2` into `rd`.
    pub fn xor(&mut self, rd: u32, rs1: u32, rs2: u32) -> (r: Result<(), RegisterError>)
        requires
            old(self).wf(),
        ensures
            final(self).wf(),
            agrees_with(
                old(self)@,
                final(self)@,
                r,
                register_form(old(self)@, Operation::Xor, rd, rs1, rs2),
            ),
    {
        self.run_register_form(Operation::Xor, rd, rs1, rs2)
    }

    /// Bitwise or of registers `rs1` and `rs2` into `rd`.
    pub fn or(&mut self, rd: u32, rs1: u32, rs2: u32) -> (r: Result<(), RegisterError>)
        requires
            old(self).wf(),
        ensures
            final(self).wf(),
            agrees_with(
                old(self)@,
                final(self)@,
                r,
                register_form(old(self)@, Operation::Or, rd, rs1, rs2),
            ),
    {
        self.run_register_form(Operation::Or, rd, rs1, rs2)
    }

    /// Bitwise and of registers `rs1` and `rs2` into `rd`.
    pub fn and(&mut self, rd: u32, rs1: u32, rs2: u32) -> (r: Result<(), RegisterError>)
        requires
            old(self).wf(),
        ensures
            final(self).wf(),
            agrees_with(
                old(self)@,
                final(self)@,
                r,
                register_form(old(self)@, Operation::And, rd, rs1, rs2),
            ),
    {
        self.run_register_form(Operation::And, rd, rs1, rs2)
    }

    /// Register `rs1` shifted left by the low five bits of register `rs2`, into `rd`.
    pub fn sll(&mut self, rd: u32, rs1: u32, rs2: u32) -> (r: Result<(), RegisterError>)
        requires
            old(self).wf(),
        ensures
            final(self).wf(),
            agrees_with(
                old(self)@,
                final(self)@,
                r,
                register_form(old(self)@, Operation::Sll, rd, rs1, rs2),
            ),
    {
        self.run_register_form(Operation::Sll, rd, rs1, rs2)
    }

    /// Register `rs1` shifted right, zero-filled, by the low five bits of register `rs2`, into `rd`.
    pub fn srl(&mut self, rd: u32, rs1: u32, rs2: u32) -> (r: Result<(), RegisterError>)
        requires
            old(self).wf(),
        ensures
            final(self).wf(),
            agrees_with(
                old(self)@,
                final(self)@,
                r,
                register_form(old(self)@, Operation::Srl, rd, rs1, rs2),
            ),
    {
        self.run_register_form(Operation::Srl, rd, rs1, rs2)
    }

    /// Register `rs1` shifted right, sign-filled, by the low five bits of register `rs2`, into `rd`.
    pub fn sra(&mut self, rd: u32, rs1: u32, rs2: u32) -> (r: Result<(), RegisterError>)
        requires
            old(self).wf(),
        ensures
            final(self).wf(),
            agrees_with(
                old(self)@,
                final(self)@,
                r,
                register_form(old(self)@, Operation::Sra, rd, rs1, rs2),
            ),
    {
        self.run_register_form(Operation::Sra, rd, rs1, rs2)
    }

    /// 1 into `rd` if register `rs1` is below register `rs2` as signed numbers, else 0.
    pub fn slt(&mut self, rd: u32, rs1: u32, rs2: u32) -> (r: Result<(), RegisterError>)
        requires
            old(self).wf(),
        ensures
            final(self).wf(),
            agrees_with(
                old(self)@,
                final(self)@,
                r,
                register_form(old(self)@, Operation::Slt, rd, rs1, rs2),
            ),
    {
        self.run_register_form(Operation::Slt, rd, rs1, rs2)
    }

    /// 1 into `rd` if register `rs1` is below register `rs2` as unsigned numbers, else 0.
    pub fn sltu(&mut self, rd: u32, rs1: u32, rs2: u32) -> (r: Result<(), RegisterError>)
        requires
            old(self).wf(),
        ensures
            final(self).wf(),
            agrees_with(
                old(self)@,
                final(self)@,
                r,
                register_form(old(self)@, Operation::Sltu, rd, rs1, rs2),
            ),
    {
        self.run_register_form(Operation::Sltu, rd, rs1, rs2)
    }

    /// Wrapping sum of register `rs1` and `imm` into `rd`.
    pub fn addi(&mut self, rd: u32, rs1: u32, imm: u32) -> (r: Result<(), RegisterError>)
        requires
            old(self).wf(),
        ensures
            final(self).wf(),
            agrees_with(
                old(self)@,
                final(self)@,
                r,
                immediate_form(old(self)@, Operation::Addi, rd, rs1, imm),
            ),
    {
        self.run_immediate_form(Operation::Addi, rd, rs1, imm)
    }

    /// Bitwise exclusive or of register `rs1` and `imm` into `rd`.
    pub fn xori(&mut self, rd: u32, rs1: u32, imm: u32) -> (r: Result<(), RegisterError>)
        requires
            old(self).wf(),
        ensures
            final(self).wf(),
            agrees_with(
                old(self)@,
                final(self)@,
                r,
                immediate_form(old(self)@, Operation::Xori, rd, rs1, imm),
            ),
    {
        self.run_immediate_form(Operation::Xori, rd, rs1, imm)
    }

    /// Bitwise or of register `rs1` and `imm` into `rd`.
    pub fn ori(&mut self, rd: u32, rs1: u32, imm: u32) -> (r: Result<(), RegisterError>)
        requires
            old(self).wf(),
        ensures
            final(self).wf(),
            agrees_with(
                old(self)@,
                final(self)@,
                r,
                immediate_form(old(self)@, Operation::Ori, rd, rs1, imm),
            ),
    {
        self.run_immediate_form(Operation::Ori, rd, rs1, imm)
    }

    /// Bitwise and of register `rs1` and `imm` into `rd`.
    pub fn andi(&mut self, rd: u32, rs1: u32, imm: u32) -> (r: Result<(), RegisterError>)
        requires
            old(self).wf(),
        ensures
            final(self).wf(),
            agrees_with(
                old(self)@,
                final(self)@,
                r,
                immediate_form(old(self)@, Operation::Andi, rd, rs1, imm),
            ),
    {
        self.run_immediate_form(Operation::Andi, rd, rs1, imm)
    }

    /// Register `rs1` shifted left by the low five bits of `imm`, into `rd`.
    pub fn slli(&mut self, rd: u32, rs1: u32, imm: u32) -> (r: Result<(), RegisterError>)
        requires
            old(self).wf(),
        ensures
            final(self).wf(),
            agrees_with(
                old(self)@,
                final(self)@,
                r,
                immediate_form(old(self)@, Operation::Slli, rd, rs1, imm),
            ),
    {
        self.run_immediate_form(Operation::Slli, rd, rs1, imm)
    }

    /// Register `rs1` shifted right, zero-filled, by the low five bits of `imm`, into `rd`.
    pub fn srli(&mut self, rd: u32, rs1: u32, imm: u32) -> (r: Result<(), RegisterError>)
        requires
            old(self).wf(),
        ensures
            final(self).wf(),
            agrees_with(
                old(self)@,
                final(self)@,
                r,
                immediate_form(old(self)@, Operation::Srli, rd, rs1, imm),
            ),
    {
        self.run_immediate_form(Operation::Srli, rd, rs1, imm)
    }

    /// Register `rs1` shifted right, sign-filled, by the low five bits of `imm`, into `rd`.
    pub fn srai(&mut self, rd: u32, rs1: u32, imm: u32) -> (r: Result<(), RegisterError>)
        requires
            old(self).wf(),
        ensures
            final(self).wf(),
            agrees_with(
                old(self)@,
                final(self)@,
                r,
                immediate_form(old(self)@, Operation::Srai, rd, rs1, imm),
            ),
    {
        self.run_immediate_form(Operation::Srai, rd, rs1, imm)
    }

    /// 1 into `rd` if register `rs1` is below `imm` as signed numbers, else 0.
    pub fn slti(&mut self, rd: u32, rs1: u32, imm: u32) -> (r: Result<(), RegisterError>)
        requires
            old(self).wf(),
        ensures
            final(self).wf(),
            agrees_with(
                old(self)@,
                final(self)@,
                r,
                immediate_form(old(self)@, Operation::Slti, rd, rs1, imm),
            ),
    {
        self.run_immediate_form(Operation::Slti, rd, rs1, imm)
    }

    /// 1 into `rd` if register `rs1` is below `imm` as unsigned numbers, else 0.
    pub fn sltiu(&mut self, rd: u32, rs1: u32, imm: u32) -> (r: Result<(), RegisterError>)
        requires
            old(self).wf(),
        ensures
            final(self).wf(),
            agrees_with(
                old(self)@,
                final(self)@,
                r,
                immediate_form(old(self)@, Operation::Sltiu, rd, rs1, imm),
            ),
    {
        self.run_immediate_form(Operation::Sltiu, rd, rs1, imm)
    }

    /// Applies `op` to registers `rs1` and `rs2` and writes the result to `rd`.
    fn run_register_form(&mut self, op: Operation, rd: u32, rs1: u32, rs2: u32) -> (r: Result<
        (),
        RegisterError,
    >)
        requires
            old(self).wf(),
        ensures
            final(self).wf(),
            agrees_with(old(self)@, final(self)@, r, register_form(old(self)@, op, rd, rs1, rs2)),
    {
        if rd >= REGISTER_COUNT {
            return Err(RegisterError::InvalidRegisterIndex);
        }
        let a = match self.registers.read(rs1) {
            Ok(v) => v,
            Err(e) => return Err(e),
        };
        let b = match self.registers.read(rs2) {
            Ok(v) => v,
            Err(e) => return Err(e),
        };
        self.registers.write(rd, execute(op, a, b))
    }

    /// Applies `op` to register `rs1` and the immediate `imm` and writes the
    /// result to `rd`.
    fn run_immediate_form(&mut self, op: Operation, rd: u32, rs1: u32, imm: u32) -> (r: Result<
        (),
        RegisterError,
    >)
        requires
            old(self).wf(),
        ensures
            final(self).wf(),
            agrees_with(old(self)@, final(self)@, r, immediate_form(old(self)@, op, rd, rs1, imm)),
    {
        if rd >= REGISTER_COUNT {
            return Err(RegisterError::InvalidRegisterIndex);
        }
        let a = match self.registers.read(rs1) {
            Ok(v) => v,
            Err(e) => return Err(e),
        };
        self.registers.write(rd, execute(op, a, imm))
    }
}

} // verus!
