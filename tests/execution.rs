use rv32i_core::alu::{execute, Operation};
use rv32i_core::decode::{decode, Instruction};
use rv32i_core::dispatch::select_operation;
use rv32i_core::registers::RegisterFile;
use rv32i_core::{RegisterError, CPU};

fn cpu_with(values: &[(u32, u32)]) -> CPU {
    let mut cpu = CPU::new();
    for &(index, value) in values {
        cpu.set_register(index, value).unwrap();
    }
    cpu
}

#[test]
fn new_cpu_has_all_registers_cleared() {
    let cpu = CPU::new();
    for index in 0..32u32 {
        assert_eq!(cpu.get_reg_val(index), Ok(0));
    }
}

#[test]
fn zero_register_ignores_writes() {
    let mut cpu = CPU::new();
    cpu.set_register(0, 0xDEAD_BEEF).unwrap();
    assert_eq!(cpu.get_reg_val(0), Ok(0));

    let mut regs = RegisterFile::new();
    regs.write(0, 7).unwrap();
    assert_eq!(regs.read(0), Ok(0));
    regs.write(5, 7).unwrap();
    assert_eq!(regs.read(5), Ok(7));
}

#[test]
fn zero_register_ignores_instruction_results() {
    let mut cpu = cpu_with(&[(1, 10), (2, 20)]);
    // addi x0, x0, 5
    cpu.parse_instruction(0x0050_0013);
    assert_eq!(cpu.get_reg_val(0), Ok(0));
    cpu.add(0, 1, 2).unwrap();
    assert_eq!(cpu.get_reg_val(0), Ok(0));
}

#[test]
fn sub_undoes_add() {
    let a: u32 = 0xFFFF_FFF0;
    let b: u32 = 0x20;
    let sum = execute(Operation::Add, a, b);
    assert_eq!(sum, 0x10);
    assert_eq!(execute(Operation::Sub, sum, b), a);

    let mut cpu = cpu_with(&[(1, a), (2, b)]);
    cpu.add(3, 1, 2).unwrap();
    cpu.sub(4, 3, 2).unwrap();
    assert_eq!(cpu.get_reg_val(4), Ok(a));
}

#[test]
fn add_and_sub_wrap() {
    let mut cpu = cpu_with(&[(1, 0xFFFF_FFFF), (2, 1), (3, 0)]);
    cpu.add(4, 1, 2).unwrap();
    assert_eq!(cpu.get_reg_val(4), Ok(0));
    cpu.sub(5, 3, 2).unwrap();
    assert_eq!(cpu.get_reg_val(5), Ok(0xFFFF_FFFF));
}

#[test]
fn sra_fills_with_sign_bit() {
    assert_eq!(execute(Operation::Sra, 0x8000_0000, 4), 0xF800_0000);
    assert_eq!(execute(Operation::Sra, 0xFFFF_FF00, 31), 0xFFFF_FFFF);
    assert_eq!(execute(Operation::Srl, 0x8000_0000, 4), 0x0800_0000);

    let mut cpu = cpu_with(&[(18, 0x8000_0000), (19, 4)]);
    cpu.sra(20, 18, 19).unwrap();
    assert_eq!(cpu.get_reg_val(20), Ok(0xF800_0000));
}

#[test]
fn shift_amount_uses_low_five_bits() {
    assert_eq!(execute(Operation::Sll, 1, 24), 0x0100_0000);
    assert_eq!(execute(Operation::Sll, 1, 24 + 32), 0x0100_0000);
    assert_eq!(execute(Operation::Srl, 0x8000_0000, 31 + 64), 1);

    let mut cpu = cpu_with(&[(18, 16), (19, 33)]);
    cpu.sll(20, 18, 19).unwrap();
    assert_eq!(cpu.get_reg_val(20), Ok(32));
}

#[test]
fn immediate_operations() {
    let mut cpu = cpu_with(&[(1, 0b1100), (2, 0x8000_0000), (3, 0)]);
    cpu.addi(4, 1, 0xFFFF_FFFF).unwrap();
    assert_eq!(cpu.get_reg_val(4), Ok(0b1011));
    cpu.xori(5, 1, 0b1010).unwrap();
    assert_eq!(cpu.get_reg_val(5), Ok(0b0110));
    cpu.ori(6, 1, 0b1010).unwrap();
    assert_eq!(cpu.get_reg_val(6), Ok(0b1110));
    cpu.andi(7, 1, 0b1010).unwrap();
    assert_eq!(cpu.get_reg_val(7), Ok(0b1000));
    cpu.slli(8, 1, 2).unwrap();
    assert_eq!(cpu.get_reg_val(8), Ok(0b11_0000));
    cpu.srli(9, 2, 4).unwrap();
    assert_eq!(cpu.get_reg_val(9), Ok(0x0800_0000));
    cpu.srai(10, 2, 0x404).unwrap();
    assert_eq!(cpu.get_reg_val(10), Ok(0xF800_0000));
    cpu.slti(11, 3, 0xFFFF_FFFF).unwrap();
    assert_eq!(cpu.get_reg_val(11), Ok(0));
    cpu.sltiu(12, 3, 0xFFFF_FFFF).unwrap();
    assert_eq!(cpu.get_reg_val(12), Ok(1));
}

#[test]
fn out_of_range_indices_are_refused() {
    let mut cpu = cpu_with(&[(1, 5), (2, 6), (3, 9)]);
    assert_eq!(cpu.set_register(32, 1), Err(RegisterError::InvalidRegisterIndex));
    assert_eq!(cpu.get_reg_val(255), Err(RegisterError::InvalidRegisterIndex));
    assert_eq!(cpu.add(32, 1, 2), Err(RegisterError::InvalidRegisterIndex));
    assert_eq!(cpu.sub(3, 40, 2), Err(RegisterError::InvalidRegisterIndex));
    assert_eq!(cpu.xor(3, 1, 32), Err(RegisterError::InvalidRegisterIndex));
    assert_eq!(cpu.addi(3, 33, 1), Err(RegisterError::InvalidRegisterIndex));
    assert_eq!(cpu.get_reg_val(3), Ok(9));

    let mut regs = RegisterFile::new();
    assert_eq!(regs.write(32, 1), Err(RegisterError::InvalidRegisterIndex));
    assert_eq!(regs.read(32), Err(RegisterError::InvalidRegisterIndex));
}

#[test]
fn decode_register_form() {
    // add x2, x4, x5
    let inst = decode(0b0000_0000_0101_0010_0000_0001_0011_0011);
    assert_eq!(inst, Instruction::RType { rd: 2, funct3: 0, rs1: 4, rs2: 5, funct7: 0 });
    assert_eq!(select_operation(&inst), Some(Operation::Add));

    // sub x2, x4, x5
    let inst = decode(0x4052_0133);
    assert_eq!(inst, Instruction::RType { rd: 2, funct3: 0, rs1: 4, rs2: 5, funct7: 0x20 });
    assert_eq!(select_operation(&inst), Some(Operation::Sub));
}

#[test]
fn decode_immediate_form_sign_extends() {
    // addi x18, x0, 4
    assert_eq!(
        decode(0x0040_0913),
        Instruction::IType { rd: 18, funct3: 0, rs1: 0, imm: 4 }
    );
    // addi x18, x0, -1
    assert_eq!(
        decode(0xFFF0_0913),
        Instruction::IType { rd: 18, funct3: 0, rs1: 0, imm: 0xFFFF_FFFF }
    );
    // addi x18, x0, 2047
    assert_eq!(
        decode(0x7FF0_0913),
        Instruction::IType { rd: 18, funct3: 0, rs1: 0, imm: 0x7FF }
    );
}

#[test]
fn decode_other_opcode_is_unclassified() {
    assert_eq!(decode(0x0000_006F), Instruction::Unclassified { opcode: 0x6F });
    assert_eq!(select_operation(&decode(0x0000_006F)), None);
}

#[test]
fn dispatch_distinguishes_funct7() {
    let srl = Instruction::RType { rd: 1, funct3: 5, rs1: 2, rs2: 3, funct7: 0 };
    let sra = Instruction::RType { rd: 1, funct3: 5, rs1: 2, rs2: 3, funct7: 0x20 };
    let other = Instruction::RType { rd: 1, funct3: 0, rs1: 2, rs2: 3, funct7: 1 };
    let sll_alt = Instruction::RType { rd: 1, funct3: 1, rs1: 2, rs2: 3, funct7: 0x20 };
    assert_eq!(select_operation(&srl), Some(Operation::Srl));
    assert_eq!(select_operation(&sra), Some(Operation::Sra));
    assert_eq!(select_operation(&other), None);
    assert_eq!(select_operation(&sll_alt), None);

    let srli = Instruction::IType { rd: 1, funct3: 5, rs1: 2, imm: 4 };
    let srai = Instruction::IType { rd: 1, funct3: 5, rs1: 2, imm: 0x404 };
    let slli_bad = Instruction::IType { rd: 1, funct3: 1, rs1: 2, imm: 0x404 };
    assert_eq!(select_operation(&srli), Some(Operation::Srli));
    assert_eq!(select_operation(&srai), Some(Operation::Srai));
    assert_eq!(select_operation(&slli_bad), None);
}

#[test]
fn parse_instruction_executes_register_form() {
    let mut cpu = cpu_with(&[(4, 3), (5, 4)]);
    // add x2, x4, x5
    cpu.parse_instruction(0x0052_0133);
    assert_eq!(cpu.get_reg_val(2), Ok(7));
    // sub x2, x4, x5
    cpu.parse_instruction(0x4052_0133);
    assert_eq!(cpu.get_reg_val(2), Ok(0xFFFF_FFFF));
}

#[test]
fn parse_instruction_executes_immediate_form() {
    let mut cpu = cpu_with(&[(2, 0x8000_0000)]);
    // addi x18, x0, 4
    cpu.parse_instruction(0x0040_0913);
    assert_eq!(cpu.get_reg_val(18), Ok(4));
    // srai x1, x2, 4
    cpu.parse_instruction(0x4041_5093);
    assert_eq!(cpu.get_reg_val(1), Ok(0xF800_0000));
    // slti x3, x2, -1
    cpu.parse_instruction(0xFFF1_2193);
    assert_eq!(cpu.get_reg_val(3), Ok(1));
}

#[test]
fn parse_instruction_ignores_unsupported_words() {
    let mut cpu = cpu_with(&[(2, 11), (4, 3), (5, 4)]);
    // an opcode outside the two arithmetic formats
    cpu.parse_instruction(0x0000_016F);
    // funct7 = 1 selects no operation
    cpu.parse_instruction(0x0252_0133);
    for index in 0..32u32 {
        let expected = match index {
            2 => 11,
            4 => 3,
            5 => 4,
            _ => 0,
        };
        assert_eq!(cpu.get_reg_val(index), Ok(expected));
    }
}
