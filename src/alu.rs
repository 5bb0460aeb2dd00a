use vstd::prelude::*;

verus! {

/// Mask that keeps the five bits of a shift amount.
pub const SHIFT_MASK: u32 = 0b1_1111;

/// The operations of the arithmetic/logic unit. The immediate forms take the
/// sign-extended immediate as their second operand.
#[derive(Debug, Clone, Copy, PartialEq, Eq, Structural)]
pub enum Operation {
    Add,
    Sub,
    Xor,
    Or,
    And,
    Sll,
    Srl,
    Sra,
    Slt,
    Sltu,
    Addi,
    Xori,
    Ori,
    Andi,
    Slli,
    Srli,
    Srai,
    Slti,
    Sltiu,
}

/// The shift amount carried by an operand: its low five bits.
pub open spec fn shift_amount(b: u32) -> u32 {
    b & SHIFT_MASK
}

/// Sum modulo 2^32.
pub open spec fn wrapped_sum(a: u32, b: u32) -> u32 {
    ((a + b) % 0x1_0000_0000) as u32
}

/// Difference modulo 2^32.
pub open spec fn wrapped_difference(a: u32, b: u32) -> u32 {
    ((a - b) % 0x1_0000_0000) as u32
}

/// Arithmetic right shift: the operand read as a two's-complement number,
/// shifted so that its sign bit fills the vacated positions.
pub open spec fn arithmetic_shift_right(a: u32, b: u32) -> u32 {
    ((a as i32) >> shift_amount(b)) as u32
}

/// 1 if `a < b`, both read as two's-complement numbers, else 0.
pub open spec fn less_signed(a: u32, b: u32) -> u32 {
    if (a as i32) < (b as i32) {
        1
    } else {
        0
    }
}

/// 1 if `a < b`, both read as unsigned numbers, else 0.
pub open spec fn less_unsigned(a: u32, b: u32) -> u32 {
    if a < b {
        1
    } else {
        0
    }
}

/// The result of `op` on the operands `a` and `b`.
pub open spec fn compute(op: Operation, a: u32, b: u32) -> u32 {
    match op {
        Operation::Add | Operation::Addi => wrapped_sum(a, b),
        Operation::Sub => wrapped_difference(a, b),
        Operation::Xor | Operation::Xori => a ^ b,
        Operation::Or | Operation::Ori => a | b,
        Operation::And | Operation::Andi => a & b,
        Operation::Sll | Operation::Slli => a << shift_amount(b),
        Operation::Srl | Operation::Srli => a >> shift_amount(b),
        Operation::Sra | Operation::Srai => arithmetic_shift_right(a, b),
        Operation::Slt | Operation::Slti => less_signed(a, b),
        Operation::Sltu | Operation::Sltiu => less_unsigned(a, b),
    }
}

/// Runs `op` on the operands `a` and `b`.
pub fn execute(op: Operation, a: u32, b: u32) -> (r: u32)
    ensures
        r == compute(op, a, b),
{
    match op {
        Operation::Add | Operation::Addi => a.wrapping_add(b),
        Operation::Sub => a.wrapping_sub(b),
        Operation::Xor | Operation::Xori => a ^ b,
        Operation::Or | Operation::Ori => a | b,
        Operation::And | Operation::Andi => a & b,
        Operation::Sll | Operation::Slli => {
            let shamt = b & SHIFT_MASK;
            assert(shamt < 32) by (bit_vector)
                requires
                    shamt == b & 0b1_1111u32,
            ;
            a << shamt
        },
        Operation::Srl | Operation::Srli => {
            let shamt = b & SHIFT_MASK;
            assert(shamt < 32) by (bit_vector)
                requires
                    shamt == b & 0b1_1111u32,
            ;
            a >> shamt
        },
        Operation::Sra | Operation::Srai => {
            let shamt = b & SHIFT_MASK;
            assert(shamt < 32) by (bit_vector)
                requires
                    shamt == b & 0b1_1111u32,
            ;
            ((a as i32) >> shamt) as u32
        },
        Operation::Slt | Operation::Slti => {
            if (a as i32) < (b as i32) {
                1
            } else {
                0
            }
        },
        Operation::Sltu | Operation::Sltiu => {
            if a < b {
                1
            } else {
                0
            }
        },
    }
}

/// Subtracting `b` from the wrapped sum of `a` and `b` gives back `a`.
pub proof fn lemma_sub_undoes_add(a: u32, b: u32)
    ensures
        compute(Operation::Sub, compute(Operation::Add, a, b), b) == a,
{
}

/// When the sign bit of `a` is set, an arithmetic right shift by `shamt`
/// leaves the top `shamt` bits of the result all set.
pub proof fn lemma_sra_fills_sign(a: u32, shamt: u32)
    requires
        shamt < 32,
        a & 0x8000_0000 != 0,
    ensures
        forall|i: u32|
            32 - shamt <= i < 32 ==> (#[trigger] (compute(Operation::Sra, a, shamt) >> i)) & 1
                == 1,
{
    let r = compute(Operation::Sra, a, shamt);
    assert(r == ((a as i32) >> (shamt & 0b1_1111u32)) as u32);
    assert(forall|i: u32| 32 - shamt <= i < 32 ==> (#[trigger] (r >> i)) & 1 == 1) by (bit_vector)
        requires
            shamt < 32,
            a & 0x8000_0000 != 0,
            r == ((a as i32) >> (shamt & 0b1_1111u32)) as u32,
    ;
}

/// A left shift depends on the low five bits of the shift operand only.
pub proof fn lemma_sll_masks_shift(a: u32, b: u32, c: u32)
    requires
        b & SHIFT_MASK == c & SHIFT_MASK,
    ensures
        compute(Operation::Sll, a, b) == compute(Operation::Sll, a, c),
{
}

} // verus!
