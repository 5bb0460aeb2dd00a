use vstd::prelude::*;

verus! {

/// Number of general-purpose registers.
pub const REGISTER_COUNT: u32 = 32;

/// Failure of a register access.
#[derive(Debug, Clone, Copy, PartialEq, Eq, Structural)]
pub enum RegisterError {
    /// The index does not name one of the 32 registers.
    InvalidRegisterIndex,
}

/// A register-file state is valid when it holds exactly 32 values and
/// register 0 holds the constant zero.
pub open spec fn valid_registers(regs: Seq<u32>) -> bool {
    &&& regs.len() == REGISTER_COUNT
    &&& regs[0] == 0
}

/// The state after writing `value` to register `index`: register 0 ignores
/// every write, any other register takes the new value.
pub open spec fn written(regs: Seq<u32>, index: int, value: u32) -> Seq<u32> {
    if index == 0 {
        regs
    } else {
        regs.update(index, value)
    }
}

/// Writing any register of a valid state, register 0 included, leaves a valid
/// state in which register 0 still reads as zero.
pub proof fn lemma_zero_register_is_constant(regs: Seq<u32>, index: int, value: u32)
    requires
        valid_registers(regs),
        0 <= index < REGISTER_COUNT,
    ensures
        valid_registers(written(regs, index, value)),
        written(regs, index, value)[0] == 0,
{
}

/// Thirty-two 32-bit registers, of which register 0 is hardwired to zero.
pub struct RegisterFile {
    regs: [u32; 32],
}

impl View for RegisterFile {
    type V = Seq<u32>;

    closed spec fn view(&self) -> Seq<u32> {
        self.regs@
    }
}

impl RegisterFile {
    /// Register 0 holds zero and there are exactly 32 registers.
    pub open spec fn wf(&self) -> bool {
        valid_registers(self@)
    }

    /// A register file with every register cleared.
    pub fn new() -> (r: RegisterFile)
        ensures
            r.wf(),
            r@ == Seq::new(32, |i: int| 0u32),
    {
        let r = RegisterFile { regs: [0u32; 32] };
        assert(r@ =~= Seq::new(32, |i: int| 0u32));
        r
    }

    /// The value of register `index`; register 0 always reads as zero.
    pub fn read(&self, index: u32) -> (r: Result<u32, RegisterError>)
        requires
            self.wf(),
        ensures
            index < REGISTER_COUNT ==> r == Ok::<u32, RegisterError>(self@[index as int]),
            index >= REGISTER_COUNT ==> r == Err::<u32, RegisterError>(
                RegisterError::InvalidRegisterIndex,
            ),
    {
        if index < REGISTER_COUNT {
            Ok(self.regs[index as usize])
        } else {
            Err(RegisterError::InvalidRegisterIndex)
        }
    }

    /// Stores `value` in register `index`; a write to register 0 changes
    /// nothing. An index outside the file is refused and nothing changes.
    pub fn write(&mut self, index: u32, value: u32) -> (r: Result<(), RegisterError>)
        requires
            old(self).wf(),
        ensures
            final(self).wf(),
            index < REGISTER_COUNT ==> r is Ok && final(self)@ == written(
                old(self)@,
                index as int,
                value,
            ),
            index >= REGISTER_COUNT ==> r == Err::<(), RegisterError>(
                RegisterError::InvalidRegisterIndex,
            ) && final(self)@ == old(self)@,
    {
        if index >= REGISTER_COUNT {
            return Err(RegisterError::InvalidRegisterIndex);
        }
        if index != 0 {
            self.regs[index as usize] = value;
        }
        Ok(())
    }
}

} // verus!
