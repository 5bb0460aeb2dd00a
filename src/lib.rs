use vstd::prelude::*;

pub mod alu;
pub mod cpu;
pub mod decode;
pub mod dispatch;
pub mod registers;

pub use cpu::CPU;
pub use registers::RegisterError;

verus! {

} // verus!
