//! An instruction-set simulator for the RV32G profile of RISC-V: the integer
//! base with multiply/divide, atomics, single and double precision floating
//! point, the machine/supervisor/user trap machinery and the Sv32 translator.
pub mod bits;
pub mod exception;
pub mod memory;
pub mod cpu;
pub mod fpu;
