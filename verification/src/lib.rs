//! Effective-address and operand-access layer of a real-mode 8086-class CPU
//! core: segment resolution, 16-bit effective-address arithmetic, 20-bit
//! linear-address folding, and the read/write dispatchers over decoded
//! operands.

pub mod addr;
pub mod arch;
pub mod bus;
pub mod cpu;
pub mod cpu_addressing;
pub mod laws;
