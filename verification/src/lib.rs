//! An Intel 8080 emulation core: instruction decoder, register file,
//! flat memory with read-only (ROM) regions, and the execute step for the
//! full 8080 instruction set, including maskable-interrupt injection.

pub mod arith;
pub mod op_code;
pub mod cpu;
pub mod ram;
pub mod in_out;
pub mod util;
pub mod system;
pub mod laws;
