//! Instruction-decode/execute core of an 8-bit (Z80 / Game-Boy style) CPU
//! emulator.
//!
//! The crate reconstructs machine instructions from a raw byte stream
//! ([`decode::decode`]), reports each instruction's encoded length
//! ([`isa::instr_size`]) so a driver can advance through a program without
//! redecoding, and evolves a CPU register/flags/clock state one instruction
//! at a time. Memory, interrupts and peripherals are out of scope: the core
//! exposes instruction effects on registers and the logical clock only.

pub mod alu;
pub mod cpu;
pub mod decode;
pub mod exec;
pub mod isa;

pub use alu::addr_e;
pub use cpu::initial_cpu;
pub use cpu::CPU;
pub use decode::decode;
pub use decode::opcode_bytes;
pub use exec::is_implemented;
pub use exec::step;
pub use isa::instr_size;
pub use isa::Condition;
pub use isa::Instruction;
pub use isa::Operand16;
pub use isa::Operand8;
pub use isa::Register16;
pub use isa::Register8;
