//! The instruction model: typed representation of a decoded instruction and
//! its operands, together with the size calculator that reports each
//! instruction's encoded length.

use vstd::prelude::*;

verus! {

/// A named 8-bit general register.
#[derive(Clone, Copy, Debug, PartialEq, Eq, Structural)]
pub enum Register8 {
    A,
    B,
    C,
    D,
    E,
    H,
    L,
}

/// A named 16-bit register pair.
#[derive(Clone, Copy, Debug, PartialEq, Eq, Structural)]
pub enum Register16 {
    BC,
    DE,
    HL,
    SP,
}

/// An 8-bit operand: a register, a memory address held in a register pair,
/// a memory address formed from an 8-bit register plus a constant high-byte
/// offset, or an immediate.
#[derive(Clone, Copy, Debug, PartialEq, Eq, Structural)]
pub enum Operand8 {
    Register(Register8),
    MemoryAddress(Register16),
    MemoryAddressWithOffset(Register8, u16),
    Immediate(u8),
}

/// A 16-bit operand: a register pair or an immediate.
#[derive(Clone, Copy, Debug, PartialEq, Eq, Structural)]
pub enum Operand16 {
    Register(Register16),
    Immediate(u16),
}

/// A branch-test predicate, used only by relative jumps.
#[derive(Clone, Copy, Debug, PartialEq, Eq, Structural)]
pub enum Condition {
    NonZero,
}

/// A decoded instruction, one variant per opcode family. Intel conventions:
/// the destination operand comes *before* the source.
#[derive(Clone, Copy, Debug, PartialEq, Eq, Structural)]
pub enum Instruction {
    Nop,
    Stop,
    Halt,
    Or(Operand8),
    Xor(Operand8),
    Load(Operand8, Operand8),
    Load16(Operand16, Operand16),
    LoadIncrement(Operand8, Operand8),
    LoadDecrement(Operand8, Operand8),
    Increment(Operand8),
    Increment16(Operand16),
    Decrement(Operand8),
    Decrement16(Operand16),
    /// Bit test; the first argument is the bit index, 0 to 7.
    Bit(u8, Operand8),
    JumpRelative(Condition, i8),
}

/// The encoded length, in bytes, of an instruction, as a function of its
/// shape alone: 1 for plain register/memory forms, 2 for an 8-bit immediate,
/// a bit test (whose second opcode byte is part of the encoding) or a
/// relative jump (its displacement byte), 3 for a 16-bit immediate.
pub open spec fn spec_instr_size(instr: Instruction) -> int {
    match instr {
        Instruction::Nop => 1,
        Instruction::Stop => 1,
        Instruction::Halt => 1,
        Instruction::Or(src) => if src is Immediate { 2 } else { 1 },
        Instruction::Xor(src) => if src is Immediate { 2 } else { 1 },
        Instruction::Increment(_) => 1,
        Instruction::Increment16(_) => 1,
        Instruction::Decrement(_) => 1,
        Instruction::Decrement16(_) => 1,
        Instruction::Load(_, src) => if src is Immediate { 2 } else { 1 },
        Instruction::Load16(_, src) => if src is Immediate { 3 } else { 1 },
        Instruction::LoadIncrement(_, _) => 1,
        Instruction::LoadDecrement(_, _) => 1,
        Instruction::Bit(_, _) => 2,
        Instruction::JumpRelative(_, _) => 2,
    }
}

/// Given an instruction, return its size in bytes.
pub fn instr_size(instr: &Instruction) -> (size: usize)
    ensures
        size == spec_instr_size(*instr),
{
    match *instr {
        Instruction::Nop => 1,
        Instruction::Stop => 1,
        Instruction::Halt => 1,
        Instruction::Or(Operand8::Immediate(_)) => 2,
        Instruction::Or(_) => 1,
        Instruction::Xor(Operand8::Immediate(_)) => 2,
        Instruction::Xor(_) => 1,
        Instruction::Increment(_) => 1,
        Instruction::Increment16(_) => 1,
        Instruction::Decrement(_) => 1,
        Instruction::Decrement16(_) => 1,
        Instruction::Load(_, src) => {
            match src {
                Operand8::Immediate(_) => 2,
                _ => 1,
            }
        }
        Instruction::Load16(_, src) => {
            match src {
                Operand16::Immediate(_) => 3,
                _ => 1,
            }
        }
        Instruction::LoadIncrement(_, _) => 1,
        Instruction::LoadDecrement(_, _) => 1,
        Instruction::Bit(_, _) => 2,
        Instruction::JumpRelative(_, _) => 2,
    }
}

} // verus!
