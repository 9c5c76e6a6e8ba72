//! The execution engine: applies a decoded instruction to the register
//! file, with numerically precise 8- and 16-bit wraparound arithmetic.

use vstd::prelude::*;

use crate::cpu::reg8;
use crate::cpu::register8;
use crate::cpu::set_reg8;
use crate::cpu::CPU;
use crate::isa::Instruction;
use crate::isa::Operand16;
use crate::isa::Operand8;
use crate::isa::Register16;
use crate::isa::Register8;

verus! {

/// An 8-bit value incremented with wraparound: 255 + 1 = 0.
pub open spec fn wrap_inc8(value: u8) -> u8 {
    ((value + 1) % 256) as u8
}

/// A 16-bit value incremented with wraparound: 0xFFFF + 1 = 0.
pub open spec fn wrap_inc16(value: u16) -> u16 {
    ((value + 1) % 65536) as u16
}

/// A 16-bit sum with wraparound modulo 65536.
pub open spec fn wrap_add16(x: u16, y: u16) -> u16 {
    ((x + y) % 65536) as u16
}

/// The low byte of a 16-bit value.
pub open spec fn low_byte(value: u16) -> u8 {
    (value % 256) as u8
}

/// The high byte of a 16-bit value.
pub open spec fn high_byte(value: u16) -> u8 {
    (value / 256) as u8
}

/// Whether the execution engine has semantics for this instruction shape.
/// Every other shape is an unimplemented operation: [`step`] refuses it
/// rather than continue with stale state, so a caller must test here first.
pub open spec fn step_implemented(instr: Instruction) -> bool {
    match instr {
        Instruction::Nop => true,
        Instruction::Xor(Operand8::Register(_)) => true,
        Instruction::Increment(Operand8::Register(_)) => true,
        Instruction::Load16(Operand16::Register(_), Operand16::Immediate(_)) => true,
        _ => false,
    }
}

/// The register file after executing one instruction. Every step advances
/// the program counter by a constant 1 — not by the instruction's encoded
/// size, as a real fetch/execute cycle would need; a driver walking a
/// buffer must advance its own cursor by `spec_instr_size` instead — and
/// resets the clock to the baseline cost M = 1, T = 4 (timing is not yet
/// differentiated per instruction). The instruction's own effect comes on
/// top of that:
///   - no-op: nothing further;
///   - XOR register: A becomes A XOR the register's value;
///   - 8-bit increment of a register: the register wraps modulo 256
///     (flag derivation is a known gap, left exactly as unflagged);
///   - 16-bit load of an immediate: a general pair takes the immediate's
///     high and low bytes directly into its halves, while the stack
///     pointer *adds* the immediate with 16-bit wraparound — the two
///     policies differ by destination on purpose.
pub open spec fn spec_step(cpu: CPU, instr: Instruction) -> CPU {
    let advanced = CPU { pc: wrap_inc16(cpu.pc), m: 1, t: 4, ..cpu };
    match instr {
        Instruction::Xor(Operand8::Register(source)) => (CPU {
            a: cpu.a ^ reg8(cpu, source),
            ..advanced
        }),
        Instruction::Increment(Operand8::Register(target)) => set_reg8(
            advanced,
            target,
            wrap_inc8(reg8(cpu, target)),
        ),
        Instruction::Load16(Operand16::Register(pair), Operand16::Immediate(value)) => match pair {
            Register16::BC => CPU { b: high_byte(value), c: low_byte(value), ..advanced },
            Register16::DE => CPU { d: high_byte(value), e: low_byte(value), ..advanced },
            Register16::HL => CPU { h: high_byte(value), l: low_byte(value), ..advanced },
            Register16::SP => CPU { sp: wrap_add16(cpu.sp, value), ..advanced },
        },
        _ => advanced,
    }
}

/// Whether [`step`] has semantics for this instruction. An unverified
/// driver tests here and treats `false` as the fatal unimplemented-
/// operation signal, instead of stepping with undefined effects.
pub fn is_implemented(instr: &Instruction) -> (implemented: bool)
    ensures
        implemented == step_implemented(*instr),
{
    match *instr {
        Instruction::Nop => true,
        Instruction::Xor(Operand8::Register(_)) => true,
        Instruction::Increment(Operand8::Register(_)) => true,
        Instruction::Load16(Operand16::Register(_), Operand16::Immediate(_)) => true,
        _ => false,
    }
}

/// Execute one instruction against the register file, in place. The caller
/// hands in an instruction the engine implements ([`step_implemented`],
/// testable through [`is_implemented`]); the engine trusts the caller to
/// have decoded it correctly and never re-validates it against memory.
pub fn step(cpu: &mut CPU, instr: Instruction)
    requires
        step_implemented(instr),
    ensures
        *final(cpu) == spec_step(*old(cpu), instr),
{
    cpu.pc = if cpu.pc == 0xFFFF { 0 } else { cpu.pc + 1 };
    cpu.m = 1;
    cpu.t = 4;

    match instr {
        Instruction::Nop => {}
        Instruction::Xor(Operand8::Register(source)) => {
            let register_value = *register8(cpu, source);
            cpu.a = cpu.a ^ register_value;
        }
        Instruction::Increment(Operand8::Register(target)) => {
            let reg = register8(cpu, target);
            *reg = if *reg == 255 { 0 } else { *reg + 1 };
        }
        Instruction::Load16(Operand16::Register(pair), Operand16::Immediate(value)) => {
            match pair {
                Register16::BC => {
                    cpu.b = (value / 256) as u8;
                    cpu.c = (value % 256) as u8;
                }
                Register16::DE => {
                    cpu.d = (value / 256) as u8;
                    cpu.e = (value % 256) as u8;
                }
                Register16::HL => {
                    cpu.h = (value / 256) as u8;
                    cpu.l = (value % 256) as u8;
                }
                Register16::SP => {
                    cpu.sp = (((cpu.sp as u32) + (value as u32)) % 65536) as u16;
                }
            }
        }
        // Ruled out by the precondition: the engine has no other semantics.
        _ => {}
    }
}

/// Wraparound: incrementing an 8-bit register holding 255 yields 0 — not
/// 256 and not a widened value — whichever register it is and whatever
/// else the register file holds.
pub proof fn lemma_increment_wraps(cpu: CPU, target: Register8)
    requires
        reg8(cpu, target) == 255,
    ensures
        reg8(spec_step(cpu, Instruction::Increment(Operand8::Register(target))), target) == 0,
{
}

/// Wraparound of the stack pointer: adding 1 to a stack pointer at 0xFFFF
/// (through the 16-bit load, whose stack-pointer policy is to add) yields
/// 0x0000.
pub proof fn lemma_sp_wraps(cpu: CPU)
    requires
        cpu.sp == 0xFFFF,
    ensures
        spec_step(
            cpu,
            Instruction::Load16(
                Operand16::Register(Register16::SP),
                Operand16::Immediate(1),
            ),
        ).sp == 0,
{
}

/// XOR self-clear: XOR-ing register A with itself leaves A = 0, from any
/// starting register file.
pub proof fn lemma_xor_self_clears_a(cpu: CPU)
    ensures
        spec_step(cpu, Instruction::Xor(Operand8::Register(Register8::A))).a == 0,
{
    let a = cpu.a;
    assert(a ^ a == 0) by (bit_vector);
}

} // verus!
