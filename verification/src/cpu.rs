//! The register file: the CPU's complete addressable state, mutated only
//! through the execution engine and the ALU helpers.

use vstd::prelude::*;

use crate::isa::Register8;

verus! {

/// The Z80 is an 8-bit chip: seven 8-bit general registers plus a combined
/// flags register, two 16-bit pointers, and two 8-bit clock accumulators.
///
/// Every arithmetic update to an 8-bit field wraps modulo 256 and every
/// update to a 16-bit field wraps modulo 65536; no field ever overflows
/// into adjacent state.
#[derive(Clone, Copy, Debug, PartialEq, Eq, Structural)]
pub struct CPU {
    // Generic registers.
    pub a: u8,
    pub b: u8,
    pub c: u8,
    pub d: u8,
    pub e: u8,
    pub h: u8,
    pub l: u8,

    pub flags: u8,

    // Program state.
    pub pc: u16,
    pub sp: u16,

    // Clock.
    pub m: u8,
    pub t: u8,
}

/// The value of the targeted 8-bit register.
pub open spec fn reg8(cpu: CPU, target: Register8) -> u8 {
    match target {
        Register8::A => cpu.a,
        Register8::B => cpu.b,
        Register8::C => cpu.c,
        Register8::D => cpu.d,
        Register8::E => cpu.e,
        Register8::H => cpu.h,
        Register8::L => cpu.l,
    }
}

/// The register file with the targeted 8-bit register replaced by `value`
/// and every other field unchanged.
pub open spec fn set_reg8(cpu: CPU, target: Register8, value: u8) -> CPU {
    match target {
        Register8::A => CPU { a: value, ..cpu },
        Register8::B => CPU { b: value, ..cpu },
        Register8::C => CPU { c: value, ..cpu },
        Register8::D => CPU { d: value, ..cpu },
        Register8::E => CPU { e: value, ..cpu },
        Register8::H => CPU { h: value, ..cpu },
        Register8::L => CPU { l: value, ..cpu },
    }
}

/// A register file with every field zero, the state a driver starts from.
pub fn initial_cpu() -> (cpu: CPU)
    ensures
        cpu == (CPU {
            a: 0,
            b: 0,
            c: 0,
            d: 0,
            e: 0,
            h: 0,
            l: 0,
            flags: 0,
            pc: 0,
            sp: 0,
            m: 0,
            t: 0,
        }),
{
    CPU {
        a: 0,
        b: 0,
        c: 0,
        d: 0,
        e: 0,
        h: 0,
        l: 0,
        flags: 0,
        pc: 0,
        sp: 0,
        m: 0,
        t: 0,
    }
}

/// Get a mutable reference to the targeted register.
pub(crate) fn register8(cpu: &mut CPU, target: Register8) -> (reg: &mut u8)
    ensures
        *reg == reg8(*old(cpu), target),
        *final(cpu) == set_reg8(*old(cpu), target, *final(reg)),
{
    match target {
        Register8::A => &mut cpu.a,
        Register8::B => &mut cpu.b,
        Register8::C => &mut cpu.c,
        Register8::D => &mut cpu.d,
        Register8::E => &mut cpu.e,
        Register8::H => &mut cpu.h,
        Register8::L => &mut cpu.l,
    }
}

} // verus!
