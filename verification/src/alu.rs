//! Flag-computing arithmetic on the register file: the add-register-E
//! operation, which derives zero and carry flags the way the hardware does.

use vstd::prelude::*;

use crate::cpu::CPU;

verus! {

/// Zero flag bit of the flags register.
pub const ZERO_FLAG: u8 = 0x80;

/// Operation (subtract) flag bit of the flags register.
pub const OPERATION_FLAG: u8 = 0x40;

/// Half-carry flag bit of the flags register.
pub const HALF_CARRY_FLAG: u8 = 0x20;

/// Carry flag bit of the flags register.
pub const CARRY_FLAG: u8 = 0x10;

/// The register file after ADD A, E: A takes the sum of A and E modulo
/// 256, the flags register is rebuilt from the widened sum — the zero flag
/// when the sum itself is zero (a sum that wraps to zero sets carry, not
/// zero), the carry flag when the sum exceeds 255 — and the clock resets
/// to M = 1, T = 4. Every other field is unchanged.
pub open spec fn spec_addr_e(cpu: CPU) -> CPU {
    let sum = cpu.a + cpu.e;
    CPU {
        a: (sum % 256) as u8,
        flags: if sum == 0 {
            ZERO_FLAG
        } else if sum > 255 {
            CARRY_FLAG
        } else {
            0
        },
        m: 1,
        t: 4,
        ..cpu
    }
}

/// Add E to A, leaving the result in A (ADD A, E).
pub fn addr_e(cpu: &mut CPU)
    ensures
        *final(cpu) == spec_addr_e(*old(cpu)),
{
    // A larger temporary, so overflow of the 8-bit sum can be detected.
    let result: u16 = cpu.a as u16 + cpu.e as u16;

    if result == 0 {
        cpu.flags = ZERO_FLAG;
    } else if result > 255 {
        cpu.flags = CARRY_FLAG;
    } else {
        cpu.flags = 0;
    }

    cpu.a = (result % 256) as u8;

    cpu.m = 1;
    cpu.t = 4;
}

} // verus!
