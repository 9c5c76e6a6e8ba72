//! The decoder: a pure function from a byte stream and an offset to the
//! typed instruction encoded there, based on the Game-Boy Z80 opcode map.
//!
//! The mapping is a total, static table from byte value (or byte pair, for
//! the 0xCB escape prefix) to instruction shape, enumerated opcode by
//! opcode: the source ISA has no algorithmic structure relating opcode bit
//! patterns to operand choice in the general case.

use vstd::prelude::*;
use vstd::slice::slice_index_get;

use crate::isa::spec_instr_size;
use crate::isa::Condition;
use crate::isa::Instruction;
use crate::isa::Operand16;
use crate::isa::Operand8;
use crate::isa::Register16;
use crate::isa::Register8;

verus! {

broadcast use vstd::slice::group_slice_axioms;

/// How many bytes the decoder consumes for primary opcode byte `opcode`:
/// 3 for the 16-bit-immediate loads, 2 for instructions carrying an 8-bit
/// immediate or displacement and for the 0xCB escape prefix, 1 otherwise
/// (unrecognized bytes included).
pub open spec fn opcode_len(opcode: u8) -> int {
    if opcode == 0x01 || opcode == 0x11 || opcode == 0x21 || opcode == 0x31 {
        3
    } else if opcode == 0x06 || opcode == 0x0E || opcode == 0x16 || opcode == 0x20
        || opcode == 0x26 || opcode == 0x36 || opcode == 0x3E || opcode == 0xCB
        || opcode == 0xEE || opcode == 0xF6 {
        2
    } else {
        1
    }
}

/// How many bytes the decoder will read for primary opcode byte `opcode`,
/// exactly [`opcode_len`]. A driver checks this against the bytes left in
/// its buffer before calling [`decode`]: a truncated trailing instruction
/// is a hard error for the driver to raise, never a wrapped or clamped
/// read.
pub fn opcode_bytes(opcode: u8) -> (n: usize)
    ensures
        n == opcode_len(opcode),
{
    if opcode == 0x01 || opcode == 0x11 || opcode == 0x21 || opcode == 0x31 {
        3
    } else if opcode == 0x06 || opcode == 0x0E || opcode == 0x16 || opcode == 0x20
        || opcode == 0x26 || opcode == 0x36 || opcode == 0x3E || opcode == 0xCB
        || opcode == 0xEE || opcode == 0xF6 {
        2
    } else {
        1
    }
}

/// The 16-bit value encoded little-endian: low byte first.
pub open spec fn spec_le16(lo: u8, hi: u8) -> u16 {
    (hi * 256 + lo) as u16
}

/// The instruction encoded by the escape pair `0xCB b2`: a bit test, or
/// `None` when the second byte has no mapping.
pub open spec fn spec_decode_cb(b2: u8) -> Option<Instruction> {
    match b2 {
        0x40 => Some(Instruction::Bit(0, Operand8::Register(Register8::B))),
        0x41 => Some(Instruction::Bit(0, Operand8::Register(Register8::C))),
        0x42 => Some(Instruction::Bit(0, Operand8::Register(Register8::D))),
        0x43 => Some(Instruction::Bit(0, Operand8::Register(Register8::E))),
        0x44 => Some(Instruction::Bit(0, Operand8::Register(Register8::H))),
        0x45 => Some(Instruction::Bit(0, Operand8::Register(Register8::L))),
        0x46 => Some(Instruction::Bit(0, Operand8::MemoryAddress(Register16::HL))),
        0x50 => Some(Instruction::Bit(2, Operand8::Register(Register8::B))),
        0x51 => Some(Instruction::Bit(2, Operand8::Register(Register8::C))),
        0x52 => Some(Instruction::Bit(2, Operand8::Register(Register8::D))),
        0x53 => Some(Instruction::Bit(2, Operand8::Register(Register8::E))),
        0x54 => Some(Instruction::Bit(2, Operand8::Register(Register8::H))),
        0x55 => Some(Instruction::Bit(2, Operand8::Register(Register8::L))),
        0x56 => Some(Instruction::Bit(2, Operand8::MemoryAddress(Register16::HL))),
        0x7C => Some(Instruction::Bit(7, Operand8::Register(Register8::H))),
        _ => None,
    }
}

/// The instruction encoded in `s` at `i`: the opcode table itself. `None`
/// for a primary byte (or, after 0xCB, a second byte) with no mapping.
pub open spec fn spec_decode(s: Seq<u8>, i: int) -> Option<Instruction> {
    match s[i] {
        0x00 => Some(Instruction::Nop),
        0x01 => Some(Instruction::Load16(
            Operand16::Register(Register16::BC),
            Operand16::Immediate(spec_le16(s[i + 1], s[i + 2])),
        )),
        0x02 => Some(Instruction::Load(
            Operand8::MemoryAddress(Register16::BC),
            Operand8::Register(Register8::A),
        )),
        0x03 => Some(Instruction::Increment16(Operand16::Register(Register16::BC))),
        0x04 => Some(Instruction::Increment(Operand8::Register(Register8::B))),
        0x05 => Some(Instruction::Decrement(Operand8::Register(Register8::B))),
        0x06 => Some(Instruction::Load(
            Operand8::Register(Register8::B),
            Operand8::Immediate(s[i + 1]),
        )),
        0x0B => Some(Instruction::Decrement16(Operand16::Register(Register16::BC))),
        0x0C => Some(Instruction::Increment(Operand8::Register(Register8::C))),
        0x0D => Some(Instruction::Decrement(Operand8::Register(Register8::C))),
        0x0E => Some(Instruction::Load(
            Operand8::Register(Register8::C),
            Operand8::Immediate(s[i + 1]),
        )),
        0x10 => Some(Instruction::Stop),
        0x11 => Some(Instruction::Load16(
            Operand16::Register(Register16::DE),
            Operand16::Immediate(spec_le16(s[i + 1], s[i + 2])),
        )),
        0x12 => Some(Instruction::Load(
            Operand8::MemoryAddress(Register16::DE),
            Operand8::Register(Register8::A),
        )),
        0x13 => Some(Instruction::Increment16(Operand16::Register(Register16::DE))),
        0x14 => Some(Instruction::Increment(Operand8::Register(Register8::D))),
        0x15 => Some(Instruction::Decrement(Operand8::Register(Register8::D))),
        0x16 => Some(Instruction::Load(
            Operand8::Register(Register8::D),
            Operand8::Immediate(s[i + 1]),
        )),
        0x1B => Some(Instruction::Decrement16(Operand16::Register(Register16::DE))),
        0x1C => Some(Instruction::Increment(Operand8::Register(Register8::E))),
        0x1D => Some(Instruction::Decrement(Operand8::Register(Register8::E))),
        0x20 => Some(Instruction::JumpRelative(Condition::NonZero, s[i + 1] as i8)),
        0x21 => Some(Instruction::Load16(
            Operand16::Register(Register16::HL),
            Operand16::Immediate(spec_le16(s[i + 1], s[i + 2])),
        )),
        0x22 => Some(Instruction::LoadIncrement(
            Operand8::MemoryAddress(Register16::HL),
            Operand8::Register(Register8::A),
        )),
        0x23 => Some(Instruction::Increment16(Operand16::Register(Register16::HL))),
        0x24 => Some(Instruction::Increment(Operand8::Register(Register8::H))),
        0x25 => Some(Instruction::Decrement(Operand8::Register(Register8::H))),
        0x26 => Some(Instruction::Load(
            Operand8::Register(Register8::H),
            Operand8::Immediate(s[i + 1]),
        )),
        0x2B => Some(Instruction::Decrement16(Operand16::Register(Register16::HL))),
        0x2C => Some(Instruction::Increment(Operand8::Register(Register8::L))),
        0x2D => Some(Instruction::Decrement(Operand8::Register(Register8::L))),
        0x31 => Some(Instruction::Load16(
            Operand16::Register(Register16::SP),
            Operand16::Immediate(spec_le16(s[i + 1], s[i + 2])),
        )),
        0x32 => Some(Instruction::LoadDecrement(
            Operand8::MemoryAddress(Register16::HL),
            Operand8::Register(Register8::A),
        )),
        0x33 => Some(Instruction::Increment16(Operand16::Register(Register16::SP))),
        0x34 => Some(Instruction::Increment(Operand8::MemoryAddress(Register16::HL))),
        0x35 => Some(Instruction::Decrement(Operand8::MemoryAddress(Register16::HL))),
        0x36 => Some(Instruction::Load(
            Operand8::MemoryAddress(Register16::HL),
            Operand8::Immediate(s[i + 1]),
        )),
        0x3B => Some(Instruction::Decrement16(Operand16::Register(Register16::SP))),
        0x3C => Some(Instruction::Increment(Operand8::Register(Register8::A))),
        0x3D => Some(Instruction::Decrement(Operand8::Register(Register8::A))),
        0x3E => Some(Instruction::Load(
            Operand8::Register(Register8::A),
            Operand8::Immediate(s[i + 1]),
        )),
        0x76 => Some(Instruction::Halt),
        0x77 => Some(Instruction::Load(
            Operand8::MemoryAddress(Register16::HL),
            Operand8::Register(Register8::A),
        )),
        0xA8 => Some(Instruction::Xor(Operand8::Register(Register8::B))),
        0xA9 => Some(Instruction::Xor(Operand8::Register(Register8::C))),
        0xAA => Some(Instruction::Xor(Operand8::Register(Register8::D))),
        0xAB => Some(Instruction::Xor(Operand8::Register(Register8::E))),
        0xAC => Some(Instruction::Xor(Operand8::Register(Register8::H))),
        0xAD => Some(Instruction::Xor(Operand8::Register(Register8::L))),
        0xAE => Some(Instruction::Xor(Operand8::MemoryAddress(Register16::HL))),
        0xAF => Some(Instruction::Xor(Operand8::Register(Register8::A))),
        0xB0 => Some(Instruction::Or(Operand8::Register(Register8::B))),
        0xB1 => Some(Instruction::Or(Operand8::Register(Register8::C))),
        0xB2 => Some(Instruction::Or(Operand8::Register(Register8::D))),
        0xB3 => Some(Instruction::Or(Operand8::Register(Register8::E))),
        0xB4 => Some(Instruction::Or(Operand8::Register(Register8::H))),
        0xB5 => Some(Instruction::Or(Operand8::Register(Register8::L))),
        0xB6 => Some(Instruction::Or(Operand8::MemoryAddress(Register16::HL))),
        0xB7 => Some(Instruction::Or(Operand8::Register(Register8::A))),
        0xCB => spec_decode_cb(s[i + 1]),
        0xE2 => Some(Instruction::Load(
            Operand8::MemoryAddressWithOffset(Register8::C, 0xFF00),
            Operand8::Register(Register8::A),
        )),
        0xEE => Some(Instruction::Xor(Operand8::Immediate(s[i + 1]))),
        0xF6 => Some(Instruction::Or(Operand8::Immediate(s[i + 1]))),
        _ => None,
    }
}

/// Round-trip size consistency: for every instruction the decoder can
/// produce, the size calculator reports exactly the number of bytes the
/// decoder consumed for it. A driver that decodes at some offset and then
/// skips `spec_instr_size` bytes therefore lands exactly on the next
/// instruction boundary, across any program built by concatenating
/// known-good encodings.
pub proof fn lemma_decode_size_consistent(s: Seq<u8>, i: int, instr: Instruction)
    requires
        spec_decode(s, i) == Some(instr),
    ensures
        spec_instr_size(instr) == opcode_len(s[i]),
{
}

/// Decoding reads nothing outside its window: two byte streams that agree
/// on the `opcode_len` bytes at the two offsets decode to the same result.
/// In particular one unrecognized byte elsewhere in a buffer cannot
/// disturb decoding at a valid offset.
pub proof fn lemma_decode_local(s1: Seq<u8>, i1: int, s2: Seq<u8>, i2: int)
    requires
        forall|k: int| 0 <= k < opcode_len(s1[i1]) ==> s1[i1 + k] == #[trigger] s2[i2 + k],
    ensures
        spec_decode(s1, i1) == spec_decode(s2, i2),
{
    assert(s1[i1 + 0] == s2[i2 + 0]);
    assert(s1[i1] == s2[i2]);
    if opcode_len(s1[i1]) >= 2 {
        assert(s1[i1 + 1] == s2[i2 + 1]);
    }
    if opcode_len(s1[i1]) == 3 {
        assert(s1[i1 + 2] == s2[i2 + 2]);
    }
}

/// Decode little-endian bytes at `offset` as a 16-bit immediate.
fn decode_immediate16(bytes: &[u8], offset: usize) -> (op: Operand16)
    requires
        offset + 1 < bytes@.len(),
    ensures
        op == Operand16::Immediate(spec_le16(bytes@[offset as int], bytes@[offset as int + 1])),
{
    proof {
        // A slice's length fits in usize, so neither index below overflows.
        assert(vstd::slice::spec_slice_len(bytes) == bytes@.len());
    }
    let low_byte = *slice_index_get(bytes, offset) as u16;
    let high_byte = *slice_index_get(bytes, offset + 1) as u16;

    Operand16::Immediate(high_byte * 256 + low_byte)
}

/// Decode the byte at `offset` as an 8-bit immediate.
fn decode_immediate8(bytes: &[u8], offset: usize) -> (op: Operand8)
    requires
        offset < bytes@.len(),
    ensures
        op == Operand8::Immediate(bytes@[offset as int]),
{
    Operand8::Immediate(*slice_index_get(bytes, offset))
}

/// Given a position in a byte array, return the instruction at that point,
/// exactly the entry of the opcode table [`spec_decode`]. The caller keeps
/// the offset in bounds and, for the immediate-carrying and escape-prefixed
/// opcodes, leaves enough trailing bytes ([`opcode_len`]): the decoder never
/// reads outside that window.
pub fn decode(bytes: &[u8], offset: usize) -> (instr: Option<Instruction>)
    requires
        offset < bytes@.len(),
        offset + opcode_len(bytes@[offset as int]) <= bytes@.len(),
    ensures
        instr == spec_decode(bytes@, offset as int),
{
    proof {
        // A slice's length fits in usize, so the offsets of the immediate
        // bytes, kept under the length by the precondition, do not overflow.
        assert(vstd::slice::spec_slice_len(bytes) == bytes@.len());
    }
    let opcode = *slice_index_get(bytes, offset);
    match opcode {
        0x00 => Some(Instruction::Nop),
        0x01 => Some(Instruction::Load16(
            Operand16::Register(Register16::BC),
            decode_immediate16(bytes, offset + 1),
        )),
        0x02 => Some(Instruction::Load(
            Operand8::MemoryAddress(Register16::BC),
            Operand8::Register(Register8::A),
        )),
        0x03 => Some(Instruction::Increment16(Operand16::Register(Register16::BC))),
        0x04 => Some(Instruction::Increment(Operand8::Register(Register8::B))),
        0x05 => Some(Instruction::Decrement(Operand8::Register(Register8::B))),
        0x06 => Some(Instruction::Load(
            Operand8::Register(Register8::B),
            decode_immediate8(bytes, offset + 1),
        )),
        0x0B => Some(Instruction::Decrement16(Operand16::Register(Register16::BC))),
        0x0C => Some(Instruction::Increment(Operand8::Register(Register8::C))),
        0x0D => Some(Instruction::Decrement(Operand8::Register(Register8::C))),
        0x0E => Some(Instruction::Load(
            Operand8::Register(Register8::C),
            Operand8::Immediate(*slice_index_get(bytes, offset + 1)),
        )),
        0x10 => Some(Instruction::Stop),
        0x11 => Some(Instruction::Load16(
            Operand16::Register(Register16::DE),
            decode_immediate16(bytes, offset + 1),
        )),
        0x12 => Some(Instruction::Load(
            Operand8::MemoryAddress(Register16::DE),
            Operand8::Register(Register8::A),
        )),
        0x13 => Some(Instruction::Increment16(Operand16::Register(Register16::DE))),
        0x14 => Some(Instruction::Increment(Operand8::Register(Register8::D))),
        0x15 => Some(Instruction::Decrement(Operand8::Register(Register8::D))),
        0x16 => Some(Instruction::Load(
            Operand8::Register(Register8::D),
            decode_immediate8(bytes, offset + 1),
        )),
        0x1B => Some(Instruction::Decrement16(Operand16::Register(Register16::DE))),
        0x1C => Some(Instruction::Increment(Operand8::Register(Register8::E))),
        0x1D => Some(Instruction::Decrement(Operand8::Register(Register8::E))),
        0x20 => {
            let addr_offset = #[verifier::truncate] (*slice_index_get(bytes, offset + 1) as i8);
            Some(Instruction::JumpRelative(Condition::NonZero, addr_offset))
        }
        0x21 => Some(Instruction::Load16(
            Operand16::Register(Register16::HL),
            decode_immediate16(bytes, offset + 1),
        )),
        0x22 => Some(Instruction::LoadIncrement(
            Operand8::MemoryAddress(Register16::HL),
            Operand8::Register(Register8::A),
        )),
        0x23 => Some(Instruction::Increment16(Operand16::Register(Register16::HL))),
        0x24 => Some(Instruction::Increment(Operand8::Register(Register8::H))),
        0x25 => Some(Instruction::Decrement(Operand8::Register(Register8::H))),
        0x26 => Some(Instruction::Load(
            Operand8::Register(Register8::H),
            decode_immediate8(bytes, offset + 1),
        )),
        0x2B => Some(Instruction::Decrement16(Operand16::Register(Register16::HL))),
        0x2C => Some(Instruction::Increment(Operand8::Register(Register8::L))),
        0x2D => Some(Instruction::Decrement(Operand8::Register(Register8::L))),
        0x31 => Some(Instruction::Load16(
            Operand16::Register(Register16::SP),
            decode_immediate16(bytes, offset + 1),
        )),
        0x32 => Some(Instruction::LoadDecrement(
            Operand8::MemoryAddress(Register16::HL),
            Operand8::Register(Register8::A),
        )),
        0x33 => Some(Instruction::Increment16(Operand16::Register(Register16::SP))),
        0x34 => Some(Instruction::Increment(Operand8::MemoryAddress(Register16::HL))),
        0x35 => Some(Instruction::Decrement(Operand8::MemoryAddress(Register16::HL))),
        0x36 => Some(Instruction::Load(
            Operand8::MemoryAddress(Register16::HL),
            decode_immediate8(bytes, offset + 1),
        )),
        0x3B => Some(Instruction::Decrement16(Operand16::Register(Register16::SP))),
        0x3C => Some(Instruction::Increment(Operand8::Register(Register8::A))),
        0x3D => Some(Instruction::Decrement(Operand8::Register(Register8::A))),
        0x3E => Some(Instruction::Load(
            Operand8::Register(Register8::A),
            Operand8::Immediate(*slice_index_get(bytes, offset + 1)),
        )),
        0x76 => Some(Instruction::Halt),
        0x77 => Some(Instruction::Load(
            Operand8::MemoryAddress(Register16::HL),
            Operand8::Register(Register8::A),
        )),
        0xA8 => Some(Instruction::Xor(Operand8::Register(Register8::B))),
        0xA9 => Some(Instruction::Xor(Operand8::Register(Register8::C))),
        0xAA => Some(Instruction::Xor(Operand8::Register(Register8::D))),
        0xAB => Some(Instruction::Xor(Operand8::Register(Register8::E))),
        0xAC => Some(Instruction::Xor(Operand8::Register(Register8::H))),
        0xAD => Some(Instruction::Xor(Operand8::Register(Register8::L))),
        0xAE => Some(Instruction::Xor(Operand8::MemoryAddress(Register16::HL))),
        0xAF => Some(Instruction::Xor(Operand8::Register(Register8::A))),
        0xB0 => Some(Instruction::Or(Operand8::Register(Register8::B))),
        0xB1 => Some(Instruction::Or(Operand8::Register(Register8::C))),
        0xB2 => Some(Instruction::Or(Operand8::Register(Register8::D))),
        0xB3 => Some(Instruction::Or(Operand8::Register(Register8::E))),
        0xB4 => Some(Instruction::Or(Operand8::Register(Register8::H))),
        0xB5 => Some(Instruction::Or(Operand8::Register(Register8::L))),
        0xB6 => Some(Instruction::Or(Operand8::MemoryAddress(Register16::HL))),
        0xB7 => Some(Instruction::Or(Operand8::Register(Register8::A))),
        // 0xCB is the prefix for two-byte instructions.
        0xCB => {
            match *slice_index_get(bytes, offset + 1) {
                0x40 => Some(Instruction::Bit(0, Operand8::Register(Register8::B))),
                0x41 => Some(Instruction::Bit(0, Operand8::Register(Register8::C))),
                0x42 => Some(Instruction::Bit(0, Operand8::Register(Register8::D))),
                0x43 => Some(Instruction::Bit(0, Operand8::Register(Register8::E))),
                0x44 => Some(Instruction::Bit(0, Operand8::Register(Register8::H))),
                0x45 => Some(Instruction::Bit(0, Operand8::Register(Register8::L))),
                0x46 => Some(Instruction::Bit(0, Operand8::MemoryAddress(Register16::HL))),
                0x50 => Some(Instruction::Bit(2, Operand8::Register(Register8::B))),
                0x51 => Some(Instruction::Bit(2, Operand8::Register(Register8::C))),
                0x52 => Some(Instruction::Bit(2, Operand8::Register(Register8::D))),
                0x53 => Some(Instruction::Bit(2, Operand8::Register(Register8::E))),
                0x54 => Some(Instruction::Bit(2, Operand8::Register(Register8::H))),
                0x55 => Some(Instruction::Bit(2, Operand8::Register(Register8::L))),
                0x56 => Some(Instruction::Bit(2, Operand8::MemoryAddress(Register16::HL))),
                0x7C => Some(Instruction::Bit(7, Operand8::Register(Register8::H))),
                _ => None,
            }
        }
        0xE2 => Some(Instruction::Load(
            Operand8::MemoryAddressWithOffset(Register8::C, 0xFF00),
            Operand8::Register(Register8::A),
        )),
        0xEE => Some(Instruction::Xor(Operand8::Immediate(*slice_index_get(bytes, offset + 1)))),
        0xF6 => Some(Instruction::Or(Operand8::Immediate(*slice_index_get(bytes, offset + 1)))),
        _ => None,
    }
}

} // verus!
