use z80_core::addr_e;
use z80_core::alu::CARRY_FLAG;
use z80_core::alu::ZERO_FLAG;
use z80_core::decode;
use z80_core::initial_cpu;
use z80_core::instr_size;
use z80_core::is_implemented;
use z80_core::step;
use z80_core::Instruction::Bit;
use z80_core::Instruction::Halt;
use z80_core::Instruction::Increment;
use z80_core::Instruction::JumpRelative;
use z80_core::Instruction::Load16;
use z80_core::Instruction::Nop;
use z80_core::Instruction::Stop;
use z80_core::Instruction::Xor;
use z80_core::Condition;
use z80_core::Operand16;
use z80_core::Operand8;
use z80_core::Register16::BC;
use z80_core::Register16::SP;
use z80_core::Register8::A;
use z80_core::Register8::B;
use z80_core::Register8::H;

/// Decoding at an instruction boundary and skipping `instr_size` bytes
/// lands exactly on the next boundary: a program concatenated from
/// known-good encodings of every size class decodes back at exactly the
/// offsets it was assembled at, and ends exactly at the buffer's end.
#[test]
fn round_trip_instruction_boundaries() {
    // 3-byte, 3-byte, 2-byte (escape), 2-byte (displacement),
    // 2-byte (immediate), 1-byte, 1-byte, 1-byte, 1-byte.
    let program = [
        0x31, 0xFE, 0xFF, // LD SP, 0xFFFE
        0x21, 0x34, 0x12, // LD HL, 0x1234
        0xCB, 0x7C, // BIT 7, H
        0x20, 0xFB, // JR NZ, -5
        0x0E, 0x11, // LD C, 0x11
        0xAF, // XOR A
        0x04, // INC B
        0x00, // NOP
        0x76, // HALT
    ];
    let assembled_offsets = [0, 3, 6, 8, 10, 12, 13, 14, 15];

    let mut offset = 0;
    let mut boundaries = Vec::new();
    while offset < program.len() {
        boundaries.push(offset);
        let instr = decode(&program, offset).unwrap();
        offset += instr_size(&instr);
    }

    assert_eq!(boundaries, assembled_offsets);
    assert_eq!(offset, program.len());
}

/// An unrecognized primary byte yields an absent result without raising,
/// and decoding at a neighboring valid offset in the same buffer still
/// succeeds.
#[test]
fn unknown_opcode_isolation() {
    let bytes = [0xD3, 0x00, 0xAF];
    assert_eq!(decode(&bytes, 0), None);
    assert_eq!(decode(&bytes, 1).unwrap(), Nop);
    assert_eq!(decode(&bytes, 2).unwrap(), Xor(Operand8::Register(A)));
}

/// An unknown second byte after the 0xCB escape prefix also yields no
/// result.
#[test]
fn decode_cb_unknown_second_byte() {
    let bytes = [0xCB, 0x00];
    assert_eq!(decode(&bytes, 0), None);
}

/// Stepping a fresh register file with a no-op sets the program counter
/// to 1, M to 1, T to 4, and changes no other field.
#[test]
fn step_nop_changes_no_other_field() {
    let mut cpu = initial_cpu();
    step(&mut cpu, Nop);

    assert_eq!(cpu.pc, 1);
    assert_eq!(cpu.m, 1);
    assert_eq!(cpu.t, 4);

    assert_eq!(cpu.a, 0);
    assert_eq!(cpu.b, 0);
    assert_eq!(cpu.c, 0);
    assert_eq!(cpu.d, 0);
    assert_eq!(cpu.e, 0);
    assert_eq!(cpu.h, 0);
    assert_eq!(cpu.l, 0);
    assert_eq!(cpu.flags, 0);
    assert_eq!(cpu.sp, 0);
}

/// XOR-ing register A with itself clears it from every starting value.
#[test]
fn step_xor_a_from_any_value() {
    for start in 0..=255u8 {
        let mut cpu = initial_cpu();
        cpu.a = start;
        step(&mut cpu, Xor(Operand8::Register(A)));
        assert_eq!(cpu.a, 0);
    }
}

/// XOR against another register combines bit patterns into A.
#[test]
fn step_xor_b() {
    let mut cpu = initial_cpu();
    cpu.a = 0b1010_1010;
    cpu.b = 0b0110_0110;
    step(&mut cpu, Xor(Operand8::Register(B)));
    assert_eq!(cpu.a, 0b1100_1100);
    assert_eq!(cpu.b, 0b0110_0110);
}

/// Incrementing an 8-bit register other than A wraps 255 to 0 as well.
#[test]
fn step_inc_h_wraps() {
    let mut cpu = initial_cpu();
    cpu.h = 255;
    step(&mut cpu, Increment(Operand8::Register(H)));
    assert_eq!(cpu.h, 0);
    assert_eq!(cpu.a, 0);
}

/// A 16-bit load into a general register pair puts the immediate's high
/// byte in the first half and its low byte in the second.
#[test]
fn step_ld_bc_immediate() {
    let mut cpu = initial_cpu();
    step(
        &mut cpu,
        Load16(Operand16::Register(BC), Operand16::Immediate(0x9FFE)),
    );
    assert_eq!(cpu.b, 0x9F);
    assert_eq!(cpu.c, 0xFE);
}

/// A 16-bit load targeting the stack pointer *adds* the immediate to the
/// current value instead of replacing it: the two policies differ by
/// destination on purpose.
#[test]
fn step_ld_sp_adds() {
    let mut cpu = initial_cpu();
    cpu.sp = 5;
    step(
        &mut cpu,
        Load16(Operand16::Register(SP), Operand16::Immediate(10)),
    );
    assert_eq!(cpu.sp, 15);
}

/// Adding to the stack pointer at 0xFFFF wraps to 0x0000.
#[test]
fn step_ld_sp_wraps() {
    let mut cpu = initial_cpu();
    cpu.sp = 0xFFFF;
    step(
        &mut cpu,
        Load16(Operand16::Register(SP), Operand16::Immediate(1)),
    );
    assert_eq!(cpu.sp, 0);
}

/// The program counter advances by 1 on every step and wraps at 0xFFFF.
#[test]
fn step_pc_wraps() {
    let mut cpu = initial_cpu();
    cpu.pc = 0xFFFF;
    step(&mut cpu, Nop);
    assert_eq!(cpu.pc, 0);
}

/// A bit test and a relative jump each occupy two bytes: the second
/// opcode byte and the displacement byte count as part of the encoding.
#[test]
fn bit_and_jump_sizes() {
    assert_eq!(instr_size(&Bit(7, Operand8::Register(H))), 2);
    assert_eq!(instr_size(&JumpRelative(Condition::NonZero, -5)), 2);
    assert_eq!(instr_size(&Stop), 1);
    assert_eq!(instr_size(&Halt), 1);
}

/// The engine implements exactly the no-op, register XOR, register
/// increment and immediate 16-bit load shapes; a driver must treat every
/// other decodable shape as a fatal unimplemented operation.
#[test]
fn implemented_shapes() {
    assert!(is_implemented(&Nop));
    assert!(is_implemented(&Xor(Operand8::Register(A))));
    assert!(is_implemented(&Increment(Operand8::Register(B))));
    assert!(is_implemented(&Load16(
        Operand16::Register(SP),
        Operand16::Immediate(1)
    )));

    assert!(!is_implemented(&Halt));
    assert!(!is_implemented(&Stop));
    assert!(!is_implemented(&Xor(Operand8::Immediate(1))));
    assert!(!is_implemented(&Increment(Operand8::MemoryAddress(BC))));
    assert!(!is_implemented(&Bit(7, Operand8::Register(H))));
}

/// A fresh register file is all zeroes.
#[test]
fn initial_cpu_all_zero() {
    let cpu = initial_cpu();
    assert_eq!(cpu.a, 0);
    assert_eq!(cpu.b, 0);
    assert_eq!(cpu.c, 0);
    assert_eq!(cpu.d, 0);
    assert_eq!(cpu.e, 0);
    assert_eq!(cpu.h, 0);
    assert_eq!(cpu.l, 0);
    assert_eq!(cpu.flags, 0);
    assert_eq!(cpu.pc, 0);
    assert_eq!(cpu.sp, 0);
    assert_eq!(cpu.m, 0);
    assert_eq!(cpu.t, 0);
}

/// ADD A, E leaves the plain sum in A and clears the flags when nothing
/// carries and the sum is not zero.
#[test]
fn addr_e_plain_sum() {
    let mut cpu = initial_cpu();
    cpu.a = 2;
    cpu.e = 3;
    addr_e(&mut cpu);
    assert_eq!(cpu.a, 5);
    assert_eq!(cpu.flags, 0);
    assert_eq!(cpu.m, 1);
    assert_eq!(cpu.t, 4);
}

/// ADD A, E with a sum past 255 wraps A and sets the carry flag; the zero
/// flag stays clear even though the wrapped result is zero, because the
/// flag is derived from the widened sum.
#[test]
fn addr_e_carry_wraps() {
    let mut cpu = initial_cpu();
    cpu.a = 254;
    cpu.e = 2;
    addr_e(&mut cpu);
    assert_eq!(cpu.a, 0);
    assert_eq!(cpu.flags, CARRY_FLAG);
}

/// ADD A, E with both registers zero sets the zero flag.
#[test]
fn addr_e_zero_flag() {
    let mut cpu = initial_cpu();
    addr_e(&mut cpu);
    assert_eq!(cpu.a, 0);
    assert_eq!(cpu.flags, ZERO_FLAG);
}
