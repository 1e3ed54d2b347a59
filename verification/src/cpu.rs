//! The CPU execution engine: fetch, decode and execute against the memory
//! bus. It owns the register file, the program counter and the stack
//! pointer; every arithmetic helper states its result and its flag policy
//! exactly, and failures surface as typed results rather than crashes.

use vstd::prelude::*;

use crate::cartridge::spec_header_error;
use crate::cartridge::spec_matches_header;
use crate::cartridge::CartridgeController;
use crate::cartridge::CartridgeError;
use crate::instructions::spec_from_byte;
use crate::instructions::AdcTargetType;
use crate::instructions::AddByteTarget;
use crate::instructions::AddTargetType;
use crate::instructions::AndTargetType;
use crate::instructions::ArithmeticByteTarget;
use crate::instructions::ArithmeticTargetType;
use crate::instructions::ArithmeticWordTarget;
use crate::instructions::BitPosition;
use crate::instructions::BitRegister;
use crate::instructions::CPByteTarget;
use crate::instructions::Instruction;
use crate::instructions::JpAddrLoc;
use crate::instructions::JumpTest;
use crate::instructions::LdByteAddress;
use crate::instructions::LdIndirectAddr;
use crate::instructions::LoadByteSource;
use crate::instructions::LoadByteTarget;
use crate::instructions::LoadType;
use crate::instructions::LoadWordSource;
use crate::instructions::LoadWordTarget;
use crate::instructions::ORTargetType;
use crate::instructions::SBCByteTarget;
use crate::instructions::StackTarget;
use crate::instructions::SubByteTarget;
use crate::instructions::XORTargetType;
use crate::memory::bus_write_rel;
use crate::memory::flat_writable;
use crate::memory::MemoryBus;
use crate::ppu::PPU;
use crate::registers::high_byte;
use crate::registers::lemma_register_pair_round_trip;
use crate::registers::low_byte;
use crate::registers::word_from_bytes;
use crate::registers::FlagsRegister;
use crate::registers::Registers;

verus! {

/// Why a CPU step failed. No failure is recovered locally: the run loop
/// stops so that a host can present the diagnostic.
#[derive(Clone, Copy, Debug, PartialEq, Eq, Structural)]
pub enum CpuError {
    /// The fetched opcode byte (with its prefix flag) decodes to no
    /// instruction; the program counter names where it was fetched.
    UnknownInstruction { byte: u8, prefixed: bool, pc: u16 },
    /// The instruction is defined by the decoder but not implemented by the
    /// execution engine.
    Unimplemented(Instruction),
}

/// The jump-test predicates of conditional control transfers.
pub open spec fn spec_jmp_test(f: FlagsRegister, test: JumpTest) -> bool {
    match test {
        JumpTest::NotZero => !f.zero,
        JumpTest::NotCarry => !f.carry,
        JumpTest::Zero => f.zero,
        JumpTest::Carry => f.carry,
        JumpTest::Always => true,
    }
}

/// The instructions the execution engine implements: everything the decoder
/// defines except decimal adjustment and STOP, which fail as known but not
/// coded.
pub open spec fn spec_implemented(instruction: Instruction) -> bool {
    !(instruction is DAA || instruction is STOP)
}

/// The byte operand named by an arithmetic target: a register, the byte at
/// the address in HL, or the immediate after the opcode.
pub open spec fn spec_operand_adc(cpu: CPU, target: AdcTargetType) -> u8 {
    match target {
        AdcTargetType::A => cpu.registers.a,
        AdcTargetType::B => cpu.registers.b,
        AdcTargetType::C => cpu.registers.c,
        AdcTargetType::D => cpu.registers.d,
        AdcTargetType::E => cpu.registers.e,
        AdcTargetType::H => cpu.registers.h,
        AdcTargetType::L => cpu.registers.l,
        AdcTargetType::HLI => cpu.bus.spec_read(cpu.registers.spec_hl()),
        AdcTargetType::D8 => cpu.bus.spec_read(cpu.pc.wrapping_add(1)),
    }
}

/// The byte operand named by an arithmetic target: a register, the byte at
/// the address in HL, or the immediate after the opcode.
pub open spec fn spec_operand_add(cpu: CPU, target: AddByteTarget) -> u8 {
    match target {
        AddByteTarget::A => cpu.registers.a,
        AddByteTarget::B => cpu.registers.b,
        AddByteTarget::C => cpu.registers.c,
        AddByteTarget::D => cpu.registers.d,
        AddByteTarget::E => cpu.registers.e,
        AddByteTarget::H => cpu.registers.h,
        AddByteTarget::L => cpu.registers.l,
        AddByteTarget::HLI => cpu.bus.spec_read(cpu.registers.spec_hl()),
        AddByteTarget::D8 => cpu.bus.spec_read(cpu.pc.wrapping_add(1)),
    }
}

/// The byte operand named by an arithmetic target: a register, the byte at
/// the address in HL, or the immediate after the opcode.
pub open spec fn spec_operand_and(cpu: CPU, target: AndTargetType) -> u8 {
    match target {
        AndTargetType::A => cpu.registers.a,
        AndTargetType::B => cpu.registers.b,
        AndTargetType::C => cpu.registers.c,
        AndTargetType::D => cpu.registers.d,
        AndTargetType::E => cpu.registers.e,
        AndTargetType::H => cpu.registers.h,
        AndTargetType::L => cpu.registers.l,
        AndTargetType::HLI => cpu.bus.spec_read(cpu.registers.spec_hl()),
        AndTargetType::D8 => cpu.bus.spec_read(cpu.pc.wrapping_add(1)),
    }
}

/// The byte operand named by an arithmetic target: a register, the byte at
/// the address in HL, or the immediate after the opcode.
pub open spec fn spec_operand_or(cpu: CPU, target: ORTargetType) -> u8 {
    match target {
        ORTargetType::A => cpu.registers.a,
        ORTargetType::B => cpu.registers.b,
        ORTargetType::C => cpu.registers.c,
        ORTargetType::D => cpu.registers.d,
        ORTargetType::E => cpu.registers.e,
        ORTargetType::H => cpu.registers.h,
        ORTargetType::L => cpu.registers.l,
        ORTargetType::HLI => cpu.bus.spec_read(cpu.registers.spec_hl()),
        ORTargetType::D8 => cpu.bus.spec_read(cpu.pc.wrapping_add(1)),
    }
}

/// The byte operand named by an arithmetic target: a register, the byte at
/// the address in HL, or the immediate after the opcode.
pub open spec fn spec_operand_xor(cpu: CPU, target: XORTargetType) -> u8 {
    match target {
        XORTargetType::A => cpu.registers.a,
        XORTargetType::B => cpu.registers.b,
        XORTargetType::C => cpu.registers.c,
        XORTargetType::D => cpu.registers.d,
        XORTargetType::E => cpu.registers.e,
        XORTargetType::H => cpu.registers.h,
        XORTargetType::L => cpu.registers.l,
        XORTargetType::HLI => cpu.bus.spec_read(cpu.registers.spec_hl()),
        XORTargetType::D8 => cpu.bus.spec_read(cpu.pc.wrapping_add(1)),
    }
}

/// The byte operand named by an arithmetic target: a register, the byte at
/// the address in HL, or the immediate after the opcode.
pub open spec fn spec_operand_sub(cpu: CPU, target: SubByteTarget) -> u8 {
    match target {
        SubByteTarget::A => cpu.registers.a,
        SubByteTarget::B => cpu.registers.b,
        SubByteTarget::C => cpu.registers.c,
        SubByteTarget::D => cpu.registers.d,
        SubByteTarget::E => cpu.registers.e,
        SubByteTarget::H => cpu.registers.h,
        SubByteTarget::L => cpu.registers.l,
        SubByteTarget::HLI => cpu.bus.spec_read(cpu.registers.spec_hl()),
        SubByteTarget::D8 => cpu.bus.spec_read(cpu.pc.wrapping_add(1)),
    }
}

/// The byte operand named by an arithmetic target: a register, the byte at
/// the address in HL, or the immediate after the opcode.
pub open spec fn spec_operand_cp(cpu: CPU, target: CPByteTarget) -> u8 {
    match target {
        CPByteTarget::A => cpu.registers.a,
        CPByteTarget::B => cpu.registers.b,
        CPByteTarget::C => cpu.registers.c,
        CPByteTarget::D => cpu.registers.d,
        CPByteTarget::E => cpu.registers.e,
        CPByteTarget::H => cpu.registers.h,
        CPByteTarget::L => cpu.registers.l,
        CPByteTarget::HLI => cpu.bus.spec_read(cpu.registers.spec_hl()),
        CPByteTarget::D8 => cpu.bus.spec_read(cpu.pc.wrapping_add(1)),
    }
}

/// The byte operand named by an arithmetic target: a register, the byte at
/// the address in HL, or the immediate after the opcode.
pub open spec fn spec_operand_sbc(cpu: CPU, target: SBCByteTarget) -> u8 {
    match target {
        SBCByteTarget::A => cpu.registers.a,
        SBCByteTarget::B => cpu.registers.b,
        SBCByteTarget::C => cpu.registers.c,
        SBCByteTarget::D => cpu.registers.d,
        SBCByteTarget::E => cpu.registers.e,
        SBCByteTarget::H => cpu.registers.h,
        SBCByteTarget::L => cpu.registers.l,
        SBCByteTarget::HLI => cpu.bus.spec_read(cpu.registers.spec_hl()),
        SBCByteTarget::D8 => cpu.bus.spec_read(cpu.pc.wrapping_add(1)),
    }
}

/// The mask with only the named bit set.
pub open spec fn spec_bit_mask(position: BitPosition) -> u8 {
    match position {
        BitPosition::Zero => 1u8,
        BitPosition::One => 2u8,
        BitPosition::Two => 4u8,
        BitPosition::Three => 8u8,
        BitPosition::Four => 16u8,
        BitPosition::Five => 32u8,
        BitPosition::Six => 64u8,
        BitPosition::Seven => 128u8,
    }
}

/// The byte an 8-bit arithmetic target currently holds: a register or the
/// byte at the address in HL.
pub open spec fn spec_operand_r8(cpu: CPU, target: ArithmeticByteTarget) -> u8 {
    match target {
        ArithmeticByteTarget::A => cpu.registers.a,
        ArithmeticByteTarget::B => cpu.registers.b,
        ArithmeticByteTarget::C => cpu.registers.c,
        ArithmeticByteTarget::D => cpu.registers.d,
        ArithmeticByteTarget::E => cpu.registers.e,
        ArithmeticByteTarget::H => cpu.registers.h,
        ArithmeticByteTarget::L => cpu.registers.l,
        ArithmeticByteTarget::HLI => cpu.bus.spec_read(cpu.registers.spec_hl()),
    }
}

/// The byte a bit-instruction register operand currently holds.
pub open spec fn spec_operand_bit(cpu: CPU, register: BitRegister) -> u8 {
    match register {
        BitRegister::A => cpu.registers.a,
        BitRegister::B => cpu.registers.b,
        BitRegister::C => cpu.registers.c,
        BitRegister::D => cpu.registers.d,
        BitRegister::E => cpu.registers.e,
        BitRegister::H => cpu.registers.h,
        BitRegister::L => cpu.registers.l,
        BitRegister::HLI => cpu.bus.spec_read(cpu.registers.spec_hl()),
    }
}

/// The machine after value `v` and flags `f` are stored through an 8-bit
/// arithmetic target: a register write leaves the bus alone, while the HL
/// target sends the byte through the ordinary bus write dispatch.
pub open spec fn spec_r8_written(pre: CPU, post: CPU, target: ArithmeticByteTarget, v: u8, f: FlagsRegister) -> bool {
    match target {
        ArithmeticByteTarget::A => post == (CPU { registers: Registers { a: v, f, ..pre.registers }, ..pre }),
        ArithmeticByteTarget::B => post == (CPU { registers: Registers { b: v, f, ..pre.registers }, ..pre }),
        ArithmeticByteTarget::C => post == (CPU { registers: Registers { c: v, f, ..pre.registers }, ..pre }),
        ArithmeticByteTarget::D => post == (CPU { registers: Registers { d: v, f, ..pre.registers }, ..pre }),
        ArithmeticByteTarget::E => post == (CPU { registers: Registers { e: v, f, ..pre.registers }, ..pre }),
        ArithmeticByteTarget::H => post == (CPU { registers: Registers { h: v, f, ..pre.registers }, ..pre }),
        ArithmeticByteTarget::L => post == (CPU { registers: Registers { l: v, f, ..pre.registers }, ..pre }),
        ArithmeticByteTarget::HLI => {
            &&& post.registers == (Registers { f, ..pre.registers })
            &&& post.pc == pre.pc
            &&& post.sp == pre.sp
            &&& post.is_halted == pre.is_halted
            &&& bus_write_rel(pre.bus, post.bus, pre.registers.spec_hl(), v)
        },
    }
}

/// As `spec_r8_written`, for the bit-instruction register operands; the
/// flags are untouched.
pub open spec fn spec_bitreg_written(pre: CPU, post: CPU, register: BitRegister, v: u8) -> bool {
    match register {
        BitRegister::A => post == (CPU { registers: Registers { a: v, ..pre.registers }, ..pre }),
        BitRegister::B => post == (CPU { registers: Registers { b: v, ..pre.registers }, ..pre }),
        BitRegister::C => post == (CPU { registers: Registers { c: v, ..pre.registers }, ..pre }),
        BitRegister::D => post == (CPU { registers: Registers { d: v, ..pre.registers }, ..pre }),
        BitRegister::E => post == (CPU { registers: Registers { e: v, ..pre.registers }, ..pre }),
        BitRegister::H => post == (CPU { registers: Registers { h: v, ..pre.registers }, ..pre }),
        BitRegister::L => post == (CPU { registers: Registers { l: v, ..pre.registers }, ..pre }),
        BitRegister::HLI => {
            &&& post.registers == pre.registers
            &&& post.pc == pre.pc
            &&& post.sp == pre.sp
            &&& post.is_halted == pre.is_halted
            &&& bus_write_rel(pre.bus, post.bus, pre.registers.spec_hl(), v)
        },
    }
}

/// The machine after a plain byte load stores `v` through a load target.
pub open spec fn spec_ld_target_written(pre: CPU, post: CPU, target: LoadByteTarget, v: u8) -> bool {
    match target {
        LoadByteTarget::A => post == (CPU { registers: Registers { a: v, ..pre.registers }, ..pre }),
        LoadByteTarget::B => post == (CPU { registers: Registers { b: v, ..pre.registers }, ..pre }),
        LoadByteTarget::C => post == (CPU { registers: Registers { c: v, ..pre.registers }, ..pre }),
        LoadByteTarget::D => post == (CPU { registers: Registers { d: v, ..pre.registers }, ..pre }),
        LoadByteTarget::E => post == (CPU { registers: Registers { e: v, ..pre.registers }, ..pre }),
        LoadByteTarget::H => post == (CPU { registers: Registers { h: v, ..pre.registers }, ..pre }),
        LoadByteTarget::L => post == (CPU { registers: Registers { l: v, ..pre.registers }, ..pre }),
        LoadByteTarget::HLI => {
            &&& post.registers == pre.registers
            &&& post.pc == pre.pc
            &&& post.sp == pre.sp
            &&& post.is_halted == pre.is_halted
            &&& bus_write_rel(pre.bus, post.bus, pre.registers.spec_hl(), v)
        },
    }
}

/// The byte a load source names.
pub open spec fn spec_ld_source(cpu: CPU, source: LoadByteSource) -> u8 {
    match source {
        LoadByteSource::A => cpu.registers.a,
        LoadByteSource::B => cpu.registers.b,
        LoadByteSource::C => cpu.registers.c,
        LoadByteSource::D => cpu.registers.d,
        LoadByteSource::E => cpu.registers.e,
        LoadByteSource::H => cpu.registers.h,
        LoadByteSource::L => cpu.registers.l,
        LoadByteSource::D8 => cpu.bus.spec_read(cpu.pc.wrapping_add(1)),
        LoadByteSource::HLI => cpu.bus.spec_read(cpu.registers.spec_hl()),
    }
}

#[derive(Debug)]
pub struct CPU {
    pub registers: Registers,
    pub pc: u16,
    pub sp: u16,
    pub bus: MemoryBus,
    pub is_halted: bool,
}

/// The exact machine effect of the `ADC` family: how the state after relates to the state before, and the
/// next program counter handed back.
pub open spec fn spec_exec_adc(pre: CPU, post: CPU, target: AdcTargetType, next_pc: u16) -> bool {
    &&& ({
                let v = spec_operand_adc(pre, target).wrapping_add(
                    if pre.registers.f.carry { 1u8 } else { 0u8 },
                );
                let a = pre.registers.a;
                post == (CPU {
                    registers: Registers {
                        a: a.wrapping_add(v),
                        f: FlagsRegister {
                            zero: a.wrapping_add(v) == 0,
                            subtraction: false,
                            half_carry: (a & 0xF) + (v & 0xF) > 0xF,
                            carry: a + v > 255,
                        },
                        ..pre.registers
                    },
                    ..pre
                })
            })
    &&& next_pc == pre.pc.wrapping_add(if target is D8 { 2u16 } else { 1u16 })
}

/// The exact machine effect of the `ADD` family: how the state after relates to the state before, and the
/// next program counter handed back.
pub open spec fn spec_exec_add(pre: CPU, post: CPU, arithmetic_type: AddTargetType, next_pc: u16) -> bool {
    &&& arithmetic_type matches AddTargetType::Byte(t) ==> ({
                let v = spec_operand_add(pre, t);
                let a = pre.registers.a;
                post == (CPU {
                    registers: Registers {
                        a: a.wrapping_add(v),
                        f: FlagsRegister {
                            zero: a.wrapping_add(v) == 0,
                            subtraction: false,
                            half_carry: (a & 0xF) + (v & 0xF) > 0xF,
                            carry: a + v > 255,
                        },
                        ..pre.registers
                    },
                    ..pre
                }) && next_pc == pre.pc.wrapping_add(if t is D8 { 2u16 } else { 1u16 })
            })
    &&& arithmetic_type matches AddTargetType::Word(w) ==> ({
                let v: u16 = match w {
                    ArithmeticWordTarget::BC => pre.registers.spec_bc(),
                    ArithmeticWordTarget::DE => pre.registers.spec_de(),
                    ArithmeticWordTarget::HL => pre.registers.spec_hl(),
                    ArithmeticWordTarget::SP => pre.sp,
                };
                let hl = pre.registers.spec_hl();
                let hl2 = hl.wrapping_add(v);
                post == (CPU {
                    registers: Registers {
                        h: high_byte(hl2),
                        l: low_byte(hl2),
                        f: FlagsRegister {
                            zero: hl2 == 0,
                            subtraction: false,
                            half_carry: (hl & 0xFFF) + (v & 0xFFF) > 0xFFF,
                            carry: hl + v > 0xFFFF,
                        },
                        ..pre.registers
                    },
                    ..pre
                }) && next_pc == pre.pc.wrapping_add(1)
            })
    &&& arithmetic_type is SPS8 ==> ({
                let raw = pre.bus.spec_read(pre.pc.wrapping_add(1));
                let disp = (raw as i8) as i16;
                post == (CPU {
                    sp: pre.sp.wrapping_add_signed(disp),
                    registers: Registers {
                        f: FlagsRegister {
                            zero: false,
                            subtraction: false,
                            half_carry: (pre.sp & 0xF) + (raw & 0xF) > 0xF,
                            carry: pre.sp + disp > 0xFFFF || pre.sp + disp < 0,
                        },
                        ..pre.registers
                    },
                    ..pre
                }) && next_pc == pre.pc.wrapping_add(2)
            })
}

/// The exact machine effect of the `AND` family: how the state after relates to the state before, and the
/// next program counter handed back.
pub open spec fn spec_exec_and(pre: CPU, post: CPU, target: AndTargetType, next_pc: u16) -> bool {
    &&& ({
                let v = spec_operand_and(pre, target);
                let a2 = pre.registers.a & v;
                post == (CPU {
                    registers: Registers {
                        a: a2,
                        f: FlagsRegister {
                            zero: a2 == 0,
                            subtraction: false,
                            half_carry: false,
                            carry: false,
                        },
                        ..pre.registers
                    },
                    ..pre
                })
            })
    &&& next_pc == pre.pc.wrapping_add(if target is D8 { 2u16 } else { 1u16 })
}

/// The exact machine effect of the `BIT` family: how the state after relates to the state before, and the
/// next program counter handed back.
pub open spec fn spec_exec_bit(pre: CPU, post: CPU, position: BitPosition, register: BitRegister, next_pc: u16) -> bool {
    &&& post == (CPU {
                registers: Registers {
                    f: FlagsRegister {
                        zero: (spec_operand_bit(pre, register) & spec_bit_mask(position)) > 0,
                        ..pre.registers.f
                    },
                    ..pre.registers
                },
                ..pre
            })
    &&& next_pc == pre.pc.wrapping_add(2)
}

/// The exact machine effect of the `CP` family: how the state after relates to the state before, and the
/// next program counter handed back.
pub open spec fn spec_exec_cp(pre: CPU, post: CPU, target: CPByteTarget, next_pc: u16) -> bool {
    &&& ({
                let v = spec_operand_cp(pre, target);
                let a = pre.registers.a;
                post == (CPU {
                    registers: Registers {
                        f: FlagsRegister {
                            zero: a.wrapping_sub(v) == 0,
                            subtraction: true,
                            half_carry: (a & 0xF) < (v & 0xF),
                            carry: a < v,
                        },
                        ..pre.registers
                    },
                    ..pre
                })
            })
    &&& next_pc == pre.pc.wrapping_add(if target is D8 { 2u16 } else { 1u16 })
}

/// The exact machine effect of the `DEC` family: how the state after relates to the state before, and the
/// next program counter handed back.
pub open spec fn spec_exec_dec(pre: CPU, post: CPU, dec_type: ArithmeticTargetType, next_pc: u16) -> bool {
    &&& dec_type matches ArithmeticTargetType::Word(w) ==> ({
                let post_ok = match w {
                    ArithmeticWordTarget::BC => ({
                        let x = pre.registers.spec_bc().wrapping_sub(1);
                        post == (CPU { registers: Registers { b: high_byte(x), c: low_byte(x), ..pre.registers }, ..pre })
                    }),
                    ArithmeticWordTarget::DE => ({
                        let x = pre.registers.spec_de().wrapping_sub(1);
                        post == (CPU { registers: Registers { d: high_byte(x), e: low_byte(x), ..pre.registers }, ..pre })
                    }),
                    ArithmeticWordTarget::HL => ({
                        let x = pre.registers.spec_hl().wrapping_sub(1);
                        post == (CPU { registers: Registers { h: high_byte(x), l: low_byte(x), ..pre.registers }, ..pre })
                    }),
                    ArithmeticWordTarget::SP => post == (CPU { sp: pre.sp.wrapping_sub(1), ..pre }),
                };
                post_ok && next_pc == pre.pc.wrapping_add(1)
            })
    &&& dec_type matches ArithmeticTargetType::Byte(t) ==> ({
                let v = spec_operand_r8(pre, t);
                &&& spec_r8_written(pre, post, t, v.wrapping_sub(1), FlagsRegister {
                    zero: v.wrapping_sub(1) == 0,
                    subtraction: true,
                    half_carry: (v & 0xF) == 0,
                    carry: pre.registers.f.carry,
                })
                &&& next_pc == pre.pc.wrapping_add(1)
            })
}

/// The exact machine effect of the `INC` family: how the state after relates to the state before, and the
/// next program counter handed back.
pub open spec fn spec_exec_inc(pre: CPU, post: CPU, inc_type: ArithmeticTargetType, next_pc: u16) -> bool {
    &&& inc_type matches ArithmeticTargetType::Word(w) ==> ({
                let post_ok = match w {
                    ArithmeticWordTarget::BC => ({
                        let x = pre.registers.spec_bc().wrapping_add(1);
                        post == (CPU { registers: Registers { b: high_byte(x), c: low_byte(x), ..pre.registers }, ..pre })
                    }),
                    ArithmeticWordTarget::DE => ({
                        let x = pre.registers.spec_de().wrapping_add(1);
                        post == (CPU { registers: Registers { d: high_byte(x), e: low_byte(x), ..pre.registers }, ..pre })
                    }),
                    ArithmeticWordTarget::HL => ({
                        let x = pre.registers.spec_hl().wrapping_add(1);
                        post == (CPU { registers: Registers { h: high_byte(x), l: low_byte(x), ..pre.registers }, ..pre })
                    }),
                    ArithmeticWordTarget::SP => post == (CPU { sp: pre.sp.wrapping_add(1), ..pre }),
                };
                post_ok && next_pc == pre.pc.wrapping_add(1)
            })
    &&& inc_type matches ArithmeticTargetType::Byte(t) ==> ({
                let v = spec_operand_r8(pre, t);
                &&& spec_r8_written(pre, post, t, v.wrapping_add(1), FlagsRegister {
                    zero: v.wrapping_add(1) == 0,
                    subtraction: false,
                    half_carry: (v & 0xF) == 0xF,
                    carry: pre.registers.f.carry,
                })
                &&& next_pc == pre.pc.wrapping_add(1)
            })
}

/// The exact machine effect of the `LD` family: how the state after relates to the state before, and the
/// next program counter handed back.
pub open spec fn spec_exec_ld(pre: CPU, post: CPU, load_type: LoadType, next_pc: u16) -> bool {
    &&& load_type matches LoadType::Byte(t, src) ==> ({
                let v = spec_ld_source(pre, src);
                &&& spec_ld_target_written(pre, post, t, v)
                &&& next_pc == pre.pc.wrapping_add(if src is D8 { 2u16 } else { 1u16 })
            })
    &&& load_type matches LoadType::Word(t, src) ==> ({
                let v: u16 = match src {
                    LoadWordSource::BC => pre.registers.spec_bc(),
                    LoadWordSource::D16 => word_from_bytes(
                        pre.bus.spec_read(pre.pc.wrapping_add(2)),
                        pre.bus.spec_read(pre.pc.wrapping_add(1)),
                    ),
                    LoadWordSource::HL => pre.registers.spec_hl(),
                    LoadWordSource::SPPlusS8 => pre.sp.wrapping_add_signed(
                        (pre.bus.spec_read(pre.pc.wrapping_add(1)) as i8) as i16,
                    ),
                };
                let post_ok = match t {
                    LoadWordTarget::BC => post == (CPU {
                        registers: Registers { b: high_byte(v), c: low_byte(v), ..pre.registers },
                        ..pre
                    }),
                    LoadWordTarget::DE => post == (CPU {
                        registers: Registers { d: high_byte(v), e: low_byte(v), ..pre.registers },
                        ..pre
                    }),
                    LoadWordTarget::HL => post == (CPU {
                        registers: Registers { h: high_byte(v), l: low_byte(v), ..pre.registers },
                        ..pre
                    }),
                    LoadWordTarget::SP => post == (CPU { sp: v, ..pre }),
                };
                let width: u16 = match (t, src) {
                    (LoadWordTarget::HL, LoadWordSource::SPPlusS8) => 2u16,
                    (LoadWordTarget::SP, LoadWordSource::HL) => 1u16,
                    _ => 3u16,
                };
                post_ok && next_pc == pre.pc.wrapping_add(width)
            })
    &&& load_type is AIntoHLInc ==> ({
                let hl = pre.registers.spec_hl();
                let hl2 = hl.wrapping_add(1);
                &&& bus_write_rel(pre.bus, post.bus, hl, pre.registers.a)
                &&& post.registers == (Registers {
                    h: high_byte(hl2),
                    l: low_byte(hl2),
                    ..pre.registers
                })
                &&& post.sp == pre.sp
                &&& next_pc == pre.pc.wrapping_add(1)
            })
    &&& load_type is AIntoHLDec ==> ({
                let hl = pre.registers.spec_hl();
                let hl2 = hl.wrapping_sub(1);
                &&& bus_write_rel(pre.bus, post.bus, hl, pre.registers.a)
                &&& post.registers == (Registers {
                    h: high_byte(hl2),
                    l: low_byte(hl2),
                    ..pre.registers
                })
                &&& post.sp == pre.sp
                &&& next_pc == pre.pc.wrapping_add(1)
            })
    &&& load_type is HLIncIntoA ==> ({
                let hl = pre.registers.spec_hl();
                let hl2 = hl.wrapping_add(1);
                &&& post == (CPU {
                    registers: Registers {
                        a: pre.bus.spec_read(hl),
                        h: high_byte(hl2),
                        l: low_byte(hl2),
                        ..pre.registers
                    },
                    ..pre
                })
                &&& next_pc == pre.pc.wrapping_add(1)
            })
    &&& load_type is HLDecIntoA ==> ({
                let hl = pre.registers.spec_hl();
                let hl2 = hl.wrapping_sub(1);
                &&& post == (CPU {
                    registers: Registers {
                        a: pre.bus.spec_read(hl),
                        h: high_byte(hl2),
                        l: low_byte(hl2),
                        ..pre.registers
                    },
                    ..pre
                })
                &&& next_pc == pre.pc.wrapping_add(1)
            })
    &&& load_type matches LoadType::AFromByteAddress(src) ==> ({
                let inc: u8 = match src {
                    LdByteAddress::C => pre.registers.c,
                    LdByteAddress::A8 => pre.bus.spec_read(pre.pc.wrapping_add(1)),
                };
                &&& post == (CPU {
                    registers: Registers {
                        a: pre.bus.spec_read((0xFF00 + inc as u16) as u16),
                        ..pre.registers
                    },
                    ..pre
                })
                &&& next_pc == pre.pc.wrapping_add(if src is A8 { 2u16 } else { 1u16 })
            })
    &&& load_type matches LoadType::ByteAddressFromA(src) ==> ({
                let inc: u8 = match src {
                    LdByteAddress::C => pre.registers.c,
                    LdByteAddress::A8 => pre.bus.spec_read(pre.pc.wrapping_add(1)),
                };
                &&& bus_write_rel(
                    pre.bus,
                    post.bus,
                    (0xFF00 + inc as u16) as u16,
                    pre.registers.a,
                )
                &&& post.registers == pre.registers
                &&& post.sp == pre.sp
                &&& next_pc == pre.pc.wrapping_add(if src is A8 { 2u16 } else { 1u16 })
            })
    &&& load_type matches LoadType::AFromIndirect(src) ==> ({
                let addr: u16 = match src {
                    LdIndirectAddr::BC => pre.registers.spec_bc(),
                    LdIndirectAddr::DE => pre.registers.spec_de(),
                    LdIndirectAddr::A16 => word_from_bytes(
                        pre.bus.spec_read(pre.pc.wrapping_add(2)),
                        pre.bus.spec_read(pre.pc.wrapping_add(1)),
                    ),
                };
                &&& post == (CPU {
                    registers: Registers { a: pre.bus.spec_read(addr), ..pre.registers },
                    ..pre
                })
                &&& next_pc == pre.pc.wrapping_add(if src is A16 { 3u16 } else { 1u16 })
            })
    &&& load_type matches LoadType::IndirectFromA(src) ==> ({
                let addr: u16 = match src {
                    LdIndirectAddr::BC => pre.registers.spec_bc(),
                    LdIndirectAddr::DE => pre.registers.spec_de(),
                    LdIndirectAddr::A16 => word_from_bytes(
                        pre.bus.spec_read(pre.pc.wrapping_add(2)),
                        pre.bus.spec_read(pre.pc.wrapping_add(1)),
                    ),
                };
                &&& bus_write_rel(pre.bus, post.bus, addr, pre.registers.a)
                &&& post.registers == pre.registers
                &&& post.sp == pre.sp
                &&& next_pc == pre.pc.wrapping_add(if src is A16 { 3u16 } else { 1u16 })
            })
}

/// The exact machine effect of the `OR` family: how the state after relates to the state before, and the
/// next program counter handed back.
pub open spec fn spec_exec_or(pre: CPU, post: CPU, target: ORTargetType, next_pc: u16) -> bool {
    &&& ({
                let v = spec_operand_or(pre, target);
                let a2 = pre.registers.a | v;
                post == (CPU {
                    registers: Registers {
                        a: a2,
                        f: FlagsRegister {
                            zero: a2 == 0,
                            subtraction: false,
                            half_carry: false,
                            carry: false,
                        },
                        ..pre.registers
                    },
                    ..pre
                })
            })
    &&& next_pc == pre.pc.wrapping_add(if target is D8 { 2u16 } else { 1u16 })
}

/// The exact machine effect of the `RES` family: how the state after relates to the state before, and the
/// next program counter handed back.
pub open spec fn spec_exec_res(pre: CPU, post: CPU, position: BitPosition, register: BitRegister, next_pc: u16) -> bool {
    &&& spec_bitreg_written(
                pre,
                post,
                register,
                !spec_bit_mask(position) & spec_operand_bit(pre, register),
            )
    &&& next_pc == pre.pc.wrapping_add(2)
}

/// The exact machine effect of the `RL` family: how the state after relates to the state before, and the
/// next program counter handed back.
pub open spec fn spec_exec_rl(pre: CPU, post: CPU, target: ArithmeticByteTarget, next_pc: u16) -> bool {
    &&& ({
                let v = spec_operand_r8(pre, target);
                spec_r8_written(pre, post, target, (v << 1) | (if pre.registers.f.carry { 1u8 } else { 0u8 }), FlagsRegister { zero: ((v << 1) | (if pre.registers.f.carry { 1u8 } else { 0u8 })) == 0, subtraction: false, half_carry: false, carry: (v & 0x80) > 0 })
            })
    &&& next_pc == pre.pc.wrapping_add(2)
}

/// The exact machine effect of the `RLC` family: how the state after relates to the state before, and the
/// next program counter handed back.
pub open spec fn spec_exec_rlc(pre: CPU, post: CPU, target: ArithmeticByteTarget, next_pc: u16) -> bool {
    &&& ({
                let v = spec_operand_r8(pre, target);
                spec_r8_written(pre, post, target, (v << 1) | (v >> 7), FlagsRegister { zero: v == 0, carry: (v & 0x80) > 0, ..pre.registers.f })
            })
    &&& next_pc == pre.pc.wrapping_add(2)
}

/// The exact machine effect of the `RR` family: how the state after relates to the state before, and the
/// next program counter handed back.
pub open spec fn spec_exec_rr(pre: CPU, post: CPU, target: ArithmeticByteTarget, next_pc: u16) -> bool {
    &&& ({
                let v = spec_operand_r8(pre, target);
                spec_r8_written(pre, post, target, (v >> 1) | (if pre.registers.f.carry { 0x80u8 } else { 0u8 }), FlagsRegister { zero: ((v >> 1) | (if pre.registers.f.carry { 0x80u8 } else { 0u8 })) == 0, subtraction: false, half_carry: false, carry: (v & 0x01) > 0 })
            })
    &&& next_pc == pre.pc.wrapping_add(2)
}

/// The exact machine effect of the `RRC` family: how the state after relates to the state before, and the
/// next program counter handed back.
pub open spec fn spec_exec_rrc(pre: CPU, post: CPU, target: ArithmeticByteTarget, next_pc: u16) -> bool {
    &&& ({
                let v = spec_operand_r8(pre, target);
                spec_r8_written(pre, post, target, (v >> 1) | (v << 7), FlagsRegister { zero: v == 0, carry: (v & 0x01) > 0, ..pre.registers.f })
            })
    &&& next_pc == pre.pc.wrapping_add(2)
}

/// The exact machine effect of the `RST` family: how the state after relates to the state before, and the
/// next program counter handed back.
pub open spec fn spec_exec_rst(pre: CPU, post: CPU, position: BitPosition, next_pc: u16) -> bool {
    &&& post.sp == pre.sp.wrapping_sub(2)
    &&& post.registers == pre.registers
    &&& next_pc == word_from_bytes(
                post.bus.spec_read(spec_bit_mask(position) as u16),
                post.bus.spec_read((spec_bit_mask(position) as u16).wrapping_add(1)),
            )
    &&& (flat_writable(pre.sp.wrapping_sub(1)) && flat_writable(pre.sp.wrapping_sub(2)))
                ==> post.bus.memory@ == pre.bus.memory@.update(
                    pre.sp.wrapping_sub(1) as int,
                    high_byte(pre.pc),
                ).update(pre.sp.wrapping_sub(2) as int, low_byte(pre.pc))
}

/// The exact machine effect of the `SBC` family: how the state after relates to the state before, and the
/// next program counter handed back.
pub open spec fn spec_exec_sbc(pre: CPU, post: CPU, target: SBCByteTarget, next_pc: u16) -> bool {
    &&& ({
                let v = spec_operand_sbc(pre, target).wrapping_add(
                    if pre.registers.f.carry { 1u8 } else { 0u8 },
                );
                let a = pre.registers.a;
                post == (CPU {
                    registers: Registers {
                        a: a.wrapping_sub(v),
                        f: FlagsRegister {
                            zero: a.wrapping_sub(v) == 0,
                            subtraction: true,
                            half_carry: (a & 0xF) < (v & 0xF),
                            carry: a < v,
                        },
                        ..pre.registers
                    },
                    ..pre
                })
            })
    &&& next_pc == pre.pc.wrapping_add(if target is D8 { 2u16 } else { 1u16 })
}

/// The exact machine effect of the `SET` family: how the state after relates to the state before, and the
/// next program counter handed back.
pub open spec fn spec_exec_set(pre: CPU, post: CPU, position: BitPosition, register: BitRegister, next_pc: u16) -> bool {
    &&& spec_bitreg_written(
                pre,
                post,
                register,
                spec_bit_mask(position) | spec_operand_bit(pre, register),
            )
    &&& next_pc == pre.pc.wrapping_add(2)
}

/// The exact machine effect of the `SLA` family: how the state after relates to the state before, and the
/// next program counter handed back.
pub open spec fn spec_exec_sla(pre: CPU, post: CPU, target: ArithmeticByteTarget, next_pc: u16) -> bool {
    &&& ({
                let v = spec_operand_r8(pre, target);
                spec_r8_written(pre, post, target, v << 1, FlagsRegister { zero: (v << 1) == 0, subtraction: false, half_carry: false, carry: (v & 0x80) > 0 })
            })
    &&& next_pc == pre.pc.wrapping_add(2)
}

/// The exact machine effect of the `SRA` family: how the state after relates to the state before, and the
/// next program counter handed back.
pub open spec fn spec_exec_sra(pre: CPU, post: CPU, target: ArithmeticByteTarget, next_pc: u16) -> bool {
    &&& ({
                let v = spec_operand_r8(pre, target);
                spec_r8_written(pre, post, target, (v >> 1) | (v & 0x80), FlagsRegister { zero: ((v >> 1) | (v & 0x80)) == 0, subtraction: false, half_carry: false, carry: (v & 0x01) > 0 })
            })
    &&& next_pc == pre.pc.wrapping_add(2)
}

/// The exact machine effect of the `SRL` family: how the state after relates to the state before, and the
/// next program counter handed back.
pub open spec fn spec_exec_srl(pre: CPU, post: CPU, target: ArithmeticByteTarget, next_pc: u16) -> bool {
    &&& ({
                let v = spec_operand_r8(pre, target);
                spec_r8_written(pre, post, target, v >> 1, FlagsRegister { zero: (v >> 1) == 0, subtraction: false, half_carry: false, carry: (v & 0x01) > 0 })
            })
    &&& next_pc == pre.pc.wrapping_add(2)
}

/// The exact machine effect of the `SUB` family: how the state after relates to the state before, and the
/// next program counter handed back.
pub open spec fn spec_exec_sub(pre: CPU, post: CPU, target: SubByteTarget, next_pc: u16) -> bool {
    &&& ({
                let v = spec_operand_sub(pre, target);
                let a = pre.registers.a;
                post == (CPU {
                    registers: Registers {
                        a: a.wrapping_sub(v),
                        f: FlagsRegister {
                            zero: a.wrapping_sub(v) == 0,
                            subtraction: true,
                            half_carry: (a & 0xF) < (v & 0xF),
                            carry: a < v,
                        },
                        ..pre.registers
                    },
                    ..pre
                })
            })
    &&& next_pc == pre.pc.wrapping_add(if target is D8 { 2u16 } else { 1u16 })
}

/// The exact machine effect of the `SWAP` family: how the state after relates to the state before, and the
/// next program counter handed back.
pub open spec fn spec_exec_swap(pre: CPU, post: CPU, target: ArithmeticByteTarget, next_pc: u16) -> bool {
    &&& ({
                let v = spec_operand_r8(pre, target);
                spec_r8_written(pre, post, target, (v << 4) | (v >> 4), FlagsRegister { zero: v == 0, ..pre.registers.f })
            })
    &&& next_pc == pre.pc.wrapping_add(2)
}

/// The exact machine effect of the `XOR` family: how the state after relates to the state before, and the
/// next program counter handed back.
pub open spec fn spec_exec_xor(pre: CPU, post: CPU, target: XORTargetType, next_pc: u16) -> bool {
    &&& ({
                let v = spec_operand_xor(pre, target);
                let a2 = pre.registers.a ^ v;
                post == (CPU {
                    registers: Registers {
                        a: a2,
                        f: FlagsRegister {
                            zero: a2 == 0,
                            subtraction: false,
                            half_carry: false,
                            carry: false,
                        },
                        ..pre.registers
                    },
                    ..pre
                })
            })
    &&& next_pc == pre.pc.wrapping_add(if target is D8 { 2u16 } else { 1u16 })
}

/// The exact machine effect of the `CALL` family: how the state after relates to the state before, and the
/// next program counter handed back.
pub open spec fn spec_exec_call(pre: CPU, post: CPU, test: JumpTest, next_pc: u16) -> bool {
    &&& !spec_jmp_test(pre.registers.f, test) ==> post == pre && next_pc
                == pre.pc.wrapping_add(3)
    &&& spec_jmp_test(pre.registers.f, test) ==> {
                &&& post.sp == pre.sp.wrapping_sub(2)
                &&& post.registers == pre.registers
                &&& next_pc == word_from_bytes(
                    post.bus.spec_read(pre.pc.wrapping_add(2)),
                    post.bus.spec_read(pre.pc.wrapping_add(1)),
                )
                &&& ((flat_writable(pre.sp.wrapping_sub(1)) && flat_writable(
                    pre.sp.wrapping_sub(2),
                )) ==> post.bus.memory@ == pre.bus.memory@.update(
                    pre.sp.wrapping_sub(1) as int,
                    high_byte(pre.pc.wrapping_add(3)),
                ).update(pre.sp.wrapping_sub(2) as int, low_byte(pre.pc.wrapping_add(3))))
            }
}

/// The exact machine effect of the `CCF` family: how the state after relates to the state before, and the
/// next program counter handed back.
pub open spec fn spec_exec_ccf(pre: CPU, post: CPU, next_pc: u16) -> bool {
    &&& post == (CPU {
                registers: Registers {
                    f: FlagsRegister {
                        zero: pre.registers.f.zero,
                        subtraction: false,
                        half_carry: false,
                        carry: !pre.registers.f.carry,
                    },
                    ..pre.registers
                },
                ..pre
            })
    &&& next_pc == pre.pc.wrapping_add(1)
}

/// The exact machine effect of the `CPL` family: how the state after relates to the state before, and the
/// next program counter handed back.
pub open spec fn spec_exec_cpl(pre: CPU, post: CPU, next_pc: u16) -> bool {
    &&& post == (CPU {
                registers: Registers {
                    a: !pre.registers.a,
                    f: FlagsRegister {
                        subtraction: true,
                        half_carry: true,
                        ..pre.registers.f
                    },
                    ..pre.registers
                },
                ..pre
            })
    &&& next_pc == pre.pc.wrapping_add(1)
}

/// The exact machine effect of the `JP` family: how the state after relates to the state before, and the
/// next program counter handed back.
pub open spec fn spec_exec_jp(pre: CPU, post: CPU, test: JumpTest, target: JpAddrLoc, next_pc: u16) -> bool {
    &&& post == pre
    &&& next_pc == (match target {
                JpAddrLoc::A16 => if spec_jmp_test(pre.registers.f, test) {
                    word_from_bytes(
                        pre.bus.spec_read(pre.pc.wrapping_add(2)),
                        pre.bus.spec_read(pre.pc.wrapping_add(1)),
                    )
                } else {
                    pre.pc.wrapping_add(3)
                },
                JpAddrLoc::HL => pre.registers.spec_hl(),
            })
}

/// The exact machine effect of the `JR` family: how the state after relates to the state before, and the
/// next program counter handed back.
pub open spec fn spec_exec_jr(pre: CPU, post: CPU, test: JumpTest, next_pc: u16) -> bool {
    &&& post == pre
    &&& next_pc == (if spec_jmp_test(pre.registers.f, test) {
                pre.pc.wrapping_add(2).wrapping_add_signed(
                    (pre.bus.spec_read(pre.pc.wrapping_add(1)) as i8) as i16,
                )
            } else {
                pre.pc.wrapping_add(2)
            })
}

/// The exact machine effect of the `POP_INTO` family: how the state after relates to the state before, and the
/// next program counter handed back.
pub open spec fn spec_exec_pop_into(pre: CPU, post: CPU, target: StackTarget, next_pc: u16) -> bool {
    &&& ({
                let v = word_from_bytes(
                    pre.bus.spec_read(pre.sp.wrapping_add(1)),
                    pre.bus.spec_read(pre.sp),
                );
                match target {
                    StackTarget::BC => post == (CPU {
                        sp: pre.sp.wrapping_add(2),
                        registers: Registers { b: high_byte(v), c: low_byte(v), ..pre.registers },
                        ..pre
                    }),
                    StackTarget::DE => post == (CPU {
                        sp: pre.sp.wrapping_add(2),
                        registers: Registers { d: high_byte(v), e: low_byte(v), ..pre.registers },
                        ..pre
                    }),
                    StackTarget::HL => post == (CPU {
                        sp: pre.sp.wrapping_add(2),
                        registers: Registers { h: high_byte(v), l: low_byte(v), ..pre.registers },
                        ..pre
                    }),
                    StackTarget::AF => post == (CPU {
                        sp: pre.sp.wrapping_add(2),
                        registers: Registers {
                            a: high_byte(v),
                            f: FlagsRegister::spec_from_byte(low_byte(v)),
                            ..pre.registers
                        },
                        ..pre
                    }),
                }
            })
    &&& next_pc == pre.pc.wrapping_add(1)
}

/// The exact machine effect of the `PUSH_FROM` family: how the state after relates to the state before, and the
/// next program counter handed back.
pub open spec fn spec_exec_push_from(pre: CPU, post: CPU, target: StackTarget, next_pc: u16) -> bool {
    &&& post.sp == pre.sp.wrapping_sub(2)
    &&& post.registers == pre.registers
    &&& ({
                let v: u16 = match target {
                    StackTarget::BC => pre.registers.spec_bc(),
                    StackTarget::DE => pre.registers.spec_de(),
                    StackTarget::HL => pre.registers.spec_hl(),
                    StackTarget::AF => pre.registers.spec_af(),
                };
                (flat_writable(pre.sp.wrapping_sub(1)) && flat_writable(pre.sp.wrapping_sub(2)))
                    ==> post.bus.memory@ == pre.bus.memory@.update(
                        pre.sp.wrapping_sub(1) as int,
                        high_byte(v),
                    ).update(pre.sp.wrapping_sub(2) as int, low_byte(v))
            })
    &&& next_pc == pre.pc.wrapping_add(1)
}

/// The exact machine effect of the `RET` family: how the state after relates to the state before, and the
/// next program counter handed back.
pub open spec fn spec_exec_ret(pre: CPU, post: CPU, test: JumpTest, next_pc: u16) -> bool {
    &&& !spec_jmp_test(pre.registers.f, test) ==> post == pre && next_pc
                == pre.pc.wrapping_add(1)
    &&& spec_jmp_test(pre.registers.f, test) ==> post == (CPU {
                sp: pre.sp.wrapping_add(2),
                ..pre
            }) && next_pc == word_from_bytes(
                pre.bus.spec_read(pre.sp.wrapping_add(1)),
                pre.bus.spec_read(pre.sp),
            )
}

/// The exact machine effect of the `RETI` family: how the state after relates to the state before, and the
/// next program counter handed back.
pub open spec fn spec_exec_reti(pre: CPU, post: CPU, next_pc: u16) -> bool {
    &&& post == (CPU { sp: pre.sp.wrapping_add(2), ..pre })
    &&& next_pc == word_from_bytes(
                pre.bus.spec_read(pre.sp.wrapping_add(1)),
                pre.bus.spec_read(pre.sp),
            )
}

/// The exact machine effect of the `RLA` family: how the state after relates to the state before, and the
/// next program counter handed back.
pub open spec fn spec_exec_rla(pre: CPU, post: CPU, next_pc: u16) -> bool {
    &&& post == (CPU {
                registers: Registers {
                    a: (pre.registers.a << 1) | (if pre.registers.f.carry {
                        1u8
                    } else {
                        0u8
                    }),
                    f: FlagsRegister {
                        carry: (pre.registers.a & 0x80) > 0,
                        ..pre.registers.f
                    },
                    ..pre.registers
                },
                ..pre
            })
    &&& next_pc == pre.pc.wrapping_add(1)
}

/// The exact machine effect of the `RRA` family: how the state after relates to the state before, and the
/// next program counter handed back.
pub open spec fn spec_exec_rra(pre: CPU, post: CPU, next_pc: u16) -> bool {
    &&& post == (CPU {
                registers: Registers {
                    a: (pre.registers.a >> 1) | (if pre.registers.f.carry {
                        0x80u8
                    } else {
                        0u8
                    }),
                    f: FlagsRegister {
                        carry: (pre.registers.a & 0x01) > 0,
                        ..pre.registers.f
                    },
                    ..pre.registers
                },
                ..pre
            })
    &&& next_pc == pre.pc.wrapping_add(1)
}

/// The exact machine effect of the `SCF` family: how the state after relates to the state before, and the
/// next program counter handed back.
pub open spec fn spec_exec_scf(pre: CPU, post: CPU, next_pc: u16) -> bool {
    &&& post == (CPU {
                registers: Registers {
                    f: FlagsRegister {
                        zero: pre.registers.f.zero,
                        subtraction: false,
                        half_carry: false,
                        carry: true,
                    },
                    ..pre.registers
                },
                ..pre
            })
    &&& next_pc == pre.pc.wrapping_add(1)
}

/// The instruction families the first third of the dispatch handles.
pub open spec fn spec_in_first_dispatch(instruction: Instruction) -> bool {
    ||| instruction is ADC
    ||| instruction is ADD
    ||| instruction is AND
    ||| instruction is BIT
    ||| instruction is CALL
    ||| instruction is CCF
    ||| instruction is CP
    ||| instruction is CPL
    ||| instruction is DEC
    ||| instruction is DI
    ||| instruction is EI
    ||| instruction is INC
    ||| instruction is JP
    ||| instruction is JR
    ||| instruction is LD
}

/// The instruction families the second third of the dispatch handles.
pub open spec fn spec_in_second_dispatch(instruction: Instruction) -> bool {
    ||| instruction is OR
    ||| instruction is POP
    ||| instruction is PUSH
    ||| instruction is RES
    ||| instruction is RET
    ||| instruction is RETI
    ||| instruction is RL
    ||| instruction is RLA
    ||| instruction is RLC
    ||| instruction is RR
    ||| instruction is RRA
}

/// The exact machine effect of one ordinary instruction: the per-family
/// relation between the state before and after, and the next program
/// counter. The four special cases (HALT, NOP and the two uncoded
/// instructions) are handled before this dispatch is reached and leave the
/// machine untouched here; DI and EI advance past themselves with the
/// interrupt-enable machinery out of scope.
pub open spec fn spec_execute_op(pre: CPU, post: CPU, instruction: Instruction, next_pc: u16) -> bool {
    match instruction {
        Instruction::ADC(target) => spec_exec_adc(pre, post, target, next_pc),
        Instruction::ADD(arithmetic_type) => spec_exec_add(pre, post, arithmetic_type, next_pc),
        Instruction::AND(target) => spec_exec_and(pre, post, target, next_pc),
        Instruction::BIT(position, register) => spec_exec_bit(pre, post, position, register, next_pc),
        Instruction::CALL(test) => spec_exec_call(pre, post, test, next_pc),
        Instruction::CCF => spec_exec_ccf(pre, post, next_pc),
        Instruction::CP(target) => spec_exec_cp(pre, post, target, next_pc),
        Instruction::CPL => spec_exec_cpl(pre, post, next_pc),
        Instruction::DAA => post == pre && next_pc == pre.pc,
        Instruction::DEC(dec_type) => spec_exec_dec(pre, post, dec_type, next_pc),
        Instruction::DI => post == pre && next_pc == pre.pc.wrapping_add(1),
        Instruction::EI => post == pre && next_pc == pre.pc.wrapping_add(1),
        Instruction::HALT => post == pre && next_pc == pre.pc,
        Instruction::INC(inc_type) => spec_exec_inc(pre, post, inc_type, next_pc),
        Instruction::JP(test, target) => spec_exec_jp(pre, post, test, target, next_pc),
        Instruction::JR(test) => spec_exec_jr(pre, post, test, next_pc),
        Instruction::LD(load_type) => spec_exec_ld(pre, post, load_type, next_pc),
        Instruction::NOP => post == pre && next_pc == pre.pc,
        Instruction::OR(target) => spec_exec_or(pre, post, target, next_pc),
        Instruction::POP(target) => spec_exec_pop_into(pre, post, target, next_pc),
        Instruction::PUSH(target) => spec_exec_push_from(pre, post, target, next_pc),
        Instruction::RES(position, register) => spec_exec_res(pre, post, position, register, next_pc),
        Instruction::RET(test) => spec_exec_ret(pre, post, test, next_pc),
        Instruction::RETI => spec_exec_reti(pre, post, next_pc),
        Instruction::RL(target) => spec_exec_rl(pre, post, target, next_pc),
        Instruction::RLA => spec_exec_rla(pre, post, next_pc),
        Instruction::RLC(target) => spec_exec_rlc(pre, post, target, next_pc),
        Instruction::RR(target) => spec_exec_rr(pre, post, target, next_pc),
        Instruction::RRA => spec_exec_rra(pre, post, next_pc),
        Instruction::RRC(target) => spec_exec_rrc(pre, post, target, next_pc),
        Instruction::RST(position) => spec_exec_rst(pre, post, position, next_pc),
        Instruction::SBC(target) => spec_exec_sbc(pre, post, target, next_pc),
        Instruction::SCF => spec_exec_scf(pre, post, next_pc),
        Instruction::SET(position, register) => spec_exec_set(pre, post, position, register, next_pc),
        Instruction::SLA(target) => spec_exec_sla(pre, post, target, next_pc),
        Instruction::SRA(target) => spec_exec_sra(pre, post, target, next_pc),
        Instruction::SRL(target) => spec_exec_srl(pre, post, target, next_pc),
        Instruction::STOP => post == pre && next_pc == pre.pc,
        Instruction::SUB(target) => spec_exec_sub(pre, post, target, next_pc),
        Instruction::SWAP(target) => spec_exec_swap(pre, post, target, next_pc),
        Instruction::XOR(target) => spec_exec_xor(pre, post, target, next_pc),
    }
}

/// The exact effect of executing one decoded instruction: frozen while
/// halted; the uncoded instructions fail leaving the state untouched; HALT
/// enters the halted state; NOP only advances; and every other instruction
/// returns the next program counter related to the new state by
/// `spec_execute_op`.
pub open spec fn spec_execute(pre: CPU, post: CPU, instruction: Instruction, r: Result<u16, CpuError>) -> bool {
    if pre.is_halted {
        post == pre && r == Ok::<u16, CpuError>(pre.pc)
    } else {
        match instruction {
            Instruction::DAA => post == pre && r == Err::<u16, CpuError>(
                CpuError::Unimplemented(instruction),
            ),
            Instruction::STOP => post == pre && r == Err::<u16, CpuError>(
                CpuError::Unimplemented(instruction),
            ),
            Instruction::HALT => post == (CPU { is_halted: true, ..pre }) && r == Ok::<
                u16,
                CpuError,
            >(pre.pc.wrapping_add(1)),
            Instruction::NOP => post == pre && r == Ok::<u16, CpuError>(pre.pc.wrapping_add(1)),
            _ => match r {
                Ok(next_pc) => spec_execute_op(pre, post, instruction, next_pc),
                Err(_) => false,
            },
        }
    }
}

/// The exact effect of one fetch-decode-execute step: a no-op while halted;
/// a typed failure, with nothing changed, when the fetched byte decodes to
/// no instruction or to an uncoded one; otherwise the decoded instruction
/// executed per `spec_execute`, with the program counter moved to the
/// returned next address.
pub open spec fn spec_step(pre: CPU, post: CPU, r: Result<bool, CpuError>) -> bool {
    &&& (pre.is_halted ==> post == pre && r == Ok::<bool, CpuError>(false))
    &&& (r is Err ==> post == pre)
    &&& (!pre.is_halted ==> ({
        let first = pre.bus.spec_read(pre.pc);
        let prefixed = first == 0xCB;
        let byte = if prefixed {
            pre.bus.spec_read(pre.pc.wrapping_add(1))
        } else {
            first
        };
        match spec_from_byte(byte, prefixed) {
            None => r == Err::<bool, CpuError>(CpuError::UnknownInstruction {
                byte,
                prefixed,
                pc: pre.pc,
            }),
            Some(instruction) => {
                &&& (spec_implemented(instruction) ==> r == Ok::<bool, CpuError>(true)
                    && spec_execute(
                    pre,
                    CPU { pc: pre.pc, ..post },
                    instruction,
                    Ok::<u16, CpuError>(post.pc),
                ))
                &&& (!spec_implemented(instruction) ==> r == Err::<bool, CpuError>(
                    CpuError::Unimplemented(instruction),
                ))
            },
        }
    }))
}


impl CPU {
    pub open spec fn wf(self) -> bool {
        self.bus.wf()
    }

    /// A CPU over an empty bus: registers zeroed, PC at 0, SP at the top of
    /// memory.
    pub fn new_and_empty() -> (r: CPU)
        ensures
            r.wf(),
            r.pc == 0,
            r.sp == 0xFFFF,
            !r.is_halted,
            r.registers == (Registers {
                a: 0u8, b: 0u8, c: 0u8, d: 0u8, e: 0u8,
                f: FlagsRegister { zero: false, subtraction: false, half_carry: false, carry: false },
                h: 0u8, l: 0u8,
            }),
            r.bus.spec_booting(),
    {
        CPU {
            registers: Registers::new_zeroed(),
            pc: 0,
            sp: 0xFFFF,
            bus: MemoryBus::new_and_empty(),
            is_halted: false,
        }
    }

    /// A CPU whose bus holds the given boot-ROM image; everything else is
    /// in the power-on state.
    pub fn new(boot_rom: &Vec<u8>) -> (r: CPU)
        ensures
            r.wf(),
            r.pc == 0,
            r.sp == 0xFFFF,
            !r.is_halted,
            r.registers == (Registers {
                a: 0u8, b: 0u8, c: 0u8, d: 0u8, e: 0u8,
                f: FlagsRegister { zero: false, subtraction: false, half_carry: false, carry: false },
                h: 0u8, l: 0u8,
            }),
            forall|i: int| 0 <= i < 0x100 ==> r.bus.boot_rom@[i] == (if i < boot_rom@.len() {
                boot_rom@[i]
            } else {
                0u8
            }),
    {
        let mut cpu = CPU::new_and_empty();
        cpu.bus.load_boot_rom(boot_rom);
        cpu
    }

    /// Return the program counter and stack pointer to their power-on
    /// values.
    pub fn reset(&mut self)
        requires
            old(self).wf(),
        ensures
            *final(self) == (CPU { pc: 0u16, sp: 0xFFFFu16, ..*old(self) }),
            final(self).wf(),
    {
        self.sp = 0xFFFF;
        self.pc = 0;
    }

    /// Hand a raw cartridge image to the bus.
    pub fn load_cartridge(&mut self, data: Vec<u8>) -> (r: Result<(), CartridgeError>)
        requires
            old(self).wf(),
        ensures
            final(self).wf(),
            r is Ok <==> spec_header_error(data@) is None,
            r matches Err(e) ==> Some(e) == spec_header_error(data@) && *final(self) == *old(self),
            r is Ok ==> final(self).bus.cartridge.wf()
                && spec_matches_header(final(self).bus.cartridge, data@),
            final(self).registers == old(self).registers,
            final(self).pc == old(self).pc,
            final(self).sp == old(self).sp,
            final(self).is_halted == old(self).is_halted,
    {
        self.bus.load_cartridge(data)
    }

    /// Read one byte through the bus.
    pub fn read_byte(&self, address: u16) -> (r: u8)
        requires
            self.wf(),
        ensures
            r == self.bus.spec_read(address),
    {
        self.bus.read_byte(address)
    }

    /// The byte immediately after the current instruction's opcode.
    pub fn read_next_byte(&self) -> (r: u8)
        requires
            self.wf(),
        ensures
            r == self.bus.spec_read(self.pc.wrapping_add(1)),
    {
        self.bus.read_byte(self.pc.wrapping_add(1))
    }

    /// The little-endian word in the two bytes after the opcode.
    pub fn read_next_word(&self) -> (r: u16)
        requires
            self.wf(),
        ensures
            r == word_from_bytes(
                self.bus.spec_read(self.pc.wrapping_add(2)),
                self.bus.spec_read(self.pc.wrapping_add(1)),
            ),
    {
        let lsb = self.bus.read_byte(self.pc.wrapping_add(1));
        let msb = self.bus.read_byte(self.pc.wrapping_add(2));
        (msb as u16) * 256 + (lsb as u16)
    }

    /// Evaluate one of the five jump-test predicates against the flags.
    pub fn jmp_test(&self, test: JumpTest) -> (r: bool)
        ensures
            r == spec_jmp_test(self.registers.f, test),
    {
        match test {
            JumpTest::NotZero => !self.registers.f.zero,
            JumpTest::NotCarry => !self.registers.f.carry,
            JumpTest::Zero => self.registers.f.zero,
            JumpTest::Carry => self.registers.f.carry,
            JumpTest::Always => true,
        }
    }

    /// 8-bit addition into A's flags: zero from the result, subtraction
    /// cleared, carry on 8-bit overflow, half-carry when the low nibbles
    /// sum past 0xF. Returns the wrapped sum; A itself is left to the
    /// caller.
    pub fn add_byte(&mut self, value: u8) -> (r: u8)
        ensures
            r == old(self).registers.a.wrapping_add(value),
            *final(self) == (CPU {
                registers: Registers {
                    f: FlagsRegister {
                        zero: r == 0,
                        subtraction: false,
                        half_carry: (old(self).registers.a & 0xF) + (value & 0xF) > 0xF,
                        carry: old(self).registers.a + value > 255,
                    },
                    ..old(self).registers
                },
                ..*old(self)
            }),
    {
        let a = self.registers.a;
        let total: u16 = (a as u16) + (value as u16);
        let new_value: u8 = (total % 256) as u8;
        self.registers.f.zero = new_value == 0;
        self.registers.f.subtraction = false;
        self.registers.f.carry = total > 255;
        self.registers.f.half_carry = ((a & 0xF) as u16) + ((value & 0xF) as u16) > 0xF;
        new_value
    }

    /// 8-bit subtraction from A's flags: subtraction set, carry on borrow,
    /// half-carry on a borrow out of the low nibble. Returns the wrapped
    /// difference; A itself is left to the caller.
    pub fn sub(&mut self, value: u8) -> (r: u8)
        ensures
            r == old(self).registers.a.wrapping_sub(value),
            *final(self) == (CPU {
                registers: Registers {
                    f: FlagsRegister {
                        zero: r == 0,
                        subtraction: true,
                        half_carry: (old(self).registers.a & 0xF) < (value & 0xF),
                        carry: old(self).registers.a < value,
                    },
                    ..old(self).registers
                },
                ..*old(self)
            }),
    {
        let a = self.registers.a;
        let new_value: u8 = if a >= value {
            a - value
        } else {
            ((a as u16) + 256 - (value as u16)) as u8
        };
        self.registers.f.zero = new_value == 0;
        self.registers.f.subtraction = true;
        self.registers.f.carry = a < value;
        self.registers.f.half_carry = (a & 0xF) < (value & 0xF);
        new_value
    }

    /// Bitwise AND against A: zero from the result, every other flag
    /// cleared.
    pub fn and(&mut self, value: u8) -> (r: u8)
        ensures
            r == (old(self).registers.a & value),
            *final(self) == (CPU {
                registers: Registers {
                    f: FlagsRegister {
                        zero: r == 0,
                        subtraction: false,
                        half_carry: false,
                        carry: false,
                    },
                    ..old(self).registers
                },
                ..*old(self)
            }),
    {
        let new_value = self.registers.a & value;
        self.registers.f.zero = new_value == 0;
        self.registers.f.subtraction = false;
        self.registers.f.carry = false;
        self.registers.f.half_carry = false;
        new_value
    }

    /// Bitwise OR against A: zero from the result, every other flag
    /// cleared.
    pub fn or(&mut self, value: u8) -> (r: u8)
        ensures
            r == (old(self).registers.a | value),
            *final(self) == (CPU {
                registers: Registers {
                    f: FlagsRegister {
                        zero: r == 0,
                        subtraction: false,
                        half_carry: false,
                        carry: false,
                    },
                    ..old(self).registers
                },
                ..*old(self)
            }),
    {
        let new_value = self.registers.a | value;
        self.registers.f.zero = new_value == 0;
        self.registers.f.subtraction = false;
        self.registers.f.carry = false;
        self.registers.f.half_carry = false;
        new_value
    }

    /// Bitwise XOR against A: zero from the result, every other flag
    /// cleared.
    pub fn xor(&mut self, value: u8) -> (r: u8)
        ensures
            r == (old(self).registers.a ^ value),
            *final(self) == (CPU {
                registers: Registers {
                    f: FlagsRegister {
                        zero: r == 0,
                        subtraction: false,
                        half_carry: false,
                        carry: false,
                    },
                    ..old(self).registers
                },
                ..*old(self)
            }),
    {
        let new_value = self.registers.a ^ value;
        self.registers.f.zero = new_value == 0;
        self.registers.f.subtraction = false;
        self.registers.f.carry = false;
        self.registers.f.half_carry = false;
        new_value
    }

    /// 8-bit increment: zero and half-carry recomputed, subtraction
    /// cleared, carry preserved.
    pub fn inc_byte(&mut self, value: u8) -> (r: u8)
        ensures
            r == value.wrapping_add(1),
            *final(self) == (CPU {
                registers: Registers {
                    f: FlagsRegister {
                        zero: r == 0,
                        subtraction: false,
                        half_carry: (value & 0xF) == 0xF,
                        carry: old(self).registers.f.carry,
                    },
                    ..old(self).registers
                },
                ..*old(self)
            }),
    {
        let new_value = value.wrapping_add(1);
        self.registers.f.zero = new_value == 0;
        self.registers.f.subtraction = false;
        self.registers.f.half_carry = (value & 0xF) == 0xF;
        new_value
    }

    /// 8-bit decrement: zero and half-carry recomputed, subtraction set,
    /// carry preserved.
    pub fn dec_byte(&mut self, value: u8) -> (r: u8)
        ensures
            r == value.wrapping_sub(1),
            *final(self) == (CPU {
                registers: Registers {
                    f: FlagsRegister {
                        zero: r == 0,
                        subtraction: true,
                        half_carry: (value & 0xF) == 0,
                        carry: old(self).registers.f.carry,
                    },
                    ..old(self).registers
                },
                ..*old(self)
            }),
    {
        let new_value = value.wrapping_sub(1);
        self.registers.f.zero = new_value == 0;
        self.registers.f.subtraction = true;
        self.registers.f.half_carry = (value & 0xF) == 0;
        new_value
    }

    /// 16-bit addition against HL: zero from the result, subtraction
    /// cleared, carry on 16-bit overflow, half-carry out of bit 11. Returns
    /// the wrapped sum; HL itself is left to the caller.
    pub fn add_word(&mut self, value: u16) -> (r: u16)
        ensures
            r == old(self).registers.spec_hl().wrapping_add(value),
            *final(self) == (CPU {
                registers: Registers {
                    f: FlagsRegister {
                        zero: r == 0,
                        subtraction: false,
                        half_carry: (old(self).registers.spec_hl() & 0xFFF) + (value & 0xFFF) > 0xFFF,
                        carry: old(self).registers.spec_hl() + value > 0xFFFF,
                    },
                    ..old(self).registers
                },
                ..*old(self)
            }),
    {
        let hl = self.registers.get_hl();
        let total: u32 = (hl as u32) + (value as u32);
        let new_value: u16 = (total % 0x10000) as u16;
        self.registers.f.zero = new_value == 0;
        self.registers.f.subtraction = false;
        self.registers.f.carry = total > 0xFFFF;
        self.registers.f.half_carry = ((hl & 0xFFF) as u32) + ((value & 0xFFF) as u32) > 0xFFF;
        new_value
    }

    /// Rotate left through the carry flag: the old carry enters at bit 0,
    /// the old bit 7 becomes the new carry.
    pub fn rl(&mut self, value: u8) -> (r: u8)
        ensures
            r == ((value << 1) | (if old(self).registers.f.carry { 1u8 } else { 0u8 })),
            *final(self) == (CPU {
                registers: Registers {
                    f: FlagsRegister {
                        zero: r == 0,
                        subtraction: false,
                        half_carry: false,
                        carry: (value & 0x80) > 0,
                    },
                    ..old(self).registers
                },
                ..*old(self)
            }),
    {
        let carry_in: u8 = if self.registers.f.carry { 1 } else { 0 };
        let new_value: u8 = (value << 1) | carry_in;
        self.registers.f.zero = new_value == 0;
        self.registers.f.carry = (value & 0x80) > 0;
        self.registers.f.subtraction = false;
        self.registers.f.half_carry = false;
        new_value
    }

    /// Rotate right through the carry flag: the old carry enters at bit 7,
    /// the old bit 0 becomes the new carry.
    pub fn rr(&mut self, value: u8) -> (r: u8)
        ensures
            r == ((value >> 1) | (if old(self).registers.f.carry { 0x80u8 } else { 0u8 })),
            *final(self) == (CPU {
                registers: Registers {
                    f: FlagsRegister {
                        zero: r == 0,
                        subtraction: false,
                        half_carry: false,
                        carry: (value & 0x01) > 0,
                    },
                    ..old(self).registers
                },
                ..*old(self)
            }),
    {
        let carry_in: u8 = if self.registers.f.carry { 0x80 } else { 0 };
        let new_value: u8 = (value >> 1) | carry_in;
        self.registers.f.zero = new_value == 0;
        self.registers.f.carry = (value & 0x01) > 0;
        self.registers.f.subtraction = false;
        self.registers.f.half_carry = false;
        new_value
    }

    /// The target of an absolute jump: the little-endian word after the
    /// opcode when the condition holds, else the address after the 3-byte
    /// instruction.
    pub fn jump(&self, should_jump: bool) -> (r: u16)
        requires
            self.wf(),
        ensures
            r == (if should_jump {
                word_from_bytes(
                    self.bus.spec_read(self.pc.wrapping_add(2)),
                    self.bus.spec_read(self.pc.wrapping_add(1)),
                )
            } else {
                self.pc.wrapping_add(3)
            }),
    {
        if should_jump {
            let lsb = self.bus.read_byte(self.pc.wrapping_add(1));
            let msb = self.bus.read_byte(self.pc.wrapping_add(2));
            (msb as u16) * 256 + (lsb as u16)
        } else {
            self.pc.wrapping_add(3)
        }
    }

    /// Push a 16-bit value: SP drops by two and the value's bytes go to the
    /// two descending addresses, high byte first. When both bytes land in
    /// directly-backed writable memory — the stack's normal home — the
    /// effect on the flat array is stated exactly.
    pub fn push(&mut self, value: u16)
        requires
            old(self).wf(),
        ensures
            final(self).wf(),
            final(self).sp == old(self).sp.wrapping_sub(2),
            final(self).registers == old(self).registers,
            final(self).pc == old(self).pc,
            final(self).is_halted == old(self).is_halted,
            final(self).bus.boot_rom@ == old(self).bus.boot_rom@,
            (flat_writable(old(self).sp.wrapping_sub(1)) && flat_writable(old(self).sp.wrapping_sub(2)))
                ==> {
                &&& final(self).bus.memory@ == old(self).bus.memory@.update(
                    old(self).sp.wrapping_sub(1) as int,
                    high_byte(value),
                ).update(old(self).sp.wrapping_sub(2) as int, low_byte(value))
                &&& final(self).bus.registers == old(self).bus.registers
                &&& CartridgeController::state_eq(old(self).bus.cartridge, final(self).bus.cartridge)
                &&& PPU::state_eq(old(self).bus.ppu, final(self).bus.ppu)
            },
    {
        let hi: u8 = (value / 256) as u8;
        let lo: u8 = (value % 256) as u8;
        self.sp = self.sp.wrapping_sub(1);
        self.bus.write_byte(self.sp, hi);
        self.sp = self.sp.wrapping_sub(1);
        self.bus.write_byte(self.sp, lo);
    }

    /// Pop a 16-bit value: the low byte at SP, the high byte just above it,
    /// and SP rises by two.
    pub fn pop(&mut self) -> (r: u16)
        requires
            old(self).wf(),
        ensures
            final(self).wf(),
            r == word_from_bytes(
                old(self).bus.spec_read(old(self).sp.wrapping_add(1)),
                old(self).bus.spec_read(old(self).sp),
            ),
            *final(self) == (CPU { sp: old(self).sp.wrapping_add(2), ..*old(self) }),
    {
        let lsb = self.bus.read_byte(self.sp);
        self.sp = self.sp.wrapping_add(1);
        let msb = self.bus.read_byte(self.sp);
        self.sp = self.sp.wrapping_add(1);
        (msb as u16) * 256 + (lsb as u16)
    }

    /// A call pushes the return address — the address just past the 3-byte
    /// CALL instruction — and jumps to the word after the opcode; when the
    /// condition fails it just steps past the instruction instead.
    pub fn call(&mut self, should_jump: bool) -> (r: u16)
        requires
            old(self).wf(),
        ensures
            final(self).wf(),
            !should_jump ==> *final(self) == *old(self) && r == old(self).pc.wrapping_add(3),
            should_jump ==> {
                &&& final(self).sp == old(self).sp.wrapping_sub(2)
                &&& final(self).registers == old(self).registers
                &&& final(self).pc == old(self).pc
                &&& final(self).is_halted == old(self).is_halted
                &&& final(self).bus.boot_rom@ == old(self).bus.boot_rom@
                &&& r == word_from_bytes(
                    final(self).bus.spec_read(old(self).pc.wrapping_add(2)),
                    final(self).bus.spec_read(old(self).pc.wrapping_add(1)),
                )
                &&& ((flat_writable(old(self).sp.wrapping_sub(1)) && flat_writable(
                    old(self).sp.wrapping_sub(2),
                )) ==> {
                    &&& final(self).bus.memory@ == old(self).bus.memory@.update(
                        old(self).sp.wrapping_sub(1) as int,
                        high_byte(old(self).pc.wrapping_add(3)),
                    ).update(old(self).sp.wrapping_sub(2) as int, low_byte(old(self).pc.wrapping_add(3)))
                    &&& final(self).bus.registers == old(self).bus.registers
                    &&& CartridgeController::state_eq(old(self).bus.cartridge, final(self).bus.cartridge)
                    &&& PPU::state_eq(old(self).bus.ppu, final(self).bus.ppu)
                })
            },
    {
        if should_jump {
            let ret = self.pc.wrapping_add(3);
            self.push(ret);
            self.read_next_word()
        } else {
            self.pc.wrapping_add(3)
        }
    }

    /// A return pops the program counter when the condition holds, else it
    /// steps past the 1-byte instruction.
    pub fn _return(&mut self, should_jump: bool) -> (r: u16)
        requires
            old(self).wf(),
        ensures
            final(self).wf(),
            !should_jump ==> *final(self) == *old(self) && r == old(self).pc.wrapping_add(1),
            should_jump ==> r == word_from_bytes(
                old(self).bus.spec_read(old(self).sp.wrapping_add(1)),
                old(self).bus.spec_read(old(self).sp),
            ) && *final(self) == (CPU { sp: old(self).sp.wrapping_add(2), ..*old(self) }),
    {
        if should_jump {
            self.pop()
        } else {
            self.pc.wrapping_add(1)
        }
    }
}

impl CPU {
    fn exec_adc(&mut self, target: AdcTargetType) -> (r: u16)
        requires
            old(self).wf(),
        ensures
            final(self).wf(),
            final(self).pc == old(self).pc,
            final(self).bus.boot_rom@ == old(self).bus.boot_rom@,
            final(self).is_halted == old(self).is_halted,
            spec_exec_adc(*old(self), *final(self), target, r),
    {
        let (val, pc_inc): (u8, u16) = match target {
            AdcTargetType::A => (self.registers.a, 1),
            AdcTargetType::B => (self.registers.b, 1),
            AdcTargetType::C => (self.registers.c, 1),
            AdcTargetType::D => (self.registers.d, 1),
            AdcTargetType::E => (self.registers.e, 1),
            AdcTargetType::H => (self.registers.h, 1),
            AdcTargetType::L => (self.registers.l, 1),
            AdcTargetType::HLI => {
                let hl = self.registers.get_hl();
                (self.bus.read_byte(hl), 1)
            },
            AdcTargetType::D8 => (self.read_next_byte(), 2),
        };
        let carry_in: u8 = if self.registers.f.carry { 1 } else { 0 };
        let new_value = self.add_byte(val.wrapping_add(carry_in));
        self.registers.a = new_value;
        self.pc.wrapping_add(pc_inc)
    }

    fn exec_add(&mut self, arithmetic_type: AddTargetType) -> (r: u16)
        requires
            old(self).wf(),
        ensures
            final(self).wf(),
            final(self).pc == old(self).pc,
            final(self).bus.boot_rom@ == old(self).bus.boot_rom@,
            final(self).is_halted == old(self).is_halted,
            spec_exec_add(*old(self), *final(self), arithmetic_type, r),
    {
    match arithmetic_type {
        AddTargetType::Byte(target) => {
            let (val, pc_inc): (u8, u16) = match target {
                AddByteTarget::A => (self.registers.a, 1),
                AddByteTarget::B => (self.registers.b, 1),
                AddByteTarget::C => (self.registers.c, 1),
                AddByteTarget::D => (self.registers.d, 1),
                AddByteTarget::E => (self.registers.e, 1),
                AddByteTarget::H => (self.registers.h, 1),
                AddByteTarget::L => (self.registers.l, 1),
                AddByteTarget::HLI => {
                    let hl = self.registers.get_hl();
                    (self.bus.read_byte(hl), 1)
                },
                AddByteTarget::D8 => (self.read_next_byte(), 2),
            };
            let new_value = self.add_byte(val);
            self.registers.a = new_value;
            self.pc.wrapping_add(pc_inc)
        },
        AddTargetType::Word(target) => {
            let value: u16 = match target {
                ArithmeticWordTarget::BC => self.registers.get_bc(),
                ArithmeticWordTarget::DE => self.registers.get_de(),
                ArithmeticWordTarget::HL => self.registers.get_hl(),
                ArithmeticWordTarget::SP => self.sp,
            };
            let new_value = self.add_word(value);
            self.registers.set_hl(new_value);
            self.pc.wrapping_add(1)
        },
        AddTargetType::SPS8 => {
            let raw = self.read_next_byte();
            let displacement: i16 = (raw as i8) as i16;
            let sp_before = self.sp;
            let sum: i32 = (sp_before as i32) + (displacement as i32);
            self.sp = sp_before.wrapping_add_signed(displacement);
            self.registers.f.zero = false;
            self.registers.f.subtraction = false;
            self.registers.f.carry = sum > 0xFFFF || sum < 0;
            self.registers.f.half_carry =
                ((sp_before & 0xF) as u32) + ((raw & 0xF) as u32) > 0xF;
            self.pc.wrapping_add(2)
        },
    }
    }

    fn exec_and(&mut self, target: AndTargetType) -> (r: u16)
        requires
            old(self).wf(),
        ensures
            final(self).wf(),
            final(self).pc == old(self).pc,
            final(self).bus.boot_rom@ == old(self).bus.boot_rom@,
            final(self).is_halted == old(self).is_halted,
            spec_exec_and(*old(self), *final(self), target, r),
    {
        let (val, pc_inc): (u8, u16) = match target {
            AndTargetType::A => (self.registers.a, 1),
            AndTargetType::B => (self.registers.b, 1),
            AndTargetType::C => (self.registers.c, 1),
            AndTargetType::D => (self.registers.d, 1),
            AndTargetType::E => (self.registers.e, 1),
            AndTargetType::H => (self.registers.h, 1),
            AndTargetType::L => (self.registers.l, 1),
            AndTargetType::HLI => {
                let hl = self.registers.get_hl();
                (self.bus.read_byte(hl), 1)
            },
            AndTargetType::D8 => (self.read_next_byte(), 2),
        };
        let new_value = self.and(val);
        self.registers.a = new_value;
        self.pc.wrapping_add(pc_inc)
    }

    fn exec_bit(&mut self, position: BitPosition, register: BitRegister) -> (r: u16)
        requires
            old(self).wf(),
        ensures
            final(self).wf(),
            final(self).pc == old(self).pc,
            final(self).bus.boot_rom@ == old(self).bus.boot_rom@,
            final(self).is_halted == old(self).is_halted,
            spec_exec_bit(*old(self), *final(self), position, register, r),
    {
        let and_val: u8 = match position {
            BitPosition::Zero => 1,
            BitPosition::One => 2,
            BitPosition::Two => 4,
            BitPosition::Three => 8,
            BitPosition::Four => 16,
            BitPosition::Five => 32,
            BitPosition::Six => 64,
            BitPosition::Seven => 128,
        };
        let flag_val: bool = match register {
            BitRegister::B => (self.registers.b & and_val) > 0,
            BitRegister::C => (self.registers.c & and_val) > 0,
            BitRegister::D => (self.registers.d & and_val) > 0,
            BitRegister::E => (self.registers.e & and_val) > 0,
            BitRegister::H => (self.registers.h & and_val) > 0,
            BitRegister::L => (self.registers.l & and_val) > 0,
            BitRegister::HLI => {
                let hl = self.registers.get_hl();
                (self.bus.read_byte(hl) & and_val) > 0
            },
            BitRegister::A => (self.registers.a & and_val) > 0,
        };
        self.registers.f.zero = flag_val;
        self.pc.wrapping_add(2)
    }

    fn exec_cp(&mut self, target: CPByteTarget) -> (r: u16)
        requires
            old(self).wf(),
        ensures
            final(self).wf(),
            final(self).pc == old(self).pc,
            final(self).bus.boot_rom@ == old(self).bus.boot_rom@,
            final(self).is_halted == old(self).is_halted,
            spec_exec_cp(*old(self), *final(self), target, r),
    {
        let (val, pc_inc): (u8, u16) = match target {
            CPByteTarget::A => (self.registers.a, 1),
            CPByteTarget::B => (self.registers.b, 1),
            CPByteTarget::C => (self.registers.c, 1),
            CPByteTarget::D => (self.registers.d, 1),
            CPByteTarget::E => (self.registers.e, 1),
            CPByteTarget::H => (self.registers.h, 1),
            CPByteTarget::L => (self.registers.l, 1),
            CPByteTarget::HLI => {
                let hl = self.registers.get_hl();
                (self.bus.read_byte(hl), 1)
            },
            CPByteTarget::D8 => (self.read_next_byte(), 2),
        };
        // the comparison wants the flags only, so the difference is dropped
        let _ = self.sub(val);
        self.pc.wrapping_add(pc_inc)
    }

    fn exec_dec(&mut self, dec_type: ArithmeticTargetType) -> (r: u16)
        requires
            old(self).wf(),
        ensures
            final(self).wf(),
            final(self).pc == old(self).pc,
            final(self).bus.boot_rom@ == old(self).bus.boot_rom@,
            final(self).is_halted == old(self).is_halted,
            spec_exec_dec(*old(self), *final(self), dec_type, r),
    {
    match dec_type {
        ArithmeticTargetType::Word(target) => {
            match target {
                ArithmeticWordTarget::BC => {
                    let v = self.registers.get_bc();
                    self.registers.set_bc(v.wrapping_sub(1));
                },
                ArithmeticWordTarget::DE => {
                    let v = self.registers.get_de();
                    self.registers.set_de(v.wrapping_sub(1));
                },
                ArithmeticWordTarget::HL => {
                    let v = self.registers.get_hl();
                    self.registers.set_hl(v.wrapping_sub(1));
                },
                ArithmeticWordTarget::SP => {
                    self.sp = self.sp.wrapping_sub(1);
                },
            }
            self.pc.wrapping_add(1)
        },
        ArithmeticTargetType::Byte(target) => {
            match target {
                ArithmeticByteTarget::A => {
                    let v = self.dec_byte(self.registers.a);
                    self.registers.a = v;
                },
                ArithmeticByteTarget::B => {
                    let v = self.dec_byte(self.registers.b);
                    self.registers.b = v;
                },
                ArithmeticByteTarget::C => {
                    let v = self.dec_byte(self.registers.c);
                    self.registers.c = v;
                },
                ArithmeticByteTarget::D => {
                    let v = self.dec_byte(self.registers.d);
                    self.registers.d = v;
                },
                ArithmeticByteTarget::E => {
                    let v = self.dec_byte(self.registers.e);
                    self.registers.e = v;
                },
                ArithmeticByteTarget::H => {
                    let v = self.dec_byte(self.registers.h);
                    self.registers.h = v;
                },
                ArithmeticByteTarget::L => {
                    let v = self.dec_byte(self.registers.l);
                    self.registers.l = v;
                },
                ArithmeticByteTarget::HLI => {
                    let addr = self.registers.get_hl();
                    let value = self.bus.read_byte(addr);
                    let new_value = self.dec_byte(value);
                    self.bus.write_byte(addr, new_value);
                },
            }
            self.pc.wrapping_add(1)
        },
    }
    }

    fn exec_inc(&mut self, inc_type: ArithmeticTargetType) -> (r: u16)
        requires
            old(self).wf(),
        ensures
            final(self).wf(),
            final(self).pc == old(self).pc,
            final(self).bus.boot_rom@ == old(self).bus.boot_rom@,
            final(self).is_halted == old(self).is_halted,
            spec_exec_inc(*old(self), *final(self), inc_type, r),
    {
    match inc_type {
        ArithmeticTargetType::Word(target) => {
            match target {
                ArithmeticWordTarget::BC => {
                    let v = self.registers.get_bc();
                    self.registers.set_bc(v.wrapping_add(1));
                },
                ArithmeticWordTarget::DE => {
                    let v = self.registers.get_de();
                    self.registers.set_de(v.wrapping_add(1));
                },
                ArithmeticWordTarget::HL => {
                    let v = self.registers.get_hl();
                    self.registers.set_hl(v.wrapping_add(1));
                },
                ArithmeticWordTarget::SP => {
                    self.sp = self.sp.wrapping_add(1);
                },
            }
            self.pc.wrapping_add(1)
        },
        ArithmeticTargetType::Byte(target) => {
            match target {
                ArithmeticByteTarget::A => {
                    let v = self.inc_byte(self.registers.a);
                    self.registers.a = v;
                },
                ArithmeticByteTarget::B => {
                    let v = self.inc_byte(self.registers.b);
                    self.registers.b = v;
                },
                ArithmeticByteTarget::C => {
                    let v = self.inc_byte(self.registers.c);
                    self.registers.c = v;
                },
                ArithmeticByteTarget::D => {
                    let v = self.inc_byte(self.registers.d);
                    self.registers.d = v;
                },
                ArithmeticByteTarget::E => {
                    let v = self.inc_byte(self.registers.e);
                    self.registers.e = v;
                },
                ArithmeticByteTarget::H => {
                    let v = self.inc_byte(self.registers.h);
                    self.registers.h = v;
                },
                ArithmeticByteTarget::L => {
                    let v = self.inc_byte(self.registers.l);
                    self.registers.l = v;
                },
                ArithmeticByteTarget::HLI => {
                    let addr = self.registers.get_hl();
                    let value = self.bus.read_byte(addr);
                    let new_value = self.inc_byte(value);
                    self.bus.write_byte(addr, new_value);
                },
            }
            self.pc.wrapping_add(1)
        },
    }
    }

    #[verifier::rlimit(100)]
    fn exec_ld(&mut self, load_type: LoadType) -> (r: u16)
        requires
            old(self).wf(),
        ensures
            final(self).wf(),
            final(self).pc == old(self).pc,
            final(self).bus.boot_rom@ == old(self).bus.boot_rom@,
            final(self).is_halted == old(self).is_halted,
            spec_exec_ld(*old(self), *final(self), load_type, r),
    {
    match load_type {
        LoadType::Byte(target, source) => {
            let source_value: u8 = match source {
                LoadByteSource::A => self.registers.a,
                LoadByteSource::B => self.registers.b,
                LoadByteSource::C => self.registers.c,
                LoadByteSource::D => self.registers.d,
                LoadByteSource::E => self.registers.e,
                LoadByteSource::H => self.registers.h,
                LoadByteSource::L => self.registers.l,
                LoadByteSource::D8 => self.read_next_byte(),
                LoadByteSource::HLI => {
                    let hl = self.registers.get_hl();
                    self.bus.read_byte(hl)
                },
            };
            match target {
                LoadByteTarget::A => self.registers.a = source_value,
                LoadByteTarget::B => self.registers.b = source_value,
                LoadByteTarget::C => self.registers.c = source_value,
                LoadByteTarget::D => self.registers.d = source_value,
                LoadByteTarget::E => self.registers.e = source_value,
                LoadByteTarget::H => self.registers.h = source_value,
                LoadByteTarget::L => self.registers.l = source_value,
                LoadByteTarget::HLI => {
                    let hl = self.registers.get_hl();
                    self.bus.write_byte(hl, source_value);
                },
            }
            match source {
                LoadByteSource::D8 => self.pc.wrapping_add(2),
                _ => self.pc.wrapping_add(1),
            }
        },
        LoadType::Word(load_word_target, load_word_source) => {
            let source_value: u16 = match load_word_source {
                LoadWordSource::BC => self.registers.get_bc(),
                LoadWordSource::D16 => self.read_next_word(),
                LoadWordSource::HL => self.registers.get_hl(),
                LoadWordSource::SPPlusS8 => {
                    let displacement: i16 = (self.read_next_byte() as i8) as i16;
                    self.sp.wrapping_add_signed(displacement)
                },
            };
            match load_word_target {
                LoadWordTarget::BC => self.registers.set_bc(source_value),
                LoadWordTarget::DE => self.registers.set_de(source_value),
                LoadWordTarget::HL => self.registers.set_hl(source_value),
                LoadWordTarget::SP => self.sp = source_value,
            }
            let pc_inc: u16 = match (load_word_target, load_word_source) {
                (LoadWordTarget::HL, LoadWordSource::SPPlusS8) => 2,
                (LoadWordTarget::SP, LoadWordSource::HL) => 1,
                _ => 3,
            };
            self.pc.wrapping_add(pc_inc)
        },
        LoadType::AIntoHLInc => {
            let write_addr = self.registers.get_hl();
            self.bus.write_byte(write_addr, self.registers.a);
            self.registers.set_hl(write_addr.wrapping_add(1));
            self.pc.wrapping_add(1)
        },
        LoadType::AIntoHLDec => {
            let write_addr = self.registers.get_hl();
            self.bus.write_byte(write_addr, self.registers.a);
            self.registers.set_hl(write_addr.wrapping_sub(1));
            self.pc.wrapping_add(1)
        },
        LoadType::HLIncIntoA => {
            let read_addr = self.registers.get_hl();
            self.registers.a = self.bus.read_byte(read_addr);
            self.registers.set_hl(read_addr.wrapping_add(1));
            self.pc.wrapping_add(1)
        },
        LoadType::HLDecIntoA => {
            let read_addr = self.registers.get_hl();
            self.registers.a = self.bus.read_byte(read_addr);
            self.registers.set_hl(read_addr.wrapping_sub(1));
            self.pc.wrapping_add(1)
        },
        LoadType::AFromByteAddress(ld_byte_address) => {
            let (addr_inc, pc_inc): (u8, u16) = match ld_byte_address {
                LdByteAddress::C => (self.registers.c, 1),
                LdByteAddress::A8 => (self.read_next_byte(), 2),
            };
            let addr: u16 = 0xFF00 + (addr_inc as u16);
            self.registers.a = self.bus.read_byte(addr);
            self.pc.wrapping_add(pc_inc)
        },
        LoadType::ByteAddressFromA(ld_byte_address) => {
            let (addr_inc, pc_inc): (u8, u16) = match ld_byte_address {
                LdByteAddress::C => (self.registers.c, 1),
                LdByteAddress::A8 => (self.read_next_byte(), 2),
            };
            let addr: u16 = 0xFF00 + (addr_inc as u16);
            self.bus.write_byte(addr, self.registers.a);
            self.pc.wrapping_add(pc_inc)
        },
        LoadType::AFromIndirect(addr_source) => {
            let (addr, pc_inc): (u16, u16) = match addr_source {
                LdIndirectAddr::BC => (self.registers.get_bc(), 1),
                LdIndirectAddr::DE => (self.registers.get_de(), 1),
                LdIndirectAddr::A16 => (self.read_next_word(), 3),
            };
            self.registers.a = self.bus.read_byte(addr);
            self.pc.wrapping_add(pc_inc)
        },
        LoadType::IndirectFromA(addr_target) => {
            let (addr, pc_inc): (u16, u16) = match addr_target {
                LdIndirectAddr::BC => (self.registers.get_bc(), 1),
                LdIndirectAddr::DE => (self.registers.get_de(), 1),
                LdIndirectAddr::A16 => (self.read_next_word(), 3),
            };
            self.bus.write_byte(addr, self.registers.a);
            self.pc.wrapping_add(pc_inc)
        },
    }
    }

    fn exec_or(&mut self, target: ORTargetType) -> (r: u16)
        requires
            old(self).wf(),
        ensures
            final(self).wf(),
            final(self).pc == old(self).pc,
            final(self).bus.boot_rom@ == old(self).bus.boot_rom@,
            final(self).is_halted == old(self).is_halted,
            spec_exec_or(*old(self), *final(self), target, r),
    {
        let (val, pc_inc): (u8, u16) = match target {
            ORTargetType::A => (self.registers.a, 1),
            ORTargetType::B => (self.registers.b, 1),
            ORTargetType::C => (self.registers.c, 1),
            ORTargetType::D => (self.registers.d, 1),
            ORTargetType::E => (self.registers.e, 1),
            ORTargetType::H => (self.registers.h, 1),
            ORTargetType::L => (self.registers.l, 1),
            ORTargetType::HLI => {
                let hl = self.registers.get_hl();
                (self.bus.read_byte(hl), 1)
            },
            ORTargetType::D8 => (self.read_next_byte(), 2),
        };
        let new_value = self.or(val);
        self.registers.a = new_value;
        self.pc.wrapping_add(pc_inc)
    }

    fn exec_res(&mut self, position: BitPosition, register: BitRegister) -> (r: u16)
        requires
            old(self).wf(),
        ensures
            final(self).wf(),
            final(self).pc == old(self).pc,
            final(self).bus.boot_rom@ == old(self).bus.boot_rom@,
            final(self).is_halted == old(self).is_halted,
            spec_exec_res(*old(self), *final(self), position, register, r),
    {
        let and_val: u8 = match position {
            BitPosition::Zero => 1,
            BitPosition::One => 2,
            BitPosition::Two => 4,
            BitPosition::Three => 8,
            BitPosition::Four => 16,
            BitPosition::Five => 32,
            BitPosition::Six => 64,
            BitPosition::Seven => 128,
        };
        match register {
            BitRegister::B => self.registers.b = !and_val & self.registers.b,
            BitRegister::C => self.registers.c = !and_val & self.registers.c,
            BitRegister::D => self.registers.d = !and_val & self.registers.d,
            BitRegister::E => self.registers.e = !and_val & self.registers.e,
            BitRegister::H => self.registers.h = !and_val & self.registers.h,
            BitRegister::L => self.registers.l = !and_val & self.registers.l,
            BitRegister::HLI => {
                let hl = self.registers.get_hl();
                let v = self.bus.read_byte(hl);
                self.bus.write_byte(hl, !and_val & v);
            },
            BitRegister::A => self.registers.a = !and_val & self.registers.a,
        }
        self.pc.wrapping_add(2)
    }

    fn exec_rl(&mut self, target: ArithmeticByteTarget) -> (r: u16)
        requires
            old(self).wf(),
        ensures
            final(self).wf(),
            final(self).pc == old(self).pc,
            final(self).bus.boot_rom@ == old(self).bus.boot_rom@,
            final(self).is_halted == old(self).is_halted,
            spec_exec_rl(*old(self), *final(self), target, r),
    {
        match target {
            ArithmeticByteTarget::A => {
                let v = self.rl(self.registers.a);
                self.registers.a = v;
            },
            ArithmeticByteTarget::B => {
                let v = self.rl(self.registers.b);
                self.registers.b = v;
            },
            ArithmeticByteTarget::C => {
                let v = self.rl(self.registers.c);
                self.registers.c = v;
            },
            ArithmeticByteTarget::D => {
                let v = self.rl(self.registers.d);
                self.registers.d = v;
            },
            ArithmeticByteTarget::E => {
                let v = self.rl(self.registers.e);
                self.registers.e = v;
            },
            ArithmeticByteTarget::H => {
                let v = self.rl(self.registers.h);
                self.registers.h = v;
            },
            ArithmeticByteTarget::L => {
                let v = self.rl(self.registers.l);
                self.registers.l = v;
            },
            ArithmeticByteTarget::HLI => {
                let hl = self.registers.get_hl();
                let value = self.bus.read_byte(hl);
                let new_value = self.rl(value);
                self.bus.write_byte(hl, new_value);
            },
        }
        self.pc.wrapping_add(2)
    }

    fn exec_rlc(&mut self, target: ArithmeticByteTarget) -> (r: u16)
        requires
            old(self).wf(),
        ensures
            final(self).wf(),
            final(self).pc == old(self).pc,
            final(self).bus.boot_rom@ == old(self).bus.boot_rom@,
            final(self).is_halted == old(self).is_halted,
            spec_exec_rlc(*old(self), *final(self), target, r),
    {
        let value: u8 = match target {
            ArithmeticByteTarget::A => self.registers.a,
            ArithmeticByteTarget::B => self.registers.b,
            ArithmeticByteTarget::C => self.registers.c,
            ArithmeticByteTarget::D => self.registers.d,
            ArithmeticByteTarget::E => self.registers.e,
            ArithmeticByteTarget::H => self.registers.h,
            ArithmeticByteTarget::L => self.registers.l,
            ArithmeticByteTarget::HLI => {
                let hl = self.registers.get_hl();
                self.bus.read_byte(hl)
            },
        };
        self.registers.f.carry = (value & 0x80) > 0;
        self.registers.f.zero = value == 0;
        let new_value: u8 = (value << 1) | (value >> 7);
        match target {
            ArithmeticByteTarget::A => self.registers.a = new_value,
            ArithmeticByteTarget::B => self.registers.b = new_value,
            ArithmeticByteTarget::C => self.registers.c = new_value,
            ArithmeticByteTarget::D => self.registers.d = new_value,
            ArithmeticByteTarget::E => self.registers.e = new_value,
            ArithmeticByteTarget::H => self.registers.h = new_value,
            ArithmeticByteTarget::L => self.registers.l = new_value,
            ArithmeticByteTarget::HLI => {
                let hl = self.registers.get_hl();
                self.bus.write_byte(hl, new_value);
            },
        }
        self.pc.wrapping_add(2)
    }

    fn exec_rr(&mut self, target: ArithmeticByteTarget) -> (r: u16)
        requires
            old(self).wf(),
        ensures
            final(self).wf(),
            final(self).pc == old(self).pc,
            final(self).bus.boot_rom@ == old(self).bus.boot_rom@,
            final(self).is_halted == old(self).is_halted,
            spec_exec_rr(*old(self), *final(self), target, r),
    {
        match target {
            ArithmeticByteTarget::A => {
                let v = self.rr(self.registers.a);
                self.registers.a = v;
            },
            ArithmeticByteTarget::B => {
                let v = self.rr(self.registers.b);
                self.registers.b = v;
            },
            ArithmeticByteTarget::C => {
                let v = self.rr(self.registers.c);
                self.registers.c = v;
            },
            ArithmeticByteTarget::D => {
                let v = self.rr(self.registers.d);
                self.registers.d = v;
            },
            ArithmeticByteTarget::E => {
                let v = self.rr(self.registers.e);
                self.registers.e = v;
            },
            ArithmeticByteTarget::H => {
                let v = self.rr(self.registers.h);
                self.registers.h = v;
            },
            ArithmeticByteTarget::L => {
                let v = self.rr(self.registers.l);
                self.registers.l = v;
            },
            ArithmeticByteTarget::HLI => {
                let hl = self.registers.get_hl();
                let value = self.bus.read_byte(hl);
                let new_value = self.rr(value);
                self.bus.write_byte(hl, new_value);
            },
        }
        self.pc.wrapping_add(2)
    }

    fn exec_rrc(&mut self, target: ArithmeticByteTarget) -> (r: u16)
        requires
            old(self).wf(),
        ensures
            final(self).wf(),
            final(self).pc == old(self).pc,
            final(self).bus.boot_rom@ == old(self).bus.boot_rom@,
            final(self).is_halted == old(self).is_halted,
            spec_exec_rrc(*old(self), *final(self), target, r),
    {
        let value: u8 = match target {
            ArithmeticByteTarget::A => self.registers.a,
            ArithmeticByteTarget::B => self.registers.b,
            ArithmeticByteTarget::C => self.registers.c,
            ArithmeticByteTarget::D => self.registers.d,
            ArithmeticByteTarget::E => self.registers.e,
            ArithmeticByteTarget::H => self.registers.h,
            ArithmeticByteTarget::L => self.registers.l,
            ArithmeticByteTarget::HLI => {
                let hl = self.registers.get_hl();
                self.bus.read_byte(hl)
            },
        };
        self.registers.f.carry = (value & 0x01) > 0;
        self.registers.f.zero = value == 0;
        let new_value: u8 = (value >> 1) | (value << 7);
        match target {
            ArithmeticByteTarget::A => self.registers.a = new_value,
            ArithmeticByteTarget::B => self.registers.b = new_value,
            ArithmeticByteTarget::C => self.registers.c = new_value,
            ArithmeticByteTarget::D => self.registers.d = new_value,
            ArithmeticByteTarget::E => self.registers.e = new_value,
            ArithmeticByteTarget::H => self.registers.h = new_value,
            ArithmeticByteTarget::L => self.registers.l = new_value,
            ArithmeticByteTarget::HLI => {
                let hl = self.registers.get_hl();
                self.bus.write_byte(hl, new_value);
            },
        }
        self.pc.wrapping_add(2)
    }

    fn exec_rst(&mut self, position: BitPosition) -> (r: u16)
        requires
            old(self).wf(),
        ensures
            final(self).wf(),
            final(self).pc == old(self).pc,
            final(self).bus.boot_rom@ == old(self).bus.boot_rom@,
            final(self).is_halted == old(self).is_halted,
            spec_exec_rst(*old(self), *final(self), position, r),
    {
        let offset: u16 = match position {
            BitPosition::Zero => 1,
            BitPosition::One => 2,
            BitPosition::Two => 4,
            BitPosition::Three => 8,
            BitPosition::Four => 16,
            BitPosition::Five => 32,
            BitPosition::Six => 64,
            BitPosition::Seven => 128,
        };
        self.push(self.pc);
        let msb = self.bus.read_byte(offset);
        let lsb = self.bus.read_byte(offset.wrapping_add(1));
        (msb as u16) * 256 + (lsb as u16)
    }

    fn exec_sbc(&mut self, target: SBCByteTarget) -> (r: u16)
        requires
            old(self).wf(),
        ensures
            final(self).wf(),
            final(self).pc == old(self).pc,
            final(self).bus.boot_rom@ == old(self).bus.boot_rom@,
            final(self).is_halted == old(self).is_halted,
            spec_exec_sbc(*old(self), *final(self), target, r),
    {
        let (val, pc_inc): (u8, u16) = match target {
            SBCByteTarget::A => (self.registers.a, 1),
            SBCByteTarget::B => (self.registers.b, 1),
            SBCByteTarget::C => (self.registers.c, 1),
            SBCByteTarget::D => (self.registers.d, 1),
            SBCByteTarget::E => (self.registers.e, 1),
            SBCByteTarget::H => (self.registers.h, 1),
            SBCByteTarget::L => (self.registers.l, 1),
            SBCByteTarget::HLI => {
                let hl = self.registers.get_hl();
                (self.bus.read_byte(hl), 1)
            },
            SBCByteTarget::D8 => (self.read_next_byte(), 2),
        };
        let carry_in: u8 = if self.registers.f.carry { 1 } else { 0 };
        let new_value = self.sub(val.wrapping_add(carry_in));
        self.registers.a = new_value;
        self.pc.wrapping_add(pc_inc)
    }

    fn exec_set(&mut self, position: BitPosition, register: BitRegister) -> (r: u16)
        requires
            old(self).wf(),
        ensures
            final(self).wf(),
            final(self).pc == old(self).pc,
            final(self).bus.boot_rom@ == old(self).bus.boot_rom@,
            final(self).is_halted == old(self).is_halted,
            spec_exec_set(*old(self), *final(self), position, register, r),
    {
        let or_val: u8 = match position {
            BitPosition::Zero => 1,
            BitPosition::One => 2,
            BitPosition::Two => 4,
            BitPosition::Three => 8,
            BitPosition::Four => 16,
            BitPosition::Five => 32,
            BitPosition::Six => 64,
            BitPosition::Seven => 128,
        };
        match register {
            BitRegister::B => self.registers.b = or_val | self.registers.b,
            BitRegister::C => self.registers.c = or_val | self.registers.c,
            BitRegister::D => self.registers.d = or_val | self.registers.d,
            BitRegister::E => self.registers.e = or_val | self.registers.e,
            BitRegister::H => self.registers.h = or_val | self.registers.h,
            BitRegister::L => self.registers.l = or_val | self.registers.l,
            BitRegister::HLI => {
                let hl = self.registers.get_hl();
                let v = self.bus.read_byte(hl);
                self.bus.write_byte(hl, or_val | v);
            },
            BitRegister::A => self.registers.a = or_val | self.registers.a,
        }
        self.pc.wrapping_add(2)
    }

    fn exec_sla(&mut self, target: ArithmeticByteTarget) -> (r: u16)
        requires
            old(self).wf(),
        ensures
            final(self).wf(),
            final(self).pc == old(self).pc,
            final(self).bus.boot_rom@ == old(self).bus.boot_rom@,
            final(self).is_halted == old(self).is_halted,
            spec_exec_sla(*old(self), *final(self), target, r),
    {
        let value: u8 = match target {
            ArithmeticByteTarget::A => self.registers.a,
            ArithmeticByteTarget::B => self.registers.b,
            ArithmeticByteTarget::C => self.registers.c,
            ArithmeticByteTarget::D => self.registers.d,
            ArithmeticByteTarget::E => self.registers.e,
            ArithmeticByteTarget::H => self.registers.h,
            ArithmeticByteTarget::L => self.registers.l,
            ArithmeticByteTarget::HLI => {
                let hl = self.registers.get_hl();
                self.bus.read_byte(hl)
            },
        };
        let new_value: u8 = value << 1;
        self.registers.f.carry = (value & 0x80) > 0;
        self.registers.f.zero = new_value == 0;
        self.registers.f.subtraction = false;
        self.registers.f.half_carry = false;
        match target {
            ArithmeticByteTarget::A => self.registers.a = new_value,
            ArithmeticByteTarget::B => self.registers.b = new_value,
            ArithmeticByteTarget::C => self.registers.c = new_value,
            ArithmeticByteTarget::D => self.registers.d = new_value,
            ArithmeticByteTarget::E => self.registers.e = new_value,
            ArithmeticByteTarget::H => self.registers.h = new_value,
            ArithmeticByteTarget::L => self.registers.l = new_value,
            ArithmeticByteTarget::HLI => {
                let hl = self.registers.get_hl();
                self.bus.write_byte(hl, new_value);
            },
        }
        self.pc.wrapping_add(2)
    }

    fn exec_sra(&mut self, target: ArithmeticByteTarget) -> (r: u16)
        requires
            old(self).wf(),
        ensures
            final(self).wf(),
            final(self).pc == old(self).pc,
            final(self).bus.boot_rom@ == old(self).bus.boot_rom@,
            final(self).is_halted == old(self).is_halted,
            spec_exec_sra(*old(self), *final(self), target, r),
    {
        let value: u8 = match target {
            ArithmeticByteTarget::A => self.registers.a,
            ArithmeticByteTarget::B => self.registers.b,
            ArithmeticByteTarget::C => self.registers.c,
            ArithmeticByteTarget::D => self.registers.d,
            ArithmeticByteTarget::E => self.registers.e,
            ArithmeticByteTarget::H => self.registers.h,
            ArithmeticByteTarget::L => self.registers.l,
            ArithmeticByteTarget::HLI => {
                let hl = self.registers.get_hl();
                self.bus.read_byte(hl)
            },
        };
        let new_value: u8 = (value >> 1) | (value & 0x80);
        self.registers.f.carry = (value & 0x01) > 0;
        self.registers.f.zero = new_value == 0;
        self.registers.f.subtraction = false;
        self.registers.f.half_carry = false;
        match target {
            ArithmeticByteTarget::A => self.registers.a = new_value,
            ArithmeticByteTarget::B => self.registers.b = new_value,
            ArithmeticByteTarget::C => self.registers.c = new_value,
            ArithmeticByteTarget::D => self.registers.d = new_value,
            ArithmeticByteTarget::E => self.registers.e = new_value,
            ArithmeticByteTarget::H => self.registers.h = new_value,
            ArithmeticByteTarget::L => self.registers.l = new_value,
            ArithmeticByteTarget::HLI => {
                let hl = self.registers.get_hl();
                self.bus.write_byte(hl, new_value);
            },
        }
        self.pc.wrapping_add(2)
    }

    fn exec_srl(&mut self, target: ArithmeticByteTarget) -> (r: u16)
        requires
            old(self).wf(),
        ensures
            final(self).wf(),
            final(self).pc == old(self).pc,
            final(self).bus.boot_rom@ == old(self).bus.boot_rom@,
            final(self).is_halted == old(self).is_halted,
            spec_exec_srl(*old(self), *final(self), target, r),
    {
        let value: u8 = match target {
            ArithmeticByteTarget::A => self.registers.a,
            ArithmeticByteTarget::B => self.registers.b,
            ArithmeticByteTarget::C => self.registers.c,
            ArithmeticByteTarget::D => self.registers.d,
            ArithmeticByteTarget::E => self.registers.e,
            ArithmeticByteTarget::H => self.registers.h,
            ArithmeticByteTarget::L => self.registers.l,
            ArithmeticByteTarget::HLI => {
                let hl = self.registers.get_hl();
                self.bus.read_byte(hl)
            },
        };
        let new_value: u8 = value >> 1;
        self.registers.f.carry = (value & 0x01) > 0;
        self.registers.f.zero = new_value == 0;
        self.registers.f.subtraction = false;
        self.registers.f.half_carry = false;
        match target {
            ArithmeticByteTarget::A => self.registers.a = new_value,
            ArithmeticByteTarget::B => self.registers.b = new_value,
            ArithmeticByteTarget::C => self.registers.c = new_value,
            ArithmeticByteTarget::D => self.registers.d = new_value,
            ArithmeticByteTarget::E => self.registers.e = new_value,
            ArithmeticByteTarget::H => self.registers.h = new_value,
            ArithmeticByteTarget::L => self.registers.l = new_value,
            ArithmeticByteTarget::HLI => {
                let hl = self.registers.get_hl();
                self.bus.write_byte(hl, new_value);
            },
        }
        self.pc.wrapping_add(2)
    }

    fn exec_sub(&mut self, target: SubByteTarget) -> (r: u16)
        requires
            old(self).wf(),
        ensures
            final(self).wf(),
            final(self).pc == old(self).pc,
            final(self).bus.boot_rom@ == old(self).bus.boot_rom@,
            final(self).is_halted == old(self).is_halted,
            spec_exec_sub(*old(self), *final(self), target, r),
    {
        let (val, pc_inc): (u8, u16) = match target {
            SubByteTarget::A => (self.registers.a, 1),
            SubByteTarget::B => (self.registers.b, 1),
            SubByteTarget::C => (self.registers.c, 1),
            SubByteTarget::D => (self.registers.d, 1),
            SubByteTarget::E => (self.registers.e, 1),
            SubByteTarget::H => (self.registers.h, 1),
            SubByteTarget::L => (self.registers.l, 1),
            SubByteTarget::HLI => {
                let hl = self.registers.get_hl();
                (self.bus.read_byte(hl), 1)
            },
            SubByteTarget::D8 => (self.read_next_byte(), 2),
        };
        let new_value = self.sub(val);
        self.registers.a = new_value;
        self.pc.wrapping_add(pc_inc)
    }

    fn exec_swap(&mut self, target: ArithmeticByteTarget) -> (r: u16)
        requires
            old(self).wf(),
        ensures
            final(self).wf(),
            final(self).pc == old(self).pc,
            final(self).bus.boot_rom@ == old(self).bus.boot_rom@,
            final(self).is_halted == old(self).is_halted,
            spec_exec_swap(*old(self), *final(self), target, r),
    {
        let value: u8 = match target {
            ArithmeticByteTarget::A => self.registers.a,
            ArithmeticByteTarget::B => self.registers.b,
            ArithmeticByteTarget::C => self.registers.c,
            ArithmeticByteTarget::D => self.registers.d,
            ArithmeticByteTarget::E => self.registers.e,
            ArithmeticByteTarget::H => self.registers.h,
            ArithmeticByteTarget::L => self.registers.l,
            ArithmeticByteTarget::HLI => {
                let hl = self.registers.get_hl();
                self.bus.read_byte(hl)
            },
        };
        self.registers.f.zero = value == 0;
        let new_value: u8 = (value << 4) | (value >> 4);
        match target {
            ArithmeticByteTarget::A => self.registers.a = new_value,
            ArithmeticByteTarget::B => self.registers.b = new_value,
            ArithmeticByteTarget::C => self.registers.c = new_value,
            ArithmeticByteTarget::D => self.registers.d = new_value,
            ArithmeticByteTarget::E => self.registers.e = new_value,
            ArithmeticByteTarget::H => self.registers.h = new_value,
            ArithmeticByteTarget::L => self.registers.l = new_value,
            ArithmeticByteTarget::HLI => {
                let hl = self.registers.get_hl();
                self.bus.write_byte(hl, new_value);
            },
        }
        self.pc.wrapping_add(2)
    }

    fn exec_xor(&mut self, target: XORTargetType) -> (r: u16)
        requires
            old(self).wf(),
        ensures
            final(self).wf(),
            final(self).pc == old(self).pc,
            final(self).bus.boot_rom@ == old(self).bus.boot_rom@,
            final(self).is_halted == old(self).is_halted,
            spec_exec_xor(*old(self), *final(self), target, r),
    {
        let (val, pc_inc): (u8, u16) = match target {
            XORTargetType::A => (self.registers.a, 1),
            XORTargetType::B => (self.registers.b, 1),
            XORTargetType::C => (self.registers.c, 1),
            XORTargetType::D => (self.registers.d, 1),
            XORTargetType::E => (self.registers.e, 1),
            XORTargetType::H => (self.registers.h, 1),
            XORTargetType::L => (self.registers.l, 1),
            XORTargetType::HLI => {
                let hl = self.registers.get_hl();
                (self.bus.read_byte(hl), 1)
            },
            XORTargetType::D8 => (self.read_next_byte(), 2),
        };
        let new_value = self.xor(val);
        self.registers.a = new_value;
        self.pc.wrapping_add(pc_inc)
    }

    fn exec_call(&mut self, test: JumpTest) -> (r: u16)
        requires
            old(self).wf(),
        ensures
            final(self).wf(),
            final(self).pc == old(self).pc,
            final(self).bus.boot_rom@ == old(self).bus.boot_rom@,
            final(self).is_halted == old(self).is_halted,
            spec_exec_call(*old(self), *final(self), test, r),
    {
        let should_jump = self.jmp_test(test);
        self.call(should_jump)
    }

    fn exec_ccf(&mut self) -> (r: u16)
        requires
            old(self).wf(),
        ensures
            final(self).wf(),
            final(self).pc == old(self).pc,
            final(self).bus.boot_rom@ == old(self).bus.boot_rom@,
            final(self).is_halted == old(self).is_halted,
            spec_exec_ccf(*old(self), *final(self), r),
    {
        self.registers.f.carry = !self.registers.f.carry;
        self.registers.f.subtraction = false;
        self.registers.f.half_carry = false;
        self.pc.wrapping_add(1)
    }

    fn exec_cpl(&mut self) -> (r: u16)
        requires
            old(self).wf(),
        ensures
            final(self).wf(),
            final(self).pc == old(self).pc,
            final(self).bus.boot_rom@ == old(self).bus.boot_rom@,
            final(self).is_halted == old(self).is_halted,
            spec_exec_cpl(*old(self), *final(self), r),
    {
        self.registers.a = !self.registers.a;
        self.registers.f.half_carry = true;
        self.registers.f.subtraction = true;
        self.pc.wrapping_add(1)
    }

    fn exec_jp(&mut self, test: JumpTest, target: JpAddrLoc) -> (r: u16)
        requires
            old(self).wf(),
        ensures
            final(self).wf(),
            final(self).pc == old(self).pc,
            final(self).bus.boot_rom@ == old(self).bus.boot_rom@,
            final(self).is_halted == old(self).is_halted,
            spec_exec_jp(*old(self), *final(self), test, target, r),
    {
        let jump_condition = self.jmp_test(test);
        match target {
            JpAddrLoc::A16 => self.jump(jump_condition),
            JpAddrLoc::HL => self.registers.get_hl(),
        }
    }

    fn exec_jr(&mut self, test: JumpTest) -> (r: u16)
        requires
            old(self).wf(),
        ensures
            final(self).wf(),
            final(self).pc == old(self).pc,
            final(self).bus.boot_rom@ == old(self).bus.boot_rom@,
            final(self).is_halted == old(self).is_halted,
            spec_exec_jr(*old(self), *final(self), test, r),
    {
        if self.jmp_test(test) {
            let offset: i16 = (self.read_next_byte() as i8) as i16;
            self.pc.wrapping_add(2).wrapping_add_signed(offset)
        } else {
            self.pc.wrapping_add(2)
        }
    }

    fn exec_pop_into(&mut self, target: StackTarget) -> (r: u16)
        requires
            old(self).wf(),
        ensures
            final(self).wf(),
            final(self).pc == old(self).pc,
            final(self).bus.boot_rom@ == old(self).bus.boot_rom@,
            final(self).is_halted == old(self).is_halted,
            spec_exec_pop_into(*old(self), *final(self), target, r),
    {
        let result = self.pop();
        match target {
            StackTarget::BC => self.registers.set_bc(result),
            StackTarget::DE => self.registers.set_de(result),
            StackTarget::HL => self.registers.set_hl(result),
            StackTarget::AF => self.registers.set_af(result),
        }
        self.pc.wrapping_add(1)
    }

    fn exec_push_from(&mut self, target: StackTarget) -> (r: u16)
        requires
            old(self).wf(),
        ensures
            final(self).wf(),
            final(self).pc == old(self).pc,
            final(self).bus.boot_rom@ == old(self).bus.boot_rom@,
            final(self).is_halted == old(self).is_halted,
            spec_exec_push_from(*old(self), *final(self), target, r),
    {
        let value: u16 = match target {
            StackTarget::BC => self.registers.get_bc(),
            StackTarget::DE => self.registers.get_de(),
            StackTarget::HL => self.registers.get_hl(),
            StackTarget::AF => self.registers.get_af(),
        };
        self.push(value);
        self.pc.wrapping_add(1)
    }

    fn exec_ret(&mut self, test: JumpTest) -> (r: u16)
        requires
            old(self).wf(),
        ensures
            final(self).wf(),
            final(self).pc == old(self).pc,
            final(self).bus.boot_rom@ == old(self).bus.boot_rom@,
            final(self).is_halted == old(self).is_halted,
            spec_exec_ret(*old(self), *final(self), test, r),
    {
        let should_jump = self.jmp_test(test);
        self._return(should_jump)
    }

    fn exec_reti(&mut self) -> (r: u16)
        requires
            old(self).wf(),
        ensures
            final(self).wf(),
            final(self).pc == old(self).pc,
            final(self).bus.boot_rom@ == old(self).bus.boot_rom@,
            final(self).is_halted == old(self).is_halted,
            spec_exec_reti(*old(self), *final(self), r),
    {
        self._return(true)
    }

    fn exec_rla(&mut self) -> (r: u16)
        requires
            old(self).wf(),
        ensures
            final(self).wf(),
            final(self).pc == old(self).pc,
            final(self).bus.boot_rom@ == old(self).bus.boot_rom@,
            final(self).is_halted == old(self).is_halted,
            spec_exec_rla(*old(self), *final(self), r),
    {
        let old_carry: u8 = if self.registers.f.carry { 1 } else { 0 };
        self.registers.f.carry = (self.registers.a & 0x80) > 0;
        self.registers.a = (self.registers.a << 1) | old_carry;
        self.pc.wrapping_add(1)
    }

    fn exec_rra(&mut self) -> (r: u16)
        requires
            old(self).wf(),
        ensures
            final(self).wf(),
            final(self).pc == old(self).pc,
            final(self).bus.boot_rom@ == old(self).bus.boot_rom@,
            final(self).is_halted == old(self).is_halted,
            spec_exec_rra(*old(self), *final(self), r),
    {
        let old_carry: u8 = if self.registers.f.carry { 0x80 } else { 0 };
        self.registers.f.carry = (self.registers.a & 0x01) > 0;
        self.registers.a = (self.registers.a >> 1) | old_carry;
        self.pc.wrapping_add(1)
    }

    fn exec_scf(&mut self) -> (r: u16)
        requires
            old(self).wf(),
        ensures
            final(self).wf(),
            final(self).pc == old(self).pc,
            final(self).bus.boot_rom@ == old(self).bus.boot_rom@,
            final(self).is_halted == old(self).is_halted,
            spec_exec_scf(*old(self), *final(self), r),
    {
        self.registers.f.carry = true;
        self.registers.f.half_carry = false;
        self.registers.f.subtraction = false;
        self.pc.wrapping_add(1)
    }

    /// Execute one decoded instruction: compute the result, update the four
    /// flags per the instruction's documented policy, and return the next
    /// program counter — the fixed byte width for ordinary instructions, or
    /// the transfer target for jumps, calls and returns. While halted the
    /// engine does nothing and the program counter stays frozen. A defined
    /// but uncoded instruction fails without touching any state. The exact
    /// effect, instruction by instruction, is `spec_execute`.
    #[verifier::rlimit(100)]
    pub fn execute(&mut self, instruction: Instruction) -> (r: Result<u16, CpuError>)
        requires
            old(self).wf(),
        ensures
            final(self).wf(),
            final(self).pc == old(self).pc,
            final(self).bus.boot_rom@ == old(self).bus.boot_rom@,
            old(self).is_halted ==> *final(self) == *old(self) && r == Ok::<u16, CpuError>(
                old(self).pc,
            ),
            !old(self).is_halted ==> (r is Ok <==> spec_implemented(instruction)),
            r is Err ==> *final(self) == *old(self) && r == Err::<u16, CpuError>(
                CpuError::Unimplemented(instruction),
            ),
            !old(self).is_halted && instruction is HALT ==> *final(self) == (CPU {
                is_halted: true,
                ..*old(self)
            }) && r == Ok::<u16, CpuError>(old(self).pc.wrapping_add(1)),
            !(instruction is HALT) ==> final(self).is_halted == old(self).is_halted,
            !old(self).is_halted && instruction is NOP ==> *final(self) == *old(self) && r
                == Ok::<u16, CpuError>(old(self).pc.wrapping_add(1)),
            spec_execute(*old(self), *final(self), instruction, r),
    {
        if self.is_halted {
            return Ok(self.pc);
        }
        match instruction {
            Instruction::DAA => Err(CpuError::Unimplemented(instruction)),
            Instruction::STOP => Err(CpuError::Unimplemented(instruction)),
            Instruction::HALT => {
                self.is_halted = true;
                Ok(self.pc.wrapping_add(1))
            },
            Instruction::NOP => Ok(self.pc.wrapping_add(1)),
            _ => Ok(self.execute_op(instruction)),
        }
    }

    /// Dispatch for the ordinary instructions, with the per-instruction
    /// effect surfaced through `spec_execute_op`; the dispatch is split in
    /// three to keep each proof query small. The halted check and the
    /// special cases (HALT, NOP and the uncoded instructions) are the
    /// caller's; their arms here are never reached and do nothing.
    fn execute_op(&mut self, instruction: Instruction) -> (r: u16)
        requires
            old(self).wf(),
        ensures
            final(self).wf(),
            final(self).pc == old(self).pc,
            final(self).bus.boot_rom@ == old(self).bus.boot_rom@,
            final(self).is_halted == old(self).is_halted,
            spec_execute_op(*old(self), *final(self), instruction, r),
    {
        match instruction {
            Instruction::ADC(target) => self.exec_adc(target),
            Instruction::ADD(arithmetic_type) => self.exec_add(arithmetic_type),
            Instruction::AND(target) => self.exec_and(target),
            Instruction::BIT(position, register) => self.exec_bit(position, register),
            Instruction::CALL(test) => self.exec_call(test),
            Instruction::CCF => self.exec_ccf(),
            Instruction::CP(target) => self.exec_cp(target),
            Instruction::CPL => self.exec_cpl(),
            Instruction::DEC(dec_type) => self.exec_dec(dec_type),
            Instruction::DI => self.pc.wrapping_add(1),
            Instruction::EI => self.pc.wrapping_add(1),
            Instruction::INC(inc_type) => self.exec_inc(inc_type),
            Instruction::JP(test, target) => self.exec_jp(test, target),
            Instruction::JR(test) => self.exec_jr(test),
            Instruction::LD(load_type) => self.exec_ld(load_type),
            _ => self.execute_op_rest(instruction),
        }
    }

    /// Second third of the instruction dispatch.
    fn execute_op_rest(&mut self, instruction: Instruction) -> (r: u16)
        requires
            old(self).wf(),
            !spec_in_first_dispatch(instruction),
        ensures
            final(self).wf(),
            final(self).pc == old(self).pc,
            final(self).bus.boot_rom@ == old(self).bus.boot_rom@,
            final(self).is_halted == old(self).is_halted,
            spec_execute_op(*old(self), *final(self), instruction, r),
    {
        match instruction {
            Instruction::OR(target) => self.exec_or(target),
            Instruction::POP(target) => self.exec_pop_into(target),
            Instruction::PUSH(target) => self.exec_push_from(target),
            Instruction::RES(position, register) => self.exec_res(position, register),
            Instruction::RET(test) => self.exec_ret(test),
            Instruction::RETI => self.exec_reti(),
            Instruction::RL(target) => self.exec_rl(target),
            Instruction::RLA => self.exec_rla(),
            Instruction::RLC(target) => self.exec_rlc(target),
            Instruction::RR(target) => self.exec_rr(target),
            Instruction::RRA => self.exec_rra(),
            _ => self.execute_op_tail(instruction),
        }
    }

    /// Last third of the instruction dispatch; only the caller-handled
    /// special cases fall through, untouched.
    fn execute_op_tail(&mut self, instruction: Instruction) -> (r: u16)
        requires
            old(self).wf(),
            !spec_in_first_dispatch(instruction),
            !spec_in_second_dispatch(instruction),
        ensures
            final(self).wf(),
            final(self).pc == old(self).pc,
            final(self).bus.boot_rom@ == old(self).bus.boot_rom@,
            final(self).is_halted == old(self).is_halted,
            spec_execute_op(*old(self), *final(self), instruction, r),
    {
        match instruction {
            Instruction::RRC(target) => self.exec_rrc(target),
            Instruction::RST(position) => self.exec_rst(position),
            Instruction::SBC(target) => self.exec_sbc(target),
            Instruction::SCF => self.exec_scf(),
            Instruction::SET(position, register) => self.exec_set(position, register),
            Instruction::SLA(target) => self.exec_sla(target),
            Instruction::SRA(target) => self.exec_sra(target),
            Instruction::SRL(target) => self.exec_srl(target),
            Instruction::SUB(target) => self.exec_sub(target),
            Instruction::SWAP(target) => self.exec_swap(target),
            Instruction::XOR(target) => self.exec_xor(target),
            _ => self.pc,
        }
    }

    /// Fetch, decode and execute one instruction. While halted this is a
    /// no-op that reports the halt. A fetch whose byte decodes to no
    /// instruction stops the machine with the offending byte and program
    /// counter; a defined but uncoded instruction stops it likewise. Either
    /// way no state has changed. The exact effect is `spec_step`: the
    /// decoded instruction executed per `spec_execute`, with the program
    /// counter moved to the returned next address.
    pub fn step(&mut self) -> (r: Result<bool, CpuError>)
        requires
            old(self).wf(),
        ensures
            final(self).wf(),
            spec_step(*old(self), *final(self), r),
    {
        if self.is_halted {
            return Ok(false);
        }
        let mut instruction_byte = self.bus.read_byte(self.pc);
        let prefix = instruction_byte == 0xCB;
        if prefix {
            instruction_byte = self.bus.read_byte(self.pc.wrapping_add(1));
        }
        match Instruction::from_byte(instruction_byte, prefix) {
            Some(instruction) => match self.execute(instruction) {
                Ok(next_pc) => {
                    let ghost mid = *self;
                    self.pc = next_pc;
                    proof {
                        assert(CPU { pc: old(self).pc, ..*self } == mid);
                    }
                    Ok(true)
                },
                Err(e) => Err(e),
            },
            None => Err(CpuError::UnknownInstruction {
                byte: instruction_byte,
                prefixed: prefix,
                pc: self.pc,
            }),
        }
    }
}

/// Law: pushing a 16-bit value and popping it back yields the value with
/// the stack pointer restored to where it began, whenever the two stack
/// bytes land in directly-backed writable memory (the stack's normal home,
/// such as working or high RAM). With SP aimed into ROM or video memory the
/// bytes fall under those owners' write rules instead, and the inverse does
/// not hold there.
pub proof fn lemma_stack_push_pop_inverse(pre: CPU, post: CPU, v: u16)
    requires
        pre.wf(),
        flat_writable(pre.sp.wrapping_sub(1)),
        flat_writable(pre.sp.wrapping_sub(2)),
        post.sp == pre.sp.wrapping_sub(2),
        post.bus.memory@ == pre.bus.memory@.update(
            pre.sp.wrapping_sub(1) as int,
            high_byte(v),
        ).update(pre.sp.wrapping_sub(2) as int, low_byte(v)),
    ensures
        post.bus.spec_read(post.sp) == low_byte(v),
        post.bus.spec_read(post.sp.wrapping_add(1)) == high_byte(v),
        word_from_bytes(post.bus.spec_read(post.sp.wrapping_add(1)), post.bus.spec_read(post.sp)) == v,
        post.sp.wrapping_add(2) == pre.sp,
{
    let a1 = pre.sp.wrapping_sub(1);
    let a2 = pre.sp.wrapping_sub(2);
    assert(a1 != a2);
    assert(post.sp.wrapping_add(1) == a1);
    assert(pre.bus.memory@.len() == 0x10000);
    assert(post.bus.spec_read(a2) == low_byte(v));
    assert(post.bus.spec_read(a1) == high_byte(v));
    lemma_register_pair_round_trip(v);
}



} // verus!
