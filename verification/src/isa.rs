//! The instruction-set vocabulary: operand selectors, conditions, the
//! tagged instruction descriptor, and the two 256-entry decode tables
//! (primary and 0xCB-prefixed), each given once as a mathematical mapping
//! and once as executable code proved equal to it.

use vstd::prelude::*;
use crate::state::{CpuV, flag_bit, pair16, pairpos_set, wrap16};
use crate::cpu::SoC;

verus! {

/// 8-bit operand selector; `HL` selects the byte of working memory that
/// the HL pair points at.
#[derive(Clone, Copy, Debug)]
pub enum R8 {
    B,
    C,
    D,
    E,
    H,
    L,
    HL,
    A,
}

/// 16-bit operand selector for the arithmetic group.
#[derive(Clone, Copy, Debug)]
pub enum R16 {
    BC,
    DE,
    HL,
    SP,
}

/// 16-bit operand selector for PUSH/POP.
#[derive(Clone, Copy, Debug)]
#[allow(non_camel_case_types)]
pub enum R16STK {
    BC,
    DE,
    HL,
    AF,
}

/// Addressing selector for the LD (r16), A group; HLI and HLD use HL and
/// then increment or decrement it.
#[derive(Clone, Copy, Debug)]
#[allow(non_camel_case_types)]
pub enum R16RAM {
    BC,
    DE,
    HLI,
    HLD,
}

/// Branch condition: Not-Zero, Zero, No-Carry, Carry.
#[derive(Clone, Copy, Debug)]
#[allow(non_camel_case_types)]
pub enum COND {
    NZ,
    Z,
    NC,
    C,
}

/// Restart target, one of the eight fixed vectors 0x00, 0x08, ..., 0x38.
#[derive(Clone, Copy, Debug)]
#[allow(non_camel_case_types)]
pub enum TGT3 {
    T0,
    T1,
    T2,
    T3,
    T4,
    T5,
    T6,
    T7,
}

/// Accumulator ALU operation.
#[derive(Clone, Copy, Debug)]
#[allow(non_camel_case_types)]
pub enum ALU3 {
    ADD,
    ADC,
    SUB,
    SBC,
    AND,
    XOR,
    OR,
    CP,
}

/// Rotate/shift operation of the 0xCB table.
#[derive(Clone, Copy, Debug)]
#[allow(non_camel_case_types)]
pub enum BOP3 {
    RLC,
    RRC,
    RL,
    RR,
    SLA,
    SRA,
    SWAP,
    SRL,
}

/// The value selected by an 8-bit operand selector.
pub open spec fn r8v_get(s: CpuV, r: R8) -> u8 {
    match r {
        R8::B => s.b,
        R8::C => s.c,
        R8::D => s.d,
        R8::E => s.e,
        R8::H => s.h,
        R8::L => s.l,
        R8::HL => s.ram[pair16(s.h, s.l) as int],
        R8::A => s.a,
    }
}

/// The state with the 8-bit operand selected by `r` replaced by `v`.
pub open spec fn r8v_set(s: CpuV, r: R8, v: u8) -> CpuV {
    match r {
        R8::B => CpuV { b: v, ..s },
        R8::C => CpuV { c: v, ..s },
        R8::D => CpuV { d: v, ..s },
        R8::E => CpuV { e: v, ..s },
        R8::H => CpuV { h: v, ..s },
        R8::L => CpuV { l: v, ..s },
        R8::HL => CpuV { ram: s.ram.update(pair16(s.h, s.l) as int, v), ..s },
        R8::A => CpuV { a: v, ..s },
    }
}

/// Whether the selector goes through the (HL) memory indirection, which
/// costs extra cycles.
pub open spec fn r8_is_mem(r: R8) -> bool {
    match r {
        R8::HL => true,
        _ => false,
    }
}

/// The value of a 16-bit arithmetic-group selector.
pub open spec fn r16v_get(s: CpuV, r: R16) -> u16 {
    match r {
        R16::BC => pair16(s.b, s.c),
        R16::DE => pair16(s.d, s.e),
        R16::HL => pair16(s.h, s.l),
        R16::SP => s.sp,
    }
}

/// The state with a 16-bit arithmetic-group selector replaced by `v`.
pub open spec fn r16v_set(s: CpuV, r: R16, v: u16) -> CpuV {
    match r {
        R16::BC => pairpos_set(s, (2u8, 3u8), v),
        R16::DE => pairpos_set(s, (4u8, 5u8), v),
        R16::HL => pairpos_set(s, (6u8, 7u8), v),
        R16::SP => CpuV { sp: v, ..s },
    }
}

/// The value of a PUSH/POP selector.
pub open spec fn r16stk_get(s: CpuV, r: R16STK) -> u16 {
    match r {
        R16STK::BC => pair16(s.b, s.c),
        R16STK::DE => pair16(s.d, s.e),
        R16STK::HL => pair16(s.h, s.l),
        R16STK::AF => pair16(s.a, s.f),
    }
}

/// The state with a PUSH/POP selector replaced by `v`.
pub open spec fn r16stk_set(s: CpuV, r: R16STK, v: u16) -> CpuV {
    match r {
        R16STK::BC => pairpos_set(s, (2u8, 3u8), v),
        R16STK::DE => pairpos_set(s, (4u8, 5u8), v),
        R16STK::HL => pairpos_set(s, (6u8, 7u8), v),
        R16STK::AF => pairpos_set(s, (0u8, 1u8), v),
    }
}

/// The address named by an LD (r16), A group selector.
pub open spec fn r16ram_addr(s: CpuV, r: R16RAM) -> u16 {
    match r {
        R16RAM::BC => pair16(s.b, s.c),
        R16RAM::DE => pair16(s.d, s.e),
        R16RAM::HLI => pair16(s.h, s.l),
        R16RAM::HLD => pair16(s.h, s.l),
    }
}

/// The post-access HL adjustment of the HLI/HLD selectors.
pub open spec fn r16ram_bump(s: CpuV, r: R16RAM) -> CpuV {
    match r {
        R16RAM::HLI => pairpos_set(s, (6u8, 7u8), wrap16(pair16(s.h, s.l) + 1)),
        R16RAM::HLD => pairpos_set(s, (6u8, 7u8), wrap16(pair16(s.h, s.l) - 1)),
        _ => s,
    }
}

/// Whether a branch condition holds of the flag register `f`.
pub open spec fn cond_holds(f: u8, cond: COND) -> bool {
    match cond {
        COND::NZ => flag_bit(f, 7) == 0,
        COND::Z => flag_bit(f, 7) == 1,
        COND::NC => flag_bit(f, 4) == 0,
        COND::C => flag_bit(f, 4) == 1,
    }
}

/// The fixed address of a restart target.
pub open spec fn tgt3_addr(t: TGT3) -> u16 {
    match t {
        TGT3::T0 => 0x00,
        TGT3::T1 => 0x08,
        TGT3::T2 => 0x10,
        TGT3::T3 => 0x18,
        TGT3::T4 => 0x20,
        TGT3::T5 => 0x28,
        TGT3::T6 => 0x30,
        TGT3::T7 => 0x38,
    }
}

/// Read the operand selected by `r8`: a register cell, or the byte of
/// working memory at the address in HL.
pub fn get_r8_by_idx(soc: &SoC, r8: &R8) -> (r: u8)
    ensures
        r == r8v_get(soc@, *r8),
{
    match r8 {
        R8::B => soc.get_r8(2),
        R8::C => soc.get_r8(3),
        R8::D => soc.get_r8(4),
        R8::E => soc.get_r8(5),
        R8::H => soc.get_r8(6),
        R8::L => soc.get_r8(7),
        R8::HL => soc.ram_read(soc.get_r16((6, 7))),
        R8::A => soc.get_r8(0),
    }
}

/// Write the operand selected by `r8`.
pub fn set_r8_by_idx(soc: &mut SoC, r8: &R8, r8_value: u8)
    ensures
        final(soc)@ == r8v_set(old(soc)@, *r8, r8_value),
{
    match r8 {
        R8::B => soc.set_r8(2, r8_value),
        R8::C => soc.set_r8(3, r8_value),
        R8::D => soc.set_r8(4, r8_value),
        R8::E => soc.set_r8(5, r8_value),
        R8::H => soc.set_r8(6, r8_value),
        R8::L => soc.set_r8(7, r8_value),
        R8::HL => {
            let addr: u16 = soc.get_r16((6, 7));
            soc.ram_write(addr, r8_value);
        },
        R8::A => soc.set_r8(0, r8_value),
    }
}

/// Read a 16-bit arithmetic-group operand.
pub fn get_r16_by_idx(soc: &SoC, r16: R16) -> (r: u16)
    ensures
        r == r16v_get(soc@, r16),
{
    match r16 {
        R16::BC => soc.get_r16((2, 3)),
        R16::DE => soc.get_r16((4, 5)),
        R16::HL => soc.get_r16((6, 7)),
        R16::SP => soc.get_sp(),
    }
}

/// Read a PUSH/POP operand.
pub fn get_r16stk_by_idx(soc: &SoC, r16stk: R16STK) -> (r: u16)
    ensures
        r == r16stk_get(soc@, r16stk),
{
    match r16stk {
        R16STK::BC => soc.get_r16((2, 3)),
        R16STK::DE => soc.get_r16((4, 5)),
        R16STK::HL => soc.get_r16((6, 7)),
        R16STK::AF => soc.get_r16((0, 1)),
    }
}

/// Evaluate a branch condition against the flag register.
pub fn get_cond_by_idx(soc: &SoC, cond: COND) -> (r: bool)
    ensures
        r == cond_holds(soc@.f, cond),
{
    match cond {
        COND::NZ => soc.get_flag(7) == 0,
        COND::Z => soc.get_flag(7) == 1,
        COND::NC => soc.get_flag(4) == 0,
        COND::C => soc.get_flag(4) == 1,
    }
}

/// The fixed address of a restart target.
pub fn tgt3_val(t: TGT3) -> (r: u16)
    ensures
        r == tgt3_addr(t),
{
    match t {
        TGT3::T0 => 0x00,
        TGT3::T1 => 0x08,
        TGT3::T2 => 0x10,
        TGT3::T3 => 0x18,
        TGT3::T4 => 0x20,
        TGT3::T5 => 0x28,
        TGT3::T6 => 0x30,
        TGT3::T7 => 0x38,
    }
}

/// A decoded instruction: operation kind plus operand selectors.  The
/// dispatch tables map each opcode byte to one of these descriptors.
#[derive(Clone, Copy, Debug)]
pub enum Instr {
    Nop,
    Stop,
    Halt,
    Illegal,
    LdR16N16(R16),
    LdR16RamA(R16RAM),
    LdAR16Ram(R16RAM),
    IncR16(R16),
    DecR16(R16),
    AddHlR16(R16),
    IncR8(R8),
    DecR8(R8),
    LdR8N8(R8),
    LdR8R8(R8, R8),
    Rlca,
    Rrca,
    Rla,
    Rra,
    Daa,
    Cpl,
    Scf,
    Ccf,
    JrE8,
    JrCondE8(COND),
    LdA16Sp,
    AluAR8(ALU3, R8),
    AluAN8(ALU3),
    RetCond(COND),
    Ret,
    Reti,
    PopR16Stk(R16STK),
    PushR16Stk(R16STK),
    JpCondA16(COND),
    JpA16,
    JpHl,
    CallCondA16(COND),
    CallA16,
    RstTgt3(TGT3),
    LdhA8A,
    LdhAA8,
    LdhCA,
    LdhAC,
    AddSpE8,
    LdHlSpE8,
    LdA16A,
    LdAA16,
    Di,
    Ei,
    LdSpHl,
    Prefix,
}

/// The 8-bit operand selector in opcode-field order:
/// B, C, D, E, H, L, (HL), A.
pub open spec fn r8_of_idx(i: u8) -> R8 {
    if i == 0 {
        R8::B
    } else if i == 1 {
        R8::C
    } else if i == 2 {
        R8::D
    } else if i == 3 {
        R8::E
    } else if i == 4 {
        R8::H
    } else if i == 5 {
        R8::L
    } else if i == 6 {
        R8::HL
    } else {
        R8::A
    }
}

/// The ALU operation in opcode-field order.
pub open spec fn alu_of_idx(i: u8) -> ALU3 {
    if i == 0 {
        ALU3::ADD
    } else if i == 1 {
        ALU3::ADC
    } else if i == 2 {
        ALU3::SUB
    } else if i == 3 {
        ALU3::SBC
    } else if i == 4 {
        ALU3::AND
    } else if i == 5 {
        ALU3::XOR
    } else if i == 6 {
        ALU3::OR
    } else {
        ALU3::CP
    }
}

/// The rotate/shift operation in opcode-field order.
pub open spec fn bop_of_idx(i: u8) -> BOP3 {
    if i == 0 {
        BOP3::RLC
    } else if i == 1 {
        BOP3::RRC
    } else if i == 2 {
        BOP3::RL
    } else if i == 3 {
        BOP3::RR
    } else if i == 4 {
        BOP3::SLA
    } else if i == 5 {
        BOP3::SRA
    } else if i == 6 {
        BOP3::SWAP
    } else {
        BOP3::SRL
    }
}

/// The 8-bit operand selector in opcode-field order, executable form.
pub fn r8_sel(i: u8) -> (r: R8)
    requires
        i < 8,
    ensures
        r == r8_of_idx(i),
{
    match i {
        0 => R8::B,
        1 => R8::C,
        2 => R8::D,
        3 => R8::E,
        4 => R8::H,
        5 => R8::L,
        6 => R8::HL,
        _ => R8::A,
    }
}

/// The ALU operation in opcode-field order, executable form.
pub fn alu_sel(i: u8) -> (r: ALU3)
    requires
        i < 8,
    ensures
        r == alu_of_idx(i),
{
    match i {
        0 => ALU3::ADD,
        1 => ALU3::ADC,
        2 => ALU3::SUB,
        3 => ALU3::SBC,
        4 => ALU3::AND,
        5 => ALU3::XOR,
        6 => ALU3::OR,
        _ => ALU3::CP,
    }
}

/// The rotate/shift operation in opcode-field order, executable form.
pub fn bop_sel(i: u8) -> (r: BOP3)
    requires
        i < 8,
    ensures
        r == bop_of_idx(i),
{
    match i {
        0 => BOP3::RLC,
        1 => BOP3::RRC,
        2 => BOP3::RL,
        3 => BOP3::RR,
        4 => BOP3::SLA,
        5 => BOP3::SRA,
        6 => BOP3::SWAP,
        _ => BOP3::SRL,
    }
}

/// A 16-bit immediate assembled from its two little-endian bytes.
pub fn b8x2_le(b8a: u8, b8b: u8) -> (r: u16)
    ensures
        r == pair16(b8b, b8a),
{
    (b8b as u16) * 256 + (b8a as u16)
}

/// The primary dispatch table: every opcode byte mapped to its
/// instruction descriptor.  The fourteen bytes unassigned on the real
/// hardware decode to `Illegal`, which executes as a pure no-op.
pub open spec fn decode(b: u8) -> Instr {
    if b == 0x00 {
        Instr::Nop
    } else if b == 0x01 {
        Instr::LdR16N16(R16::BC)
    } else if b == 0x02 {
        Instr::LdR16RamA(R16RAM::BC)
    } else if b == 0x03 {
        Instr::IncR16(R16::BC)
    } else if b == 0x07 {
        Instr::Rlca
    } else if b == 0x08 {
        Instr::LdA16Sp
    } else if b == 0x09 {
        Instr::AddHlR16(R16::BC)
    } else if b == 0x0A {
        Instr::LdAR16Ram(R16RAM::BC)
    } else if b == 0x0B {
        Instr::DecR16(R16::BC)
    } else if b == 0x0F {
        Instr::Rrca
    } else if b == 0x10 {
        Instr::Stop
    } else if b == 0x11 {
        Instr::LdR16N16(R16::DE)
    } else if b == 0x12 {
        Instr::LdR16RamA(R16RAM::DE)
    } else if b == 0x13 {
        Instr::IncR16(R16::DE)
    } else if b == 0x17 {
        Instr::Rla
    } else if b == 0x18 {
        Instr::JrE8
    } else if b == 0x19 {
        Instr::AddHlR16(R16::DE)
    } else if b == 0x1A {
        Instr::LdAR16Ram(R16RAM::DE)
    } else if b == 0x1B {
        Instr::DecR16(R16::DE)
    } else if b == 0x1F {
        Instr::Rra
    } else if b == 0x20 {
        Instr::JrCondE8(COND::NZ)
    } else if b == 0x21 {
        Instr::LdR16N16(R16::HL)
    } else if b == 0x22 {
        Instr::LdR16RamA(R16RAM::HLI)
    } else if b == 0x23 {
        Instr::IncR16(R16::HL)
    } else if b == 0x27 {
        Instr::Daa
    } else if b == 0x28 {
        Instr::JrCondE8(COND::Z)
    } else if b == 0x29 {
        Instr::AddHlR16(R16::HL)
    } else if b == 0x2A {
        Instr::LdAR16Ram(R16RAM::HLI)
    } else if b == 0x2B {
        Instr::DecR16(R16::HL)
    } else if b == 0x2F {
        Instr::Cpl
    } else if b == 0x30 {
        Instr::JrCondE8(COND::NC)
    } else if b == 0x31 {
        Instr::LdR16N16(R16::SP)
    } else if b == 0x32 {
        Instr::LdR16RamA(R16RAM::HLD)
    } else if b == 0x33 {
        Instr::IncR16(R16::SP)
    } else if b == 0x37 {
        Instr::Scf
    } else if b == 0x38 {
        Instr::JrCondE8(COND::C)
    } else if b == 0x39 {
        Instr::AddHlR16(R16::SP)
    } else if b == 0x3A {
        Instr::LdAR16Ram(R16RAM::HLD)
    } else if b == 0x3B {
        Instr::DecR16(R16::SP)
    } else if b == 0x3F {
        Instr::Ccf
    } else if b & 0xC7 == 0x04 {
        Instr::IncR8(r8_of_idx((b / 8) % 8))
    } else if b & 0xC7 == 0x05 {
        Instr::DecR8(r8_of_idx((b / 8) % 8))
    } else if b & 0xC7 == 0x06 {
        Instr::LdR8N8(r8_of_idx((b / 8) % 8))
    } else if b == 0x76 {
        Instr::Halt
    } else if 0x40 <= b && b <= 0x7F {
        Instr::LdR8R8(r8_of_idx((b / 8) % 8), r8_of_idx(b % 8))
    } else if 0x80 <= b && b <= 0xBF {
        Instr::AluAR8(alu_of_idx((b / 8) % 8), r8_of_idx(b % 8))
    } else if b == 0xC0 {
        Instr::RetCond(COND::NZ)
    } else if b == 0xC1 {
        Instr::PopR16Stk(R16STK::BC)
    } else if b == 0xC2 {
        Instr::JpCondA16(COND::NZ)
    } else if b == 0xC3 {
        Instr::JpA16
    } else if b == 0xC4 {
        Instr::CallCondA16(COND::NZ)
    } else if b == 0xC5 {
        Instr::PushR16Stk(R16STK::BC)
    } else if b == 0xC6 {
        Instr::AluAN8(ALU3::ADD)
    } else if b == 0xC8 {
        Instr::RetCond(COND::Z)
    } else if b == 0xC9 {
        Instr::Ret
    } else if b == 0xCA {
        Instr::JpCondA16(COND::Z)
    } else if b == 0xCB {
        Instr::Prefix
    } else if b == 0xCC {
        Instr::CallCondA16(COND::Z)
    } else if b == 0xCD {
        Instr::CallA16
    } else if b == 0xCE {
        Instr::AluAN8(ALU3::ADC)
    } else if b == 0xD0 {
        Instr::RetCond(COND::NC)
    } else if b == 0xD1 {
        Instr::PopR16Stk(R16STK::DE)
    } else if b == 0xD2 {
        Instr::JpCondA16(COND::NC)
    } else if b == 0xD4 {
        Instr::CallCondA16(COND::NC)
    } else if b == 0xD5 {
        Instr::PushR16Stk(R16STK::DE)
    } else if b == 0xD6 {
        Instr::AluAN8(ALU3::SUB)
    } else if b == 0xD8 {
        Instr::RetCond(COND::C)
    } else if b == 0xD9 {
        Instr::Reti
    } else if b == 0xDA {
        Instr::JpCondA16(COND::C)
    } else if b == 0xDC {
        Instr::CallCondA16(COND::C)
    } else if b == 0xDE {
        Instr::AluAN8(ALU3::SBC)
    } else if b == 0xE0 {
        Instr::LdhA8A
    } else if b == 0xE1 {
        Instr::PopR16Stk(R16STK::HL)
    } else if b == 0xE2 {
        Instr::LdhCA
    } else if b == 0xE5 {
        Instr::PushR16Stk(R16STK::HL)
    } else if b == 0xE6 {
        Instr::AluAN8(ALU3::AND)
    } else if b == 0xE8 {
        Instr::AddSpE8
    } else if b == 0xE9 {
        Instr::JpHl
    } else if b == 0xEA {
        Instr::LdA16A
    } else if b == 0xEE {
        Instr::AluAN8(ALU3::XOR)
    } else if b == 0xF0 {
        Instr::LdhAA8
    } else if b == 0xF1 {
        Instr::PopR16Stk(R16STK::AF)
    } else if b == 0xF2 {
        Instr::LdhAC
    } else if b == 0xF3 {
        Instr::Di
    } else if b == 0xF5 {
        Instr::PushR16Stk(R16STK::AF)
    } else if b == 0xF6 {
        Instr::AluAN8(ALU3::OR)
    } else if b == 0xF8 {
        Instr::LdHlSpE8
    } else if b == 0xF9 {
        Instr::LdSpHl
    } else if b == 0xFA {
        Instr::LdAA16
    } else if b == 0xFB {
        Instr::Ei
    } else if b == 0xFE {
        Instr::AluAN8(ALU3::CP)
    } else if b & 0xC7 == 0xC7 {
        Instr::RstTgt3(
            if b == 0xC7 {
                TGT3::T0
            } else if b == 0xCF {
                TGT3::T1
            } else if b == 0xD7 {
                TGT3::T2
            } else if b == 0xDF {
                TGT3::T3
            } else if b == 0xE7 {
                TGT3::T4
            } else if b == 0xEF {
                TGT3::T5
            } else if b == 0xF7 {
                TGT3::T6
            } else {
                TGT3::T7
            },
        )
    } else {
        Instr::Illegal
    }
}

/// The primary dispatch table, executable form.
pub fn decode_op(b: u8) -> (i: Instr)
    ensures
        i == decode(b),
{
    if b == 0x00 {
        Instr::Nop
    } else if b == 0x01 {
        Instr::LdR16N16(R16::BC)
    } else if b == 0x02 {
        Instr::LdR16RamA(R16RAM::BC)
    } else if b == 0x03 {
        Instr::IncR16(R16::BC)
    } else if b == 0x07 {
        Instr::Rlca
    } else if b == 0x08 {
        Instr::LdA16Sp
    } else if b == 0x09 {
        Instr::AddHlR16(R16::BC)
    } else if b == 0x0A {
        Instr::LdAR16Ram(R16RAM::BC)
    } else if b == 0x0B {
        Instr::DecR16(R16::BC)
    } else if b == 0x0F {
        Instr::Rrca
    } else if b == 0x10 {
        Instr::Stop
    } else if b == 0x11 {
        Instr::LdR16N16(R16::DE)
    } else if b == 0x12 {
        Instr::LdR16RamA(R16RAM::DE)
    } else if b == 0x13 {
        Instr::IncR16(R16::DE)
    } else if b == 0x17 {
        Instr::Rla
    } else if b == 0x18 {
        Instr::JrE8
    } else if b == 0x19 {
        Instr::AddHlR16(R16::DE)
    } else if b == 0x1A {
        Instr::LdAR16Ram(R16RAM::DE)
    } else if b == 0x1B {
        Instr::DecR16(R16::DE)
    } else if b == 0x1F {
        Instr::Rra
    } else if b == 0x20 {
        Instr::JrCondE8(COND::NZ)
    } else if b == 0x21 {
        Instr::LdR16N16(R16::HL)
    } else if b == 0x22 {
        Instr::LdR16RamA(R16RAM::HLI)
    } else if b == 0x23 {
        Instr::IncR16(R16::HL)
    } else if b == 0x27 {
        Instr::Daa
    } else if b == 0x28 {
        Instr::JrCondE8(COND::Z)
    } else if b == 0x29 {
        Instr::AddHlR16(R16::HL)
    } else if b == 0x2A {
        Instr::LdAR16Ram(R16RAM::HLI)
    } else if b == 0x2B {
        Instr::DecR16(R16::HL)
    } else if b == 0x2F {
        Instr::Cpl
    } else if b == 0x30 {
        Instr::JrCondE8(COND::NC)
    } else if b == 0x31 {
        Instr::LdR16N16(R16::SP)
    } else if b == 0x32 {
        Instr::LdR16RamA(R16RAM::HLD)
    } else if b == 0x33 {
        Instr::IncR16(R16::SP)
    } else if b == 0x37 {
        Instr::Scf
    } else if b == 0x38 {
        Instr::JrCondE8(COND::C)
    } else if b == 0x39 {
        Instr::AddHlR16(R16::SP)
    } else if b == 0x3A {
        Instr::LdAR16Ram(R16RAM::HLD)
    } else if b == 0x3B {
        Instr::DecR16(R16::SP)
    } else if b == 0x3F {
        Instr::Ccf
    } else if b & 0xC7 == 0x04 {
        Instr::IncR8(r8_sel((b / 8) % 8))
    } else if b & 0xC7 == 0x05 {
        Instr::DecR8(r8_sel((b / 8) % 8))
    } else if b & 0xC7 == 0x06 {
        Instr::LdR8N8(r8_sel((b / 8) % 8))
    } else if b == 0x76 {
        Instr::Halt
    } else if 0x40 <= b && b <= 0x7F {
        Instr::LdR8R8(r8_sel((b / 8) % 8), r8_sel(b % 8))
    } else if 0x80 <= b && b <= 0xBF {
        Instr::AluAR8(alu_sel((b / 8) % 8), r8_sel(b % 8))
    } else if b == 0xC0 {
        Instr::RetCond(COND::NZ)
    } else if b == 0xC1 {
        Instr::PopR16Stk(R16STK::BC)
    } else if b == 0xC2 {
        Instr::JpCondA16(COND::NZ)
    } else if b == 0xC3 {
        Instr::JpA16
    } else if b == 0xC4 {
        Instr::CallCondA16(COND::NZ)
    } else if b == 0xC5 {
        Instr::PushR16Stk(R16STK::BC)
    } else if b == 0xC6 {
        Instr::AluAN8(ALU3::ADD)
    } else if b == 0xC8 {
        Instr::RetCond(COND::Z)
    } else if b == 0xC9 {
        Instr::Ret
    } else if b == 0xCA {
        Instr::JpCondA16(COND::Z)
    } else if b == 0xCB {
        Instr::Prefix
    } else if b == 0xCC {
        Instr::CallCondA16(COND::Z)
    } else if b == 0xCD {
        Instr::CallA16
    } else if b == 0xCE {
        Instr::AluAN8(ALU3::ADC)
    } else if b == 0xD0 {
        Instr::RetCond(COND::NC)
    } else if b == 0xD1 {
        Instr::PopR16Stk(R16STK::DE)
    } else if b == 0xD2 {
        Instr::JpCondA16(COND::NC)
    } else if b == 0xD4 {
        Instr::CallCondA16(COND::NC)
    } else if b == 0xD5 {
        Instr::PushR16Stk(R16STK::DE)
    } else if b == 0xD6 {
        Instr::AluAN8(ALU3::SUB)
    } else if b == 0xD8 {
        Instr::RetCond(COND::C)
    } else if b == 0xD9 {
        Instr::Reti
    } else if b == 0xDA {
        Instr::JpCondA16(COND::C)
    } else if b == 0xDC {
        Instr::CallCondA16(COND::C)
    } else if b == 0xDE {
        Instr::AluAN8(ALU3::SBC)
    } else if b == 0xE0 {
        Instr::LdhA8A
    } else if b == 0xE1 {
        Instr::PopR16Stk(R16STK::HL)
    } else if b == 0xE2 {
        Instr::LdhCA
    } else if b == 0xE5 {
        Instr::PushR16Stk(R16STK::HL)
    } else if b == 0xE6 {
        Instr::AluAN8(ALU3::AND)
    } else if b == 0xE8 {
        Instr::AddSpE8
    } else if b == 0xE9 {
        Instr::JpHl
    } else if b == 0xEA {
        Instr::LdA16A
    } else if b == 0xEE {
        Instr::AluAN8(ALU3::XOR)
    } else if b == 0xF0 {
        Instr::LdhAA8
    } else if b == 0xF1 {
        Instr::PopR16Stk(R16STK::AF)
    } else if b == 0xF2 {
        Instr::LdhAC
    } else if b == 0xF3 {
        Instr::Di
    } else if b == 0xF5 {
        Instr::PushR16Stk(R16STK::AF)
    } else if b == 0xF6 {
        Instr::AluAN8(ALU3::OR)
    } else if b == 0xF8 {
        Instr::LdHlSpE8
    } else if b == 0xF9 {
        Instr::LdSpHl
    } else if b == 0xFA {
        Instr::LdAA16
    } else if b == 0xFB {
        Instr::Ei
    } else if b == 0xFE {
        Instr::AluAN8(ALU3::CP)
    } else if b & 0xC7 == 0xC7 {
        Instr::RstTgt3(
            if b == 0xC7 {
                TGT3::T0
            } else if b == 0xCF {
                TGT3::T1
            } else if b == 0xD7 {
                TGT3::T2
            } else if b == 0xDF {
                TGT3::T3
            } else if b == 0xE7 {
                TGT3::T4
            } else if b == 0xEF {
                TGT3::T5
            } else if b == 0xF7 {
                TGT3::T6
            } else {
                TGT3::T7
            },
        )
    } else {
        Instr::Illegal
    }
}

} // verus!
