//! The fetch-decode-execute engine: one call runs exactly one
//! instruction, and its effect equals the mathematical transition
//! function [`step_spec`].

use vstd::prelude::*;
use crate::state::{CpuV, pair16};
use crate::cpu::SoC;
use crate::isa::{
    BOP3, Instr, R8, b8x2_le, bop_of_idx, bop_sel, decode, decode_op, r8_of_idx, r8_sel,
};
use crate::ops::{
    add_hl_r16, add_hl_r16_spec, add_sp_e8, add_sp_e8_spec, alu_a_n8, alu_a_n8_spec, alu_a_r8,
    alu_a_r8_spec, bit_r8_b3, bit_r8_b3_spec, bop_r8, bop_r8_spec, call_a16, call_a16_spec,
    call_cond_a16, call_cond_a16_spec, ccf, ccf_spec, cpl, cpl_spec, daa, daa_spec, dec_r16,
    dec_r16_spec, dec_r8, dec_r8_spec, di, di_spec, ei, ei_spec, halt, inc_r16, inc_r16_spec,
    inc_r8, inc_r8_spec, jp_a16, jp_a16_spec, jp_cond_a16, jp_cond_a16_spec, jp_hl, jp_hl_spec,
    jr_cond_e8, jr_cond_e8_spec, jr_e8, jr_e8_spec, ld_a16_a, ld_a16_a_spec, ld_a16_sp,
    ld_a16_sp_spec, ld_a_a16, ld_a_a16_spec, ld_a_r16ram, ld_a_r16ram_spec, ld_hl_sp_e8,
    ld_hl_sp_e8_spec, ld_r16_n16, ld_r16_n16_spec, ld_r16ram_a, ld_r16ram_a_spec, ld_r8_n8,
    ld_r8_n8_spec, ld_r8_r8, ld_r8_r8_spec, ld_sp_hl, ld_sp_hl_spec, ldh_a8_a, ldh_a8_a_spec,
    ldh_a_a8, ldh_a_a8_spec, ldh_a_c, ldh_a_c_spec, ldh_c_a, ldh_c_a_spec, nop, nop_spec,
    pop_r16stk, pop_r16stk_spec, push_r16stk, push_r16stk_spec, res_r8_b3, res_r8_b3_spec, ret,
    ret_cond, ret_cond_spec, ret_spec, reti, reti_spec, rla, rla_spec, rlca, rlca_spec, rra,
    rra_spec, rrca, rrca_spec, rst_tgt3, rst_tgt3_spec, scf, scf_spec, set_r8_b3, set_r8_b3_spec,
    stop, stop_spec,
};

verus! {

/// The effect of one 0xCB-prefixed instruction, keyed by its second
/// byte: bits 7..6 pick the group (rotate/shift, BIT, RES, SET), bits
/// 5..3 the bit position or rotate kind, bits 2..0 the operand.
pub open spec fn cb_apply(s: CpuV, b: u8) -> CpuV {
    let r8 = r8_of_idx(b % 8);
    let mid = (b / 8) % 8;
    if b < 0x40 {
        bop_r8_spec(s, r8, bop_of_idx(mid))
    } else if b < 0x80 {
        bit_r8_b3_spec(s, r8, mid)
    } else if b < 0xC0 {
        res_r8_b3_spec(s, r8, mid)
    } else {
        set_r8_b3_spec(s, r8, mid)
    }
}

/// The effect of one decoded instruction on the machine state, given the
/// two bytes that follow the opcode (a 16-bit immediate is assembled
/// little-endian from them).  An unassigned opcode changes nothing.
pub open spec fn instr_apply(s: CpuV, i: Instr, b1: u8, b2: u8) -> CpuV {
    let n16 = pair16(b2, b1);
    match i {
        Instr::Nop => nop_spec(s),
        Instr::Stop => stop_spec(s),
        Instr::Halt => s,
        Instr::Illegal => s,
        Instr::LdR16N16(r16) => ld_r16_n16_spec(s, r16, n16),
        Instr::LdR16RamA(rr) => ld_r16ram_a_spec(s, rr),
        Instr::LdAR16Ram(rr) => ld_a_r16ram_spec(s, rr),
        Instr::IncR16(r16) => inc_r16_spec(s, r16),
        Instr::DecR16(r16) => dec_r16_spec(s, r16),
        Instr::AddHlR16(r16) => add_hl_r16_spec(s, r16),
        Instr::IncR8(r8) => inc_r8_spec(s, r8),
        Instr::DecR8(r8) => dec_r8_spec(s, r8),
        Instr::LdR8N8(r8) => ld_r8_n8_spec(s, r8, b1),
        Instr::LdR8R8(r8d, r8s) => ld_r8_r8_spec(s, r8d, r8s),
        Instr::Rlca => rlca_spec(s),
        Instr::Rrca => rrca_spec(s),
        Instr::Rla => rla_spec(s),
        Instr::Rra => rra_spec(s),
        Instr::Daa => daa_spec(s),
        Instr::Cpl => cpl_spec(s),
        Instr::Scf => scf_spec(s),
        Instr::Ccf => ccf_spec(s),
        Instr::JrE8 => jr_e8_spec(s, b1 as i8),
        Instr::JrCondE8(cond) => jr_cond_e8_spec(s, cond, b1 as i8),
        Instr::LdA16Sp => ld_a16_sp_spec(s, n16),
        Instr::AluAR8(alu3, r8) => alu_a_r8_spec(s, r8, alu3),
        Instr::AluAN8(alu3) => alu_a_n8_spec(s, b1, alu3),
        Instr::RetCond(cond) => ret_cond_spec(s, cond),
        Instr::Ret => ret_spec(s),
        Instr::Reti => reti_spec(s),
        Instr::PopR16Stk(rr) => pop_r16stk_spec(s, rr),
        Instr::PushR16Stk(rr) => push_r16stk_spec(s, rr),
        Instr::JpCondA16(cond) => jp_cond_a16_spec(s, cond, n16),
        Instr::JpA16 => jp_a16_spec(s, n16),
        Instr::JpHl => jp_hl_spec(s),
        Instr::CallCondA16(cond) => call_cond_a16_spec(s, cond, n16),
        Instr::CallA16 => call_a16_spec(s, n16),
        Instr::RstTgt3(tgt3) => rst_tgt3_spec(s, tgt3),
        Instr::LdhA8A => ldh_a8_a_spec(s, b1),
        Instr::LdhAA8 => ldh_a_a8_spec(s, b1),
        Instr::LdhCA => ldh_c_a_spec(s),
        Instr::LdhAC => ldh_a_c_spec(s),
        Instr::AddSpE8 => add_sp_e8_spec(s, b1 as i8),
        Instr::LdHlSpE8 => ld_hl_sp_e8_spec(s, b1 as i8),
        Instr::LdA16A => ld_a16_a_spec(s, n16),
        Instr::LdAA16 => ld_a_a16_spec(s, n16),
        Instr::Di => di_spec(s),
        Instr::Ei => ei_spec(s),
        Instr::LdSpHl => ld_sp_hl_spec(s),
        Instr::Prefix => cb_apply(s, b1),
    }
}

/// One full instruction step: fetch three bytes at the program counter,
/// decode the first through the dispatch table, and apply the
/// instruction.
pub open spec fn step_spec(s: CpuV) -> CpuV {
    instr_apply(s, decode(s.rom[s.pc as int]), s.rom[s.pc + 1], s.rom[s.pc + 2])
}

/// Execute one 0xCB-prefixed instruction, keyed by the byte after the
/// prefix.
pub fn ex_inst(soc: &mut SoC, sub_code: u8)
    requires
        old(soc)@.cyc + 4 <= u128::MAX,
    ensures
        final(soc)@ == cb_apply(old(soc)@, sub_code),
{
    let r8: R8 = r8_sel(sub_code % 8);
    let mid: u8 = (sub_code / 8) % 8;
    if sub_code < 0x40 {
        let bop3: BOP3 = bop_sel(mid);
        bop_r8(soc, r8, bop3);
    } else if sub_code < 0x80 {
        bit_r8_b3(soc, r8, mid);
    } else if sub_code < 0xC0 {
        res_r8_b3(soc, r8, mid);
    } else {
        set_r8_b3(soc, r8, mid);
    }
}

/// The instructions handled directly by [`execute`]: the load,
/// arithmetic and rotate groups.
pub open spec fn primary_group(i: Instr) -> bool {
    match i {
        Instr::Nop => true,
        Instr::Stop => true,
        Instr::Halt => true,
        Instr::Illegal => true,
        Instr::LdR16N16(_) => true,
        Instr::LdR16RamA(_) => true,
        Instr::LdAR16Ram(_) => true,
        Instr::IncR16(_) => true,
        Instr::DecR16(_) => true,
        Instr::AddHlR16(_) => true,
        Instr::IncR8(_) => true,
        Instr::DecR8(_) => true,
        Instr::LdR8N8(_) => true,
        Instr::LdR8R8(_, _) => true,
        Instr::Rlca => true,
        Instr::Rrca => true,
        Instr::Rla => true,
        Instr::Rra => true,
        Instr::AluAR8(_, _) => true,
        Instr::AluAN8(_) => true,
        _ => false,
    }
}

/// The instructions handled by [`execute_ctrl`]: jumps, calls, returns,
/// the stack group and the 0xCB prefix.
pub open spec fn ctrl_group(i: Instr) -> bool {
    match i {
        Instr::JrE8 => true,
        Instr::JrCondE8(_) => true,
        Instr::RetCond(_) => true,
        Instr::Ret => true,
        Instr::Reti => true,
        Instr::PopR16Stk(_) => true,
        Instr::PushR16Stk(_) => true,
        Instr::JpCondA16(_) => true,
        Instr::JpA16 => true,
        Instr::JpHl => true,
        Instr::CallCondA16(_) => true,
        Instr::CallA16 => true,
        Instr::RstTgt3(_) => true,
        Instr::Prefix => true,
        _ => false,
    }
}

/// Execute one decoded instruction against the machine: the load,
/// arithmetic and rotate groups, with the rest delegated onward.
#[verifier::spinoff_prover]
fn execute(soc: &mut SoC, i: Instr, b1: u8, b2: u8)
    requires
        old(soc)@.cyc + 6 <= u128::MAX,
    ensures
        final(soc)@ == instr_apply(old(soc)@, i, b1, b2),
{
    match i {
        Instr::Nop => nop(soc),
        Instr::Stop => stop(soc),
        Instr::Halt => halt(soc),
        Instr::Illegal => {},
        Instr::LdR16N16(r16) => ld_r16_n16(soc, r16, b8x2_le(b1, b2)),
        Instr::LdR16RamA(rr) => ld_r16ram_a(soc, rr),
        Instr::LdAR16Ram(rr) => ld_a_r16ram(soc, rr),
        Instr::IncR16(r16) => inc_r16(soc, r16),
        Instr::DecR16(r16) => dec_r16(soc, r16),
        Instr::AddHlR16(r16) => add_hl_r16(soc, r16),
        Instr::IncR8(r8) => inc_r8(soc, r8),
        Instr::DecR8(r8) => dec_r8(soc, r8),
        Instr::LdR8N8(r8) => ld_r8_n8(soc, r8, b1),
        Instr::LdR8R8(r8d, r8s) => ld_r8_r8(soc, r8d, r8s),
        Instr::Rlca => rlca(soc),
        Instr::Rrca => rrca(soc),
        Instr::Rla => rla(soc),
        Instr::Rra => rra(soc),
        Instr::AluAR8(alu3, r8) => alu_a_r8(soc, r8, alu3),
        Instr::AluAN8(alu3) => alu_a_n8(soc, b1, alu3),
        _ => execute_ctrl(soc, i, b1, b2),
    }
}

/// Execute the control-flow and stack groups, with the rest delegated
/// onward.
#[verifier::spinoff_prover]
fn execute_ctrl(soc: &mut SoC, i: Instr, b1: u8, b2: u8)
    requires
        old(soc)@.cyc + 6 <= u128::MAX,
        !primary_group(i),
    ensures
        final(soc)@ == instr_apply(old(soc)@, i, b1, b2),
{
    match i {
        Instr::JrE8 => jr_e8(soc, b1 as i8),
        Instr::JrCondE8(cond) => jr_cond_e8(soc, cond, b1 as i8),
        Instr::RetCond(cond) => ret_cond(soc, cond),
        Instr::Ret => ret(soc),
        Instr::Reti => reti(soc),
        Instr::PopR16Stk(rr) => pop_r16stk(soc, rr),
        Instr::PushR16Stk(rr) => push_r16stk(soc, rr),
        Instr::JpCondA16(cond) => jp_cond_a16(soc, cond, b8x2_le(b1, b2)),
        Instr::JpA16 => jp_a16(soc, b8x2_le(b1, b2)),
        Instr::JpHl => jp_hl(soc),
        Instr::CallCondA16(cond) => call_cond_a16(soc, cond, b8x2_le(b1, b2)),
        Instr::CallA16 => call_a16(soc, b8x2_le(b1, b2)),
        Instr::RstTgt3(tgt3) => rst_tgt3(soc, tgt3),
        Instr::Prefix => ex_inst(soc, b1),
        _ => execute_rest(soc, i, b1, b2),
    }
}

/// Execute the remaining instructions: flag operations, DAA, the high
/// page and absolute loads, and the stack-pointer arithmetic forms.
#[verifier::spinoff_prover]
fn execute_rest(soc: &mut SoC, i: Instr, b1: u8, b2: u8)
    requires
        old(soc)@.cyc + 6 <= u128::MAX,
        !primary_group(i),
        !ctrl_group(i),
    ensures
        final(soc)@ == instr_apply(old(soc)@, i, b1, b2),
{
    match i {
        Instr::Daa => daa(soc),
        Instr::Cpl => cpl(soc),
        Instr::Scf => scf(soc),
        Instr::Ccf => ccf(soc),
        Instr::LdA16Sp => ld_a16_sp(soc, b8x2_le(b1, b2)),
        Instr::LdhA8A => ldh_a8_a(soc, b1),
        Instr::LdhAA8 => ldh_a_a8(soc, b1),
        Instr::LdhCA => ldh_c_a(soc),
        Instr::LdhAC => ldh_a_c(soc),
        Instr::AddSpE8 => add_sp_e8(soc, b1 as i8),
        Instr::LdHlSpE8 => ld_hl_sp_e8(soc, b1 as i8),
        Instr::LdA16A => ld_a16_a(soc, b8x2_le(b1, b2)),
        Instr::LdAA16 => ld_a_a16(soc, b8x2_le(b1, b2)),
        Instr::Di => di(soc),
        Instr::Ei => ei(soc),
        Instr::LdSpHl => ld_sp_hl(soc),
        _ => {},
    }
}

/// Fetch, decode and execute the instruction at the program counter.
/// The three fetched bytes must lie inside the padded instruction store,
/// which holds whenever the program counter is inside the unpadded
/// program image.
pub fn process_by_step(soc: &mut SoC)
    requires
        old(soc)@.pc + 2 < old(soc)@.rom.len(),
        old(soc)@.cyc + 6 <= u128::MAX,
    ensures
        final(soc)@ == step_spec(old(soc)@),
{
    proof {
        use_type_invariant(&*soc);
    }
    let pc: u16 = soc.get_pc();
    let b0: u8 = soc.read_rom(pc);
    let b1: u8 = soc.read_rom(pc + 1);
    let b2: u8 = soc.read_rom(pc + 2);
    let i: Instr = decode_op(b0);
    execute(soc, i, b1, b2);
}

impl SoC {
    /// Execute exactly one instruction at the current program counter.
    pub fn one_step(&mut self)
        requires
            old(self)@.pc + 2 < old(self)@.rom.len(),
            old(self)@.cyc + 6 <= u128::MAX,
        ensures
            final(self)@ == step_spec(old(self)@),
    {
        process_by_step(self);
    }
}

} // verus!
