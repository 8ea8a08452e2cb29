use sm83_kernel::SoC;

fn zeros_with(bytes: &[(usize, u8)], len: usize) -> Vec<u8> {
    let mut rom = vec![0u8; len];
    for &(i, b) in bytes {
        rom[i] = b;
    }
    rom
}

#[test]
fn nop_advances_pc_and_cycles_only() {
    let mut soc = SoC::new(vec![0x00]);
    soc.one_step();
    assert_eq!(soc.get_pc(), 1);
    assert_eq!(soc.get_cyc(), 1u128);
    for pos in 0..8u8 {
        assert_eq!(soc.get_r8(pos), 0);
    }
    assert_eq!(soc.get_sp(), 0);
    assert!(!soc.get_ime());
    assert_eq!(soc.ram_read(0), 0);
}

#[test]
fn ld_bc_immediate_little_endian() {
    let mut soc = SoC::new(vec![0x01, 0x34, 0x12]);
    soc.one_step();
    assert_eq!(soc.get_r8(2), 0x12);
    assert_eq!(soc.get_r8(3), 0x34);
    assert_eq!(soc.get_r16((2, 3)), 0x1234);
    assert_eq!(soc.get_pc(), 3);
    assert_eq!(soc.get_cyc(), 3u128);
}

#[test]
fn jr_minus_two_targets_next_instruction() {
    let rom = zeros_with(&[(0x10, 0x18), (0x11, 0xFE)], 0x20);
    let mut soc = SoC::new(rom);
    soc.set_pc(0x10);
    soc.one_step();
    assert_eq!(soc.get_pc(), 0x10);
    assert_eq!(soc.get_cyc(), 3u128);
}

#[test]
fn xor_a_zeroes_accumulator_and_flags() {
    let mut soc = SoC::new(vec![0xAF]);
    soc.set_r8(0, 0x55);
    soc.one_step();
    assert_eq!(soc.get_r8(0), 0x00);
    assert_eq!(soc.get_flag(7), 1);
    assert_eq!(soc.get_flag(6), 0);
    assert_eq!(soc.get_flag(5), 0);
    assert_eq!(soc.get_flag(4), 0);
}

#[test]
fn bit_7_a_with_zero_accumulator() {
    let mut soc = SoC::new(vec![0xCB, 0x7F]);
    soc.one_step();
    assert_eq!(soc.get_flag(7), 1);
    assert_eq!(soc.get_flag(5), 1);
    assert_eq!(soc.get_flag(6), 0);
    assert_eq!(soc.get_r8(0), 0x00);
    assert_eq!(soc.get_pc(), 2);
    assert_eq!(soc.get_cyc(), 2u128);
}

#[test]
fn bit_test_clears_subtract_flag() {
    let mut soc = SoC::new(vec![0xCB, 0x7F]);
    soc.set_flag(6);
    soc.one_step();
    assert_eq!(soc.get_flag(6), 0);
}

#[test]
fn halt_query_and_noop() {
    let mut soc = SoC::new(vec![0x76]);
    assert!(soc.halt());
    soc.one_step();
    assert_eq!(soc.get_pc(), 0);
    assert_eq!(soc.get_cyc(), 0u128);
    let soc2 = SoC::new(vec![0x00]);
    assert!(!soc2.halt());
}

#[test]
fn unassigned_opcode_is_silent() {
    let mut soc = SoC::new(vec![0xD3]);
    soc.one_step();
    assert_eq!(soc.get_pc(), 0);
    assert_eq!(soc.get_cyc(), 0u128);
}

#[test]
fn stop_advances_two_bytes_one_cycle() {
    let mut soc = SoC::new(vec![0x10, 0x00]);
    soc.one_step();
    assert_eq!(soc.get_pc(), 2);
    assert_eq!(soc.get_cyc(), 1u128);
}

#[test]
fn ei_di_toggle_ime() {
    let mut soc = SoC::new(vec![0xFB, 0xF3]);
    soc.one_step();
    assert!(soc.get_ime());
    soc.one_step();
    assert!(!soc.get_ime());
}

#[test]
fn reti_returns_and_enables_interrupts() {
    let mut soc = SoC::new(vec![0xD9]);
    soc.set_sp(0xC000);
    soc.ram_write(0xC000, 0x34);
    soc.ram_write(0xC001, 0x12);
    soc.one_step();
    assert_eq!(soc.get_pc(), 0x1234);
    assert_eq!(soc.get_sp(), 0xC002);
    assert!(soc.get_ime());
    assert_eq!(soc.get_cyc(), 4u128);
}

#[test]
fn call_then_ret_round_trip() {
    let rom = zeros_with(&[(0, 0xCD), (1, 0x10), (2, 0x00), (0x10, 0xC9)], 0x20);
    let mut soc = SoC::new(rom);
    soc.set_sp(0xFFFE);
    soc.one_step();
    assert_eq!(soc.get_pc(), 0x0010);
    assert_eq!(soc.get_sp(), 0xFFFC);
    assert_eq!(soc.ram_read(0xFFFD), 0x00);
    assert_eq!(soc.ram_read(0xFFFC), 0x03);
    assert_eq!(soc.get_cyc(), 6u128);
    soc.one_step();
    assert_eq!(soc.get_pc(), 0x0003);
    assert_eq!(soc.get_sp(), 0xFFFE);
    assert_eq!(soc.get_cyc(), 10u128);
}

#[test]
fn rst_pushes_return_address_and_jumps() {
    let mut soc = SoC::new(vec![0xFF]);
    soc.set_sp(0x9000);
    soc.one_step();
    assert_eq!(soc.get_pc(), 0x38);
    assert_eq!(soc.get_sp(), 0x8FFE);
    assert_eq!(soc.ram_read(0x8FFF), 0x00);
    assert_eq!(soc.ram_read(0x8FFE), 0x01);
    assert_eq!(soc.get_cyc(), 4u128);
}

#[test]
fn jp_conditional_taken_and_not_taken() {
    let mut taken = SoC::new(vec![0xC2, 0x34, 0x12]);
    taken.one_step();
    assert_eq!(taken.get_pc(), 0x1234);
    assert_eq!(taken.get_cyc(), 4u128);
    let mut skipped = SoC::new(vec![0xC2, 0x34, 0x12]);
    skipped.set_flag(7);
    skipped.one_step();
    assert_eq!(skipped.get_pc(), 3);
    assert_eq!(skipped.get_cyc(), 3u128);
}

#[test]
fn jr_conditional_taken_and_not_taken() {
    let mut taken = SoC::new(vec![0x20, 0x02, 0x00, 0x00, 0x00]);
    taken.one_step();
    assert_eq!(taken.get_pc(), 4);
    assert_eq!(taken.get_cyc(), 3u128);
    let mut skipped = SoC::new(vec![0x20, 0x02]);
    skipped.set_flag(7);
    skipped.one_step();
    assert_eq!(skipped.get_pc(), 2);
    assert_eq!(skipped.get_cyc(), 2u128);
}

#[test]
fn jp_hl_jumps_to_pair_value() {
    let mut soc = SoC::new(vec![0xE9]);
    soc.set_r16((6, 7), 0x0200);
    soc.one_step();
    assert_eq!(soc.get_pc(), 0x0200);
    assert_eq!(soc.get_cyc(), 1u128);
}

#[test]
fn ld_hl_indirect_store_and_load() {
    let mut soc = SoC::new(vec![0x36, 0xAB]);
    soc.set_r16((6, 7), 0xC000);
    soc.one_step();
    assert_eq!(soc.ram_read(0xC000), 0xAB);
    assert_eq!(soc.get_cyc(), 3u128);
    let mut soc2 = SoC::new(vec![0x7E]);
    soc2.set_r16((6, 7), 0xC000);
    soc2.ram_write(0xC000, 0x5C);
    soc2.one_step();
    assert_eq!(soc2.get_r8(0), 0x5C);
    assert_eq!(soc2.get_cyc(), 2u128);
}

#[test]
fn ld_hl_increment_and_decrement_addressing() {
    let mut soc = SoC::new(vec![0x22, 0x32]);
    soc.set_r16((6, 7), 0xC000);
    soc.set_r8(0, 0x05);
    soc.one_step();
    assert_eq!(soc.ram_read(0xC000), 0x05);
    assert_eq!(soc.get_r16((6, 7)), 0xC001);
    soc.one_step();
    assert_eq!(soc.ram_read(0xC001), 0x05);
    assert_eq!(soc.get_r16((6, 7)), 0xC000);
}

#[test]
fn ld_r8_r8_register_and_memory_costs() {
    let mut soc = SoC::new(vec![0x41]);
    soc.set_r8(3, 0x7E);
    soc.one_step();
    assert_eq!(soc.get_r8(2), 0x7E);
    assert_eq!(soc.get_cyc(), 1u128);
    let mut soc2 = SoC::new(vec![0x46]);
    soc2.set_r16((6, 7), 0xC000);
    soc2.ram_write(0xC000, 0x9A);
    soc2.one_step();
    assert_eq!(soc2.get_r8(2), 0x9A);
    assert_eq!(soc2.get_cyc(), 2u128);
}

#[test]
fn rotate_group_sets_carry_from_shifted_bit() {
    let mut soc = SoC::new(vec![0xCB, 0x00]);
    soc.set_r8(2, 0x80);
    soc.one_step();
    assert_eq!(soc.get_r8(2), 0x01);
    assert_eq!(soc.get_flag(4), 1);
    assert_eq!(soc.get_flag(7), 0);
    let mut soc2 = SoC::new(vec![0xCB, 0x38]);
    soc2.set_r8(2, 0x01);
    soc2.one_step();
    assert_eq!(soc2.get_r8(2), 0x00);
    assert_eq!(soc2.get_flag(7), 1);
    assert_eq!(soc2.get_flag(4), 1);
}

#[test]
fn swap_exchanges_nibbles_and_clears_carry() {
    let mut soc = SoC::new(vec![0xCB, 0x37]);
    soc.set_r8(0, 0xAB);
    soc.set_flag(4);
    soc.one_step();
    assert_eq!(soc.get_r8(0), 0xBA);
    assert_eq!(soc.get_flag(4), 0);
}

#[test]
fn rla_rotates_through_carry() {
    let mut soc = SoC::new(vec![0x17]);
    soc.set_r8(0, 0x80);
    soc.set_flag(4);
    soc.one_step();
    assert_eq!(soc.get_r8(0), 0x01);
    assert_eq!(soc.get_flag(4), 1);
    assert_eq!(soc.get_flag(7), 0);
}

#[test]
fn set_and_res_touch_one_bit_and_no_flags() {
    let mut soc = SoC::new(vec![0xCB, 0xFF, 0xCB, 0xBF]);
    soc.one_step();
    assert_eq!(soc.get_r8(0), 0x80);
    assert_eq!(soc.get_flag(7), 0);
    soc.set_r8(0, 0xFF);
    soc.one_step();
    assert_eq!(soc.get_r8(0), 0x7F);
    assert_eq!(soc.get_flag(7), 0);
}

#[test]
fn add_hl_half_carry_at_bit_eleven() {
    let mut soc = SoC::new(vec![0x09]);
    soc.set_r16((6, 7), 0x0FFF);
    soc.set_r16((2, 3), 0x0001);
    soc.set_flag(7);
    soc.one_step();
    assert_eq!(soc.get_r16((6, 7)), 0x1000);
    assert_eq!(soc.get_flag(5), 1);
    assert_eq!(soc.get_flag(4), 0);
    assert_eq!(soc.get_flag(6), 0);
    assert_eq!(soc.get_flag(7), 1);
}

#[test]
fn add_hl_wraps_and_sets_carry() {
    let mut soc = SoC::new(vec![0x39]);
    soc.set_r16((6, 7), 0xFFFF);
    soc.set_sp(0x0001);
    soc.one_step();
    assert_eq!(soc.get_r16((6, 7)), 0x0000);
    assert_eq!(soc.get_flag(4), 1);
}

#[test]
fn adc_and_sbc_fold_carry_in() {
    let mut soc = SoC::new(vec![0x88]);
    soc.set_r8(0, 0x01);
    soc.set_r8(2, 0x02);
    soc.set_flag(4);
    soc.one_step();
    assert_eq!(soc.get_r8(0), 0x04);
    let mut soc2 = SoC::new(vec![0x98]);
    soc2.set_r8(0, 0x05);
    soc2.set_r8(2, 0x02);
    soc2.set_flag(4);
    soc2.one_step();
    assert_eq!(soc2.get_r8(0), 0x02);
}

#[test]
fn cp_compares_without_writing_back() {
    let mut soc = SoC::new(vec![0xB8]);
    soc.set_r8(0, 0x10);
    soc.set_r8(2, 0x20);
    soc.one_step();
    assert_eq!(soc.get_r8(0), 0x10);
    assert_eq!(soc.get_flag(4), 1);
    assert_eq!(soc.get_flag(6), 1);
}

#[test]
fn and_or_fix_their_flag_constants() {
    let mut soc = SoC::new(vec![0xA0]);
    soc.set_r8(0, 0x0F);
    soc.set_r8(2, 0xF0);
    soc.one_step();
    assert_eq!(soc.get_r8(0), 0x00);
    assert_eq!(soc.get_flag(7), 1);
    assert_eq!(soc.get_flag(5), 1);
    assert_eq!(soc.get_flag(4), 0);
    let mut soc2 = SoC::new(vec![0xB0]);
    soc2.set_r8(0, 0x0F);
    soc2.set_r8(2, 0xF0);
    soc2.one_step();
    assert_eq!(soc2.get_r8(0), 0xFF);
    assert_eq!(soc2.get_flag(7), 0);
    assert_eq!(soc2.get_flag(5), 0);
}

#[test]
fn ldh_high_page_store_and_load() {
    let mut soc = SoC::new(vec![0xE0, 0x80, 0xF0, 0x80]);
    soc.set_r8(0, 0x42);
    soc.one_step();
    assert_eq!(soc.ram_read(0xFF80), 0x42);
    assert_eq!(soc.get_cyc(), 3u128);
    soc.set_r8(0, 0x00);
    soc.one_step();
    assert_eq!(soc.get_r8(0), 0x42);
}

#[test]
fn ldh_c_register_addressing() {
    let mut soc = SoC::new(vec![0xE2, 0xF2]);
    soc.set_r8(3, 0x81);
    soc.set_r8(0, 0x99);
    soc.one_step();
    assert_eq!(soc.ram_read(0xFF81), 0x99);
    soc.set_r8(0, 0x00);
    soc.one_step();
    assert_eq!(soc.get_r8(0), 0x99);
}

#[test]
fn add_sp_signed_positive_with_half_carry() {
    let mut soc = SoC::new(vec![0xE8, 0x05]);
    soc.set_sp(0x0FFB);
    soc.one_step();
    assert_eq!(soc.get_sp(), 0x1000);
    assert_eq!(soc.get_flag(5), 1);
    assert_eq!(soc.get_flag(7), 0);
    assert_eq!(soc.get_flag(6), 0);
    assert_eq!(soc.get_cyc(), 4u128);
}

#[test]
fn add_sp_signed_negative_clears_carries() {
    let mut soc = SoC::new(vec![0xE8, 0xFE]);
    soc.set_sp(0x0002);
    soc.set_flag(4);
    soc.set_flag(5);
    soc.one_step();
    assert_eq!(soc.get_sp(), 0x0000);
    assert_eq!(soc.get_flag(4), 0);
    assert_eq!(soc.get_flag(5), 0);
}

#[test]
fn ld_hl_sp_offset_leaves_sp_alone() {
    let mut soc = SoC::new(vec![0xF8, 0x01]);
    soc.set_sp(0x00FF);
    soc.one_step();
    assert_eq!(soc.get_r16((6, 7)), 0x0100);
    assert_eq!(soc.get_sp(), 0x00FF);
    assert_eq!(soc.get_cyc(), 3u128);
}

#[test]
fn ld_a16_sp_stores_low_byte_first() {
    let mut soc = SoC::new(vec![0x08, 0x00, 0xC0]);
    soc.set_sp(0x1234);
    soc.one_step();
    assert_eq!(soc.ram_read(0xC000), 0x34);
    assert_eq!(soc.ram_read(0xC001), 0x12);
    assert_eq!(soc.get_pc(), 3);
    assert_eq!(soc.get_cyc(), 5u128);
}

#[test]
fn inc_r8_wraps_and_keeps_carry() {
    let mut soc = SoC::new(vec![0x04]);
    soc.set_r8(2, 0xFF);
    soc.set_flag(4);
    soc.one_step();
    assert_eq!(soc.get_r8(2), 0x00);
    assert_eq!(soc.get_flag(7), 1);
    assert_eq!(soc.get_flag(5), 1);
    assert_eq!(soc.get_flag(6), 0);
    assert_eq!(soc.get_flag(4), 1);
}

#[test]
fn dec_r8_sets_subtract_and_zero() {
    let mut soc = SoC::new(vec![0x05]);
    soc.set_r8(2, 0x01);
    soc.one_step();
    assert_eq!(soc.get_r8(2), 0x00);
    assert_eq!(soc.get_flag(7), 1);
    assert_eq!(soc.get_flag(6), 1);
}

#[test]
fn cpl_scf_ccf_flag_behaviour() {
    let mut soc = SoC::new(vec![0x2F, 0x37, 0x3F, 0x3F]);
    soc.set_r8(0, 0x0F);
    soc.one_step();
    assert_eq!(soc.get_r8(0), 0xF0);
    assert_eq!(soc.get_flag(6), 1);
    assert_eq!(soc.get_flag(5), 1);
    soc.one_step();
    assert_eq!(soc.get_flag(4), 1);
    assert_eq!(soc.get_flag(6), 0);
    assert_eq!(soc.get_flag(5), 0);
    soc.one_step();
    assert_eq!(soc.get_flag(4), 0);
    soc.one_step();
    assert_eq!(soc.get_flag(4), 1);
}

#[test]
fn give_opt_code_returns_upcoming_bytes() {
    let soc = SoC::new(vec![0x01, 0x34, 0x12]);
    let bytes = soc.give_opt_code(3);
    assert_eq!(bytes, vec![0x01, 0x34, 0x12]);
    assert_eq!(soc.rom_len(), 5);
}

#[test]
fn rom_is_padded_with_two_zero_bytes() {
    let soc = SoC::new(vec![0xAF]);
    assert_eq!(soc.rom_len(), 3);
    assert_eq!(soc.read_rom(1), 0);
    assert_eq!(soc.read_rom(2), 0);
}

#[test]
fn alu_immediate_add_and_adc() {
    let mut soc = SoC::new(vec![0xC6, 0x05]);
    soc.set_r8(0, 0x03);
    soc.one_step();
    assert_eq!(soc.get_r8(0), 0x08);
    assert_eq!(soc.get_flag(6), 0);
    assert_eq!(soc.get_pc(), 2);
    assert_eq!(soc.get_cyc(), 2u128);
    let mut soc2 = SoC::new(vec![0xCE, 0x00]);
    soc2.set_r8(0, 0x03);
    soc2.set_flag(4);
    soc2.one_step();
    assert_eq!(soc2.get_r8(0), 0x04);
}

#[test]
fn alu_immediate_sub_and_cp() {
    let mut soc = SoC::new(vec![0xD6, 0x05]);
    soc.set_r8(0, 0x08);
    soc.one_step();
    assert_eq!(soc.get_r8(0), 0x03);
    assert_eq!(soc.get_flag(6), 1);
    let mut soc2 = SoC::new(vec![0xFE, 0x08]);
    soc2.set_r8(0, 0x08);
    soc2.one_step();
    assert_eq!(soc2.get_r8(0), 0x08);
    assert_eq!(soc2.get_flag(7), 1);
}

#[test]
fn ld_absolute_store_and_load() {
    let mut soc = SoC::new(vec![0xEA, 0x00, 0xC0, 0xFA, 0x00, 0xC0]);
    soc.set_r8(0, 0x66);
    soc.one_step();
    assert_eq!(soc.ram_read(0xC000), 0x66);
    assert_eq!(soc.get_pc(), 3);
    assert_eq!(soc.get_cyc(), 4u128);
    soc.set_r8(0, 0x00);
    soc.one_step();
    assert_eq!(soc.get_r8(0), 0x66);
    assert_eq!(soc.get_pc(), 6);
    assert_eq!(soc.get_cyc(), 8u128);
}

#[test]
fn ld_a_through_bc_and_de() {
    let mut soc = SoC::new(vec![0x02, 0x1A]);
    soc.set_r16((2, 3), 0xC100);
    soc.set_r16((4, 5), 0xC200);
    soc.set_r8(0, 0x77);
    soc.one_step();
    assert_eq!(soc.ram_read(0xC100), 0x77);
    soc.ram_write(0xC200, 0x88);
    soc.one_step();
    assert_eq!(soc.get_r8(0), 0x88);
}

#[test]
fn inc_dec_r16_instructions_wrap() {
    let mut soc = SoC::new(vec![0x03, 0x0B, 0x33, 0x3B]);
    soc.set_r16((2, 3), 0xFFFF);
    soc.one_step();
    assert_eq!(soc.get_r16((2, 3)), 0x0000);
    soc.one_step();
    assert_eq!(soc.get_r16((2, 3)), 0xFFFF);
    soc.set_sp(0xFFFF);
    soc.one_step();
    assert_eq!(soc.get_sp(), 0x0000);
    soc.one_step();
    assert_eq!(soc.get_sp(), 0xFFFF);
}

#[test]
fn ret_cond_taken_and_not_taken() {
    let mut taken = SoC::new(vec![0xC0]);
    taken.set_sp(0xC000);
    taken.ram_write(0xC000, 0x34);
    taken.ram_write(0xC001, 0x12);
    taken.one_step();
    assert_eq!(taken.get_pc(), 0x1234);
    assert_eq!(taken.get_sp(), 0xC002);
    assert_eq!(taken.get_cyc(), 5u128);
    let mut skipped = SoC::new(vec![0xC0]);
    skipped.set_flag(7);
    skipped.one_step();
    assert_eq!(skipped.get_pc(), 1);
    assert_eq!(skipped.get_cyc(), 2u128);
}

#[test]
fn ld_sp_hl_copies_pair() {
    let mut soc = SoC::new(vec![0xF9]);
    soc.set_r16((6, 7), 0xD000);
    soc.one_step();
    assert_eq!(soc.get_sp(), 0xD000);
    assert_eq!(soc.get_cyc(), 2u128);
}

#[test]
fn sra_keeps_sign_bit_and_srl_does_not() {
    let mut sra = SoC::new(vec![0xCB, 0x2F]);
    sra.set_r8(0, 0x81);
    sra.one_step();
    assert_eq!(sra.get_r8(0), 0xC0);
    assert_eq!(sra.get_flag(4), 1);
    let mut srl = SoC::new(vec![0xCB, 0x3F]);
    srl.set_r8(0, 0x81);
    srl.one_step();
    assert_eq!(srl.get_r8(0), 0x40);
    assert_eq!(srl.get_flag(4), 1);
}

#[test]
fn cb_group_through_hl_memory() {
    let mut soc = SoC::new(vec![0xCB, 0xC6]);
    soc.set_r16((6, 7), 0xC000);
    soc.one_step();
    assert_eq!(soc.ram_read(0xC000), 0x01);
    assert_eq!(soc.get_cyc(), 4u128);
}
