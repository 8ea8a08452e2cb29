use sm83_kernel::SoC;

#[test]
fn ram_write_read_round_trip() {
    let mut soc = SoC::new(vec![0x00]);
    soc.ram_write(0x0000, 0x11);
    soc.ram_write(0x8000, 0x22);
    soc.ram_write(0xFFFF, 0x33);
    assert_eq!(soc.ram_read(0x0000), 0x11);
    assert_eq!(soc.ram_read(0x8000), 0x22);
    assert_eq!(soc.ram_read(0xFFFF), 0x33);
    soc.ram_write(0x8001, 0x44);
    assert_eq!(soc.ram_read(0x8000), 0x22);
    soc.ram_write(0x8000, 0x55);
    assert_eq!(soc.ram_read(0x8000), 0x55);
}

#[test]
fn ram_data_copies_whole_memory() {
    let mut soc = SoC::new(vec![0x00]);
    soc.ram_write(0x1234, 0xAB);
    let copy = soc.ram_data();
    assert_eq!(copy.len(), 65536);
    assert_eq!(copy[0x1234], 0xAB);
    assert_eq!(copy[0], 0x00);
}

#[test]
fn r8_inc_dec_restores_value_at_wrap() {
    let mut soc = SoC::new(vec![0x00]);
    soc.set_r8(2, 0xFF);
    soc.r8_inc(2);
    assert_eq!(soc.get_r8(2), 0x00);
    soc.r8_dec(2);
    assert_eq!(soc.get_r8(2), 0xFF);
    soc.set_r8(3, 0x41);
    soc.r8_inc(3);
    soc.r8_dec(3);
    assert_eq!(soc.get_r8(3), 0x41);
}

#[test]
fn r16_inc_dec_restores_pair_at_wrap() {
    let mut soc = SoC::new(vec![0x00]);
    soc.set_r16((6, 7), 0xFFFF);
    soc.r16_inc((6, 7));
    assert_eq!(soc.get_r16((6, 7)), 0x0000);
    soc.r16_dec((6, 7));
    assert_eq!(soc.get_r16((6, 7)), 0xFFFF);
    soc.set_r16((4, 5), 0x1234);
    soc.r16_inc((4, 5));
    soc.r16_dec((4, 5));
    assert_eq!(soc.get_r16((4, 5)), 0x1234);
}

#[test]
fn add_sets_carry_iff_sum_overflows() {
    let mut carry = SoC::new(vec![0x80]);
    carry.set_r8(0, 0xFF);
    carry.set_r8(2, 0x01);
    carry.one_step();
    assert_eq!(carry.get_r8(0), 0x00);
    assert_eq!(carry.get_flag(7), 1);
    assert_eq!(carry.get_flag(4), 1);
    assert_eq!(carry.get_flag(5), 1);
    let mut no_carry = SoC::new(vec![0x80]);
    no_carry.set_r8(0, 0x0F);
    no_carry.set_r8(2, 0x01);
    no_carry.one_step();
    assert_eq!(no_carry.get_r8(0), 0x10);
    assert_eq!(no_carry.get_flag(4), 0);
    assert_eq!(no_carry.get_flag(5), 1);
}

#[test]
fn sub_sets_carry_iff_it_borrows() {
    let mut borrow = SoC::new(vec![0x90]);
    borrow.set_r8(0, 0x10);
    borrow.set_r8(2, 0x20);
    borrow.one_step();
    assert_eq!(borrow.get_r8(0), 0xF0);
    assert_eq!(borrow.get_flag(4), 1);
    assert_eq!(borrow.get_flag(5), 0);
    assert_eq!(borrow.get_flag(6), 1);
    let mut nibble = SoC::new(vec![0x90]);
    nibble.set_r8(0, 0x21);
    nibble.set_r8(2, 0x03);
    nibble.one_step();
    assert_eq!(nibble.get_r8(0), 0x1E);
    assert_eq!(nibble.get_flag(4), 0);
    assert_eq!(nibble.get_flag(5), 1);
}

#[test]
fn daa_after_add_gives_decimal_sum() {
    let mut soc = SoC::new(vec![0x80, 0x27]);
    soc.set_r8(0, 0x19);
    soc.set_r8(2, 0x28);
    soc.one_step();
    assert_eq!(soc.get_r8(0), 0x41);
    soc.one_step();
    assert_eq!(soc.get_r8(0), 0x47);
    assert_eq!(soc.get_flag(4), 0);
    assert_eq!(soc.get_flag(5), 0);
}

#[test]
fn daa_after_add_with_decimal_carry() {
    let mut soc = SoC::new(vec![0x80, 0x27]);
    soc.set_r8(0, 0x99);
    soc.set_r8(2, 0x99);
    soc.one_step();
    assert_eq!(soc.get_r8(0), 0x32);
    soc.one_step();
    assert_eq!(soc.get_r8(0), 0x98);
    assert_eq!(soc.get_flag(4), 1);
}

#[test]
fn daa_after_sub_with_decimal_borrow() {
    let mut soc = SoC::new(vec![0x90, 0x27]);
    soc.set_r8(0, 0x20);
    soc.set_r8(2, 0x50);
    soc.one_step();
    assert_eq!(soc.get_r8(0), 0xD0);
    soc.one_step();
    assert_eq!(soc.get_r8(0), 0x70);
    assert_eq!(soc.get_flag(4), 1);
    assert_eq!(soc.get_flag(6), 1);
}

#[test]
fn daa_after_sub_without_borrow() {
    let mut soc = SoC::new(vec![0x90, 0x27]);
    soc.set_r8(0, 0x21);
    soc.set_r8(2, 0x09);
    soc.one_step();
    assert_eq!(soc.get_r8(0), 0x18);
    soc.one_step();
    assert_eq!(soc.get_r8(0), 0x12);
    assert_eq!(soc.get_flag(4), 0);
}

#[test]
fn push_pop_restores_value_and_stack_pointer() {
    let mut soc = SoC::new(vec![0xC5, 0xC1]);
    soc.set_sp(0x8000);
    soc.set_r16((2, 3), 0x1234);
    soc.one_step();
    assert_eq!(soc.get_sp(), 0x7FFE);
    assert_eq!(soc.ram_read(0x7FFF), 0x12);
    assert_eq!(soc.ram_read(0x7FFE), 0x34);
    assert_eq!(soc.get_cyc(), 4u128);
    soc.set_r16((2, 3), 0x0000);
    soc.one_step();
    assert_eq!(soc.get_r16((2, 3)), 0x1234);
    assert_eq!(soc.get_sp(), 0x8000);
    assert_eq!(soc.get_cyc(), 7u128);
}

#[test]
fn push_pop_af_keeps_full_flag_byte() {
    let mut soc = SoC::new(vec![0xF5, 0xF1]);
    soc.set_sp(0x8000);
    soc.set_r16((0, 1), 0x5AA5);
    soc.one_step();
    soc.set_r16((0, 1), 0x0000);
    soc.one_step();
    assert_eq!(soc.get_r16((0, 1)), 0x5AA5);
    assert_eq!(soc.get_sp(), 0x8000);
}

#[test]
fn flag_accessors_touch_single_bits() {
    let mut soc = SoC::new(vec![0x00]);
    soc.set_flag(7);
    soc.set_flag(4);
    assert_eq!(soc.get_flag(7), 1);
    assert_eq!(soc.get_flag(6), 0);
    assert_eq!(soc.get_flag(5), 0);
    assert_eq!(soc.get_flag(4), 1);
    assert_eq!(soc.get_r8(1), 0x90);
    soc.res_flag(7);
    assert_eq!(soc.get_flag(7), 0);
    assert_eq!(soc.get_r8(1), 0x10);
}

#[test]
fn r8_bit_accessors_set_and_clear() {
    let mut soc = SoC::new(vec![0x00]);
    soc.r8_set(2, 3);
    assert_eq!(soc.get_r8(2), 0x08);
    soc.r8_set(2, 0);
    assert_eq!(soc.get_r8(2), 0x09);
    soc.r8_res(2, 3);
    assert_eq!(soc.get_r8(2), 0x01);
}

#[test]
fn pair_accessors_compose_high_and_low() {
    let mut soc = SoC::new(vec![0x00]);
    soc.set_r16((2, 3), 0xBEEF);
    assert_eq!(soc.get_r8(2), 0xBE);
    assert_eq!(soc.get_r8(3), 0xEF);
    assert_eq!(soc.get_r16((2, 3)), 0xBEEF);
}

#[test]
fn pc_and_cycle_accessors_wrap_and_accumulate() {
    let mut soc = SoC::new(vec![0x00]);
    soc.set_pc(0xFFFF);
    soc.pc_inc(2);
    assert_eq!(soc.get_pc(), 0x0001);
    soc.pc_dec(2);
    assert_eq!(soc.get_pc(), 0xFFFF);
    soc.cyc_inc(5);
    soc.cyc_inc(7);
    assert_eq!(soc.get_cyc(), 12u128);
}

#[test]
fn a_long_program_keeps_decimal_arithmetic() {
    // 45 + 38 = 83, then 83 - 29 = 54, all in packed BCD.
    let rom = vec![0x3E, 0x45, 0x06, 0x38, 0x80, 0x27, 0x06, 0x29, 0x90, 0x27];
    let mut soc = SoC::new(rom);
    for _ in 0..7 {
        soc.one_step();
    }
    assert_eq!(soc.get_r8(0), 0x54);
    assert_eq!(soc.get_flag(4), 0);
}
