use mos6502::Fault;
use mos6502::cpu::Cpu;
use mos6502::flags::Flag;
use mos6502::instruction::AddressingMode;

fn load(cpu: &mut Cpu, at: u16, bytes: &[u8]) {
    let mut i: usize = 0;
    while i < bytes.len() {
        cpu.write_mem(at + i as u16, bytes[i]).unwrap();
        i += 1;
    }
}

#[test]
fn zero_page_x_wraps() {
    let mut cpu: Cpu = Cpu::new();
    cpu.set_x(0x02);
    cpu.set_pc(0x0010);
    cpu.write_mem(0x0010, 0xFF).unwrap();
    assert_eq!(
        cpu.get_operand_address(AddressingMode::ZPX),
        Ok((0x0001, false))
    );
    assert_eq!(cpu.pc(), 0x0011);
}

#[test]
fn zero_page_y_wraps() {
    let mut cpu: Cpu = Cpu::new();
    cpu.set_y(0x03);
    cpu.set_pc(0x0010);
    cpu.write_mem(0x0010, 0xFE).unwrap();
    assert_eq!(
        cpu.get_operand_address(AddressingMode::ZPY),
        Ok((0x0001, false))
    );
}

#[test]
fn indirect_indexed_page_cross() {
    let mut cpu: Cpu = Cpu::new();
    cpu.set_y(0x01);
    cpu.set_pc(0x0020);
    cpu.write_mem(0x0020, 0x40).unwrap();
    cpu.write_mem(0x0040, 0xFF).unwrap();
    cpu.write_mem(0x0041, 0x01).unwrap();
    assert_eq!(
        cpu.get_operand_address(AddressingMode::IZY),
        Ok((0x0200, true))
    );
}

#[test]
fn indirect_indexed_page_cross_costs_a_cycle() {
    let mut cpu: Cpu = Cpu::new();
    cpu.set_y(0x01);
    load(&mut cpu, 0x0000, &[0xB1, 0x40]);
    cpu.write_mem(0x0040, 0xFF).unwrap();
    cpu.write_mem(0x0041, 0x01).unwrap();
    cpu.write_mem(0x0200, 0x77).unwrap();
    assert_eq!(cpu.execute(), Ok(6));
    assert_eq!(cpu.a(), 0x77);
}

#[test]
fn absolute_x_page_cross_costs_a_cycle() {
    let mut cpu: Cpu = Cpu::new();
    cpu.set_x(0x01);
    load(&mut cpu, 0x0000, &[0xBD, 0xFF, 0x00]);
    cpu.write_mem(0x0100, 0x55).unwrap();
    assert_eq!(cpu.execute(), Ok(5));
    assert_eq!(cpu.a(), 0x55);
}

#[test]
fn jmp_indirect_page_wrap_quirk() {
    let mut cpu: Cpu = Cpu::new();
    load(&mut cpu, 0x0000, &[0x6C, 0xFF, 0x02]);
    cpu.write_mem(0x02FF, 0x34).unwrap();
    cpu.write_mem(0x0200, 0x12).unwrap();
    assert_eq!(cpu.execute(), Ok(5));
    assert_eq!(cpu.pc(), 0x1234);
}

#[test]
fn adc_signed_overflow_case() {
    let mut cpu: Cpu = Cpu::new();
    cpu.set_a(0x50);
    load(&mut cpu, 0x0000, &[0x69, 0x50]);
    assert_eq!(cpu.execute(), Ok(2));
    assert_eq!(cpu.a(), 0xA0);
    assert!(!cpu.flag(Flag::Carry));
    assert!(cpu.flag(Flag::Overflow));
    assert!(cpu.flag(Flag::Negative));
    assert!(!cpu.flag(Flag::Zero));
}

#[test]
fn adc_carry_in_and_out() {
    let mut cpu: Cpu = Cpu::new();
    cpu.set_a(0xFF);
    cpu.set_flag(Flag::Carry, true);
    load(&mut cpu, 0x0000, &[0x69, 0x00]);
    assert_eq!(cpu.execute(), Ok(2));
    assert_eq!(cpu.a(), 0x00);
    assert!(cpu.flag(Flag::Carry));
    assert!(cpu.flag(Flag::Zero));
    assert!(!cpu.flag(Flag::Overflow));
}

#[test]
fn sbc_with_and_without_borrow() {
    let mut cpu: Cpu = Cpu::new();
    cpu.set_a(0x03);
    cpu.set_flag(Flag::Carry, true);
    load(&mut cpu, 0x0000, &[0xE9, 0x01, 0xE9, 0x04]);
    assert_eq!(cpu.execute(), Ok(2));
    assert_eq!(cpu.a(), 0x02);
    assert!(cpu.flag(Flag::Carry));
    assert!(!cpu.flag(Flag::Negative));
    assert_eq!(cpu.execute(), Ok(2));
    assert_eq!(cpu.a(), 0xFE);
    assert!(!cpu.flag(Flag::Carry));
    assert!(cpu.flag(Flag::Negative));
}

#[test]
fn cmp_orders_register_and_operand() {
    let mut cpu: Cpu = Cpu::new();
    cpu.set_a(0x20);
    load(&mut cpu, 0x0000, &[0xC9, 0x10, 0xC9, 0x20, 0xC9, 0x30]);
    assert_eq!(cpu.execute(), Ok(2));
    assert!(cpu.flag(Flag::Carry));
    assert!(!cpu.flag(Flag::Zero));
    assert_eq!(cpu.execute(), Ok(2));
    assert!(cpu.flag(Flag::Carry));
    assert!(cpu.flag(Flag::Zero));
    assert_eq!(cpu.execute(), Ok(2));
    assert!(!cpu.flag(Flag::Carry));
    assert!(cpu.flag(Flag::Negative));
}

#[test]
fn branch_cycle_accounting() {
    // Not taken: base cycles only.
    let mut cpu: Cpu = Cpu::new();
    load(&mut cpu, 0x0000, &[0xF0, 0x05]);
    assert_eq!(cpu.execute(), Ok(2));
    assert_eq!(cpu.pc(), 0x0002);

    // Taken without a page crossing: base plus one.
    let mut cpu2: Cpu = Cpu::new();
    cpu2.set_flag(Flag::Zero, true);
    load(&mut cpu2, 0x0000, &[0xF0, 0x05]);
    assert_eq!(cpu2.execute(), Ok(3));
    assert_eq!(cpu2.pc(), 0x0007);

    // Taken across a page: base plus two.
    let mut cpu3: Cpu = Cpu::new();
    cpu3.set_flag(Flag::Zero, true);
    cpu3.set_pc(0x00F0);
    load(&mut cpu3, 0x00F0, &[0xF0, 0x20]);
    assert_eq!(cpu3.execute(), Ok(4));
    assert_eq!(cpu3.pc(), 0x0112);
}

#[test]
fn branch_backwards_with_negative_offset() {
    let mut cpu: Cpu = Cpu::new();
    cpu.set_pc(0x0010);
    load(&mut cpu, 0x0010, &[0xD0, 0xFC]);
    assert_eq!(cpu.execute(), Ok(3));
    assert_eq!(cpu.pc(), 0x000E);
}

#[test]
fn jsr_rts_round_trip() {
    let mut cpu: Cpu = Cpu::new();
    cpu.set_sp(0xFD);
    load(&mut cpu, 0x0000, &[0x20, 0x00, 0x03]);
    cpu.write_mem(0x0300, 0x60).unwrap();
    assert_eq!(cpu.execute(), Ok(6));
    assert_eq!(cpu.pc(), 0x0300);
    assert_eq!(cpu.sp(), 0xFB);
    assert_eq!(cpu.read_mem(0x01FD), Ok(0x00));
    assert_eq!(cpu.read_mem(0x01FC), Ok(0x02));
    assert_eq!(cpu.execute(), Ok(6));
    assert_eq!(cpu.pc(), 0x0003);
    assert_eq!(cpu.sp(), 0xFD);
}

#[test]
fn stack_wraparound_on_push() {
    let mut cpu: Cpu = Cpu::new();
    cpu.set_sp(0x00);
    cpu.set_a(0xAB);
    load(&mut cpu, 0x0000, &[0x48]);
    assert_eq!(cpu.execute(), Ok(3));
    assert_eq!(cpu.sp(), 0xFF);
    assert_eq!(cpu.read_mem(0x0100), Ok(0xAB));
}

#[test]
fn fetch_beyond_backing_storage_is_fatal() {
    let mut cpu: Cpu = Cpu::new();
    cpu.set_pc(0x2000);
    assert_eq!(cpu.execute(), Err(Fault::OutOfRangeAccess));
    assert_eq!(cpu.pc(), 0x2000);
}

#[test]
fn store_beyond_backing_storage_is_fatal() {
    let mut cpu: Cpu = Cpu::new();
    cpu.set_a(0x11);
    load(&mut cpu, 0x0000, &[0x8D, 0x00, 0x30]);
    assert_eq!(cpu.execute(), Err(Fault::OutOfRangeAccess));
}

#[test]
fn decode_gap_is_reported_distinctly() {
    let mut cpu: Cpu = Cpu::new();
    load(&mut cpu, 0x0000, &[0x02]);
    assert_eq!(cpu.execute(), Err(Fault::DecodeTableGap));
    assert_eq!(cpu.pc(), 0x0001);
}

#[test]
fn loads_set_zero_and_negative() {
    let mut cpu: Cpu = Cpu::new();
    load(&mut cpu, 0x0000, &[0xA9, 0x00, 0xA9, 0x80, 0xA2, 0x07]);
    assert_eq!(cpu.execute(), Ok(2));
    assert!(cpu.flag(Flag::Zero));
    assert!(!cpu.flag(Flag::Negative));
    assert_eq!(cpu.execute(), Ok(2));
    assert!(!cpu.flag(Flag::Zero));
    assert!(cpu.flag(Flag::Negative));
    assert_eq!(cpu.execute(), Ok(2));
    assert_eq!(cpu.x(), 0x07);
    assert!(!cpu.flag(Flag::Zero));
    assert!(!cpu.flag(Flag::Negative));
}

#[test]
fn stores_move_registers_without_flags() {
    let mut cpu: Cpu = Cpu::new();
    cpu.set_a(0x42);
    cpu.set_flag(Flag::Zero, true);
    load(&mut cpu, 0x0000, &[0x85, 0x10]);
    assert_eq!(cpu.execute(), Ok(3));
    assert_eq!(cpu.read_mem(0x0010), Ok(0x42));
    assert!(cpu.flag(Flag::Zero));
}

#[test]
fn shifts_and_rotates_feed_carry() {
    let mut cpu: Cpu = Cpu::new();
    cpu.set_a(0x81);
    load(&mut cpu, 0x0000, &[0x0A, 0x4A, 0x2A, 0x6A]);
    assert_eq!(cpu.execute(), Ok(2));
    assert_eq!(cpu.a(), 0x02);
    assert!(cpu.flag(Flag::Carry));
    assert_eq!(cpu.execute(), Ok(2));
    assert_eq!(cpu.a(), 0x01);
    assert!(!cpu.flag(Flag::Carry));
    assert_eq!(cpu.execute(), Ok(2));
    assert_eq!(cpu.a(), 0x02);
    assert!(!cpu.flag(Flag::Carry));
    assert_eq!(cpu.execute(), Ok(2));
    assert_eq!(cpu.a(), 0x01);
    assert!(!cpu.flag(Flag::Carry));
}

#[test]
fn ror_pulls_carry_into_high_bit() {
    let mut cpu: Cpu = Cpu::new();
    cpu.set_a(0x00);
    cpu.set_flag(Flag::Carry, true);
    load(&mut cpu, 0x0000, &[0x6A]);
    assert_eq!(cpu.execute(), Ok(2));
    assert_eq!(cpu.a(), 0x80);
    assert!(!cpu.flag(Flag::Carry));
    assert!(cpu.flag(Flag::Negative));
}

#[test]
fn inc_dec_wrap_and_leave_carry() {
    let mut cpu: Cpu = Cpu::new();
    cpu.set_flag(Flag::Carry, true);
    cpu.write_mem(0x0010, 0xFF).unwrap();
    load(&mut cpu, 0x0000, &[0xE6, 0x10, 0xC6, 0x10]);
    assert_eq!(cpu.execute(), Ok(5));
    assert_eq!(cpu.read_mem(0x0010), Ok(0x00));
    assert!(cpu.flag(Flag::Zero));
    assert!(cpu.flag(Flag::Carry));
    assert_eq!(cpu.execute(), Ok(5));
    assert_eq!(cpu.read_mem(0x0010), Ok(0xFF));
    assert!(cpu.flag(Flag::Negative));
    assert!(cpu.flag(Flag::Carry));
}

#[test]
fn transfers_and_counts() {
    let mut cpu: Cpu = Cpu::new();
    cpu.set_x(0xFF);
    load(&mut cpu, 0x0000, &[0xE8, 0xAA, 0x9A]);
    assert_eq!(cpu.execute(), Ok(2));
    assert_eq!(cpu.x(), 0x00);
    assert!(cpu.flag(Flag::Zero));
    cpu.set_a(0x90);
    assert_eq!(cpu.execute(), Ok(2));
    assert_eq!(cpu.x(), 0x90);
    assert!(cpu.flag(Flag::Negative));
    cpu.set_flag(Flag::Zero, true);
    assert_eq!(cpu.execute(), Ok(2));
    assert_eq!(cpu.sp(), 0x90);
    assert!(cpu.flag(Flag::Zero));
}

#[test]
fn bit_loads_high_bits_into_flags() {
    let mut cpu: Cpu = Cpu::new();
    cpu.set_a(0x01);
    cpu.write_mem(0x0010, 0xC0).unwrap();
    load(&mut cpu, 0x0000, &[0x24, 0x10]);
    assert_eq!(cpu.execute(), Ok(3));
    assert!(cpu.flag(Flag::Zero));
    assert!(cpu.flag(Flag::Overflow));
    assert!(cpu.flag(Flag::Negative));
}

#[test]
fn logic_ops_combine_into_accumulator() {
    let mut cpu: Cpu = Cpu::new();
    cpu.set_a(0x0F);
    load(&mut cpu, 0x0000, &[0x29, 0x03, 0x09, 0x80, 0x49, 0xFF]);
    assert_eq!(cpu.execute(), Ok(2));
    assert_eq!(cpu.a(), 0x03);
    assert_eq!(cpu.execute(), Ok(2));
    assert_eq!(cpu.a(), 0x83);
    assert!(cpu.flag(Flag::Negative));
    assert_eq!(cpu.execute(), Ok(2));
    assert_eq!(cpu.a(), 0x7C);
    assert!(!cpu.flag(Flag::Negative));
}

#[test]
fn php_sets_reserved_bits_and_plp_restores_verbatim() {
    let mut cpu: Cpu = Cpu::new();
    cpu.set_sp(0xFF);
    cpu.set_flag(Flag::Carry, true);
    cpu.set_flag(Flag::Negative, true);
    load(&mut cpu, 0x0000, &[0x08]);
    assert_eq!(cpu.execute(), Ok(3));
    assert_eq!(cpu.sp(), 0xFE);
    assert_eq!(cpu.read_mem(0x01FF), Ok(0x81 | 0x30));

    let mut cpu2: Cpu = Cpu::new();
    cpu2.set_sp(0xFE);
    cpu2.write_mem(0x01FF, 0xC3).unwrap();
    load(&mut cpu2, 0x0000, &[0x28]);
    assert_eq!(cpu2.execute(), Ok(4));
    assert_eq!(cpu2.sp(), 0xFF);
    assert!(cpu2.flag(Flag::Carry));
    assert!(cpu2.flag(Flag::Zero));
    assert!(cpu2.flag(Flag::Overflow));
    assert!(cpu2.flag(Flag::Negative));
    assert!(!cpu2.flag(Flag::Break));
    assert!(!cpu2.flag(Flag::Unused));
}

#[test]
fn pha_pla_round_trip_value_and_flags() {
    let mut cpu: Cpu = Cpu::new();
    cpu.set_sp(0xFF);
    cpu.set_a(0x80);
    load(&mut cpu, 0x0000, &[0x48, 0xA9, 0x01, 0x68]);
    assert_eq!(cpu.execute(), Ok(3));
    assert_eq!(cpu.execute(), Ok(2));
    assert_eq!(cpu.a(), 0x01);
    assert_eq!(cpu.execute(), Ok(4));
    assert_eq!(cpu.a(), 0x80);
    assert!(cpu.flag(Flag::Negative));
    assert_eq!(cpu.sp(), 0xFF);
}

#[test]
fn brk_pushes_state_then_vector_read_is_fatal() {
    let mut cpu: Cpu = Cpu::new();
    cpu.set_sp(0xFF);
    cpu.set_flag(Flag::Carry, true);
    load(&mut cpu, 0x0000, &[0x00]);
    assert_eq!(cpu.execute(), Err(Fault::OutOfRangeAccess));
    assert_eq!(cpu.sp(), 0xFC);
    assert_eq!(cpu.read_mem(0x01FF), Ok(0x00));
    assert_eq!(cpu.read_mem(0x01FE), Ok(0x01));
    assert_eq!(cpu.read_mem(0x01FD), Ok(0x01 | 0x30));
    assert!(cpu.flag(Flag::IrqDisable));
}

#[test]
fn rti_restores_flags_and_pc_exactly() {
    let mut cpu: Cpu = Cpu::new();
    cpu.set_sp(0xFC);
    cpu.write_mem(0x01FD, 0xC3).unwrap();
    cpu.write_mem(0x01FE, 0x34).unwrap();
    cpu.write_mem(0x01FF, 0x12).unwrap();
    load(&mut cpu, 0x0000, &[0x40]);
    assert_eq!(cpu.execute(), Ok(6));
    assert_eq!(cpu.pc(), 0x1234);
    assert_eq!(cpu.sp(), 0xFF);
    assert!(cpu.flag(Flag::Carry));
    assert!(cpu.flag(Flag::Zero));
    assert!(cpu.flag(Flag::Overflow));
    assert!(cpu.flag(Flag::Negative));
    assert!(!cpu.flag(Flag::Unused));
}

#[test]
fn nmi_line_taken_before_fetch() {
    let mut cpu: Cpu = Cpu::new();
    cpu.set_sp(0xFF);
    cpu.set_nmi(true);
    load(&mut cpu, 0x0000, &[0xEA]);
    // The vector at 0xFFFA lies outside this backing storage, so servicing
    // the line pushes state and then reports the fatal access.
    assert_eq!(cpu.execute(), Err(Fault::OutOfRangeAccess));
    assert_eq!(cpu.sp(), 0xFC);
    assert!(cpu.flag(Flag::IrqDisable));
}

#[test]
fn irq_line_masked_by_irq_disable() {
    let mut cpu: Cpu = Cpu::new();
    cpu.set_irq(true);
    cpu.set_flag(Flag::IrqDisable, true);
    load(&mut cpu, 0x0000, &[0xEA]);
    assert_eq!(cpu.execute(), Ok(2));
    assert_eq!(cpu.pc(), 0x0001);
}

#[test]
fn flag_instructions_move_one_flag() {
    let mut cpu: Cpu = Cpu::new();
    load(&mut cpu, 0x0000, &[0x38, 0xF8, 0x18, 0xD8]);
    assert_eq!(cpu.execute(), Ok(2));
    assert!(cpu.flag(Flag::Carry));
    assert_eq!(cpu.execute(), Ok(2));
    assert!(cpu.flag(Flag::Decimal));
    assert!(cpu.flag(Flag::Carry));
    assert_eq!(cpu.execute(), Ok(2));
    assert!(!cpu.flag(Flag::Carry));
    assert_eq!(cpu.execute(), Ok(2));
    assert!(!cpu.flag(Flag::Decimal));
}

#[test]
fn decimal_flag_has_no_arithmetic_effect() {
    let mut cpu: Cpu = Cpu::new();
    cpu.set_a(0x09);
    cpu.set_flag(Flag::Decimal, true);
    load(&mut cpu, 0x0000, &[0x69, 0x01]);
    assert_eq!(cpu.execute(), Ok(2));
    assert_eq!(cpu.a(), 0x0A);
}

#[test]
fn reset_reports_missing_vector() {
    let mut cpu: Cpu = Cpu::new();
    cpu.set_a(0x05);
    // The reset vector at 0xFFFC lies outside this backing storage.
    assert_eq!(cpu.reset(), Err(Fault::OutOfRangeAccess));
    assert_eq!(cpu.a(), 0x05);
}

#[test]
fn new_cpu_is_cleared() {
    let cpu: Cpu = Cpu::new();
    assert_eq!(cpu.a(), 0);
    assert_eq!(cpu.x(), 0);
    assert_eq!(cpu.y(), 0);
    assert_eq!(cpu.sp(), 0);
    assert_eq!(cpu.pc(), 0);
    assert_eq!(cpu.status().as_byte(), 0x20);
    assert_eq!(cpu.read_mem(0x0000), Ok(0));
}

#[test]
fn indexed_indirect_wraps_pointer_in_zero_page() {
    let mut cpu: Cpu = Cpu::new();
    cpu.set_x(0x04);
    cpu.write_mem(0x00FF, 0x34).unwrap();
    cpu.write_mem(0x0000, 0x12).unwrap();
    cpu.set_pc(0x0020);
    cpu.write_mem(0x0020, 0xFB).unwrap();
    // Pointer 0xFB + X = 0xFF; its high byte wraps to 0x00.
    assert_eq!(
        cpu.get_operand_address(AddressingMode::IZX),
        Ok((0x1234, false))
    );
}

#[test]
fn lda_zero_page_x_wraps_through_execute() {
    let mut cpu: Cpu = Cpu::new();
    cpu.set_x(0x02);
    cpu.write_mem(0x0001, 0x5A).unwrap();
    cpu.set_pc(0x0010);
    load(&mut cpu, 0x0010, &[0xB5, 0xFF]);
    assert_eq!(cpu.execute(), Ok(4));
    assert_eq!(cpu.a(), 0x5A);
}

#[test]
fn ldx_uses_zero_page_y() {
    let mut cpu: Cpu = Cpu::new();
    cpu.set_y(0x01);
    cpu.write_mem(0x0011, 0x99).unwrap();
    load(&mut cpu, 0x0000, &[0xB6, 0x10]);
    assert_eq!(cpu.execute(), Ok(4));
    assert_eq!(cpu.x(), 0x99);
}

#[test]
fn cpx_cpy_compare_index_registers() {
    let mut cpu: Cpu = Cpu::new();
    cpu.set_x(0x05);
    cpu.set_y(0x01);
    load(&mut cpu, 0x0000, &[0xE0, 0x05, 0xC0, 0x02]);
    assert_eq!(cpu.execute(), Ok(2));
    assert!(cpu.flag(Flag::Carry));
    assert!(cpu.flag(Flag::Zero));
    assert_eq!(cpu.execute(), Ok(2));
    assert!(!cpu.flag(Flag::Carry));
    assert!(cpu.flag(Flag::Negative));
}
