use nes_core::bus::Bus;
use nes_core::cartridge::Cartridge;
use nes_core::cpu::CPU;
use nes_core::cpu::FLAG_BREAK;
use nes_core::cpu::FLAG_CARRY;
use nes_core::cpu::FLAG_NEGATIVE;
use nes_core::cpu::FLAG_OVERFLOW;
use nes_core::cpu::FLAG_UNUSED;
use nes_core::cpu::FLAG_ZERO;
use nes_core::cpu::PROGRAM_START;

fn test_cpu() -> CPU {
    let mut raw = vec![0x4e, 0x45, 0x53, 0x1a, 0x01, 0x01, 0x00, 0x00];
    raw.extend(vec![0u8; 8]);
    raw.extend(vec![0u8; 16384]);
    raw.extend(vec![0u8; 8192]);
    CPU::new(Bus::new(Cartridge::from_ines(&raw).unwrap()))
}

/// Loads a program, resets, lets the caller preload registers or
/// memory through the closure, and runs to the halt.
fn run_with_setup(program: Vec<u8>, setup: impl FnOnce(&mut CPU)) -> CPU {
    let mut cpu = test_cpu();
    cpu.load(program);
    cpu.reset();
    setup(&mut cpu);
    cpu.program_counter = PROGRAM_START;
    cpu.run();
    cpu
}

#[test]
fn zero_page_x_wraps_within_the_page() {
    // LDA $80,X with X = 0x90 reads 0x10, not 0x110.
    let cpu = run_with_setup(vec![0xb5, 0x80, 0x00], |c| {
        c.mem_write(0x10, 0x2a);
        c.register_x = 0x90;
    });
    assert_eq!(cpu.register_a, 0x2a);
}

#[test]
fn absolute_x_indexes_past_the_base() {
    let cpu = run_with_setup(vec![0xbd, 0x00, 0x07, 0x00], |c| {
        c.mem_write(0x0705, 0x61);
        c.register_x = 0x05;
    });
    assert_eq!(cpu.register_a, 0x61);
}

#[test]
fn indirect_x_reads_pointer_from_zero_page() {
    // Pointer at (0x20 + X) in the zero page leads to 0x0705.
    let cpu = run_with_setup(vec![0xa1, 0x20, 0x00], |c| {
        c.register_x = 0x04;
        c.mem_write(0x24, 0x05);
        c.mem_write(0x25, 0x07);
        c.mem_write(0x0705, 0x33);
    });
    assert_eq!(cpu.register_a, 0x33);
}

#[test]
fn indirect_x_pointer_wraps_in_zero_page() {
    // Pointer cell 0xFF: the high byte comes from 0x00, not 0x100.
    let cpu = run_with_setup(vec![0xa1, 0xff, 0x00], |c| {
        c.register_x = 0x00;
        c.mem_write(0xff, 0x05);
        c.mem_write(0x00, 0x07);
        c.mem_write(0x0705, 0x44);
    });
    assert_eq!(cpu.register_a, 0x44);
}

#[test]
fn indirect_y_adds_y_after_the_pointer() {
    let cpu = run_with_setup(vec![0xb1, 0x20, 0x00], |c| {
        c.register_y = 0x03;
        c.mem_write(0x20, 0x00);
        c.mem_write(0x21, 0x07);
        c.mem_write(0x0703, 0x55);
    });
    assert_eq!(cpu.register_a, 0x55);
}

#[test]
fn php_plp_round_trip_restores_carry() {
    // SEC, PHP, CLC, PLP: the carry set before the push is back after
    // the pull; Break is cleared and Unused set by the pull.
    let cpu = run_with_setup(vec![0x38, 0x08, 0x18, 0x28, 0x00], |_| {});
    assert_ne!(cpu.status & FLAG_CARRY, 0);
    assert_eq!(cpu.status & FLAG_BREAK, 0);
    assert_ne!(cpu.status & FLAG_UNUSED, 0);
}

#[test]
fn php_pushes_break_and_unused_set() {
    let mut cpu = test_cpu();
    cpu.load(vec![0x08, 0x00]);
    cpu.reset();
    let sp = cpu.stack_ptr;
    cpu.program_counter = PROGRAM_START;
    cpu.run();
    let pushed = cpu.mem_read(0x0100 + sp as u16);
    assert_ne!(pushed & FLAG_BREAK, 0);
    assert_ne!(pushed & FLAG_UNUSED, 0);
}

#[test]
fn rti_restores_status_and_jumps() {
    let mut cpu = test_cpu();
    cpu.load(vec![0x40]);
    cpu.reset();
    cpu.stack_push_u16(0x1234);
    cpu.stack_push(0xc3);
    cpu.program_counter = PROGRAM_START;
    cpu.step();
    assert_eq!(cpu.program_counter, 0x1234);
    // Break is cleared and Unused set on the way out of the stack.
    assert_eq!(cpu.status, (0xc3 & !FLAG_BREAK) | FLAG_UNUSED);
}

#[test]
fn tsx_reads_the_stack_pointer() {
    let cpu = run_with_setup(vec![0xba, 0x00], |_| {});
    assert_eq!(cpu.register_x, 0xfd);
}

#[test]
fn txs_writes_the_stack_pointer_without_flags() {
    let cpu = run_with_setup(vec![0x9a, 0x00], |c| {
        c.register_x = 0x50;
    });
    // TXS set S to 0x50; the closing BRK pushed three bytes.
    assert_eq!(cpu.stack_ptr, 0x4d);
    assert_eq!(cpu.status & FLAG_ZERO, 0);
}

#[test]
fn bit_reports_operand_bits() {
    let cpu = run_with_setup(vec![0x24, 0x10, 0x00], |c| {
        c.mem_write(0x10, 0xc0);
        c.register_a = 0x3f;
    });
    assert_ne!(cpu.status & FLAG_ZERO, 0);
    assert_ne!(cpu.status & FLAG_NEGATIVE, 0);
    assert_ne!(cpu.status & FLAG_OVERFLOW, 0);
}

#[test]
fn logic_ops_on_immediates() {
    let and = run_with_setup(vec![0x29, 0x0f, 0x00], |c| c.register_a = 0x5a);
    assert_eq!(and.register_a, 0x0a);
    let ora = run_with_setup(vec![0x09, 0x0f, 0x00], |c| c.register_a = 0x50);
    assert_eq!(ora.register_a, 0x5f);
    let eor = run_with_setup(vec![0x49, 0xff, 0x00], |c| c.register_a = 0x5a);
    assert_eq!(eor.register_a, 0xa5);
}

#[test]
fn ldy_sty_cpy_work() {
    let mut cpu = test_cpu();
    cpu.load_and_run(vec![0xa0, 0x21, 0x84, 0x10, 0xc0, 0x21, 0x00]);
    assert_eq!(cpu.mem_read(0x10), 0x21);
    assert_ne!(cpu.status & FLAG_ZERO, 0);
    assert_ne!(cpu.status & FLAG_CARRY, 0);
}

#[test]
fn cpx_clears_carry_when_greater() {
    let cpu = run_with_setup(vec![0xe0, 0x10, 0x00], |c| c.register_x = 0x0f);
    assert_eq!(cpu.status & FLAG_CARRY, 0);
}

#[test]
fn dop_skips_its_operand_byte() {
    let mut cpu = test_cpu();
    cpu.load_and_run(vec![0x04, 0x10, 0xa9, 0x07, 0x00]);
    assert_eq!(cpu.register_a, 0x07);
}

#[test]
fn top_skips_two_operand_bytes() {
    let mut cpu = test_cpu();
    cpu.load_and_run(vec![0x0c, 0x00, 0x02, 0xa9, 0x07, 0x00]);
    assert_eq!(cpu.register_a, 0x07);
}

#[test]
fn single_byte_nops_do_nothing() {
    let cpu = run_with_setup(vec![0x1a, 0x3a, 0xea, 0xa9, 0x06, 0x00], |_| {});
    assert_eq!(cpu.register_a, 0x06);
}

#[test]
fn sre_shifts_and_xors() {
    let cpu = run_with_setup(vec![0x47, 0x10, 0x00], |c| {
        c.mem_write(0x10, 0x02);
        c.register_a = 0x05;
    });
    assert_eq!(cpu.mem_read(0x10), 0x01);
    assert_eq!(cpu.register_a, 0x04);
}

#[test]
fn rla_rotates_and_ands() {
    // Carry set: 0x40 rotates to 0x81; A = 0x83 AND 0x81 = 0x81.
    let cpu = run_with_setup(vec![0x38, 0x27, 0x10, 0x00], |c| {
        c.mem_write(0x10, 0x40);
        c.register_a = 0x83;
    });
    assert_eq!(cpu.mem_read(0x10), 0x81);
    assert_eq!(cpu.register_a, 0x81);
}

#[test]
fn rra_rotates_then_adds() {
    // 0x02 rotates right to 0x01 (carry stays clear), then A += 1.
    let cpu = run_with_setup(vec![0x67, 0x10, 0x00], |c| {
        c.mem_write(0x10, 0x02);
        c.register_a = 0x05;
    });
    assert_eq!(cpu.mem_read(0x10), 0x01);
    assert_eq!(cpu.register_a, 0x06);
}

#[test]
fn arr_sets_carry_from_bit_6() {
    // A = 0x40 AND 0xFF; ROR with carry in gives 0xA0; bit 6 clear so
    // carry drops, bit 5 xor bit 6 is 1 so overflow raises.
    let cpu = run_with_setup(vec![0x38, 0x6b, 0xff, 0x00], |c| c.register_a = 0x40);
    assert_eq!(cpu.register_a, 0xa0);
    assert_eq!(cpu.status & FLAG_CARRY, 0);
    assert_ne!(cpu.status & FLAG_OVERFLOW, 0);
}

#[test]
fn alr_ands_then_shifts_right() {
    let cpu = run_with_setup(vec![0x4b, 0xff, 0x00], |c| c.register_a = 0x03);
    assert_eq!(cpu.register_a, 0x01);
    assert_ne!(cpu.status & FLAG_CARRY, 0);
}

#[test]
fn xaa_and_lxa_take_the_and() {
    let xaa = run_with_setup(vec![0x8b, 0x0f, 0x00], |c| c.register_a = 0x55);
    assert_eq!(xaa.register_a, 0x05);
    let lxa = run_with_setup(vec![0xab, 0x0f, 0x00], |c| c.register_a = 0x55);
    assert_eq!(lxa.register_a, 0x05);
    assert_eq!(lxa.register_x, 0x05);
}

#[test]
fn las_folds_the_stack_pointer_in() {
    let cpu = run_with_setup(vec![0xbb, 0x00, 0x07, 0x00], |c| {
        c.mem_write(0x0700, 0x0f);
    });
    // 0x0F & 0xFD == 0x0D lands in A, X and S; the closing BRK then
    // pushes three bytes, stepping S down to 0x0A.
    assert_eq!(cpu.register_a, 0x0d);
    assert_eq!(cpu.register_x, 0x0d);
    assert_eq!(cpu.stack_ptr, 0x0a);
}

#[test]
fn shx_stores_x_and_high_byte_plus_one() {
    let cpu = run_with_setup(vec![0x9e, 0x00, 0x07, 0x00], |c| {
        c.register_x = 0xff;
        c.register_y = 0x05;
    });
    // X & (0x07 + 1) == 0x08 at 0x0705.
    assert_eq!(cpu.mem_read(0x0705), 0x08);
}

#[test]
fn shy_stores_y_and_high_byte_plus_one() {
    let cpu = run_with_setup(vec![0x9c, 0x00, 0x07, 0x00], |c| {
        c.register_y = 0xff;
        c.register_x = 0x05;
    });
    assert_eq!(cpu.mem_read(0x0705), 0x08);
}

#[test]
fn sha_stores_a_and_x_and_high_byte_plus_one() {
    let cpu = run_with_setup(vec![0x9f, 0x00, 0x07, 0x00], |c| {
        c.register_a = 0xff;
        c.register_x = 0xff;
        c.register_y = 0x05;
    });
    assert_eq!(cpu.mem_read(0x0705), 0x08);
}

#[test]
fn tas_moves_a_and_x_into_the_stack_pointer() {
    let cpu = run_with_setup(vec![0x9b, 0x00, 0x07, 0x00], |c| {
        c.register_a = 0x0f;
        c.register_x = 0x0b;
        c.register_y = 0x05;
    });
    // TAS set S to 0x0B; the closing BRK pushed three bytes.
    assert_eq!(cpu.stack_ptr, 0x08);
    // S & (0x07 + 1) == 0x08 at 0x0705.
    assert_eq!(cpu.mem_read(0x0705), 0x08);
}

#[test]
fn transfers_update_zero_and_negative() {
    let tya = run_with_setup(vec![0x98, 0x00], |c| c.register_y = 0x80);
    assert_eq!(tya.register_a, 0x80);
    assert_ne!(tya.status & FLAG_NEGATIVE, 0);
    let tay = run_with_setup(vec![0xa8, 0x00], |c| c.register_a = 0x00);
    assert_eq!(tay.register_y, 0x00);
    assert_ne!(tay.status & FLAG_ZERO, 0);
}

#[test]
fn dey_and_iny_wrap() {
    let dey = run_with_setup(vec![0x88, 0x00], |c| c.register_y = 0x00);
    assert_eq!(dey.register_y, 0xff);
    let iny = run_with_setup(vec![0xc8, 0x00], |c| c.register_y = 0xff);
    assert_eq!(iny.register_y, 0x00);
    assert_ne!(iny.status & FLAG_ZERO, 0);
}

#[test]
fn flag_instructions_set_and_clear() {
    let cpu = run_with_setup(vec![0x38, 0xf8, 0x78, 0x00], |_| {});
    assert_ne!(cpu.status & FLAG_CARRY, 0);
    assert_ne!(cpu.status & 0x08, 0);
    let cleared = run_with_setup(vec![0x38, 0x18, 0xb8, 0xd8, 0x00], |_| {});
    assert_eq!(cleared.status & FLAG_CARRY, 0);
    assert_eq!(cleared.status & FLAG_OVERFLOW, 0);
    assert_eq!(cleared.status & 0x08, 0);
}

#[test]
fn lsr_memory_shifts_into_carry() {
    let cpu = run_with_setup(vec![0x46, 0x10, 0x00], |c| {
        c.mem_write(0x10, 0x03);
    });
    assert_eq!(cpu.mem_read(0x10), 0x01);
    assert_ne!(cpu.status & FLAG_CARRY, 0);
}

#[test]
fn rol_memory_takes_carry_in() {
    let cpu = run_with_setup(vec![0x38, 0x26, 0x10, 0x00], |c| {
        c.mem_write(0x10, 0x80);
    });
    assert_eq!(cpu.mem_read(0x10), 0x01);
    assert_ne!(cpu.status & FLAG_CARRY, 0);
}
