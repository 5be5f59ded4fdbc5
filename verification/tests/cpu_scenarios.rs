use nes_core::bus::Bus;
use nes_core::cartridge::Cartridge;
use nes_core::cpu::CPU;
use nes_core::cpu::FLAG_CARRY;
use nes_core::cpu::FLAG_NEGATIVE;
use nes_core::cpu::FLAG_ZERO;
use nes_core::cpu::PROGRAM_START;
use nes_core::cpu::STACK_RESET;

/// A CPU over a bus with an all-zero 16 KiB cartridge.
fn test_cpu() -> CPU {
    let mut raw = vec![0x4e, 0x45, 0x53, 0x1a, 0x01, 0x01, 0x00, 0x00];
    raw.extend(vec![0u8; 8]);
    raw.extend(vec![0u8; 16384]);
    raw.extend(vec![0u8; 8192]);
    CPU::new(Bus::new(Cartridge::from_ines(&raw).unwrap()))
}

#[test]
fn lda_immediate_loads_data() {
    let mut cpu = test_cpu();
    cpu.load_and_run(vec![0xa9, 0x05, 0x00]);
    assert_eq!(cpu.register_a, 0x05);
    assert_eq!(cpu.status & FLAG_ZERO, 0);
    assert_eq!(cpu.status & FLAG_NEGATIVE, 0);
}

#[test]
fn lda_zero_sets_zero_flag() {
    let mut cpu = test_cpu();
    cpu.load_and_run(vec![0xa9, 0x00, 0x00]);
    assert_ne!(cpu.status & FLAG_ZERO, 0);
    assert_eq!(cpu.status & FLAG_NEGATIVE, 0);
}

#[test]
fn tax_moves_a_to_x() {
    let mut cpu = test_cpu();
    cpu.load(vec![0xaa, 0x00]);
    cpu.reset();
    cpu.register_a = 10;
    cpu.program_counter = PROGRAM_START;
    cpu.run();
    assert_eq!(cpu.register_x, 10);
}

#[test]
fn inx_overflows() {
    let mut cpu = test_cpu();
    cpu.load(vec![0xe8, 0xe8, 0x00]);
    cpu.reset();
    cpu.register_x = 0xff;
    cpu.program_counter = PROGRAM_START;
    cpu.run();
    assert_eq!(cpu.register_x, 0x01);
    assert_eq!(cpu.status & FLAG_ZERO, 0);
}

#[test]
fn five_ops_work_together() {
    let mut cpu = test_cpu();
    cpu.load_and_run(vec![0xa9, 0xc0, 0xaa, 0xe8, 0x00]);
    assert_eq!(cpu.register_x, 0xc1);
}

#[test]
fn lda_from_memory() {
    let mut cpu = test_cpu();
    cpu.mem_write(0x10, 0x55);
    cpu.load_and_run(vec![0xa5, 0x10, 0x00]);
    assert_eq!(cpu.register_a, 0x55);
}

#[test]
fn jmp_indirect_page_boundary_bug() {
    // A pointer ending in 0xFF takes its high byte from the start of
    // the same page: with the pointer cells in RAM, the target is
    // 0x5080, not 0x0080.
    let mut cpu = test_cpu();
    cpu.mem_write(0x10ff, 0x80);
    cpu.mem_write(0x1000, 0x50);
    cpu.mem_write(0x1100, 0x00);
    cpu.load(vec![0x6c, 0xff, 0x10]);
    cpu.reset();
    cpu.program_counter = PROGRAM_START;
    cpu.step();
    assert_eq!(cpu.program_counter, 0x5080);
}

#[test]
fn jmp_indirect_without_page_boundary() {
    let mut cpu = test_cpu();
    cpu.mem_write(0x10fe, 0x80);
    cpu.mem_write(0x10ff, 0x50);
    cpu.load(vec![0x6c, 0xfe, 0x10]);
    cpu.reset();
    cpu.program_counter = PROGRAM_START;
    cpu.step();
    assert_eq!(cpu.program_counter, 0x5080);
}

#[test]
fn adc_sbc_duality_on_concrete_values() {
    // ADC of 0x25 and SBC of its complement leave identical A and P.
    let mut adc_cpu = test_cpu();
    adc_cpu.load(vec![0xa9, 0x40, 0x38, 0x69, 0x25, 0x00]);
    adc_cpu.reset();
    adc_cpu.program_counter = PROGRAM_START;
    adc_cpu.run();
    let mut sbc_cpu = test_cpu();
    sbc_cpu.load(vec![0xa9, 0x40, 0x38, 0xe9, 0xda, 0x00]);
    sbc_cpu.reset();
    sbc_cpu.program_counter = PROGRAM_START;
    sbc_cpu.run();
    assert_eq!(adc_cpu.register_a, 0x66);
    assert_eq!(sbc_cpu.register_a, adc_cpu.register_a);
    assert_eq!(sbc_cpu.status, adc_cpu.status);
}

#[test]
fn adc_sets_carry_and_overflow() {
    let mut cpu = test_cpu();
    // 0x7F + 0x01: signed overflow, no carry.
    cpu.load_and_run(vec![0xa9, 0x7f, 0x69, 0x01, 0x00]);
    assert_eq!(cpu.register_a, 0x80);
    assert_eq!(cpu.status & FLAG_CARRY, 0);
    assert_ne!(cpu.status & 0x40, 0);
    assert_ne!(cpu.status & FLAG_NEGATIVE, 0);
    // 0xFF + 0x01: carry out, no signed overflow.
    let mut cpu2 = test_cpu();
    cpu2.load_and_run(vec![0xa9, 0xff, 0x69, 0x01, 0x00]);
    assert_eq!(cpu2.register_a, 0x00);
    assert_ne!(cpu2.status & FLAG_CARRY, 0);
    assert_eq!(cpu2.status & 0x40, 0);
    assert_ne!(cpu2.status & FLAG_ZERO, 0);
}

#[test]
fn stack_push_pop_balances() {
    let mut cpu = test_cpu();
    let sp0 = cpu.stack_ptr;
    cpu.stack_push(0x42);
    cpu.stack_push(0x43);
    assert_eq!(cpu.stack_pop(), 0x43);
    assert_eq!(cpu.stack_pop(), 0x42);
    assert_eq!(cpu.stack_ptr, sp0);
}

#[test]
fn pha_pla_round_trip() {
    let mut cpu = test_cpu();
    cpu.load(vec![0x48, 0xa9, 0x00, 0x68, 0x00]);
    cpu.reset();
    cpu.register_a = 0x3c;
    cpu.program_counter = PROGRAM_START;
    cpu.run();
    assert_eq!(cpu.register_a, 0x3c);
    assert_eq!(cpu.stack_ptr, STACK_RESET.wrapping_sub(3));
}

#[test]
fn jsr_and_rts() {
    // JSR to a routine that loads X and returns; BRK follows the call.
    let mut cpu = test_cpu();
    cpu.load_and_run(vec![0x20, 0x06, 0x06, 0xa9, 0x01, 0x00, 0xa2, 0x05, 0x60]);
    assert_eq!(cpu.register_x, 0x05);
    assert_eq!(cpu.register_a, 0x01);
}

#[test]
fn branch_taken_skips_a_byte() {
    // LDA #1 clears Z, BNE +1 hops over the first BRK.
    let mut cpu = test_cpu();
    cpu.load_and_run(vec![0xa9, 0x01, 0xd0, 0x01, 0x00, 0xa9, 0x07, 0x00]);
    assert_eq!(cpu.register_a, 0x07);
}

#[test]
fn branch_not_taken_falls_through() {
    let mut cpu = test_cpu();
    cpu.load_and_run(vec![0xa9, 0x00, 0xd0, 0x02, 0xa9, 0x07, 0x00]);
    assert_eq!(cpu.register_a, 0x07);
}

#[test]
fn backward_branch_loops() {
    // Count X down from 3 to 0 with DEX; BNE -3 loops back to the DEX.
    let mut cpu = test_cpu();
    cpu.load(vec![0xca, 0xd0, 0xfd, 0x00]);
    cpu.reset();
    cpu.register_x = 3;
    cpu.program_counter = PROGRAM_START;
    cpu.run();
    assert_eq!(cpu.register_x, 0);
}

#[test]
fn store_to_rom_halts() {
    let mut cpu = test_cpu();
    cpu.load_and_run(vec![0xa9, 0x01, 0x8d, 0x00, 0x80, 0x00]);
    assert!(cpu.halted);
    assert_eq!(cpu.mem_read(0x8000), 0);
}

#[test]
fn kil_halts() {
    let mut cpu = test_cpu();
    cpu.load_and_run(vec![0x02]);
    assert!(cpu.halted);
}

#[test]
fn reset_reads_vector_and_clears_registers() {
    let mut raw = vec![0x4e, 0x45, 0x53, 0x1a, 0x01, 0x01, 0x00, 0x00];
    raw.extend(vec![0u8; 8]);
    let mut prg = vec![0u8; 16384];
    prg[0x3ffc] = 0x34;
    prg[0x3ffd] = 0x12;
    raw.extend(prg);
    raw.extend(vec![0u8; 8192]);
    let mut cpu = CPU::new(Bus::new(Cartridge::from_ines(&raw).unwrap()));
    cpu.register_a = 9;
    cpu.reset();
    assert_eq!(cpu.program_counter, 0x1234);
    assert_eq!(cpu.register_a, 0);
    assert_eq!(cpu.stack_ptr, STACK_RESET);
    assert_eq!(cpu.status, 0x24);
}

#[test]
fn compare_sets_carry_and_zero() {
    // CMP #5 with A = 5: carry and zero set.
    let mut cpu = test_cpu();
    cpu.load_and_run(vec![0xa9, 0x05, 0xc9, 0x05, 0x00]);
    assert_ne!(cpu.status & FLAG_CARRY, 0);
    assert_ne!(cpu.status & FLAG_ZERO, 0);
    // CMP #6 with A = 5: neither.
    let mut cpu2 = test_cpu();
    cpu2.load_and_run(vec![0xa9, 0x05, 0xc9, 0x06, 0x00]);
    assert_eq!(cpu2.status & FLAG_CARRY, 0);
    assert_eq!(cpu2.status & FLAG_ZERO, 0);
}

#[test]
fn asl_shifts_into_carry() {
    let mut cpu = test_cpu();
    cpu.load_and_run(vec![0xa9, 0x81, 0x0a, 0x00]);
    assert_eq!(cpu.register_a, 0x02);
    assert_ne!(cpu.status & FLAG_CARRY, 0);
}

#[test]
fn ror_rotates_carry_into_bit_7() {
    // SEC, then ROR A of 0x02: carry enters bit 7, bit 0 leaves clear.
    let mut cpu = test_cpu();
    cpu.load_and_run(vec![0xa9, 0x02, 0x38, 0x6a, 0x00]);
    assert_eq!(cpu.register_a, 0x81);
    assert_eq!(cpu.status & FLAG_CARRY, 0);
}

#[test]
fn inc_and_dec_memory() {
    let mut cpu = test_cpu();
    cpu.mem_write(0x20, 0x41);
    cpu.load_and_run(vec![0xe6, 0x20, 0xe6, 0x20, 0xc6, 0x21, 0x00]);
    assert_eq!(cpu.mem_read(0x20), 0x43);
    assert_eq!(cpu.mem_read(0x21), 0xff);
}

#[test]
fn lax_loads_a_and_x() {
    let mut cpu = test_cpu();
    cpu.mem_write(0x10, 0x5a);
    cpu.load_and_run(vec![0xa7, 0x10, 0x00]);
    assert_eq!(cpu.register_a, 0x5a);
    assert_eq!(cpu.register_x, 0x5a);
}

#[test]
fn sax_stores_a_and_x() {
    let mut cpu = test_cpu();
    cpu.load(vec![0x87, 0x10, 0x00]);
    cpu.reset();
    cpu.register_a = 0xf0;
    cpu.register_x = 0x3c;
    cpu.program_counter = PROGRAM_START;
    cpu.run();
    assert_eq!(cpu.mem_read(0x10), 0x30);
}

#[test]
fn dcp_decrements_then_compares() {
    let mut cpu = test_cpu();
    cpu.mem_write(0x10, 0x06);
    cpu.load(vec![0xc7, 0x10, 0x00]);
    cpu.reset();
    cpu.register_a = 0x05;
    cpu.program_counter = PROGRAM_START;
    cpu.run();
    assert_eq!(cpu.mem_read(0x10), 0x05);
    assert_ne!(cpu.status & FLAG_CARRY, 0);
    assert_ne!(cpu.status & FLAG_ZERO, 0);
}

#[test]
fn isc_increments_then_subtracts() {
    // A = 5, memory 2; INC makes 3; SBC with carry set gives 2.
    let mut cpu = test_cpu();
    cpu.mem_write(0x10, 0x02);
    cpu.load(vec![0x38, 0xe7, 0x10, 0x00]);
    cpu.reset();
    cpu.register_a = 0x05;
    cpu.program_counter = PROGRAM_START;
    cpu.run();
    assert_eq!(cpu.mem_read(0x10), 0x03);
    assert_eq!(cpu.register_a, 0x02);
}

#[test]
fn slo_shifts_then_ors() {
    let mut cpu = test_cpu();
    cpu.mem_write(0x10, 0x40);
    cpu.load(vec![0x07, 0x10, 0x00]);
    cpu.reset();
    cpu.register_a = 0x01;
    cpu.program_counter = PROGRAM_START;
    cpu.run();
    assert_eq!(cpu.mem_read(0x10), 0x80);
    assert_eq!(cpu.register_a, 0x81);
}

#[test]
fn anc_copies_negative_into_carry() {
    let mut cpu = test_cpu();
    cpu.load(vec![0x0b, 0xff, 0x00]);
    cpu.reset();
    cpu.register_a = 0x80;
    cpu.program_counter = PROGRAM_START;
    cpu.run();
    assert_eq!(cpu.register_a, 0x80);
    assert_ne!(cpu.status & FLAG_CARRY, 0);
    assert_ne!(cpu.status & FLAG_NEGATIVE, 0);
}

#[test]
fn axs_subtracts_from_a_and_x() {
    let mut cpu = test_cpu();
    cpu.load(vec![0xcb, 0x02, 0x00]);
    cpu.reset();
    cpu.register_a = 0x0f;
    cpu.register_x = 0x0b;
    cpu.program_counter = PROGRAM_START;
    cpu.run();
    // (0x0F & 0x0B) - 2 == 0x09, and 2 <= 0x0B sets carry.
    assert_eq!(cpu.register_x, 0x09);
    assert_ne!(cpu.status & FLAG_CARRY, 0);
}

#[test]
fn brk_pushes_state_and_halts() {
    let mut cpu = test_cpu();
    cpu.load_and_run(vec![0x00]);
    assert!(cpu.halted);
    assert_eq!(cpu.stack_ptr, STACK_RESET.wrapping_sub(3));
    // Pushed return address is PC+1 past the opcode: 0x0602.
    assert_eq!(cpu.mem_read(0x0100 + STACK_RESET as u16), 0x06);
    assert_eq!(cpu.mem_read(0x0100 + STACK_RESET as u16 - 1), 0x02);
}

#[test]
fn run_for_stops_at_the_fuel_bound() {
    // An infinite loop: JMP to itself. One step of fuel runs one
    // instruction and reports that the CPU has not halted.
    let mut cpu = test_cpu();
    cpu.load(vec![0x4c, 0x00, 0x06]);
    cpu.reset();
    cpu.program_counter = PROGRAM_START;
    assert!(!cpu.run_for(1));
    assert_eq!(cpu.program_counter, PROGRAM_START);
    assert!(!cpu.halted);
}

#[test]
fn run_for_reports_the_halt() {
    let mut cpu = test_cpu();
    cpu.load(vec![0x00]);
    cpu.reset();
    cpu.program_counter = PROGRAM_START;
    assert!(cpu.run_for(10));
    assert!(cpu.halted);
}
