use nes_core::opcodes::mode_len;
use nes_core::opcodes::opcode_len;
use nes_core::opcodes::opcode_mode;
use nes_core::opcodes::AddressingMode;

#[test]
fn every_opcode_has_a_length_between_1_and_3() {
    let mut op: u16 = 0;
    while op <= 0xff {
        let len = opcode_len(op as u8);
        assert!(1 <= len && len <= 3, "opcode {:#04x} has length {}", op, len);
        op += 1;
    }
}

#[test]
fn known_opcode_lengths() {
    assert_eq!(opcode_len(0xa9), 2);
    assert_eq!(opcode_len(0xad), 3);
    assert_eq!(opcode_len(0xea), 1);
    assert_eq!(opcode_len(0x6c), 3);
    assert_eq!(opcode_len(0x20), 3);
    assert_eq!(opcode_len(0x90), 2);
    assert_eq!(opcode_len(0x00), 1);
    assert_eq!(opcode_len(0x91), 2);
    assert_eq!(opcode_len(0x9e), 3);
}

#[test]
fn known_opcode_modes() {
    assert!(matches!(opcode_mode(0xa9), AddressingMode::Immediate));
    assert!(matches!(opcode_mode(0xa5), AddressingMode::ZeroPage));
    assert!(matches!(opcode_mode(0xb5), AddressingMode::ZeroPage_X));
    assert!(matches!(opcode_mode(0xb6), AddressingMode::ZeroPage_Y));
    assert!(matches!(opcode_mode(0xad), AddressingMode::Absolute));
    assert!(matches!(opcode_mode(0xbd), AddressingMode::Absolute_X));
    assert!(matches!(opcode_mode(0xb9), AddressingMode::Absolute_Y));
    assert!(matches!(opcode_mode(0x6c), AddressingMode::Indirect));
    assert!(matches!(opcode_mode(0xa1), AddressingMode::Indirect_X));
    assert!(matches!(opcode_mode(0xb1), AddressingMode::Indirect_Y));
    assert!(matches!(opcode_mode(0xd0), AddressingMode::Relative));
    assert!(matches!(opcode_mode(0xaa), AddressingMode::NoneAddressing));
}

#[test]
fn mode_lengths_follow_operand_width() {
    assert_eq!(mode_len(AddressingMode::Immediate), 2);
    assert_eq!(mode_len(AddressingMode::ZeroPage), 2);
    assert_eq!(mode_len(AddressingMode::Absolute), 3);
    assert_eq!(mode_len(AddressingMode::Indirect), 3);
    assert_eq!(mode_len(AddressingMode::Relative), 2);
    assert_eq!(mode_len(AddressingMode::NoneAddressing), 1);
}
