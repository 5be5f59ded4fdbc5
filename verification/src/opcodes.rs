//! The opcode decode table: every one of the 256 opcode slots resolves to
//! an addressing mode, and the instruction length follows from the mode.
//! Unofficial opcodes are mapped like the official ones; slots without an
//! operand (implied and accumulator forms, among them the KIL family and
//! the single-byte NOPs) resolve to `NoneAddressing`.

use vstd::prelude::*;

verus! {

/// The rule for turning the operand byte(s) after the opcode into an
/// effective address. `NoneAddressing` covers the implied and accumulator
/// forms, which have no operand.
#[allow(non_camel_case_types)]
#[derive(Clone, Copy, PartialEq, Eq, Structural, Debug)]
pub enum AddressingMode {
    Immediate,
    ZeroPage,
    ZeroPage_X,
    ZeroPage_Y,
    Absolute,
    Absolute_X,
    Absolute_Y,
    Indirect,
    Indirect_X,
    Indirect_Y,
    Relative,
    NoneAddressing,
}

/// Instruction length in bytes, opcode included, as a function of the
/// addressing mode alone.
pub open spec fn spec_mode_len(m: AddressingMode) -> u8 {
    match m {
        AddressingMode::Immediate => 2,
        AddressingMode::ZeroPage => 2,
        AddressingMode::ZeroPage_X => 2,
        AddressingMode::ZeroPage_Y => 2,
        AddressingMode::Absolute => 3,
        AddressingMode::Absolute_X => 3,
        AddressingMode::Absolute_Y => 3,
        AddressingMode::Indirect => 3,
        AddressingMode::Indirect_X => 2,
        AddressingMode::Indirect_Y => 2,
        AddressingMode::Relative => 2,
        AddressingMode::NoneAddressing => 1,
    }
}

/// The decode table: the addressing mode of every opcode.
pub open spec fn spec_opcode_mode(op: u8) -> AddressingMode {
    match op {
        0x69 | 0x29 | 0xc9 | 0xe0 | 0xc0 | 0x49 | 0xa9 | 0xa2 | 0xa0 | 0x09 | 0xe9 | 0x0b
            | 0x2b | 0x6b | 0x4b | 0xab | 0x8b | 0xcb | 0xeb | 0x80 | 0x82 | 0x89 | 0xc2
            | 0xe2 => AddressingMode::Immediate,
        0x65 | 0x25 | 0x06 | 0x24 | 0xc5 | 0xe4 | 0xc4 | 0xc6 | 0x45 | 0xe6 | 0xa5 | 0xa6
            | 0xa4 | 0x46 | 0x05 | 0x26 | 0x66 | 0xe5 | 0x85 | 0x86 | 0x84 | 0x87 | 0xc7
            | 0x04 | 0x44 | 0x64 | 0xe7 | 0xa7 | 0x27 | 0x67 | 0x07 | 0x47 => AddressingMode::ZeroPage,
        0x75 | 0x35 | 0x16 | 0xd5 | 0xd6 | 0x55 | 0xf6 | 0xb5 | 0xb4 | 0x56 | 0x15 | 0x36
            | 0x76 | 0xf5 | 0x95 | 0x94 | 0xd7 | 0x14 | 0x34 | 0x54 | 0x74 | 0xd4 | 0xf4
            | 0xf7 | 0x37 | 0x77 | 0x17 | 0x57 => AddressingMode::ZeroPage_X,
        0xb6 | 0x96 | 0x97 | 0xb7 => AddressingMode::ZeroPage_Y,
        0x6d | 0x2d | 0x0e | 0x2c | 0xcd | 0xec | 0xcc | 0xce | 0x4d | 0xee | 0xad | 0xae
            | 0xac | 0x4e | 0x0d | 0x2e | 0x6e | 0xed | 0x8d | 0x8e | 0x8c | 0x4c | 0x20
            | 0x8f | 0xcf | 0x0c | 0xef | 0xaf | 0x2f | 0x6f | 0x0f | 0x4f => AddressingMode::Absolute,
        0x7d | 0x3d | 0x1e | 0xdd | 0xde | 0x5d | 0xfe | 0xbd | 0xbc | 0x5e | 0x1d | 0x3e
            | 0x7e | 0xfd | 0x9d | 0xdf | 0xff | 0x3f | 0x7f | 0x1f | 0x5f | 0x1c | 0x3c
            | 0x5c | 0x7c | 0xdc | 0xfc | 0x9c => AddressingMode::Absolute_X,
        0x79 | 0x39 | 0xd9 | 0x59 | 0xb9 | 0xbe | 0x19 | 0xf9 | 0x99 | 0xdb | 0xfb | 0xbf
            | 0xbb | 0x3b | 0x7b | 0x1b | 0x5b | 0x9f | 0x9e | 0x9b => AddressingMode::Absolute_Y,
        0x6c => AddressingMode::Indirect,
        0x61 | 0x21 | 0xc1 | 0x41 | 0xa1 | 0x01 | 0xe1 | 0x81 | 0x83 | 0xc3 | 0xe3 | 0xa3
            | 0x23 | 0x63 | 0x03 | 0x43 => AddressingMode::Indirect_X,
        0x71 | 0x31 | 0xd1 | 0x51 | 0xb1 | 0x11 | 0xf1 | 0x91 | 0xd3 | 0xf3 | 0xb3 | 0x33
            | 0x73 | 0x13 | 0x53 | 0x93 => AddressingMode::Indirect_Y,
        0x90 | 0xb0 | 0x10 | 0x30 | 0x50 | 0x70 | 0xd0 | 0xf0 => AddressingMode::Relative,
        _ => AddressingMode::NoneAddressing,
    }
}

/// Looks an opcode up in the decode table.
pub fn opcode_mode(op: u8) -> (m: AddressingMode)
    ensures
        m == spec_opcode_mode(op),
{
    match op {
        0x69 | 0x29 | 0xc9 | 0xe0 | 0xc0 | 0x49 | 0xa9 | 0xa2 | 0xa0 | 0x09 | 0xe9 | 0x0b
            | 0x2b | 0x6b | 0x4b | 0xab | 0x8b | 0xcb | 0xeb | 0x80 | 0x82 | 0x89 | 0xc2
            | 0xe2 => AddressingMode::Immediate,
        0x65 | 0x25 | 0x06 | 0x24 | 0xc5 | 0xe4 | 0xc4 | 0xc6 | 0x45 | 0xe6 | 0xa5 | 0xa6
            | 0xa4 | 0x46 | 0x05 | 0x26 | 0x66 | 0xe5 | 0x85 | 0x86 | 0x84 | 0x87 | 0xc7
            | 0x04 | 0x44 | 0x64 | 0xe7 | 0xa7 | 0x27 | 0x67 | 0x07 | 0x47 => AddressingMode::ZeroPage,
        0x75 | 0x35 | 0x16 | 0xd5 | 0xd6 | 0x55 | 0xf6 | 0xb5 | 0xb4 | 0x56 | 0x15 | 0x36
            | 0x76 | 0xf5 | 0x95 | 0x94 | 0xd7 | 0x14 | 0x34 | 0x54 | 0x74 | 0xd4 | 0xf4
            | 0xf7 | 0x37 | 0x77 | 0x17 | 0x57 => AddressingMode::ZeroPage_X,
        0xb6 | 0x96 | 0x97 | 0xb7 => AddressingMode::ZeroPage_Y,
        0x6d | 0x2d | 0x0e | 0x2c | 0xcd | 0xec | 0xcc | 0xce | 0x4d | 0xee | 0xad | 0xae
            | 0xac | 0x4e | 0x0d | 0x2e | 0x6e | 0xed | 0x8d | 0x8e | 0x8c | 0x4c | 0x20
            | 0x8f | 0xcf | 0x0c | 0xef | 0xaf | 0x2f | 0x6f | 0x0f | 0x4f => AddressingMode::Absolute,
        0x7d | 0x3d | 0x1e | 0xdd | 0xde | 0x5d | 0xfe | 0xbd | 0xbc | 0x5e | 0x1d | 0x3e
            | 0x7e | 0xfd | 0x9d | 0xdf | 0xff | 0x3f | 0x7f | 0x1f | 0x5f | 0x1c | 0x3c
            | 0x5c | 0x7c | 0xdc | 0xfc | 0x9c => AddressingMode::Absolute_X,
        0x79 | 0x39 | 0xd9 | 0x59 | 0xb9 | 0xbe | 0x19 | 0xf9 | 0x99 | 0xdb | 0xfb | 0xbf
            | 0xbb | 0x3b | 0x7b | 0x1b | 0x5b | 0x9f | 0x9e | 0x9b => AddressingMode::Absolute_Y,
        0x6c => AddressingMode::Indirect,
        0x61 | 0x21 | 0xc1 | 0x41 | 0xa1 | 0x01 | 0xe1 | 0x81 | 0x83 | 0xc3 | 0xe3 | 0xa3
            | 0x23 | 0x63 | 0x03 | 0x43 => AddressingMode::Indirect_X,
        0x71 | 0x31 | 0xd1 | 0x51 | 0xb1 | 0x11 | 0xf1 | 0x91 | 0xd3 | 0xf3 | 0xb3 | 0x33
            | 0x73 | 0x13 | 0x53 | 0x93 => AddressingMode::Indirect_Y,
        0x90 | 0xb0 | 0x10 | 0x30 | 0x50 | 0x70 | 0xd0 | 0xf0 => AddressingMode::Relative,
        _ => AddressingMode::NoneAddressing,
    }
}

/// Instruction length in bytes for an addressing mode.
pub fn mode_len(m: AddressingMode) -> (n: u8)
    ensures
        n == spec_mode_len(m),
        1 <= n <= 3,
{
    match m {
        AddressingMode::Immediate => 2,
        AddressingMode::ZeroPage => 2,
        AddressingMode::ZeroPage_X => 2,
        AddressingMode::ZeroPage_Y => 2,
        AddressingMode::Absolute => 3,
        AddressingMode::Absolute_X => 3,
        AddressingMode::Absolute_Y => 3,
        AddressingMode::Indirect => 3,
        AddressingMode::Indirect_X => 2,
        AddressingMode::Indirect_Y => 2,
        AddressingMode::Relative => 2,
        AddressingMode::NoneAddressing => 1,
    }
}

/// Instruction length in bytes for an opcode.
pub fn opcode_len(op: u8) -> (n: u8)
    ensures
        n == spec_mode_len(spec_opcode_mode(op)),
        1 <= n <= 3,
{
    mode_len(opcode_mode(op))
}

/// The decode table is total: every opcode in 0..=255 resolves to an
/// entry whose length is 1, 2 or 3 bytes.
pub proof fn lemma_opcode_table_total()
    ensures
        forall|op: u8| 1 <= #[trigger] spec_mode_len(spec_opcode_mode(op)) <= 3,
{
    assert forall|op: u8| 1 <= #[trigger] spec_mode_len(spec_opcode_mode(op)) <= 3 by {
        let m = spec_opcode_mode(op);
        assert(1 <= spec_mode_len(m) <= 3);
    };
}

} // verus!
