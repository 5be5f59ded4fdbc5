//! The MOS 6502 CPU: registers, status flags, the hardware stack, and a
//! fetch-decode-execute loop over the bus. Decimal mode is honoured as a
//! flag but has no arithmetic effect (the NES 6502 has BCD disabled).

use vstd::prelude::*;

use crate::bus::Bus;
use crate::bus::spec_read_at;
use crate::bus::spec_read16_at;
use crate::bus::spec_write_at;
use crate::opcodes::AddressingMode;
use crate::opcodes::mode_len;
use crate::opcodes::opcode_mode;
use crate::opcodes::spec_mode_len;
use crate::opcodes::spec_opcode_mode;

verus! {

pub const FLAG_CARRY: u8 = 0x01;

pub const FLAG_ZERO: u8 = 0x02;

pub const FLAG_INTERRUPT_DISABLE: u8 = 0x04;

pub const FLAG_DECIMAL_MODE: u8 = 0x08;

pub const FLAG_BREAK: u8 = 0x10;

pub const FLAG_UNUSED: u8 = 0x20;

pub const FLAG_OVERFLOW: u8 = 0x40;

pub const FLAG_NEGATIVE: u8 = 0x80;

/// The hardware stack lives in the page 0x0100..=0x01FF.
pub const STACK_BASE: u16 = 0x0100;

/// Stack pointer after reset: the reset sequence leaves S three below 0x00.
pub const STACK_RESET: u8 = 0xfd;

/// Status after reset: InterruptDisable and Unused set.
pub const STATUS_RESET: u8 = 0x24;

/// RAM region where `load` places a program for the test harness.
pub const PROGRAM_START: u16 = 0x0600;

/// The 16-bit little-endian reset vector.
pub const RESET_VECTOR: u16 = 0xfffc;

pub struct CPU {
    pub register_a: u8,
    pub register_x: u8,
    pub register_y: u8,
    pub status: u8,
    pub program_counter: u16,
    pub stack_ptr: u8,
    pub halted: bool,
    pub bus: Bus,
}

/// Whether a flag bit is set in a status byte.
pub open spec fn flag_set(p: u8, mask: u8) -> bool {
    p & mask != 0
}

/// A status byte with one flag forced on or off.
pub open spec fn upd_flag(p: u8, mask: u8, on: bool) -> u8 {
    if on {
        p | mask
    } else {
        p & !mask
    }
}

/// Zero and Negative updated from a result byte: Z iff the result is 0,
/// N iff its bit 7 is set.
pub open spec fn spec_zn(p: u8, v: u8) -> u8 {
    upd_flag(upd_flag(p, FLAG_ZERO, v == 0), FLAG_NEGATIVE, v >= 0x80)
}

/// The carry flag as an addend.
pub open spec fn carry_in(p: u8) -> int {
    if flag_set(p, FLAG_CARRY) {
        1
    } else {
        0
    }
}

/// Add-with-carry: the new accumulator and the new status. Carry is set
/// when the 9-bit sum overflows; Overflow when the sign of the result
/// disagrees with the signs of both addends; Zero and Negative from the
/// result.
pub open spec fn spec_adc(a: u8, p: u8, m: u8) -> (u8, u8) {
    let sum = a + m + carry_in(p);
    let result = (sum % 256) as u8;
    let p1 = upd_flag(p, FLAG_CARRY, sum > 0xff);
    let p2 = upd_flag(p1, FLAG_OVERFLOW, (m ^ result) & (result ^ a) & 0x80 != 0);
    (result, spec_zn(p2, result))
}

/// Compare a register with a memory byte: Carry iff the byte does not
/// exceed the register, Zero and Negative from the wrapped difference.
pub open spec fn spec_compare(p: u8, reg: u8, m: u8) -> u8 {
    spec_zn(upd_flag(p, FLAG_CARRY, m <= reg), reg.wrapping_sub(m))
}

/// One push: the byte lands at 0x0100 | S, then S steps down with 8-bit
/// wrap. Yields the new RAM and the new S.
pub open spec fn spec_stack_push(ram: Seq<u8>, sp: u8, data: u8) -> (Seq<u8>, u8) {
    (ram.update(STACK_BASE + sp as int, data), sp.wrapping_sub(1))
}

/// One pop: S steps up with 8-bit wrap, then the byte at 0x0100 | S is
/// read. Yields the byte and the new S.
pub open spec fn spec_stack_pop(ram: Seq<u8>, sp: u8) -> (u8, u8) {
    let sp1 = sp.wrapping_add(1);
    (ram[STACK_BASE + sp1 as int], sp1)
}

impl CPU {
    pub open spec fn wf(self) -> bool {
        self.bus.wf()
    }

    /// The 2 KiB of CPU RAM behind the bus.
    pub open spec fn ram(self) -> Seq<u8> {
        self.bus.cpu_ram@
    }

    /// The cartridge program ROM behind the bus.
    pub open spec fn prg(self) -> Seq<u8> {
        self.bus.rom.prg_rom@
    }

    /// What the CPU sees at `addr` through the bus.
    pub open spec fn spec_read(self, addr: u16) -> u8 {
        spec_read_at(self.ram(), self.prg(), addr)
    }

    /// What the CPU sees as a 16-bit little-endian value at `pos`.
    pub open spec fn spec_read16(self, pos: u16) -> u16 {
        spec_read16_at(self.ram(), self.prg(), pos)
    }

    /// The whole machine as one mathematical value.
    pub open spec fn state(self) -> MachineState {
        MachineState {
            a: self.register_a,
            x: self.register_x,
            y: self.register_y,
            p: self.status,
            pc: self.program_counter,
            sp: self.stack_ptr,
            halted: self.halted,
            ram: self.ram(),
            prg: self.prg(),
        }
    }

    pub fn new(bus: Bus) -> (r: CPU)
        ensures
            r.register_a == 0,
            r.register_x == 0,
            r.register_y == 0,
            r.status == STATUS_RESET,
            r.program_counter == 0,
            r.stack_ptr == STACK_RESET,
            r.halted == false,
            r.bus == bus,
    {
        CPU {
            register_a: 0,
            register_x: 0,
            register_y: 0,
            status: STATUS_RESET,
            program_counter: 0,
            stack_ptr: STACK_RESET,
            halted: false,
            bus,
        }
    }

    /// Reads one byte through the bus.
    pub fn mem_read(&self, addr: u16) -> (r: u8)
        requires
            self.wf(),
        ensures
            r == self.spec_read(addr),
    {
        self.bus.mem_read(addr)
    }

    /// Writes one byte through the bus. A write into the program ROM
    /// window fails; the CPU treats that as fatal and halts.
    pub fn mem_write(&mut self, addr: u16, data: u8)
        requires
            old(self).wf(),
        ensures
            final(self).wf(),
            final(self).ram() == spec_write_at(old(self).ram(), addr, data),
            final(self).bus.rom == old(self).bus.rom,
            final(self).halted == (old(self).halted || addr >= 0x8000),
            final(self).register_a == old(self).register_a,
            final(self).register_x == old(self).register_x,
            final(self).register_y == old(self).register_y,
            final(self).status == old(self).status,
            final(self).program_counter == old(self).program_counter,
            final(self).stack_ptr == old(self).stack_ptr,
    {
        let ok = self.bus.mem_write(addr, data);
        if !ok {
            self.halted = true;
        }
    }

    /// Reads a 16-bit little-endian value through the bus.
    pub fn mem_read_u16(&self, pos: u16) -> (r: u16)
        requires
            self.wf(),
        ensures
            r == self.spec_read16(pos),
    {
        self.bus.mem_read_u16(pos)
    }

    /// Writes a 16-bit little-endian value through the bus, low byte
    /// first; a byte landing in the program ROM window halts the CPU.
    pub fn mem_write_u16(&mut self, pos: u16, data: u16)
        requires
            old(self).wf(),
        ensures
            final(self).wf(),
            final(self).ram() == spec_write_at(
                spec_write_at(old(self).ram(), pos, (data % 256) as u8),
                pos.wrapping_add(1),
                (data / 256) as u8,
            ),
            final(self).bus.rom == old(self).bus.rom,
            final(self).halted == (old(self).halted || pos >= 0x8000 || pos.wrapping_add(1)
                >= 0x8000),
            final(self).register_a == old(self).register_a,
            final(self).register_x == old(self).register_x,
            final(self).register_y == old(self).register_y,
            final(self).status == old(self).status,
            final(self).program_counter == old(self).program_counter,
            final(self).stack_ptr == old(self).stack_ptr,
    {
        let lo = (data % 256) as u8;
        let hi = (data / 256) as u8;
        self.mem_write(pos, lo);
        self.mem_write(pos.wrapping_add(1), hi);
    }

    /// Pushes one byte: writes at 0x0100 | S, then decrements S with
    /// 8-bit wrap.
    pub fn stack_push(&mut self, data: u8)
        requires
            old(self).wf(),
        ensures
            final(self).wf(),
            final(self).ram() == spec_stack_push(old(self).ram(), old(self).stack_ptr, data).0,
            final(self).stack_ptr == spec_stack_push(old(self).ram(), old(self).stack_ptr, data).1,
            final(self).bus.rom == old(self).bus.rom,
            final(self).register_a == old(self).register_a,
            final(self).register_x == old(self).register_x,
            final(self).register_y == old(self).register_y,
            final(self).status == old(self).status,
            final(self).program_counter == old(self).program_counter,
            final(self).halted == old(self).halted,
    {
        let addr = STACK_BASE + self.stack_ptr as u16;
        self.mem_write(addr, data);
        self.stack_ptr = self.stack_ptr.wrapping_sub(1);
    }

    /// Pops one byte: increments S with 8-bit wrap, then reads at
    /// 0x0100 | S.
    pub fn stack_pop(&mut self) -> (r: u8)
        requires
            old(self).wf(),
        ensures
            final(self).wf(),
            r == spec_stack_pop(old(self).ram(), old(self).stack_ptr).0,
            final(self).stack_ptr == spec_stack_pop(old(self).ram(), old(self).stack_ptr).1,
            final(self).bus == old(self).bus,
            final(self).register_a == old(self).register_a,
            final(self).register_x == old(self).register_x,
            final(self).register_y == old(self).register_y,
            final(self).status == old(self).status,
            final(self).program_counter == old(self).program_counter,
            final(self).halted == old(self).halted,
    {
        self.stack_ptr = self.stack_ptr.wrapping_add(1);
        let addr = STACK_BASE + self.stack_ptr as u16;
        self.mem_read(addr)
    }

    /// Pushes a 16-bit value, high byte first.
    pub fn stack_push_u16(&mut self, data: u16)
        requires
            old(self).wf(),
        ensures
            final(self).wf(),
            final(self).ram() == old(self).ram().update(
                STACK_BASE + old(self).stack_ptr as int,
                (data / 256) as u8,
            ).update(STACK_BASE + old(self).stack_ptr.wrapping_sub(1) as int, (data % 256) as u8),
            final(self).stack_ptr == old(self).stack_ptr.wrapping_sub(2),
            final(self).bus.rom == old(self).bus.rom,
            final(self).register_a == old(self).register_a,
            final(self).register_x == old(self).register_x,
            final(self).register_y == old(self).register_y,
            final(self).status == old(self).status,
            final(self).program_counter == old(self).program_counter,
            final(self).halted == old(self).halted,
    {
        let hi = (data / 256) as u8;
        let lo = (data % 256) as u8;
        self.stack_push(hi);
        self.stack_push(lo);
    }

    /// Pops a 16-bit value, low byte first.
    pub fn stack_pop_u16(&mut self) -> (r: u16)
        requires
            old(self).wf(),
        ensures
            final(self).wf(),
            r == old(self).ram()[STACK_BASE + old(self).stack_ptr.wrapping_add(1) as int] + 256
                * old(self).ram()[STACK_BASE + old(self).stack_ptr.wrapping_add(2) as int],
            final(self).stack_ptr == old(self).stack_ptr.wrapping_add(2),
            final(self).bus == old(self).bus,
            final(self).register_a == old(self).register_a,
            final(self).register_x == old(self).register_x,
            final(self).register_y == old(self).register_y,
            final(self).status == old(self).status,
            final(self).program_counter == old(self).program_counter,
            final(self).halted == old(self).halted,
    {
        let lo = self.stack_pop() as u16;
        let hi = self.stack_pop() as u16;
        lo + 256 * hi
    }

    /// Turns one status flag on.
    pub fn set_flag(&mut self, mask: u8)
        ensures
            final(self).status == old(self).status | mask,
            final(self).bus == old(self).bus,
            final(self).register_a == old(self).register_a,
            final(self).register_x == old(self).register_x,
            final(self).register_y == old(self).register_y,
            final(self).program_counter == old(self).program_counter,
            final(self).stack_ptr == old(self).stack_ptr,
            final(self).halted == old(self).halted,
    {
        self.status = self.status | mask;
    }

    /// Turns one status flag off.
    pub fn clear_flag(&mut self, mask: u8)
        ensures
            final(self).status == old(self).status & !mask,
            final(self).bus == old(self).bus,
            final(self).register_a == old(self).register_a,
            final(self).register_x == old(self).register_x,
            final(self).register_y == old(self).register_y,
            final(self).program_counter == old(self).program_counter,
            final(self).stack_ptr == old(self).stack_ptr,
            final(self).halted == old(self).halted,
    {
        self.status = self.status & !mask;
    }

    /// Turns one status flag on or off.
    pub fn update_flag(&mut self, mask: u8, on: bool)
        ensures
            final(self).status == upd_flag(old(self).status, mask, on),
            final(self).bus == old(self).bus,
            final(self).register_a == old(self).register_a,
            final(self).register_x == old(self).register_x,
            final(self).register_y == old(self).register_y,
            final(self).program_counter == old(self).program_counter,
            final(self).stack_ptr == old(self).stack_ptr,
            final(self).halted == old(self).halted,
    {
        if on {
            self.status = self.status | mask;
        } else {
            self.status = self.status & !mask;
        }
    }

    /// Whether one status flag is on.
    pub fn get_flag(&self, mask: u8) -> (r: bool)
        ensures
            r == flag_set(self.status, mask),
    {
        self.status & mask != 0
    }

    /// Sets Zero and Negative from a result byte.
    pub fn update_zero_and_negative_flags(&mut self, result: u8)
        ensures
            final(self).status == spec_zn(old(self).status, result),
            final(self).bus == old(self).bus,
            final(self).register_a == old(self).register_a,
            final(self).register_x == old(self).register_x,
            final(self).register_y == old(self).register_y,
            final(self).program_counter == old(self).program_counter,
            final(self).stack_ptr == old(self).stack_ptr,
            final(self).halted == old(self).halted,
    {
        self.update_flag(FLAG_ZERO, result == 0);
        self.update_flag(FLAG_NEGATIVE, result >= 0x80);
    }

    /// The ADC core, shared by ADC, SBC, ISC and RRA.
    fn add_to_register_a(&mut self, value: u8)
        requires
            old(self).wf(),
        ensures
            final(self).wf(),
            final(self).register_a == spec_adc(old(self).register_a, old(self).status, value).0,
            final(self).status == spec_adc(old(self).register_a, old(self).status, value).1,
            final(self).bus == old(self).bus,
            final(self).register_x == old(self).register_x,
            final(self).register_y == old(self).register_y,
            final(self).program_counter == old(self).program_counter,
            final(self).stack_ptr == old(self).stack_ptr,
            final(self).halted == old(self).halted,
    {
        let carry: u16 = if self.get_flag(FLAG_CARRY) {
            1
        } else {
            0
        };
        let sum: u16 = self.register_a as u16 + value as u16 + carry;
        let result: u8 = (sum % 256) as u8;
        self.update_flag(FLAG_CARRY, sum > 0xff);
        self.update_flag(FLAG_OVERFLOW, (value ^ result) & (result ^ self.register_a) & 0x80 != 0);
        self.register_a = result;
        self.update_zero_and_negative_flags(result);
    }

    /// Zeroes the registers, restores S and P to their reset values, and
    /// loads PC from the reset vector.
    pub fn reset(&mut self)
        requires
            old(self).wf(),
        ensures
            final(self).wf(),
            final(self).register_a == 0,
            final(self).register_x == 0,
            final(self).register_y == 0,
            final(self).status == STATUS_RESET,
            final(self).stack_ptr == STACK_RESET,
            final(self).program_counter == old(self).spec_read16(RESET_VECTOR),
            final(self).halted == false,
            final(self).bus == old(self).bus,
    {
        self.register_a = 0;
        self.register_x = 0;
        self.register_y = 0;
        self.stack_ptr = STACK_RESET;
        self.status = STATUS_RESET;
        self.halted = false;
        self.program_counter = self.bus.mem_read_u16(RESET_VECTOR);
    }
}

/// The RAM contents after a program is placed at 0x0600.
pub open spec fn spec_load_ram(ram: Seq<u8>, prog: Seq<u8>) -> Seq<u8> {
    Seq::new(
        0x800,
        |j: int|
            if 0x600 <= j < 0x600 + prog.len() {
                prog[j - 0x600]
            } else {
                ram[j]
            },
    )
}

/// The modes that name an operand for an instruction to read or write:
/// the inline-handled Indirect and Relative modes and the operand-less
/// NoneAddressing are excluded.
pub open spec fn addressable(m: AddressingMode) -> bool {
    match m {
        AddressingMode::Immediate => true,
        AddressingMode::ZeroPage => true,
        AddressingMode::ZeroPage_X => true,
        AddressingMode::ZeroPage_Y => true,
        AddressingMode::Absolute => true,
        AddressingMode::Absolute_X => true,
        AddressingMode::Absolute_Y => true,
        AddressingMode::Indirect => false,
        AddressingMode::Indirect_X => true,
        AddressingMode::Indirect_Y => true,
        AddressingMode::Relative => false,
        AddressingMode::NoneAddressing => false,
    }
}

/// The effective address an instruction at PC-1 works on, given its
/// addressing mode; PC points at the first operand byte. The modes
/// handled inline by the execution loop (Indirect and Relative) and the
/// operand-less NoneAddressing have no effective address: `addressable`
/// excludes them wherever an address is asked for, and the catch-all
/// arm only keeps this definition total.
pub open spec fn spec_operand_addr(s: MachineState, mode: AddressingMode) -> u16 {
    let pc = s.pc;
    match mode {
        AddressingMode::Immediate => pc,
        AddressingMode::ZeroPage => s.read(pc) as u16,
        AddressingMode::ZeroPage_X => s.read(pc).wrapping_add(s.x) as u16,
        AddressingMode::ZeroPage_Y => s.read(pc).wrapping_add(s.y) as u16,
        AddressingMode::Absolute => s.read16(pc),
        AddressingMode::Absolute_X => s.read16(pc).wrapping_add(s.x as u16),
        AddressingMode::Absolute_Y => s.read16(pc).wrapping_add(s.y as u16),
        AddressingMode::Indirect_X => {
            let ptr = s.read(pc).wrapping_add(s.x);
            (s.read(ptr as u16) + 256 * s.read(ptr.wrapping_add(1) as u16)) as u16
        },
        AddressingMode::Indirect_Y => {
            let base = s.read(pc);
            let lo = s.read(base as u16);
            let hi = s.read(base.wrapping_add(1) as u16);
            ((lo + 256 * hi) as u16).wrapping_add(s.y as u16)
        },
        _ => 0,
    }
}

/// The operand byte an instruction reads: the byte at its effective
/// address.
pub open spec fn spec_operand(s: MachineState, mode: AddressingMode) -> u8 {
    s.read(spec_operand_addr(s, mode))
}

impl CPU {
    /// Turns the byte(s) at PC into an effective address according to
    /// the addressing mode. Zero-page indexing wraps within the page;
    /// the two-byte pointer reads of the indirect modes wrap within the
    /// zero page between low and high byte.
    pub fn get_operand_address(&self, mode: AddressingMode) -> (addr: u16)
        requires
            self.wf(),
            addressable(mode),
        ensures
            addr == spec_operand_addr(self.state(), mode),
    {
        match mode {
            AddressingMode::Immediate => self.program_counter,
            AddressingMode::ZeroPage => self.mem_read(self.program_counter) as u16,
            AddressingMode::ZeroPage_X => {
                let iaddr = self.mem_read(self.program_counter);
                iaddr.wrapping_add(self.register_x) as u16
            },
            AddressingMode::ZeroPage_Y => {
                let iaddr = self.mem_read(self.program_counter);
                iaddr.wrapping_add(self.register_y) as u16
            },
            AddressingMode::Absolute => self.mem_read_u16(self.program_counter),
            AddressingMode::Absolute_X => {
                let base = self.mem_read_u16(self.program_counter);
                base.wrapping_add(self.register_x as u16)
            },
            AddressingMode::Absolute_Y => {
                let base = self.mem_read_u16(self.program_counter);
                base.wrapping_add(self.register_y as u16)
            },
            AddressingMode::Indirect_X => {
                let base = self.mem_read(self.program_counter);
                let ptr = base.wrapping_add(self.register_x);
                let lo = self.mem_read(ptr as u16);
                let hi = self.mem_read(ptr.wrapping_add(1) as u16);
                lo as u16 + 256 * (hi as u16)
            },
            AddressingMode::Indirect_Y => {
                let base = self.mem_read(self.program_counter);
                let lo = self.mem_read(base as u16);
                let hi = self.mem_read(base.wrapping_add(1) as u16);
                let deref_base = lo as u16 + 256 * (hi as u16);
                deref_base.wrapping_add(self.register_y as u16)
            },
            _ => 0,
        }
    }

    /// Writes a program into the RAM region starting at 0x0600. The
    /// region holds at most 0x200 bytes before it would run off the end
    /// of the RAM mirror.
    pub fn load(&mut self, program: Vec<u8>)
        requires
            old(self).wf(),
            program@.len() <= 0x200,
        ensures
            final(self).wf(),
            final(self).ram() == spec_load_ram(old(self).ram(), program@),
            final(self).bus.rom == old(self).bus.rom,
            final(self).register_a == old(self).register_a,
            final(self).register_x == old(self).register_x,
            final(self).register_y == old(self).register_y,
            final(self).status == old(self).status,
            final(self).program_counter == old(self).program_counter,
            final(self).stack_ptr == old(self).stack_ptr,
            final(self).halted == old(self).halted,
    {
        let n = program.len();
        let mut i: usize = 0;
        while i < n
            invariant
                self.wf(),
                i <= n == program@.len() <= 0x200,
                self.ram().len() == 0x800,
                forall|j: int| 0x600 <= j < 0x600 + i ==> self.ram()[j] == program@[j - 0x600],
                forall|j: int| 0 <= j < 0x600 ==> self.ram()[j] == old(self).ram()[j],
                forall|j: int| 0x600 + i <= j < 0x800 ==> self.ram()[j] == old(self).ram()[j],
                self.bus.rom == old(self).bus.rom,
                self.register_a == old(self).register_a,
                self.register_x == old(self).register_x,
                self.register_y == old(self).register_y,
                self.status == old(self).status,
                self.program_counter == old(self).program_counter,
                self.stack_ptr == old(self).stack_ptr,
                self.halted == old(self).halted,
            decreases n - i,
        {
            self.mem_write(PROGRAM_START + i as u16, program[i]);
            i = i + 1;
        }
        proof {
            assert(self.ram() =~= spec_load_ram(old(self).ram(), program@));
        }
    }
}

/// Everything but A and P unchanged.
pub open spec fn frame_a(pre: CPU, post: CPU) -> bool {
    &&& post.register_x == pre.register_x
    &&& post.register_y == pre.register_y
    &&& post.program_counter == pre.program_counter
    &&& post.stack_ptr == pre.stack_ptr
    &&& post.halted == pre.halted
    &&& post.bus == pre.bus
}

/// Everything but X and P unchanged.
pub open spec fn frame_x(pre: CPU, post: CPU) -> bool {
    &&& post.register_a == pre.register_a
    &&& post.register_y == pre.register_y
    &&& post.program_counter == pre.program_counter
    &&& post.stack_ptr == pre.stack_ptr
    &&& post.halted == pre.halted
    &&& post.bus == pre.bus
}

/// Everything but Y and P unchanged.
pub open spec fn frame_y(pre: CPU, post: CPU) -> bool {
    &&& post.register_a == pre.register_a
    &&& post.register_x == pre.register_x
    &&& post.program_counter == pre.program_counter
    &&& post.stack_ptr == pre.stack_ptr
    &&& post.halted == pre.halted
    &&& post.bus == pre.bus
}

/// Everything but P unchanged.
pub open spec fn frame_p(pre: CPU, post: CPU) -> bool {
    &&& post.register_a == pre.register_a
    &&& post.register_x == pre.register_x
    &&& post.register_y == pre.register_y
    &&& post.program_counter == pre.program_counter
    &&& post.stack_ptr == pre.stack_ptr
    &&& post.halted == pre.halted
    &&& post.bus == pre.bus
}

/// The registers and PC unchanged; RAM, P and the halt flag may change.
/// ROM never changes.
pub open spec fn frame_rmw(pre: CPU, post: CPU) -> bool {
    &&& post.register_a == pre.register_a
    &&& post.register_x == pre.register_x
    &&& post.register_y == pre.register_y
    &&& post.program_counter == pre.program_counter
    &&& post.stack_ptr == pre.stack_ptr
    &&& post.bus.rom == pre.bus.rom
    &&& post.wf()
}

impl CPU {
    /// LDA: loads the operand into A; Z and N from the value.
    pub fn lda(&mut self, mode: AddressingMode)
        requires
            old(self).wf(),
            addressable(mode),
        ensures
            final(self).wf(),
            final(self).register_a == spec_operand(old(self).state(), mode),
            final(self).status == spec_zn(old(self).status, spec_operand(old(self).state(), mode)),
            frame_a(*old(self), *final(self)),
    {
        let addr = self.get_operand_address(mode);
        let value = self.mem_read(addr);
        self.register_a = value;
        self.update_zero_and_negative_flags(value);
    }

    /// LDX: loads the operand into X; Z and N from the value.
    pub fn ldx(&mut self, mode: AddressingMode)
        requires
            old(self).wf(),
            addressable(mode),
        ensures
            final(self).wf(),
            final(self).register_x == spec_operand(old(self).state(), mode),
            final(self).status == spec_zn(old(self).status, spec_operand(old(self).state(), mode)),
            frame_x(*old(self), *final(self)),
    {
        let addr = self.get_operand_address(mode);
        let value = self.mem_read(addr);
        self.register_x = value;
        self.update_zero_and_negative_flags(value);
    }

    /// LDY: loads the operand into Y; Z and N from the value.
    pub fn ldy(&mut self, mode: AddressingMode)
        requires
            old(self).wf(),
            addressable(mode),
        ensures
            final(self).wf(),
            final(self).register_y == spec_operand(old(self).state(), mode),
            final(self).status == spec_zn(old(self).status, spec_operand(old(self).state(), mode)),
            frame_y(*old(self), *final(self)),
    {
        let addr = self.get_operand_address(mode);
        let value = self.mem_read(addr);
        self.register_y = value;
        self.update_zero_and_negative_flags(value);
    }

    /// STA: stores A at the effective address; no flag effect. A store
    /// into the program ROM window halts the CPU.
    pub fn sta(&mut self, mode: AddressingMode)
        requires
            old(self).wf(),
            addressable(mode),
        ensures
            ({
                let addr = spec_operand_addr(old(self).state(), mode);
                &&& final(self).ram() == spec_write_at(old(self).ram(), addr, old(self).register_a)
                &&& final(self).halted == (old(self).halted || addr >= 0x8000)
            }),
            final(self).status == old(self).status,
            frame_rmw(*old(self), *final(self)),
    {
        let addr = self.get_operand_address(mode);
        let v = self.register_a;
        self.mem_write(addr, v);
    }

    /// STX: stores X at the effective address; no flag effect.
    pub fn stx(&mut self, mode: AddressingMode)
        requires
            old(self).wf(),
            addressable(mode),
        ensures
            ({
                let addr = spec_operand_addr(old(self).state(), mode);
                &&& final(self).ram() == spec_write_at(old(self).ram(), addr, old(self).register_x)
                &&& final(self).halted == (old(self).halted || addr >= 0x8000)
            }),
            final(self).status == old(self).status,
            frame_rmw(*old(self), *final(self)),
    {
        let addr = self.get_operand_address(mode);
        let v = self.register_x;
        self.mem_write(addr, v);
    }

    /// STY: stores Y at the effective address; no flag effect.
    pub fn sty(&mut self, mode: AddressingMode)
        requires
            old(self).wf(),
            addressable(mode),
        ensures
            ({
                let addr = spec_operand_addr(old(self).state(), mode);
                &&& final(self).ram() == spec_write_at(old(self).ram(), addr, old(self).register_y)
                &&& final(self).halted == (old(self).halted || addr >= 0x8000)
            }),
            final(self).status == old(self).status,
            frame_rmw(*old(self), *final(self)),
    {
        let addr = self.get_operand_address(mode);
        let v = self.register_y;
        self.mem_write(addr, v);
    }

    /// AND: A with the operand; Z and N from the result.
    pub fn and(&mut self, mode: AddressingMode)
        requires
            old(self).wf(),
            addressable(mode),
        ensures
            final(self).wf(),
            final(self).register_a == (old(self).register_a & spec_operand(old(self).state(), mode)),
            final(self).status == spec_zn(
                old(self).status,
                old(self).register_a & spec_operand(old(self).state(), mode),
            ),
            frame_a(*old(self), *final(self)),
    {
        let addr = self.get_operand_address(mode);
        let value = self.mem_read(addr);
        let result = self.register_a & value;
        self.register_a = result;
        self.update_zero_and_negative_flags(result);
    }

    /// EOR: A xor the operand; Z and N from the result.
    pub fn eor(&mut self, mode: AddressingMode)
        requires
            old(self).wf(),
            addressable(mode),
        ensures
            final(self).wf(),
            final(self).register_a == (old(self).register_a ^ spec_operand(old(self).state(), mode)),
            final(self).status == spec_zn(
                old(self).status,
                old(self).register_a ^ spec_operand(old(self).state(), mode),
            ),
            frame_a(*old(self), *final(self)),
    {
        let addr = self.get_operand_address(mode);
        let value = self.mem_read(addr);
        let result = self.register_a ^ value;
        self.register_a = result;
        self.update_zero_and_negative_flags(result);
    }

    /// ORA: A or the operand; Z and N from the result.
    pub fn ora(&mut self, mode: AddressingMode)
        requires
            old(self).wf(),
            addressable(mode),
        ensures
            final(self).wf(),
            final(self).register_a == (old(self).register_a | spec_operand(old(self).state(), mode)),
            final(self).status == spec_zn(
                old(self).status,
                old(self).register_a | spec_operand(old(self).state(), mode),
            ),
            frame_a(*old(self), *final(self)),
    {
        let addr = self.get_operand_address(mode);
        let value = self.mem_read(addr);
        let result = self.register_a | value;
        self.register_a = result;
        self.update_zero_and_negative_flags(result);
    }

    /// ADC: adds the operand and the carry into A.
    pub fn adc(&mut self, mode: AddressingMode)
        requires
            old(self).wf(),
            addressable(mode),
        ensures
            final(self).wf(),
            final(self).register_a == spec_adc(
                old(self).register_a,
                old(self).status,
                spec_operand(old(self).state(), mode),
            ).0,
            final(self).status == spec_adc(
                old(self).register_a,
                old(self).status,
                spec_operand(old(self).state(), mode),
            ).1,
            frame_a(*old(self), *final(self)),
    {
        let addr = self.get_operand_address(mode);
        let value = self.mem_read(addr);
        self.add_to_register_a(value);
    }

    /// SBC: ADC with the operand's bits inverted (two's-complement
    /// subtract-with-borrow).
    pub fn sbc(&mut self, mode: AddressingMode)
        requires
            old(self).wf(),
            addressable(mode),
        ensures
            final(self).wf(),
            final(self).register_a == spec_adc(
                old(self).register_a,
                old(self).status,
                spec_operand(old(self).state(), mode) ^ 0xff,
            ).0,
            final(self).status == spec_adc(
                old(self).register_a,
                old(self).status,
                spec_operand(old(self).state(), mode) ^ 0xff,
            ).1,
            frame_a(*old(self), *final(self)),
    {
        let addr = self.get_operand_address(mode);
        let value = self.mem_read(addr);
        self.add_to_register_a(value ^ 0xff);
    }

    /// CMP/CPX/CPY core: compares a register with the operand.
    pub fn compare(&mut self, mode: AddressingMode, compare_with_reg: u8)
        requires
            old(self).wf(),
            addressable(mode),
        ensures
            final(self).wf(),
            final(self).status == spec_compare(
                old(self).status,
                compare_with_reg,
                spec_operand(old(self).state(), mode),
            ),
            frame_p(*old(self), *final(self)),
    {
        let addr = self.get_operand_address(mode);
        let value = self.mem_read(addr);
        self.update_flag(FLAG_CARRY, value <= compare_with_reg);
        self.update_zero_and_negative_flags(compare_with_reg.wrapping_sub(value));
    }

    /// BIT: Z from A and the operand, N from the operand's bit 7, V from
    /// its bit 6.
    pub fn bit(&mut self, mode: AddressingMode)
        requires
            old(self).wf(),
            addressable(mode),
        ensures
            final(self).wf(),
            ({
                let m = spec_operand(old(self).state(), mode);
                final(self).status == upd_flag(
                    upd_flag(
                        upd_flag(old(self).status, FLAG_ZERO, (old(self).register_a & m) == 0),
                        FLAG_NEGATIVE,
                        m & 0x80 != 0,
                    ),
                    FLAG_OVERFLOW,
                    m & 0x40 != 0,
                )
            }),
            frame_p(*old(self), *final(self)),
    {
        let addr = self.get_operand_address(mode);
        let value = self.mem_read(addr);
        self.update_flag(FLAG_ZERO, (self.register_a & value) == 0);
        self.update_flag(FLAG_NEGATIVE, value & 0x80 != 0);
        self.update_flag(FLAG_OVERFLOW, value & 0x40 != 0);
    }

    /// INC: adds one to the byte at the effective address, wrapping.
    pub fn inc(&mut self, mode: AddressingMode) -> (r: u8)
        requires
            old(self).wf(),
            addressable(mode),
        ensures
            ({
                let addr = spec_operand_addr(old(self).state(), mode);
                let res = spec_operand(old(self).state(), mode).wrapping_add(1);
                &&& r == res
                &&& final(self).ram() == spec_write_at(old(self).ram(), addr, res)
                &&& final(self).status == spec_zn(old(self).status, res)
                &&& final(self).halted == (old(self).halted || addr >= 0x8000)
            }),
            frame_rmw(*old(self), *final(self)),
    {
        let addr = self.get_operand_address(mode);
        let value = self.mem_read(addr);
        let res = value.wrapping_add(1);
        self.mem_write(addr, res);
        self.update_zero_and_negative_flags(res);
        res
    }

    /// DEC: subtracts one from the byte at the effective address,
    /// wrapping.
    pub fn dec(&mut self, mode: AddressingMode) -> (r: u8)
        requires
            old(self).wf(),
            addressable(mode),
        ensures
            ({
                let addr = spec_operand_addr(old(self).state(), mode);
                let res = spec_operand(old(self).state(), mode).wrapping_sub(1);
                &&& r == res
                &&& final(self).ram() == spec_write_at(old(self).ram(), addr, res)
                &&& final(self).status == spec_zn(old(self).status, res)
                &&& final(self).halted == (old(self).halted || addr >= 0x8000)
            }),
            frame_rmw(*old(self), *final(self)),
    {
        let addr = self.get_operand_address(mode);
        let value = self.mem_read(addr);
        let res = value.wrapping_sub(1);
        self.mem_write(addr, res);
        self.update_zero_and_negative_flags(res);
        res
    }

    /// INX.
    pub fn inx(&mut self)
        ensures
            final(self).register_x == old(self).register_x.wrapping_add(1),
            final(self).status == spec_zn(
                old(self).status,
                old(self).register_x.wrapping_add(1),
            ),
            frame_x(*old(self), *final(self)),
    {
        self.register_x = self.register_x.wrapping_add(1);
        let v = self.register_x;
        self.update_zero_and_negative_flags(v);
    }

    /// INY.
    pub fn iny(&mut self)
        ensures
            final(self).register_y == old(self).register_y.wrapping_add(1),
            final(self).status == spec_zn(
                old(self).status,
                old(self).register_y.wrapping_add(1),
            ),
            frame_y(*old(self), *final(self)),
    {
        self.register_y = self.register_y.wrapping_add(1);
        let v = self.register_y;
        self.update_zero_and_negative_flags(v);
    }

    /// DEX.
    pub fn dex(&mut self)
        ensures
            final(self).register_x == old(self).register_x.wrapping_sub(1),
            final(self).status == spec_zn(
                old(self).status,
                old(self).register_x.wrapping_sub(1),
            ),
            frame_x(*old(self), *final(self)),
    {
        self.register_x = self.register_x.wrapping_sub(1);
        let v = self.register_x;
        self.update_zero_and_negative_flags(v);
    }

    /// DEY.
    pub fn dey(&mut self)
        ensures
            final(self).register_y == old(self).register_y.wrapping_sub(1),
            final(self).status == spec_zn(
                old(self).status,
                old(self).register_y.wrapping_sub(1),
            ),
            frame_y(*old(self), *final(self)),
    {
        self.register_y = self.register_y.wrapping_sub(1);
        let v = self.register_y;
        self.update_zero_and_negative_flags(v);
    }

    /// ASL on the accumulator: Carry from bit 7, then shift left.
    pub fn asl_acc(&mut self)
        ensures
            final(self).register_a == old(self).register_a << 1,
            final(self).status == spec_zn(
                upd_flag(old(self).status, FLAG_CARRY, old(self).register_a >= 0x80),
                old(self).register_a << 1,
            ),
            frame_a(*old(self), *final(self)),
    {
        let v = self.register_a;
        self.update_flag(FLAG_CARRY, v >= 0x80);
        self.register_a = v << 1;
        let r = self.register_a;
        self.update_zero_and_negative_flags(r);
    }

    /// ASL on memory: Carry from bit 7 of the old byte, the shifted byte
    /// written back.
    pub fn asl(&mut self, mode: AddressingMode) -> (r: u8)
        requires
            old(self).wf(),
            addressable(mode),
        ensures
            ({
                let addr = spec_operand_addr(old(self).state(), mode);
                let v = spec_operand(old(self).state(), mode);
                let res = v << 1;
                &&& r == res
                &&& final(self).ram() == spec_write_at(old(self).ram(), addr, res)
                &&& final(self).status == spec_zn(
                    upd_flag(old(self).status, FLAG_CARRY, v >= 0x80),
                    res,
                )
                &&& final(self).halted == (old(self).halted || addr >= 0x8000)
            }),
            frame_rmw(*old(self), *final(self)),
    {
        let addr = self.get_operand_address(mode);
        let v = self.mem_read(addr);
        self.update_flag(FLAG_CARRY, v >= 0x80);
        let res = v << 1;
        self.mem_write(addr, res);
        self.update_zero_and_negative_flags(res);
        res
    }

    /// LSR on the accumulator: Carry from bit 0, then shift right.
    pub fn lsr_acc(&mut self)
        ensures
            final(self).register_a == old(self).register_a >> 1,
            final(self).status == spec_zn(
                upd_flag(old(self).status, FLAG_CARRY, old(self).register_a & 1 != 0),
                old(self).register_a >> 1,
            ),
            frame_a(*old(self), *final(self)),
    {
        let v = self.register_a;
        self.update_flag(FLAG_CARRY, v & 1 != 0);
        self.register_a = v >> 1;
        let r = self.register_a;
        self.update_zero_and_negative_flags(r);
    }

    /// LSR on memory: Carry from bit 0 of the old byte, the shifted byte
    /// written back.
    pub fn lsr(&mut self, mode: AddressingMode) -> (r: u8)
        requires
            old(self).wf(),
            addressable(mode),
        ensures
            ({
                let addr = spec_operand_addr(old(self).state(), mode);
                let v = spec_operand(old(self).state(), mode);
                let res = v >> 1;
                &&& r == res
                &&& final(self).ram() == spec_write_at(old(self).ram(), addr, res)
                &&& final(self).status == spec_zn(
                    upd_flag(old(self).status, FLAG_CARRY, v & 1 != 0),
                    res,
                )
                &&& final(self).halted == (old(self).halted || addr >= 0x8000)
            }),
            frame_rmw(*old(self), *final(self)),
    {
        let addr = self.get_operand_address(mode);
        let v = self.mem_read(addr);
        self.update_flag(FLAG_CARRY, v & 1 != 0);
        let res = v >> 1;
        self.mem_write(addr, res);
        self.update_zero_and_negative_flags(res);
        res
    }

    /// ROL on the accumulator: the old Carry enters bit 0, Carry leaves
    /// from bit 7.
    pub fn rol_acc(&mut self)
        ensures
            ({
                let v = old(self).register_a;
                let res = if flag_set(old(self).status, FLAG_CARRY) {
                    (v << 1) | 1
                } else {
                    v << 1
                };
                &&& final(self).register_a == res
                &&& final(self).status == spec_zn(
                    upd_flag(old(self).status, FLAG_CARRY, v >= 0x80),
                    res,
                )
            }),
            frame_a(*old(self), *final(self)),
    {
        let v = self.register_a;
        let old_carry = self.get_flag(FLAG_CARRY);
        self.update_flag(FLAG_CARRY, v >= 0x80);
        let res = if old_carry {
            (v << 1) | 1
        } else {
            v << 1
        };
        self.register_a = res;
        self.update_zero_and_negative_flags(res);
    }

    /// ROL on memory.
    pub fn rol(&mut self, mode: AddressingMode) -> (r: u8)
        requires
            old(self).wf(),
            addressable(mode),
        ensures
            ({
                let addr = spec_operand_addr(old(self).state(), mode);
                let v = spec_operand(old(self).state(), mode);
                let res = if flag_set(old(self).status, FLAG_CARRY) {
                    (v << 1) | 1
                } else {
                    v << 1
                };
                &&& r == res
                &&& final(self).ram() == spec_write_at(old(self).ram(), addr, res)
                &&& final(self).status == spec_zn(
                    upd_flag(old(self).status, FLAG_CARRY, v >= 0x80),
                    res,
                )
                &&& final(self).halted == (old(self).halted || addr >= 0x8000)
            }),
            frame_rmw(*old(self), *final(self)),
    {
        let addr = self.get_operand_address(mode);
        let v = self.mem_read(addr);
        let old_carry = self.get_flag(FLAG_CARRY);
        self.update_flag(FLAG_CARRY, v >= 0x80);
        let res = if old_carry {
            (v << 1) | 1
        } else {
            v << 1
        };
        self.mem_write(addr, res);
        self.update_zero_and_negative_flags(res);
        res
    }

    /// ROR on the accumulator: the old Carry enters bit 7, Carry leaves
    /// from bit 0.
    pub fn ror_acc(&mut self)
        ensures
            ({
                let v = old(self).register_a;
                let res = if flag_set(old(self).status, FLAG_CARRY) {
                    (v >> 1) | 0x80
                } else {
                    v >> 1
                };
                &&& final(self).register_a == res
                &&& final(self).status == spec_zn(
                    upd_flag(old(self).status, FLAG_CARRY, v & 1 != 0),
                    res,
                )
            }),
            frame_a(*old(self), *final(self)),
    {
        let v = self.register_a;
        let old_carry = self.get_flag(FLAG_CARRY);
        self.update_flag(FLAG_CARRY, v & 1 != 0);
        let res = if old_carry {
            (v >> 1) | 0x80
        } else {
            v >> 1
        };
        self.register_a = res;
        self.update_zero_and_negative_flags(res);
    }

    /// ROR on memory.
    pub fn ror(&mut self, mode: AddressingMode) -> (r: u8)
        requires
            old(self).wf(),
            addressable(mode),
        ensures
            ({
                let addr = spec_operand_addr(old(self).state(), mode);
                let v = spec_operand(old(self).state(), mode);
                let res = if flag_set(old(self).status, FLAG_CARRY) {
                    (v >> 1) | 0x80
                } else {
                    v >> 1
                };
                &&& r == res
                &&& final(self).ram() == spec_write_at(old(self).ram(), addr, res)
                &&& final(self).status == spec_zn(
                    upd_flag(old(self).status, FLAG_CARRY, v & 1 != 0),
                    res,
                )
                &&& final(self).halted == (old(self).halted || addr >= 0x8000)
            }),
            frame_rmw(*old(self), *final(self)),
    {
        let addr = self.get_operand_address(mode);
        let v = self.mem_read(addr);
        let old_carry = self.get_flag(FLAG_CARRY);
        self.update_flag(FLAG_CARRY, v & 1 != 0);
        let res = if old_carry {
            (v >> 1) | 0x80
        } else {
            v >> 1
        };
        self.mem_write(addr, res);
        self.update_zero_and_negative_flags(res);
        res
    }
}

/// Where a taken branch at PC lands: the signed displacement at PC is
/// added to PC+1 (the +1 consumes the displacement byte).
pub open spec fn spec_branch_target(s: MachineState) -> u16 {
    let jump = s.read(s.pc) as i8;
    s.pc.wrapping_add(1).wrapping_add(jump as u16)
}

impl CPU {
    /// Branch core: if the condition holds, PC moves by the signed
    /// displacement; otherwise nothing changes.
    pub fn branch(&mut self, condition: bool)
        requires
            old(self).wf(),
        ensures
            final(self).wf(),
            final(self).program_counter == if condition {
                spec_branch_target(old(self).state())
            } else {
                old(self).program_counter
            },
            final(self).register_a == old(self).register_a,
            final(self).register_x == old(self).register_x,
            final(self).register_y == old(self).register_y,
            final(self).status == old(self).status,
            final(self).stack_ptr == old(self).stack_ptr,
            final(self).halted == old(self).halted,
            final(self).bus == old(self).bus,
    {
        if condition {
            let jump = self.mem_read(self.program_counter) as i8;
            let addr = self.program_counter.wrapping_add(1).wrapping_add(jump as u16);
            self.program_counter = addr;
        }
    }

    /// PHP: pushes P with Break and Unused forced on.
    pub fn php(&mut self)
        requires
            old(self).wf(),
        ensures
            final(self).wf(),
            final(self).ram() == old(self).ram().update(
                STACK_BASE + old(self).stack_ptr as int,
                old(self).status | FLAG_BREAK | FLAG_UNUSED,
            ),
            final(self).stack_ptr == old(self).stack_ptr.wrapping_sub(1),
            final(self).status == old(self).status,
            final(self).bus.rom == old(self).bus.rom,
            final(self).register_a == old(self).register_a,
            final(self).register_x == old(self).register_x,
            final(self).register_y == old(self).register_y,
            final(self).program_counter == old(self).program_counter,
            final(self).halted == old(self).halted,
    {
        let flags = self.status | FLAG_BREAK | FLAG_UNUSED;
        self.stack_push(flags);
    }

    /// PLA: pops into A; Z and N from the value.
    pub fn pla(&mut self)
        requires
            old(self).wf(),
        ensures
            final(self).wf(),
            ({
                let v = old(self).ram()[STACK_BASE + old(self).stack_ptr.wrapping_add(1) as int];
                &&& final(self).register_a == v
                &&& final(self).status == spec_zn(old(self).status, v)
            }),
            final(self).stack_ptr == old(self).stack_ptr.wrapping_add(1),
            final(self).bus == old(self).bus,
            final(self).register_x == old(self).register_x,
            final(self).register_y == old(self).register_y,
            final(self).program_counter == old(self).program_counter,
            final(self).halted == old(self).halted,
    {
        let v = self.stack_pop();
        self.register_a = v;
        self.update_zero_and_negative_flags(v);
    }

    /// PLP: pops into P, then forces Break off and Unused on.
    pub fn plp(&mut self)
        requires
            old(self).wf(),
        ensures
            final(self).wf(),
            final(self).status == (old(self).ram()[STACK_BASE + old(
                self,
            ).stack_ptr.wrapping_add(1) as int] & !FLAG_BREAK) | FLAG_UNUSED,
            final(self).stack_ptr == old(self).stack_ptr.wrapping_add(1),
            final(self).bus == old(self).bus,
            final(self).register_a == old(self).register_a,
            final(self).register_x == old(self).register_x,
            final(self).register_y == old(self).register_y,
            final(self).program_counter == old(self).program_counter,
            final(self).halted == old(self).halted,
    {
        let v = self.stack_pop();
        self.status = (v & !FLAG_BREAK) | FLAG_UNUSED;
    }

    /// TAX.
    pub fn tax(&mut self)
        ensures
            final(self).register_x == old(self).register_a,
            final(self).status == spec_zn(old(self).status, old(self).register_a),
            frame_x(*old(self), *final(self)),
    {
        self.register_x = self.register_a;
        let v = self.register_x;
        self.update_zero_and_negative_flags(v);
    }

    /// TAY.
    pub fn tay(&mut self)
        ensures
            final(self).register_y == old(self).register_a,
            final(self).status == spec_zn(old(self).status, old(self).register_a),
            frame_y(*old(self), *final(self)),
    {
        self.register_y = self.register_a;
        let v = self.register_y;
        self.update_zero_and_negative_flags(v);
    }

    /// TSX.
    pub fn tsx(&mut self)
        ensures
            final(self).register_x == old(self).stack_ptr,
            final(self).status == spec_zn(old(self).status, old(self).stack_ptr),
            frame_x(*old(self), *final(self)),
    {
        self.register_x = self.stack_ptr;
        let v = self.register_x;
        self.update_zero_and_negative_flags(v);
    }

    /// TXA.
    pub fn txa(&mut self)
        ensures
            final(self).register_a == old(self).register_x,
            final(self).status == spec_zn(old(self).status, old(self).register_x),
            frame_a(*old(self), *final(self)),
    {
        self.register_a = self.register_x;
        let v = self.register_a;
        self.update_zero_and_negative_flags(v);
    }

    /// TXS: no flag effect.
    pub fn txs(&mut self)
        ensures
            final(self).stack_ptr == old(self).register_x,
            final(self).register_a == old(self).register_a,
            final(self).register_x == old(self).register_x,
            final(self).register_y == old(self).register_y,
            final(self).status == old(self).status,
            final(self).program_counter == old(self).program_counter,
            final(self).halted == old(self).halted,
            final(self).bus == old(self).bus,
    {
        self.stack_ptr = self.register_x;
    }

    /// TYA.
    pub fn tya(&mut self)
        ensures
            final(self).register_a == old(self).register_y,
            final(self).status == spec_zn(old(self).status, old(self).register_y),
            frame_a(*old(self), *final(self)),
    {
        self.register_a = self.register_y;
        let v = self.register_a;
        self.update_zero_and_negative_flags(v);
    }
}

/// Where JMP indirect lands: the 16-bit pointer at PC is reread as a
/// 16-bit target, except that a pointer ending in 0xFF takes its high
/// byte from the start of the same page (the 6502 page-boundary bug).
pub open spec fn spec_jmp_indirect_target(s: MachineState) -> u16 {
    let ptr = s.read16(s.pc);
    if ptr % 0x100 == 0xff {
        (s.read(ptr) + 256 * s.read(((ptr / 0x100) * 0x100) as u16)) as u16
    } else {
        s.read16(ptr)
    }
}

impl CPU {
    /// JMP absolute: PC from the 16-bit operand.
    pub fn jmp_absolute(&mut self)
        requires
            old(self).wf(),
        ensures
            final(self).wf(),
            final(self).program_counter == old(self).spec_read16(old(self).program_counter),
            final(self).register_a == old(self).register_a,
            final(self).register_x == old(self).register_x,
            final(self).register_y == old(self).register_y,
            final(self).status == old(self).status,
            final(self).stack_ptr == old(self).stack_ptr,
            final(self).halted == old(self).halted,
            final(self).bus == old(self).bus,
    {
        let addr = self.mem_read_u16(self.program_counter);
        self.program_counter = addr;
    }

    /// JMP indirect, with the page-boundary bug kept.
    pub fn jmp_indirect(&mut self)
        requires
            old(self).wf(),
        ensures
            final(self).wf(),
            final(self).program_counter == spec_jmp_indirect_target(old(self).state()),
            final(self).register_a == old(self).register_a,
            final(self).register_x == old(self).register_x,
            final(self).register_y == old(self).register_y,
            final(self).status == old(self).status,
            final(self).stack_ptr == old(self).stack_ptr,
            final(self).halted == old(self).halted,
            final(self).bus == old(self).bus,
    {
        let ptr = self.mem_read_u16(self.program_counter);
        let target = if ptr % 0x100 == 0xff {
            let lo = self.mem_read(ptr);
            let hi = self.mem_read((ptr / 0x100) * 0x100);
            lo as u16 + 256 * (hi as u16)
        } else {
            self.mem_read_u16(ptr)
        };
        self.program_counter = target;
    }

    /// JSR: pushes the address of the last byte of the instruction
    /// (PC+1, with PC at the first operand byte), then jumps to the
    /// 16-bit operand, read after the push.
    pub fn jsr(&mut self)
        requires
            old(self).wf(),
        ensures
            final(self).wf(),
            ({
                let ret = old(self).program_counter.wrapping_add(1);
                let ram1 = old(self).ram().update(
                    STACK_BASE + old(self).stack_ptr as int,
                    (ret / 256) as u8,
                ).update(STACK_BASE + old(self).stack_ptr.wrapping_sub(1) as int, (ret % 256) as u8);
                &&& final(self).ram() == ram1
                &&& final(self).program_counter == spec_read16_at(
                    ram1,
                    old(self).prg(),
                    old(self).program_counter,
                )
            }),
            final(self).stack_ptr == old(self).stack_ptr.wrapping_sub(2),
            final(self).bus.rom == old(self).bus.rom,
            final(self).register_a == old(self).register_a,
            final(self).register_x == old(self).register_x,
            final(self).register_y == old(self).register_y,
            final(self).status == old(self).status,
            final(self).halted == old(self).halted,
    {
        let ret = self.program_counter.wrapping_add(1);
        self.stack_push_u16(ret);
        let target = self.mem_read_u16(self.program_counter);
        self.program_counter = target;
    }

    /// RTS: pops 16 bits (low then high) and adds 1.
    pub fn rts(&mut self)
        requires
            old(self).wf(),
        ensures
            final(self).wf(),
            final(self).program_counter == ((old(self).ram()[STACK_BASE + old(
                self,
            ).stack_ptr.wrapping_add(1) as int] + 256 * old(self).ram()[STACK_BASE + old(
                self,
            ).stack_ptr.wrapping_add(2) as int]) as u16).wrapping_add(1),
            final(self).stack_ptr == old(self).stack_ptr.wrapping_add(2),
            final(self).bus == old(self).bus,
            final(self).register_a == old(self).register_a,
            final(self).register_x == old(self).register_x,
            final(self).register_y == old(self).register_y,
            final(self).status == old(self).status,
            final(self).halted == old(self).halted,
    {
        let v = self.stack_pop_u16();
        self.program_counter = v.wrapping_add(1);
    }

    /// RTI: pops P (Break cleared, Unused set), then pops PC, with no
    /// added 1.
    pub fn rti(&mut self)
        requires
            old(self).wf(),
        ensures
            final(self).wf(),
            final(self).status == (old(self).ram()[STACK_BASE + old(
                self,
            ).stack_ptr.wrapping_add(1) as int] & !FLAG_BREAK) | FLAG_UNUSED,
            final(self).program_counter == (old(self).ram()[STACK_BASE + old(
                self,
            ).stack_ptr.wrapping_add(2) as int] + 256 * old(self).ram()[STACK_BASE + old(
                self,
            ).stack_ptr.wrapping_add(3) as int]) as u16,
            final(self).stack_ptr == old(self).stack_ptr.wrapping_add(3),
            final(self).bus == old(self).bus,
            final(self).register_a == old(self).register_a,
            final(self).register_x == old(self).register_x,
            final(self).register_y == old(self).register_y,
            final(self).halted == old(self).halted,
    {
        let v = self.stack_pop();
        self.status = (v & !FLAG_BREAK) | FLAG_UNUSED;
        let pc = self.stack_pop_u16();
        self.program_counter = pc;
    }

    /// BRK: pushes PC+1 and then P with Break set, sets
    /// InterruptDisable, and halts: this core treats BRK as program
    /// termination and does not follow the interrupt vector.
    pub fn brk(&mut self)
        requires
            old(self).wf(),
        ensures
            final(self).wf(),
            ({
                let ret = old(self).program_counter.wrapping_add(1);
                final(self).ram() == old(self).ram().update(
                    STACK_BASE + old(self).stack_ptr as int,
                    (ret / 256) as u8,
                ).update(
                    STACK_BASE + old(self).stack_ptr.wrapping_sub(1) as int,
                    (ret % 256) as u8,
                ).update(
                    STACK_BASE + old(self).stack_ptr.wrapping_sub(2) as int,
                    old(self).status | FLAG_BREAK,
                )
            }),
            final(self).stack_ptr == old(self).stack_ptr.wrapping_sub(3),
            final(self).status == old(self).status | FLAG_INTERRUPT_DISABLE,
            final(self).halted == true,
            final(self).program_counter == old(self).program_counter,
            final(self).bus.rom == old(self).bus.rom,
            final(self).register_a == old(self).register_a,
            final(self).register_x == old(self).register_x,
            final(self).register_y == old(self).register_y,
    {
        let ret = self.program_counter.wrapping_add(1);
        self.stack_push_u16(ret);
        let flags = self.status | FLAG_BREAK;
        self.stack_push(flags);
        self.set_flag(FLAG_INTERRUPT_DISABLE);
        self.halted = true;
    }

    /// LAX: loads the operand into both A and X.
    pub fn lax(&mut self, mode: AddressingMode)
        requires
            old(self).wf(),
            addressable(mode),
        ensures
            final(self).wf(),
            final(self).register_a == spec_operand(old(self).state(), mode),
            final(self).register_x == spec_operand(old(self).state(), mode),
            final(self).status == spec_zn(old(self).status, spec_operand(old(self).state(), mode)),
            final(self).register_y == old(self).register_y,
            final(self).program_counter == old(self).program_counter,
            final(self).stack_ptr == old(self).stack_ptr,
            final(self).halted == old(self).halted,
            final(self).bus == old(self).bus,
    {
        let addr = self.get_operand_address(mode);
        let value = self.mem_read(addr);
        self.register_a = value;
        self.register_x = value;
        self.update_zero_and_negative_flags(value);
    }

    /// SAX: stores A and X; no flag effect.
    pub fn sax(&mut self, mode: AddressingMode)
        requires
            old(self).wf(),
            addressable(mode),
        ensures
            ({
                let addr = spec_operand_addr(old(self).state(), mode);
                &&& final(self).ram() == spec_write_at(
                    old(self).ram(),
                    addr,
                    old(self).register_a & old(self).register_x,
                )
                &&& final(self).halted == (old(self).halted || addr >= 0x8000)
            }),
            final(self).status == old(self).status,
            frame_rmw(*old(self), *final(self)),
    {
        let addr = self.get_operand_address(mode);
        let v = self.register_a & self.register_x;
        self.mem_write(addr, v);
    }

    /// ANC: A and the operand, Z and N from the result, then Carry
    /// copies Negative.
    pub fn anc(&mut self, mode: AddressingMode)
        requires
            old(self).wf(),
            addressable(mode),
        ensures
            final(self).wf(),
            ({
                let r = old(self).register_a & spec_operand(old(self).state(), mode);
                let p1 = spec_zn(old(self).status, r);
                &&& final(self).register_a == r
                &&& final(self).status == upd_flag(p1, FLAG_CARRY, flag_set(p1, FLAG_NEGATIVE))
            }),
            frame_a(*old(self), *final(self)),
    {
        let addr = self.get_operand_address(mode);
        let value = self.mem_read(addr);
        let r = self.register_a & value;
        self.register_a = r;
        self.update_zero_and_negative_flags(r);
        let n = self.get_flag(FLAG_NEGATIVE);
        self.update_flag(FLAG_CARRY, n);
    }

    /// ALR (ASR): A and the operand, then LSR on the accumulator.
    pub fn alr(&mut self, mode: AddressingMode)
        requires
            old(self).wf(),
            addressable(mode),
        ensures
            final(self).wf(),
            ({
                let r = old(self).register_a & spec_operand(old(self).state(), mode);
                let p1 = spec_zn(old(self).status, r);
                &&& final(self).register_a == r >> 1
                &&& final(self).status == spec_zn(
                    upd_flag(p1, FLAG_CARRY, r & 1 != 0),
                    r >> 1,
                )
            }),
            frame_a(*old(self), *final(self)),
    {
        let addr = self.get_operand_address(mode);
        let value = self.mem_read(addr);
        let r = self.register_a & value;
        self.register_a = r;
        self.update_zero_and_negative_flags(r);
        self.lsr_acc();
    }

    /// ARR: A and the operand, ROR on the accumulator, then Carry from
    /// bit 6 and Overflow from bit 5 xor bit 6 of the result.
    pub fn arr(&mut self, mode: AddressingMode)
        requires
            old(self).wf(),
            addressable(mode),
        ensures
            final(self).wf(),
            ({
                let r = old(self).register_a & spec_operand(old(self).state(), mode);
                let p1 = spec_zn(old(self).status, r);
                let res = if flag_set(p1, FLAG_CARRY) {
                    (r >> 1) | 0x80
                } else {
                    r >> 1
                };
                let p2 = spec_zn(upd_flag(p1, FLAG_CARRY, r & 1 != 0), res);
                let p3 = upd_flag(p2, FLAG_CARRY, (res >> 6) & 1 == 1);
                &&& final(self).register_a == res
                &&& final(self).status == upd_flag(
                    p3,
                    FLAG_OVERFLOW,
                    ((res >> 5) & 1) ^ ((res >> 6) & 1) == 1,
                )
            }),
            frame_a(*old(self), *final(self)),
    {
        let addr = self.get_operand_address(mode);
        let value = self.mem_read(addr);
        let r = self.register_a & value;
        self.register_a = r;
        self.update_zero_and_negative_flags(r);
        self.ror_acc();
        let res = self.register_a;
        self.update_flag(FLAG_CARRY, (res >> 6) & 1 == 1);
        self.update_flag(FLAG_OVERFLOW, ((res >> 5) & 1) ^ ((res >> 6) & 1) == 1);
    }

    /// LXA (ATX): A and the operand into A and X; unstable on real
    /// hardware, implemented as the plain AND.
    pub fn lxa(&mut self, mode: AddressingMode)
        requires
            old(self).wf(),
            addressable(mode),
        ensures
            final(self).wf(),
            ({
                let r = old(self).register_a & spec_operand(old(self).state(), mode);
                &&& final(self).register_a == r
                &&& final(self).register_x == r
                &&& final(self).status == spec_zn(old(self).status, r)
            }),
            final(self).register_y == old(self).register_y,
            final(self).program_counter == old(self).program_counter,
            final(self).stack_ptr == old(self).stack_ptr,
            final(self).halted == old(self).halted,
            final(self).bus == old(self).bus,
    {
        let addr = self.get_operand_address(mode);
        let value = self.mem_read(addr);
        let r = self.register_a & value;
        self.register_a = r;
        self.register_x = r;
        self.update_zero_and_negative_flags(r);
    }

    /// XAA (ANE): A and the operand; unstable on real hardware,
    /// implemented as the plain AND.
    pub fn xaa(&mut self, mode: AddressingMode)
        requires
            old(self).wf(),
            addressable(mode),
        ensures
            final(self).wf(),
            final(self).register_a == (old(self).register_a & spec_operand(old(self).state(), mode)),
            final(self).status == spec_zn(
                old(self).status,
                old(self).register_a & spec_operand(old(self).state(), mode),
            ),
            frame_a(*old(self), *final(self)),
    {
        let addr = self.get_operand_address(mode);
        let value = self.mem_read(addr);
        let r = self.register_a & value;
        self.register_a = r;
        self.update_zero_and_negative_flags(r);
    }

    /// AXS (SBX): X gets (A and X) minus the operand, wrapping; Carry
    /// iff the operand does not exceed A and X; Z and N from the result.
    pub fn axs(&mut self, mode: AddressingMode)
        requires
            old(self).wf(),
            addressable(mode),
        ensures
            final(self).wf(),
            ({
                let m = spec_operand(old(self).state(), mode);
                let t = old(self).register_a & old(self).register_x;
                &&& final(self).register_x == t.wrapping_sub(m)
                &&& final(self).status == spec_compare(old(self).status, t, m)
            }),
            frame_x(*old(self), *final(self)),
    {
        let addr = self.get_operand_address(mode);
        let value = self.mem_read(addr);
        let t = self.register_a & self.register_x;
        let r = t.wrapping_sub(value);
        self.update_flag(FLAG_CARRY, value <= t);
        self.update_zero_and_negative_flags(r);
        self.register_x = r;
    }

    /// DCP: decrements the byte at the effective address, then compares
    /// A against it.
    pub fn dcp(&mut self, mode: AddressingMode)
        requires
            old(self).wf(),
            addressable(mode),
        ensures
            ({
                let addr = spec_operand_addr(old(self).state(), mode);
                let res = spec_operand(old(self).state(), mode).wrapping_sub(1);
                &&& final(self).ram() == spec_write_at(old(self).ram(), addr, res)
                &&& final(self).status == spec_compare(
                    old(self).status,
                    old(self).register_a,
                    res,
                )
                &&& final(self).halted == (old(self).halted || addr >= 0x8000)
            }),
            frame_rmw(*old(self), *final(self)),
    {
        let addr = self.get_operand_address(mode);
        let value = self.mem_read(addr);
        let res = value.wrapping_sub(1);
        self.mem_write(addr, res);
        let a = self.register_a;
        self.update_flag(FLAG_CARRY, res <= a);
        self.update_zero_and_negative_flags(a.wrapping_sub(res));
    }

    /// ISC (ISB): increments the byte at the effective address, then
    /// subtracts it from A as SBC does.
    pub fn isc(&mut self, mode: AddressingMode)
        requires
            old(self).wf(),
            addressable(mode),
        ensures
            ({
                let addr = spec_operand_addr(old(self).state(), mode);
                let res = spec_operand(old(self).state(), mode).wrapping_add(1);
                &&& final(self).ram() == spec_write_at(old(self).ram(), addr, res)
                &&& final(self).register_a == spec_adc(
                    old(self).register_a,
                    old(self).status,
                    res ^ 0xff,
                ).0
                &&& final(self).status == spec_adc(
                    old(self).register_a,
                    old(self).status,
                    res ^ 0xff,
                ).1
                &&& final(self).halted == (old(self).halted || addr >= 0x8000)
            }),
            final(self).register_x == old(self).register_x,
            final(self).register_y == old(self).register_y,
            final(self).program_counter == old(self).program_counter,
            final(self).stack_ptr == old(self).stack_ptr,
            final(self).bus.rom == old(self).bus.rom,
            final(self).wf(),
    {
        let addr = self.get_operand_address(mode);
        let value = self.mem_read(addr);
        let res = value.wrapping_add(1);
        self.mem_write(addr, res);
        self.add_to_register_a(res ^ 0xff);
    }

    /// SLO (ASO): ASL on memory, then ORA with the shifted byte.
    pub fn slo(&mut self, mode: AddressingMode)
        requires
            old(self).wf(),
            addressable(mode),
        ensures
            ({
                let addr = spec_operand_addr(old(self).state(), mode);
                let v = spec_operand(old(self).state(), mode);
                let res = v << 1;
                let p1 = spec_zn(upd_flag(old(self).status, FLAG_CARRY, v >= 0x80), res);
                &&& final(self).ram() == spec_write_at(old(self).ram(), addr, res)
                &&& final(self).register_a == (old(self).register_a | res)
                &&& final(self).status == spec_zn(p1, old(self).register_a | res)
                &&& final(self).halted == (old(self).halted || addr >= 0x8000)
            }),
            final(self).register_x == old(self).register_x,
            final(self).register_y == old(self).register_y,
            final(self).program_counter == old(self).program_counter,
            final(self).stack_ptr == old(self).stack_ptr,
            final(self).bus.rom == old(self).bus.rom,
            final(self).wf(),
    {
        let data = self.asl(mode);
        let r = self.register_a | data;
        self.register_a = r;
        self.update_zero_and_negative_flags(r);
    }

    /// RLA: ROL on memory, then AND with the rotated byte.
    pub fn rla(&mut self, mode: AddressingMode)
        requires
            old(self).wf(),
            addressable(mode),
        ensures
            ({
                let addr = spec_operand_addr(old(self).state(), mode);
                let v = spec_operand(old(self).state(), mode);
                let res = if flag_set(old(self).status, FLAG_CARRY) {
                    (v << 1) | 1
                } else {
                    v << 1
                };
                let p1 = spec_zn(upd_flag(old(self).status, FLAG_CARRY, v >= 0x80), res);
                &&& final(self).ram() == spec_write_at(old(self).ram(), addr, res)
                &&& final(self).register_a == (old(self).register_a & res)
                &&& final(self).status == spec_zn(p1, old(self).register_a & res)
                &&& final(self).halted == (old(self).halted || addr >= 0x8000)
            }),
            final(self).register_x == old(self).register_x,
            final(self).register_y == old(self).register_y,
            final(self).program_counter == old(self).program_counter,
            final(self).stack_ptr == old(self).stack_ptr,
            final(self).bus.rom == old(self).bus.rom,
            final(self).wf(),
    {
        let data = self.rol(mode);
        let r = self.register_a & data;
        self.register_a = r;
        self.update_zero_and_negative_flags(r);
    }

    /// SRE (LSE): LSR on memory, then EOR with the shifted byte.
    pub fn sre(&mut self, mode: AddressingMode)
        requires
            old(self).wf(),
            addressable(mode),
        ensures
            ({
                let addr = spec_operand_addr(old(self).state(), mode);
                let v = spec_operand(old(self).state(), mode);
                let res = v >> 1;
                let p1 = spec_zn(upd_flag(old(self).status, FLAG_CARRY, v & 1 != 0), res);
                &&& final(self).ram() == spec_write_at(old(self).ram(), addr, res)
                &&& final(self).register_a == (old(self).register_a ^ res)
                &&& final(self).status == spec_zn(p1, old(self).register_a ^ res)
                &&& final(self).halted == (old(self).halted || addr >= 0x8000)
            }),
            final(self).register_x == old(self).register_x,
            final(self).register_y == old(self).register_y,
            final(self).program_counter == old(self).program_counter,
            final(self).stack_ptr == old(self).stack_ptr,
            final(self).bus.rom == old(self).bus.rom,
            final(self).wf(),
    {
        let data = self.lsr(mode);
        let r = self.register_a ^ data;
        self.register_a = r;
        self.update_zero_and_negative_flags(r);
    }

    /// RRA: ROR on memory, then ADC with the rotated byte, using the
    /// carry the rotation produced.
    pub fn rra(&mut self, mode: AddressingMode)
        requires
            old(self).wf(),
            addressable(mode),
        ensures
            ({
                let addr = spec_operand_addr(old(self).state(), mode);
                let v = spec_operand(old(self).state(), mode);
                let res = if flag_set(old(self).status, FLAG_CARRY) {
                    (v >> 1) | 0x80
                } else {
                    v >> 1
                };
                let p1 = spec_zn(upd_flag(old(self).status, FLAG_CARRY, v & 1 != 0), res);
                &&& final(self).ram() == spec_write_at(old(self).ram(), addr, res)
                &&& final(self).register_a == spec_adc(old(self).register_a, p1, res).0
                &&& final(self).status == spec_adc(old(self).register_a, p1, res).1
                &&& final(self).halted == (old(self).halted || addr >= 0x8000)
            }),
            final(self).register_x == old(self).register_x,
            final(self).register_y == old(self).register_y,
            final(self).program_counter == old(self).program_counter,
            final(self).stack_ptr == old(self).stack_ptr,
            final(self).bus.rom == old(self).bus.rom,
            final(self).wf(),
    {
        let data = self.ror(mode);
        self.add_to_register_a(data);
    }

    /// LAS (LAR): the operand and S; the result goes to A, X and S.
    pub fn las(&mut self, mode: AddressingMode)
        requires
            old(self).wf(),
            addressable(mode),
        ensures
            final(self).wf(),
            ({
                let r = spec_operand(old(self).state(), mode) & old(self).stack_ptr;
                &&& final(self).register_a == r
                &&& final(self).register_x == r
                &&& final(self).stack_ptr == r
                &&& final(self).status == spec_zn(old(self).status, r)
            }),
            final(self).register_y == old(self).register_y,
            final(self).program_counter == old(self).program_counter,
            final(self).halted == old(self).halted,
            final(self).bus == old(self).bus,
    {
        let addr = self.get_operand_address(mode);
        let value = self.mem_read(addr);
        let r = value & self.stack_ptr;
        self.register_a = r;
        self.register_x = r;
        self.stack_ptr = r;
        self.update_zero_and_negative_flags(r);
    }

    /// SHA (AXA): stores A and X and (high byte of the effective address
    /// plus one).
    pub fn sha(&mut self, mode: AddressingMode)
        requires
            old(self).wf(),
            addressable(mode),
        ensures
            ({
                let addr = spec_operand_addr(old(self).state(), mode);
                let data = old(self).register_a & old(self).register_x & ((addr >> 8) as u8).wrapping_add(1);
                &&& final(self).ram() == spec_write_at(old(self).ram(), addr, data)
                &&& final(self).halted == (old(self).halted || addr >= 0x8000)
            }),
            final(self).status == old(self).status,
            frame_rmw(*old(self), *final(self)),
    {
        let addr = self.get_operand_address(mode);
        let data = self.register_a & self.register_x & ((addr >> 8) as u8).wrapping_add(1);
        self.mem_write(addr, data);
    }

    /// SHX (SXA): stores X and (high byte of the effective address plus
    /// one).
    pub fn shx(&mut self, mode: AddressingMode)
        requires
            old(self).wf(),
            addressable(mode),
        ensures
            ({
                let addr = spec_operand_addr(old(self).state(), mode);
                let data = old(self).register_x & ((addr >> 8) as u8).wrapping_add(1);
                &&& final(self).ram() == spec_write_at(old(self).ram(), addr, data)
                &&& final(self).halted == (old(self).halted || addr >= 0x8000)
            }),
            final(self).status == old(self).status,
            frame_rmw(*old(self), *final(self)),
    {
        let addr = self.get_operand_address(mode);
        let data = self.register_x & ((addr >> 8) as u8).wrapping_add(1);
        self.mem_write(addr, data);
    }

    /// SHY (SYA): stores Y and (high byte of the effective address plus
    /// one).
    pub fn shy(&mut self, mode: AddressingMode)
        requires
            old(self).wf(),
            addressable(mode),
        ensures
            ({
                let addr = spec_operand_addr(old(self).state(), mode);
                let data = old(self).register_y & ((addr >> 8) as u8).wrapping_add(1);
                &&& final(self).ram() == spec_write_at(old(self).ram(), addr, data)
                &&& final(self).halted == (old(self).halted || addr >= 0x8000)
            }),
            final(self).status == old(self).status,
            frame_rmw(*old(self), *final(self)),
    {
        let addr = self.get_operand_address(mode);
        let data = self.register_y & ((addr >> 8) as u8).wrapping_add(1);
        self.mem_write(addr, data);
    }

    /// TAS (SHS): S gets A and X, then stores S and (high byte of the
    /// effective address plus one).
    pub fn tas(&mut self, mode: AddressingMode)
        requires
            old(self).wf(),
            addressable(mode),
        ensures
            ({
                let addr = spec_operand_addr(old(self).state(), mode);
                let sp = old(self).register_a & old(self).register_x;
                let data = sp & ((addr >> 8) as u8).wrapping_add(1);
                &&& final(self).stack_ptr == sp
                &&& final(self).ram() == spec_write_at(old(self).ram(), addr, data)
                &&& final(self).halted == (old(self).halted || addr >= 0x8000)
            }),
            final(self).status == old(self).status,
            final(self).register_a == old(self).register_a,
            final(self).register_x == old(self).register_x,
            final(self).register_y == old(self).register_y,
            final(self).program_counter == old(self).program_counter,
            final(self).bus.rom == old(self).bus.rom,
            final(self).wf(),
    {
        let addr = self.get_operand_address(mode);
        let sp = self.register_a & self.register_x;
        self.stack_ptr = sp;
        let data = sp & ((addr >> 8) as u8).wrapping_add(1);
        self.mem_write(addr, data);
    }

    /// NOP with an operand fetch (DOP and TOP): the operand is read for
    /// its bus access and discarded.
    pub fn nop_read(&mut self, mode: AddressingMode)
        requires
            old(self).wf(),
            addressable(mode),
        ensures
            final(self).register_a == old(self).register_a,
            final(self).register_x == old(self).register_x,
            final(self).register_y == old(self).register_y,
            final(self).status == old(self).status,
            final(self).program_counter == old(self).program_counter,
            final(self).stack_ptr == old(self).stack_ptr,
            final(self).halted == old(self).halted,
            final(self).bus == old(self).bus,
    {
        let addr = self.get_operand_address(mode);
        let _data = self.mem_read(addr);
    }

    /// KIL: halts the CPU.
    pub fn kil(&mut self)
        ensures
            final(self).halted == true,
            final(self).register_a == old(self).register_a,
            final(self).register_x == old(self).register_x,
            final(self).register_y == old(self).register_y,
            final(self).status == old(self).status,
            final(self).program_counter == old(self).program_counter,
            final(self).stack_ptr == old(self).stack_ptr,
            final(self).bus == old(self).bus,
    {
        self.halted = true;
    }

    /// Executes a load or store instruction.
    fn op_load_store(&mut self, opcode: u8, mode: AddressingMode)
        requires
            old(self).wf(),
            mode == spec_opcode_mode(opcode),
        ensures
            final(self).wf(),
            final(self).bus.rom == old(self).bus.rom,
            old(self).halted ==> final(self).halted,
            final(self).state() == eff_load_store(old(self).state(), opcode, mode),
    {
        match opcode {
            0xa9 | 0xa5 | 0xb5 | 0xad | 0xbd | 0xb9 | 0xa1 | 0xb1 => self.lda(mode),
            0xa2 | 0xa6 | 0xb6 | 0xae | 0xbe => self.ldx(mode),
            0xa0 | 0xa4 | 0xb4 | 0xac | 0xbc => self.ldy(mode),
            0x85 | 0x95 | 0x8d | 0x9d | 0x99 | 0x81 | 0x91 => self.sta(mode),
            0x86 | 0x96 | 0x8e => self.stx(mode),
            0x84 | 0x94 | 0x8c => self.sty(mode),
            _ => {},
        }
    }

    /// Executes an arithmetic, logic, bit-test or compare instruction.
    fn op_alu(&mut self, opcode: u8, mode: AddressingMode)
        requires
            old(self).wf(),
            mode == spec_opcode_mode(opcode),
        ensures
            final(self).wf(),
            final(self).bus.rom == old(self).bus.rom,
            old(self).halted ==> final(self).halted,
            final(self).state() == eff_alu(old(self).state(), opcode, mode),
    {
        match opcode {
            0x69 | 0x65 | 0x75 | 0x6d | 0x7d | 0x79 | 0x61 | 0x71 => self.adc(mode),
            0xe9 | 0xe5 | 0xf5 | 0xed | 0xfd | 0xf9 | 0xe1 | 0xf1 => self.sbc(mode),
            0x29 | 0x25 | 0x35 | 0x2d | 0x3d | 0x39 | 0x21 | 0x31 => self.and(mode),
            0x49 | 0x45 | 0x55 | 0x4d | 0x5d | 0x59 | 0x41 | 0x51 => self.eor(mode),
            0x09 | 0x05 | 0x15 | 0x0d | 0x1d | 0x19 | 0x01 | 0x11 => self.ora(mode),
            0x24 | 0x2c => self.bit(mode),
            0xc9 | 0xc5 | 0xd5 | 0xcd | 0xdd | 0xd9 | 0xc1 | 0xd1 => {
                let a = self.register_a;
                self.compare(mode, a);
            },
            0xe0 | 0xe4 | 0xec => {
                let x = self.register_x;
                self.compare(mode, x);
            },
            0xc0 | 0xc4 | 0xcc => {
                let y = self.register_y;
                self.compare(mode, y);
            },
            _ => {},
        }
    }

    /// Executes a read-modify-write instruction on memory.
    fn op_rmw(&mut self, opcode: u8, mode: AddressingMode)
        requires
            old(self).wf(),
            mode == spec_opcode_mode(opcode),
        ensures
            final(self).wf(),
            final(self).bus.rom == old(self).bus.rom,
            old(self).halted ==> final(self).halted,
            final(self).state() == eff_rmw(old(self).state(), opcode, mode),
    {
        match opcode {
            0x06 | 0x16 | 0x0e | 0x1e => {
                self.asl(mode);
            },
            0x46 | 0x56 | 0x4e | 0x5e => {
                self.lsr(mode);
            },
            0x26 | 0x36 | 0x2e | 0x3e => {
                self.rol(mode);
            },
            0x66 | 0x76 | 0x6e | 0x7e => {
                self.ror(mode);
            },
            0xe6 | 0xf6 | 0xee | 0xfe => {
                self.inc(mode);
            },
            0xc6 | 0xd6 | 0xce | 0xde => {
                self.dec(mode);
            },
            _ => {},
        }
    }

    /// Executes a branch, jump, subroutine, interrupt-return or stack
    /// instruction.
    fn op_control(&mut self, opcode: u8)
        requires
            old(self).wf(),
        ensures
            final(self).wf(),
            final(self).bus.rom == old(self).bus.rom,
            old(self).halted ==> final(self).halted,
            final(self).state() == eff_control(old(self).state(), opcode),
            opcode == 0x00 ==> final(self).halted,
    {
        match opcode {
            0x90 => {
                let c = !self.get_flag(FLAG_CARRY);
                self.branch(c);
            },
            0xb0 => {
                let c = self.get_flag(FLAG_CARRY);
                self.branch(c);
            },
            0x10 => {
                let c = !self.get_flag(FLAG_NEGATIVE);
                self.branch(c);
            },
            0x30 => {
                let c = self.get_flag(FLAG_NEGATIVE);
                self.branch(c);
            },
            0x50 => {
                let c = !self.get_flag(FLAG_OVERFLOW);
                self.branch(c);
            },
            0x70 => {
                let c = self.get_flag(FLAG_OVERFLOW);
                self.branch(c);
            },
            0xd0 => {
                let c = !self.get_flag(FLAG_ZERO);
                self.branch(c);
            },
            0xf0 => {
                let c = self.get_flag(FLAG_ZERO);
                self.branch(c);
            },
            0x00 => self.brk(),
            0x4c => self.jmp_absolute(),
            0x6c => self.jmp_indirect(),
            0x20 => self.jsr(),
            0x60 => self.rts(),
            0x40 => self.rti(),
            0x48 => {
                let a = self.register_a;
                self.stack_push(a);
            },
            0x08 => self.php(),
            0x68 => self.pla(),
            0x28 => self.plp(),
            _ => {},
        }
    }

    /// Executes an implied-operand instruction: flag changes, register
    /// transfers, register increments, accumulator shifts, plain NOPs
    /// and the KIL family.
    fn op_implied(&mut self, opcode: u8)
        requires
            old(self).wf(),
        ensures
            final(self).wf(),
            final(self).bus.rom == old(self).bus.rom,
            old(self).halted ==> final(self).halted,
            final(self).state() == eff_implied(old(self).state(), opcode),
            (opcode == 0x02 || opcode == 0x12 || opcode == 0x22 || opcode == 0x32 || opcode
                == 0x42 || opcode == 0x52 || opcode == 0x62 || opcode == 0x72 || opcode == 0x92
                || opcode == 0xb2 || opcode == 0xd2 || opcode == 0xf2) ==> final(self).halted,
    {
        match opcode {
            0x18 => self.clear_flag(FLAG_CARRY),
            0x38 => self.set_flag(FLAG_CARRY),
            0x58 => self.clear_flag(FLAG_INTERRUPT_DISABLE),
            0x78 => self.set_flag(FLAG_INTERRUPT_DISABLE),
            0xb8 => self.clear_flag(FLAG_OVERFLOW),
            0xd8 => self.clear_flag(FLAG_DECIMAL_MODE),
            0xf8 => self.set_flag(FLAG_DECIMAL_MODE),
            0xaa => self.tax(),
            0xa8 => self.tay(),
            0xba => self.tsx(),
            0x8a => self.txa(),
            0x9a => self.txs(),
            0x98 => self.tya(),
            0xe8 => self.inx(),
            0xc8 => self.iny(),
            0xca => self.dex(),
            0x88 => self.dey(),
            0x0a => self.asl_acc(),
            0x4a => self.lsr_acc(),
            0x2a => self.rol_acc(),
            0x6a => self.ror_acc(),
            0xea | 0x1a | 0x3a | 0x5a | 0x7a | 0xda | 0xfa => {},
            0x02 | 0x12 | 0x22 | 0x32 | 0x42 | 0x52 | 0x62 | 0x72 | 0x92 | 0xb2 | 0xd2 | 0xf2 => {
                self.kil();
            },
            _ => {},
        }
    }

    /// Executes an unofficial instruction that targets the registers.
    fn op_unofficial_reg(&mut self, opcode: u8, mode: AddressingMode)
        requires
            old(self).wf(),
            mode == spec_opcode_mode(opcode),
        ensures
            final(self).wf(),
            final(self).bus.rom == old(self).bus.rom,
            old(self).halted ==> final(self).halted,
            final(self).state() == eff_unofficial_reg(old(self).state(), opcode, mode),
    {
        match opcode {
            0x0b | 0x2b => self.anc(mode),
            0x6b => self.arr(mode),
            0x4b => self.alr(mode),
            0xab => self.lxa(mode),
            0x8b => self.xaa(mode),
            0xcb => self.axs(mode),
            0xeb => self.sbc(mode),
            0xbb => self.las(mode),
            0xa7 | 0xb7 | 0xaf | 0xbf | 0xa3 | 0xb3 => self.lax(mode),
            0x87 | 0x97 | 0x83 | 0x8f => self.sax(mode),
            0x9f | 0x93 => self.sha(mode),
            0x9e => self.shx(mode),
            0x9c => self.shy(mode),
            0x9b => self.tas(mode),
            _ => {},
        }
    }

    /// Executes an unofficial read-modify-write instruction or a NOP
    /// with an operand fetch.
    fn op_unofficial_rmw(&mut self, opcode: u8, mode: AddressingMode)
        requires
            old(self).wf(),
            mode == spec_opcode_mode(opcode),
        ensures
            final(self).wf(),
            final(self).bus.rom == old(self).bus.rom,
            old(self).halted ==> final(self).halted,
            final(self).state() == eff_unofficial_rmw(old(self).state(), opcode, mode),
    {
        match opcode {
            0xc7 | 0xd7 | 0xcf | 0xdf | 0xdb | 0xc3 | 0xd3 => self.dcp(mode),
            0xe7 | 0xf7 | 0xef | 0xff | 0xfb | 0xe3 | 0xf3 => self.isc(mode),
            0x07 | 0x17 | 0x0f | 0x1f | 0x1b | 0x03 | 0x13 => self.slo(mode),
            0x27 | 0x37 | 0x2f | 0x3f | 0x3b | 0x23 | 0x33 => self.rla(mode),
            0x47 | 0x57 | 0x4f | 0x5f | 0x5b | 0x43 | 0x53 => self.sre(mode),
            0x67 | 0x77 | 0x6f | 0x7f | 0x7b | 0x63 | 0x73 => self.rra(mode),
            0x04 | 0x14 | 0x34 | 0x44 | 0x54 | 0x64 | 0x74 | 0x80 | 0x82 | 0x89 | 0xc2 | 0xd4
                | 0xe2 | 0xf4 => self.nop_read(mode),
            0x0c | 0x1c | 0x3c | 0x5c | 0x7c | 0xdc | 0xfc => self.nop_read(mode),
            _ => {},
        }
    }

    /// One instruction: fetch the opcode at PC, advance PC past it,
    /// dispatch through the decode table, then advance PC by the rest of
    /// the instruction length unless the instruction wrote to PC itself.
    /// The router match below covers all 256 opcodes without a wildcard.
    /// Program ROM is never written: a store aimed at it halts the CPU.
    pub fn step(&mut self)
        requires
            old(self).wf(),
        ensures
            final(self).wf(),
            final(self).state() == spec_step(old(self).state()),
            final(self).bus.rom == old(self).bus.rom,
            old(self).halted ==> final(self).halted,
            ({
                let op = old(self).spec_read(old(self).program_counter);
                (op == 0x00 || op == 0x02 || op == 0x12 || op == 0x22 || op == 0x32 || op == 0x42
                    || op == 0x52 || op == 0x62 || op == 0x72 || op == 0x92 || op == 0xb2 || op
                    == 0xd2 || op == 0xf2) ==> final(self).halted
            }),
    {
        let opcode = self.mem_read(self.program_counter);
        self.program_counter = self.program_counter.wrapping_add(1);
        let pc_state = self.program_counter;
        let mode = opcode_mode(opcode);
        match opcode {
            0xa9 | 0xa5 | 0xb5 | 0xad | 0xbd | 0xb9 | 0xa1 | 0xb1 | 0xa2 | 0xa6 | 0xb6 | 0xae
                | 0xbe | 0xa0 | 0xa4 | 0xb4 | 0xac | 0xbc | 0x85 | 0x95 | 0x8d | 0x9d | 0x99
                | 0x81 | 0x91 | 0x86 | 0x96 | 0x8e | 0x84 | 0x94 | 0x8c => {
                self.op_load_store(opcode, mode);
            },
            0x69 | 0x65 | 0x75 | 0x6d | 0x7d | 0x79 | 0x61 | 0x71 | 0xe9 | 0xe5 | 0xf5 | 0xed
                | 0xfd | 0xf9 | 0xe1 | 0xf1 | 0x29 | 0x25 | 0x35 | 0x2d | 0x3d | 0x39 | 0x21
                | 0x31 | 0x49 | 0x45 | 0x55 | 0x4d | 0x5d | 0x59 | 0x41 | 0x51 | 0x09 | 0x05
                | 0x15 | 0x0d | 0x1d | 0x19 | 0x01 | 0x11 | 0x24 | 0x2c | 0xc9 | 0xc5 | 0xd5
                | 0xcd | 0xdd | 0xd9 | 0xc1 | 0xd1 | 0xe0 | 0xe4 | 0xec | 0xc0 | 0xc4 | 0xcc => {
                self.op_alu(opcode, mode);
            },
            0x06 | 0x16 | 0x0e | 0x1e | 0x46 | 0x56 | 0x4e | 0x5e | 0x26 | 0x36 | 0x2e | 0x3e
                | 0x66 | 0x76 | 0x6e | 0x7e | 0xe6 | 0xf6 | 0xee | 0xfe | 0xc6 | 0xd6 | 0xce
                | 0xde => {
                self.op_rmw(opcode, mode);
            },
            0x90 | 0xb0 | 0x10 | 0x30 | 0x50 | 0x70 | 0xd0 | 0xf0 | 0x00 | 0x4c | 0x6c | 0x20
                | 0x60 | 0x40 | 0x48 | 0x08 | 0x68 | 0x28 => {
                self.op_control(opcode);
            },
            0x18 | 0x38 | 0x58 | 0x78 | 0xb8 | 0xd8 | 0xf8 | 0xaa | 0xa8 | 0xba | 0x8a | 0x9a
                | 0x98 | 0xe8 | 0xc8 | 0xca | 0x88 | 0xea | 0x1a | 0x3a | 0x5a | 0x7a | 0xda
                | 0xfa | 0x0a | 0x4a | 0x2a | 0x6a | 0x02 | 0x12 | 0x22 | 0x32 | 0x42 | 0x52
                | 0x62 | 0x72 | 0x92 | 0xb2 | 0xd2 | 0xf2 => {
                self.op_implied(opcode);
            },
            0x0b | 0x2b | 0x6b | 0x4b | 0xab | 0x8b | 0xcb | 0xeb | 0xbb | 0xa7 | 0xb7 | 0xaf
                | 0xbf | 0xa3 | 0xb3 | 0x87 | 0x97 | 0x83 | 0x8f | 0x9f | 0x93 | 0x9e | 0x9c
                | 0x9b => {
                self.op_unofficial_reg(opcode, mode);
            },
            0xc7 | 0xd7 | 0xcf | 0xdf | 0xdb | 0xc3 | 0xd3 | 0xe7 | 0xf7 | 0xef | 0xff | 0xfb
                | 0xe3 | 0xf3 | 0x07 | 0x17 | 0x0f | 0x1f | 0x1b | 0x03 | 0x13 | 0x27 | 0x37
                | 0x2f | 0x3f | 0x3b | 0x23 | 0x33 | 0x47 | 0x57 | 0x4f | 0x5f | 0x5b | 0x43
                | 0x53 | 0x67 | 0x77 | 0x6f | 0x7f | 0x7b | 0x63 | 0x73 | 0x04 | 0x14 | 0x34
                | 0x44 | 0x54 | 0x64 | 0x74 | 0x80 | 0x82 | 0x89 | 0xc2 | 0xd4 | 0xe2 | 0xf4
                | 0x0c | 0x1c | 0x3c | 0x5c | 0x7c | 0xdc | 0xfc => {
                self.op_unofficial_rmw(opcode, mode);
            },
        }
        if pc_state == self.program_counter {
            let l = mode_len(mode);
            self.program_counter = self.program_counter.wrapping_add((l - 1) as u16);
        }
    }

    /// Steps until the CPU halts, or until `fuel` instructions have
    /// run. Returns whether the CPU has halted.
    pub fn run_for(&mut self, fuel: u64) -> (halted: bool)
        requires
            old(self).wf(),
        ensures
            final(self).wf(),
            final(self).state() == spec_run(old(self).state(), fuel as nat),
            final(self).bus.rom == old(self).bus.rom,
            halted == final(self).halted,
            old(self).halted ==> final(self).halted,
    {
        let ghost s0 = self.state();
        let ghost rom0 = self.bus.rom;
        let ghost halted0 = self.halted;
        let mut i: u64 = 0;
        while i < fuel && !self.halted
            invariant
                self.wf(),
                self.bus.rom == rom0,
                halted0 ==> self.halted,
                i <= fuel,
                spec_run(s0, fuel as nat) == spec_run(self.state(), (fuel - i) as nat),
            decreases fuel - i,
        {
            proof {
                assert(spec_run(self.state(), (fuel - i) as nat) == spec_run(
                    spec_step(self.state()),
                    (fuel - i - 1) as nat,
                ));
            }
            self.step();
            i = i + 1;
        }
        proof {
            assert(spec_run(self.state(), (fuel - i) as nat) == self.state());
        }
        self.halted
    }

    /// Runs the fetch-decode-execute loop until BRK or a KIL-class
    /// opcode halts the CPU (with a practically unreachable instruction
    /// bound so that every run is finite).
    pub fn run(&mut self)
        requires
            old(self).wf(),
        ensures
            final(self).wf(),
            final(self).state() == spec_run(old(self).state(), u64::MAX as nat),
            final(self).bus.rom == old(self).bus.rom,
    {
        self.run_for(u64::MAX);
    }

    /// Writes the program at 0x0600, resets, points PC at the program,
    /// and runs until halted.
    pub fn load_and_run(&mut self, program: Vec<u8>)
        requires
            old(self).wf(),
            program@.len() <= 0x200,
        ensures
            final(self).wf(),
            final(self).bus.rom == old(self).bus.rom,
            final(self).state() == spec_run(
                (MachineState {
                    a: 0,
                    x: 0,
                    y: 0,
                    p: STATUS_RESET,
                    pc: PROGRAM_START,
                    sp: STACK_RESET,
                    halted: false,
                    ram: spec_load_ram(old(self).ram(), program@),
                    prg: old(self).prg(),
                }),
                u64::MAX as nat,
            ),
    {
        let ghost ram0 = self.ram();
        let ghost prg0 = self.prg();
        self.load(program);
        self.reset();
        self.program_counter = PROGRAM_START;
        proof {
            assert(self.state() == (MachineState {
                a: 0,
                x: 0,
                y: 0,
                p: STATUS_RESET,
                pc: PROGRAM_START,
                sp: STACK_RESET,
                halted: false,
                ram: spec_load_ram(ram0, program@),
                prg: prg0,
            }));
        }
        self.run();
    }
}

/// Flag update law: after Zero and Negative are set from a value, the
/// Zero flag holds exactly when the value is 0, and the Negative flag
/// holds exactly the value's bit 7; no other flag moves.
pub proof fn lemma_update_zn(p: u8, v: u8)
    by (bit_vector)
    ensures
        flag_set(spec_zn(p, v), FLAG_ZERO) == (v == 0),
        flag_set(spec_zn(p, v), FLAG_NEGATIVE) == (v >> 7 == 1),
        spec_zn(p, v) & !(FLAG_ZERO | FLAG_NEGATIVE) == p & !(FLAG_ZERO | FLAG_NEGATIVE),
{
}

/// ADC/SBC duality law: from the same starting accumulator and status,
/// SBC of the bitwise complement of a byte leaves exactly the
/// accumulator and flags that ADC of the byte itself leaves. SBC of an
/// operand is ADC of the operand's complement (`spec_adc(a, p, x ^
/// 0xFF)` is the SBC contract), so the two sides below are ADC(m) and
/// SBC(m XOR 0xFF).
pub proof fn lemma_adc_sbc_duality(a: u8, p: u8, m: u8)
    ensures
        spec_adc(a, p, (m ^ 0xff) ^ 0xff) == spec_adc(a, p, m),
{
    assert((m ^ 0xff) ^ 0xff == m) by (bit_vector);
}

/// A push followed by a pop returns the byte just pushed and restores
/// the stack pointer, and memory is unchanged everywhere but in the one
/// cell the push used.
pub proof fn lemma_stack_push_pop(ram: Seq<u8>, sp: u8, data: u8)
    requires
        ram.len() == 0x800,
    ensures
        ({
            let (ram1, sp1) = spec_stack_push(ram, sp, data);
            let (v, sp2) = spec_stack_pop(ram1, sp1);
            &&& v == data
            &&& sp2 == sp
            &&& forall|j: int| 0 <= j < 0x800 && j != STACK_BASE + sp ==> ram1[j] == ram[j]
        }),
{
}

/// How many of a sequence of stack operations are pushes; `Some` is a
/// push carrying its byte, `None` is a pop.
pub open spec fn count_pushes(ops: Seq<Option<u8>>) -> int
    decreases ops.len(),
{
    if ops.len() == 0 {
        0
    } else {
        (if ops[0] is Some {
            1int
        } else {
            0int
        }) + count_pushes(ops.skip(1))
    }
}

/// How many of a sequence of stack operations are pops.
pub open spec fn count_pops(ops: Seq<Option<u8>>) -> int
    decreases ops.len(),
{
    if ops.len() == 0 {
        0
    } else {
        (if ops[0] is None {
            1int
        } else {
            0int
        }) + count_pops(ops.skip(1))
    }
}

/// The RAM and stack pointer after a sequence of pushes and pops.
pub open spec fn spec_stack_run(ram: Seq<u8>, sp: u8, ops: Seq<Option<u8>>) -> (Seq<u8>, u8)
    decreases ops.len(),
{
    if ops.len() == 0 {
        (ram, sp)
    } else {
        match ops[0] {
            Some(d) => {
                let (ram1, sp1) = spec_stack_push(ram, sp, d);
                spec_stack_run(ram1, sp1, ops.skip(1))
            },
            None => {
                let (v, sp1) = spec_stack_pop(ram, sp);
                spec_stack_run(ram, sp1, ops.skip(1))
            },
        }
    }
}

/// A sequence of stack operations keeps the stack pointer inside the
/// free space below `sp0`: it never pushes with S at 0 (which would
/// wrap) and never lets S climb past `sp0` (which would let a later
/// push scribble over live cells).
pub open spec fn stack_run_ok(sp0: u8, sp: u8, ops: Seq<Option<u8>>) -> bool
    decreases ops.len(),
{
    sp <= sp0 && (ops.len() == 0 || match ops[0] {
        Some(d) => sp > 0 && stack_run_ok(sp0, (sp - 1) as u8, ops.skip(1)),
        None => sp < 0xff && stack_run_ok(sp0, (sp + 1) as u8, ops.skip(1)),
    })
}

/// Every cell outside the free stack space 0x0100+0 ..= 0x0100+sp0 is
/// untouched by such a run, and the stack pointer moves by pops minus
/// pushes.
proof fn lemma_stack_run_frame(ram: Seq<u8>, sp0: u8, sp: u8, ops: Seq<Option<u8>>)
    requires
        ram.len() == 0x800,
        stack_run_ok(sp0, sp, ops),
    ensures
        ({
            let (ram1, sp1) = spec_stack_run(ram, sp, ops);
            &&& ram1.len() == 0x800
            &&& sp1 == sp + count_pops(ops) - count_pushes(ops)
            &&& forall|j: int|
                0 <= j < 0x800 && !(STACK_BASE <= j <= STACK_BASE + sp0) ==> ram1[j] == ram[j]
        }),
    decreases ops.len(),
{
    if ops.len() == 0 {
    } else {
        match ops[0] {
            Some(d) => {
                let (ram1, sp1) = spec_stack_push(ram, sp, d);
                lemma_stack_run_frame(ram1, sp0, sp1, ops.skip(1));
            },
            None => {
                let (v, sp1) = spec_stack_pop(ram, sp);
                lemma_stack_run_frame(ram, sp0, sp1, ops.skip(1));
            },
        }
    }
}

/// Stack balance law: a balanced run of pushes and pops (as many pops
/// as pushes, the stack pointer never wandering out of the free space
/// below its starting value) restores the stack pointer, and the memory
/// in and outside the stack page is restored everywhere but in the
/// cells at and below the starting stack top, which a push may have
/// used as scratch.
pub proof fn lemma_stack_balanced(ram: Seq<u8>, sp: u8, ops: Seq<Option<u8>>)
    requires
        ram.len() == 0x800,
        stack_run_ok(sp, sp, ops),
        count_pushes(ops) == count_pops(ops),
    ensures
        ({
            let (ram1, sp1) = spec_stack_run(ram, sp, ops);
            &&& sp1 == sp
            &&& forall|j: int|
                0 <= j < 0x800 && !(STACK_BASE <= j <= STACK_BASE + sp) ==> ram1[j] == ram[j]
        }),
{
    lemma_stack_run_frame(ram, sp, sp, ops);
}

/// The CPU and its memory as one mathematical value: the registers, the
/// flags, the halt state, the 2 KiB of RAM and the program ROM.
#[verifier::ext_equal]
pub struct MachineState {
    pub a: u8,
    pub x: u8,
    pub y: u8,
    pub p: u8,
    pub pc: u16,
    pub sp: u8,
    pub halted: bool,
    pub ram: Seq<u8>,
    pub prg: Seq<u8>,
}

impl MachineState {
    /// What a read at `addr` returns in this state.
    pub open spec fn read(self, addr: u16) -> u8 {
        spec_read_at(self.ram, self.prg, addr)
    }

    /// What a 16-bit little-endian read at `pos` returns in this state.
    pub open spec fn read16(self, pos: u16) -> u16 {
        spec_read16_at(self.ram, self.prg, pos)
    }
}

/// One status flag forced on.
pub open spec fn eff_set_flag(s: MachineState, mask: u8) -> MachineState {
    MachineState { p: s.p | mask, ..s }
}

/// One status flag forced off.
pub open spec fn eff_clear_flag(s: MachineState, mask: u8) -> MachineState {
    MachineState { p: s.p & !mask, ..s }
}

/// A load into A.
pub open spec fn eff_lda(s: MachineState, mode: AddressingMode) -> MachineState {
    let v = spec_operand(s, mode);
    MachineState { a: v, p: spec_zn(s.p, v), ..s }
}

/// A load into X.
pub open spec fn eff_ldx(s: MachineState, mode: AddressingMode) -> MachineState {
    let v = spec_operand(s, mode);
    MachineState { x: v, p: spec_zn(s.p, v), ..s }
}

/// A load into Y.
pub open spec fn eff_ldy(s: MachineState, mode: AddressingMode) -> MachineState {
    let v = spec_operand(s, mode);
    MachineState { y: v, p: spec_zn(s.p, v), ..s }
}

/// A store of one byte at the effective address; a byte aimed at the
/// program ROM window halts the machine instead.
pub open spec fn eff_store(s: MachineState, mode: AddressingMode, v: u8) -> MachineState {
    let addr = spec_operand_addr(s, mode);
    MachineState {
        ram: spec_write_at(s.ram, addr, v),
        halted: s.halted || addr >= 0x8000,
        ..s
    }
}

/// AND into A.
pub open spec fn eff_and(s: MachineState, mode: AddressingMode) -> MachineState {
    let r = s.a & spec_operand(s, mode);
    MachineState { a: r, p: spec_zn(s.p, r), ..s }
}

/// EOR into A.
pub open spec fn eff_eor(s: MachineState, mode: AddressingMode) -> MachineState {
    let r = s.a ^ spec_operand(s, mode);
    MachineState { a: r, p: spec_zn(s.p, r), ..s }
}

/// ORA into A.
pub open spec fn eff_ora(s: MachineState, mode: AddressingMode) -> MachineState {
    let r = s.a | spec_operand(s, mode);
    MachineState { a: r, p: spec_zn(s.p, r), ..s }
}

/// ADC of the operand.
pub open spec fn eff_adc(s: MachineState, mode: AddressingMode) -> MachineState {
    let t = spec_adc(s.a, s.p, spec_operand(s, mode));
    MachineState { a: t.0, p: t.1, ..s }
}

/// SBC of the operand: ADC of its complement.
pub open spec fn eff_sbc(s: MachineState, mode: AddressingMode) -> MachineState {
    let t = spec_adc(s.a, s.p, spec_operand(s, mode) ^ 0xff);
    MachineState { a: t.0, p: t.1, ..s }
}

/// CMP/CPX/CPY of a register against the operand.
pub open spec fn eff_compare(s: MachineState, mode: AddressingMode, reg: u8) -> MachineState {
    MachineState { p: spec_compare(s.p, reg, spec_operand(s, mode)), ..s }
}

/// BIT against the operand.
pub open spec fn eff_bit(s: MachineState, mode: AddressingMode) -> MachineState {
    let m = spec_operand(s, mode);
    MachineState {
        p: upd_flag(
            upd_flag(upd_flag(s.p, FLAG_ZERO, (s.a & m) == 0), FLAG_NEGATIVE, m & 0x80 != 0),
            FLAG_OVERFLOW,
            m & 0x40 != 0,
        ),
        ..s
    }
}

/// INC on memory.
pub open spec fn eff_inc(s: MachineState, mode: AddressingMode) -> MachineState {
    let addr = spec_operand_addr(s, mode);
    let res = spec_operand(s, mode).wrapping_add(1);
    MachineState {
        ram: spec_write_at(s.ram, addr, res),
        p: spec_zn(s.p, res),
        halted: s.halted || addr >= 0x8000,
        ..s
    }
}

/// DEC on memory.
pub open spec fn eff_dec(s: MachineState, mode: AddressingMode) -> MachineState {
    let addr = spec_operand_addr(s, mode);
    let res = spec_operand(s, mode).wrapping_sub(1);
    MachineState {
        ram: spec_write_at(s.ram, addr, res),
        p: spec_zn(s.p, res),
        halted: s.halted || addr >= 0x8000,
        ..s
    }
}

/// ASL on the accumulator.
pub open spec fn eff_asl_acc(s: MachineState) -> MachineState {
    MachineState {
        a: s.a << 1,
        p: spec_zn(upd_flag(s.p, FLAG_CARRY, s.a >= 0x80), s.a << 1),
        ..s
    }
}

/// LSR on the accumulator.
pub open spec fn eff_lsr_acc(s: MachineState) -> MachineState {
    MachineState {
        a: s.a >> 1,
        p: spec_zn(upd_flag(s.p, FLAG_CARRY, s.a & 1 != 0), s.a >> 1),
        ..s
    }
}

/// ROL on the accumulator.
pub open spec fn eff_rol_acc(s: MachineState) -> MachineState {
    let v = s.a;
    let res = if flag_set(s.p, FLAG_CARRY) {
        (v << 1) | 1
    } else {
        v << 1
    };
    MachineState { a: res, p: spec_zn(upd_flag(s.p, FLAG_CARRY, v >= 0x80), res), ..s }
}

/// ROR on the accumulator.
pub open spec fn eff_ror_acc(s: MachineState) -> MachineState {
    let v = s.a;
    let res = if flag_set(s.p, FLAG_CARRY) {
        (v >> 1) | 0x80
    } else {
        v >> 1
    };
    MachineState { a: res, p: spec_zn(upd_flag(s.p, FLAG_CARRY, v & 1 != 0), res), ..s }
}

/// ASL on memory.
pub open spec fn eff_asl(s: MachineState, mode: AddressingMode) -> MachineState {
    let addr = spec_operand_addr(s, mode);
    let v = spec_operand(s, mode);
    let res = v << 1;
    MachineState {
        ram: spec_write_at(s.ram, addr, res),
        p: spec_zn(upd_flag(s.p, FLAG_CARRY, v >= 0x80), res),
        halted: s.halted || addr >= 0x8000,
        ..s
    }
}

/// LSR on memory.
pub open spec fn eff_lsr(s: MachineState, mode: AddressingMode) -> MachineState {
    let addr = spec_operand_addr(s, mode);
    let v = spec_operand(s, mode);
    let res = v >> 1;
    MachineState {
        ram: spec_write_at(s.ram, addr, res),
        p: spec_zn(upd_flag(s.p, FLAG_CARRY, v & 1 != 0), res),
        halted: s.halted || addr >= 0x8000,
        ..s
    }
}

/// ROL on memory.
pub open spec fn eff_rol(s: MachineState, mode: AddressingMode) -> MachineState {
    let addr = spec_operand_addr(s, mode);
    let v = spec_operand(s, mode);
    let res = if flag_set(s.p, FLAG_CARRY) {
        (v << 1) | 1
    } else {
        v << 1
    };
    MachineState {
        ram: spec_write_at(s.ram, addr, res),
        p: spec_zn(upd_flag(s.p, FLAG_CARRY, v >= 0x80), res),
        halted: s.halted || addr >= 0x8000,
        ..s
    }
}

/// ROR on memory.
pub open spec fn eff_ror(s: MachineState, mode: AddressingMode) -> MachineState {
    let addr = spec_operand_addr(s, mode);
    let v = spec_operand(s, mode);
    let res = if flag_set(s.p, FLAG_CARRY) {
        (v >> 1) | 0x80
    } else {
        v >> 1
    };
    MachineState {
        ram: spec_write_at(s.ram, addr, res),
        p: spec_zn(upd_flag(s.p, FLAG_CARRY, v & 1 != 0), res),
        halted: s.halted || addr >= 0x8000,
        ..s
    }
}

/// A branch: taken, PC moves to the displacement target.
pub open spec fn eff_branch(s: MachineState, cond: bool) -> MachineState {
    if cond {
        MachineState { pc: spec_branch_target(s), ..s }
    } else {
        s
    }
}

/// PHA.
pub open spec fn eff_pha(s: MachineState) -> MachineState {
    MachineState {
        ram: spec_stack_push(s.ram, s.sp, s.a).0,
        sp: spec_stack_push(s.ram, s.sp, s.a).1,
        ..s
    }
}

/// PHP: Break and Unused forced on in the pushed copy.
pub open spec fn eff_php(s: MachineState) -> MachineState {
    MachineState {
        ram: s.ram.update(STACK_BASE + s.sp as int, s.p | FLAG_BREAK | FLAG_UNUSED),
        sp: s.sp.wrapping_sub(1),
        ..s
    }
}

/// PLA.
pub open spec fn eff_pla(s: MachineState) -> MachineState {
    let v = s.ram[STACK_BASE + s.sp.wrapping_add(1) as int];
    MachineState { a: v, p: spec_zn(s.p, v), sp: s.sp.wrapping_add(1), ..s }
}

/// PLP: Break cleared and Unused set in the pulled copy.
pub open spec fn eff_plp(s: MachineState) -> MachineState {
    MachineState {
        p: (s.ram[STACK_BASE + s.sp.wrapping_add(1) as int] & !FLAG_BREAK) | FLAG_UNUSED,
        sp: s.sp.wrapping_add(1),
        ..s
    }
}

/// JMP absolute.
pub open spec fn eff_jmp_absolute(s: MachineState) -> MachineState {
    MachineState { pc: s.read16(s.pc), ..s }
}

/// JMP indirect, page-boundary bug included.
pub open spec fn eff_jmp_indirect(s: MachineState) -> MachineState {
    MachineState { pc: spec_jmp_indirect_target(s), ..s }
}

/// JSR: the return address goes to the stack, then PC takes the target
/// read after the push.
pub open spec fn eff_jsr(s: MachineState) -> MachineState {
    let ret = s.pc.wrapping_add(1);
    let ram1 = s.ram.update(STACK_BASE + s.sp as int, (ret / 256) as u8).update(
        STACK_BASE + s.sp.wrapping_sub(1) as int,
        (ret % 256) as u8,
    );
    MachineState {
        ram: ram1,
        sp: s.sp.wrapping_sub(2),
        pc: spec_read16_at(ram1, s.prg, s.pc),
        ..s
    }
}

/// RTS: the popped address plus one.
pub open spec fn eff_rts(s: MachineState) -> MachineState {
    MachineState {
        pc: ((s.ram[STACK_BASE + s.sp.wrapping_add(1) as int] + 256 * s.ram[STACK_BASE
            + s.sp.wrapping_add(2) as int]) as u16).wrapping_add(1),
        sp: s.sp.wrapping_add(2),
        ..s
    }
}

/// RTI: P then PC from the stack, with no added one.
pub open spec fn eff_rti(s: MachineState) -> MachineState {
    MachineState {
        p: (s.ram[STACK_BASE + s.sp.wrapping_add(1) as int] & !FLAG_BREAK) | FLAG_UNUSED,
        pc: (s.ram[STACK_BASE + s.sp.wrapping_add(2) as int] + 256 * s.ram[STACK_BASE
            + s.sp.wrapping_add(3) as int]) as u16,
        sp: s.sp.wrapping_add(3),
        ..s
    }
}

/// BRK: PC+1 and P (Break set) pushed, InterruptDisable raised, halt.
pub open spec fn eff_brk(s: MachineState) -> MachineState {
    let ret = s.pc.wrapping_add(1);
    MachineState {
        ram: s.ram.update(STACK_BASE + s.sp as int, (ret / 256) as u8).update(
            STACK_BASE + s.sp.wrapping_sub(1) as int,
            (ret % 256) as u8,
        ).update(STACK_BASE + s.sp.wrapping_sub(2) as int, s.p | FLAG_BREAK),
        sp: s.sp.wrapping_sub(3),
        p: s.p | FLAG_INTERRUPT_DISABLE,
        halted: true,
        ..s
    }
}

/// KIL: halt.
pub open spec fn eff_kil(s: MachineState) -> MachineState {
    MachineState { halted: true, ..s }
}

/// TAX.
pub open spec fn eff_tax(s: MachineState) -> MachineState {
    MachineState { x: s.a, p: spec_zn(s.p, s.a), ..s }
}

/// TAY.
pub open spec fn eff_tay(s: MachineState) -> MachineState {
    MachineState { y: s.a, p: spec_zn(s.p, s.a), ..s }
}

/// TSX.
pub open spec fn eff_tsx(s: MachineState) -> MachineState {
    MachineState { x: s.sp, p: spec_zn(s.p, s.sp), ..s }
}

/// TXA.
pub open spec fn eff_txa(s: MachineState) -> MachineState {
    MachineState { a: s.x, p: spec_zn(s.p, s.x), ..s }
}

/// TXS: no flag effect.
pub open spec fn eff_txs(s: MachineState) -> MachineState {
    MachineState { sp: s.x, ..s }
}

/// TYA.
pub open spec fn eff_tya(s: MachineState) -> MachineState {
    MachineState { a: s.y, p: spec_zn(s.p, s.y), ..s }
}

/// INX.
pub open spec fn eff_inx(s: MachineState) -> MachineState {
    MachineState { x: s.x.wrapping_add(1), p: spec_zn(s.p, s.x.wrapping_add(1)), ..s }
}

/// INY.
pub open spec fn eff_iny(s: MachineState) -> MachineState {
    MachineState { y: s.y.wrapping_add(1), p: spec_zn(s.p, s.y.wrapping_add(1)), ..s }
}

/// DEX.
pub open spec fn eff_dex(s: MachineState) -> MachineState {
    MachineState { x: s.x.wrapping_sub(1), p: spec_zn(s.p, s.x.wrapping_sub(1)), ..s }
}

/// DEY.
pub open spec fn eff_dey(s: MachineState) -> MachineState {
    MachineState { y: s.y.wrapping_sub(1), p: spec_zn(s.p, s.y.wrapping_sub(1)), ..s }
}

/// LAX.
pub open spec fn eff_lax(s: MachineState, mode: AddressingMode) -> MachineState {
    let v = spec_operand(s, mode);
    MachineState { a: v, x: v, p: spec_zn(s.p, v), ..s }
}

/// ANC: the AND, then Carry copies Negative.
pub open spec fn eff_anc(s: MachineState, mode: AddressingMode) -> MachineState {
    let r = s.a & spec_operand(s, mode);
    let p1 = spec_zn(s.p, r);
    MachineState { a: r, p: upd_flag(p1, FLAG_CARRY, flag_set(p1, FLAG_NEGATIVE)), ..s }
}

/// ALR: the AND, then LSR on the accumulator.
pub open spec fn eff_alr(s: MachineState, mode: AddressingMode) -> MachineState {
    let r = s.a & spec_operand(s, mode);
    let p1 = spec_zn(s.p, r);
    MachineState { a: r >> 1, p: spec_zn(upd_flag(p1, FLAG_CARRY, r & 1 != 0), r >> 1), ..s }
}

/// ARR: the AND, ROR on the accumulator, then Carry from bit 6 and
/// Overflow from bit 5 xor bit 6.
pub open spec fn eff_arr(s: MachineState, mode: AddressingMode) -> MachineState {
    let r = s.a & spec_operand(s, mode);
    let p1 = spec_zn(s.p, r);
    let res = if flag_set(p1, FLAG_CARRY) {
        (r >> 1) | 0x80
    } else {
        r >> 1
    };
    let p2 = spec_zn(upd_flag(p1, FLAG_CARRY, r & 1 != 0), res);
    let p3 = upd_flag(p2, FLAG_CARRY, (res >> 6) & 1 == 1);
    MachineState {
        a: res,
        p: upd_flag(p3, FLAG_OVERFLOW, ((res >> 5) & 1) ^ ((res >> 6) & 1) == 1),
        ..s
    }
}

/// LXA: the AND into both A and X.
pub open spec fn eff_lxa(s: MachineState, mode: AddressingMode) -> MachineState {
    let r = s.a & spec_operand(s, mode);
    MachineState { a: r, x: r, p: spec_zn(s.p, r), ..s }
}

/// XAA: the AND into A.
pub open spec fn eff_xaa(s: MachineState, mode: AddressingMode) -> MachineState {
    let r = s.a & spec_operand(s, mode);
    MachineState { a: r, p: spec_zn(s.p, r), ..s }
}

/// AXS: X gets (A and X) minus the operand, compare-style flags.
pub open spec fn eff_axs(s: MachineState, mode: AddressingMode) -> MachineState {
    let m = spec_operand(s, mode);
    let t = s.a & s.x;
    MachineState { x: t.wrapping_sub(m), p: spec_compare(s.p, t, m), ..s }
}

/// DCP: decrement memory, then compare A against it.
pub open spec fn eff_dcp(s: MachineState, mode: AddressingMode) -> MachineState {
    let addr = spec_operand_addr(s, mode);
    let res = spec_operand(s, mode).wrapping_sub(1);
    MachineState {
        ram: spec_write_at(s.ram, addr, res),
        p: spec_compare(s.p, s.a, res),
        halted: s.halted || addr >= 0x8000,
        ..s
    }
}

/// ISC: increment memory, then SBC it.
pub open spec fn eff_isc(s: MachineState, mode: AddressingMode) -> MachineState {
    let addr = spec_operand_addr(s, mode);
    let res = spec_operand(s, mode).wrapping_add(1);
    let t = spec_adc(s.a, s.p, res ^ 0xff);
    MachineState {
        ram: spec_write_at(s.ram, addr, res),
        a: t.0,
        p: t.1,
        halted: s.halted || addr >= 0x8000,
        ..s
    }
}

/// SLO: ASL memory, then ORA.
pub open spec fn eff_slo(s: MachineState, mode: AddressingMode) -> MachineState {
    let addr = spec_operand_addr(s, mode);
    let v = spec_operand(s, mode);
    let res = v << 1;
    let p1 = spec_zn(upd_flag(s.p, FLAG_CARRY, v >= 0x80), res);
    MachineState {
        ram: spec_write_at(s.ram, addr, res),
        a: s.a | res,
        p: spec_zn(p1, s.a | res),
        halted: s.halted || addr >= 0x8000,
        ..s
    }
}

/// RLA: ROL memory, then AND.
pub open spec fn eff_rla(s: MachineState, mode: AddressingMode) -> MachineState {
    let addr = spec_operand_addr(s, mode);
    let v = spec_operand(s, mode);
    let res = if flag_set(s.p, FLAG_CARRY) {
        (v << 1) | 1
    } else {
        v << 1
    };
    let p1 = spec_zn(upd_flag(s.p, FLAG_CARRY, v >= 0x80), res);
    MachineState {
        ram: spec_write_at(s.ram, addr, res),
        a: s.a & res,
        p: spec_zn(p1, s.a & res),
        halted: s.halted || addr >= 0x8000,
        ..s
    }
}

/// SRE: LSR memory, then EOR.
pub open spec fn eff_sre(s: MachineState, mode: AddressingMode) -> MachineState {
    let addr = spec_operand_addr(s, mode);
    let v = spec_operand(s, mode);
    let res = v >> 1;
    let p1 = spec_zn(upd_flag(s.p, FLAG_CARRY, v & 1 != 0), res);
    MachineState {
        ram: spec_write_at(s.ram, addr, res),
        a: s.a ^ res,
        p: spec_zn(p1, s.a ^ res),
        halted: s.halted || addr >= 0x8000,
        ..s
    }
}

/// RRA: ROR memory, then ADC it with the carry the rotation produced.
pub open spec fn eff_rra(s: MachineState, mode: AddressingMode) -> MachineState {
    let addr = spec_operand_addr(s, mode);
    let v = spec_operand(s, mode);
    let res = if flag_set(s.p, FLAG_CARRY) {
        (v >> 1) | 0x80
    } else {
        v >> 1
    };
    let p1 = spec_zn(upd_flag(s.p, FLAG_CARRY, v & 1 != 0), res);
    let t = spec_adc(s.a, p1, res);
    MachineState {
        ram: spec_write_at(s.ram, addr, res),
        a: t.0,
        p: t.1,
        halted: s.halted || addr >= 0x8000,
        ..s
    }
}

/// LAS: the operand and S into A, X and S.
pub open spec fn eff_las(s: MachineState, mode: AddressingMode) -> MachineState {
    let r = spec_operand(s, mode) & s.sp;
    MachineState { a: r, x: r, sp: r, p: spec_zn(s.p, r), ..s }
}

/// SHA: A and X and (address high byte plus one) stored.
pub open spec fn eff_sha(s: MachineState, mode: AddressingMode) -> MachineState {
    let addr = spec_operand_addr(s, mode);
    let data = s.a & s.x & ((addr >> 8) as u8).wrapping_add(1);
    MachineState {
        ram: spec_write_at(s.ram, addr, data),
        halted: s.halted || addr >= 0x8000,
        ..s
    }
}

/// SHX: X and (address high byte plus one) stored.
pub open spec fn eff_shx(s: MachineState, mode: AddressingMode) -> MachineState {
    let addr = spec_operand_addr(s, mode);
    let data = s.x & ((addr >> 8) as u8).wrapping_add(1);
    MachineState {
        ram: spec_write_at(s.ram, addr, data),
        halted: s.halted || addr >= 0x8000,
        ..s
    }
}

/// SHY: Y and (address high byte plus one) stored.
pub open spec fn eff_shy(s: MachineState, mode: AddressingMode) -> MachineState {
    let addr = spec_operand_addr(s, mode);
    let data = s.y & ((addr >> 8) as u8).wrapping_add(1);
    MachineState {
        ram: spec_write_at(s.ram, addr, data),
        halted: s.halted || addr >= 0x8000,
        ..s
    }
}

/// TAS: S gets A and X, then S and (address high byte plus one) stored.
pub open spec fn eff_tas(s: MachineState, mode: AddressingMode) -> MachineState {
    let addr = spec_operand_addr(s, mode);
    let sp = s.a & s.x;
    let data = sp & ((addr >> 8) as u8).wrapping_add(1);
    MachineState {
        sp: sp,
        ram: spec_write_at(s.ram, addr, data),
        halted: s.halted || addr >= 0x8000,
        ..s
    }
}

/// What a load or store opcode does to the machine.
pub open spec fn eff_load_store(s: MachineState, op: u8, mode: AddressingMode) -> MachineState {
    match op {
        0xa9 | 0xa5 | 0xb5 | 0xad | 0xbd | 0xb9 | 0xa1 | 0xb1 => eff_lda(s, mode),
        0xa2 | 0xa6 | 0xb6 | 0xae | 0xbe => eff_ldx(s, mode),
        0xa0 | 0xa4 | 0xb4 | 0xac | 0xbc => eff_ldy(s, mode),
        0x85 | 0x95 | 0x8d | 0x9d | 0x99 | 0x81 | 0x91 => eff_store(s, mode, s.a),
        0x86 | 0x96 | 0x8e => eff_store(s, mode, s.x),
        0x84 | 0x94 | 0x8c => eff_store(s, mode, s.y),
        _ => s,
    }
}

/// What an arithmetic, logic, bit-test or compare opcode does.
pub open spec fn eff_alu(s: MachineState, op: u8, mode: AddressingMode) -> MachineState {
    match op {
        0x69 | 0x65 | 0x75 | 0x6d | 0x7d | 0x79 | 0x61 | 0x71 => eff_adc(s, mode),
        0xe9 | 0xe5 | 0xf5 | 0xed | 0xfd | 0xf9 | 0xe1 | 0xf1 => eff_sbc(s, mode),
        0x29 | 0x25 | 0x35 | 0x2d | 0x3d | 0x39 | 0x21 | 0x31 => eff_and(s, mode),
        0x49 | 0x45 | 0x55 | 0x4d | 0x5d | 0x59 | 0x41 | 0x51 => eff_eor(s, mode),
        0x09 | 0x05 | 0x15 | 0x0d | 0x1d | 0x19 | 0x01 | 0x11 => eff_ora(s, mode),
        0x24 | 0x2c => eff_bit(s, mode),
        0xc9 | 0xc5 | 0xd5 | 0xcd | 0xdd | 0xd9 | 0xc1 | 0xd1 => eff_compare(s, mode, s.a),
        0xe0 | 0xe4 | 0xec => eff_compare(s, mode, s.x),
        0xc0 | 0xc4 | 0xcc => eff_compare(s, mode, s.y),
        _ => s,
    }
}

/// What a read-modify-write opcode does.
pub open spec fn eff_rmw(s: MachineState, op: u8, mode: AddressingMode) -> MachineState {
    match op {
        0x06 | 0x16 | 0x0e | 0x1e => eff_asl(s, mode),
        0x46 | 0x56 | 0x4e | 0x5e => eff_lsr(s, mode),
        0x26 | 0x36 | 0x2e | 0x3e => eff_rol(s, mode),
        0x66 | 0x76 | 0x6e | 0x7e => eff_ror(s, mode),
        0xe6 | 0xf6 | 0xee | 0xfe => eff_inc(s, mode),
        0xc6 | 0xd6 | 0xce | 0xde => eff_dec(s, mode),
        _ => s,
    }
}

/// What a branch, jump, subroutine, interrupt-return or stack opcode
/// does.
pub open spec fn eff_control(s: MachineState, op: u8) -> MachineState {
    match op {
        0x90 => eff_branch(s, !flag_set(s.p, FLAG_CARRY)),
        0xb0 => eff_branch(s, flag_set(s.p, FLAG_CARRY)),
        0x10 => eff_branch(s, !flag_set(s.p, FLAG_NEGATIVE)),
        0x30 => eff_branch(s, flag_set(s.p, FLAG_NEGATIVE)),
        0x50 => eff_branch(s, !flag_set(s.p, FLAG_OVERFLOW)),
        0x70 => eff_branch(s, flag_set(s.p, FLAG_OVERFLOW)),
        0xd0 => eff_branch(s, !flag_set(s.p, FLAG_ZERO)),
        0xf0 => eff_branch(s, flag_set(s.p, FLAG_ZERO)),
        0x00 => eff_brk(s),
        0x4c => eff_jmp_absolute(s),
        0x6c => eff_jmp_indirect(s),
        0x20 => eff_jsr(s),
        0x60 => eff_rts(s),
        0x40 => eff_rti(s),
        0x48 => eff_pha(s),
        0x08 => eff_php(s),
        0x68 => eff_pla(s),
        0x28 => eff_plp(s),
        _ => s,
    }
}

/// What an implied-operand opcode does.
pub open spec fn eff_implied(s: MachineState, op: u8) -> MachineState {
    match op {
        0x18 => eff_clear_flag(s, FLAG_CARRY),
        0x38 => eff_set_flag(s, FLAG_CARRY),
        0x58 => eff_clear_flag(s, FLAG_INTERRUPT_DISABLE),
        0x78 => eff_set_flag(s, FLAG_INTERRUPT_DISABLE),
        0xb8 => eff_clear_flag(s, FLAG_OVERFLOW),
        0xd8 => eff_clear_flag(s, FLAG_DECIMAL_MODE),
        0xf8 => eff_set_flag(s, FLAG_DECIMAL_MODE),
        0xaa => eff_tax(s),
        0xa8 => eff_tay(s),
        0xba => eff_tsx(s),
        0x8a => eff_txa(s),
        0x9a => eff_txs(s),
        0x98 => eff_tya(s),
        0xe8 => eff_inx(s),
        0xc8 => eff_iny(s),
        0xca => eff_dex(s),
        0x88 => eff_dey(s),
        0x0a => eff_asl_acc(s),
        0x4a => eff_lsr_acc(s),
        0x2a => eff_rol_acc(s),
        0x6a => eff_ror_acc(s),
        0x02 | 0x12 | 0x22 | 0x32 | 0x42 | 0x52 | 0x62 | 0x72 | 0x92 | 0xb2 | 0xd2 | 0xf2 => eff_kil(
            s,
        ),
        _ => s,
    }
}

/// What an unofficial register-targeting opcode does.
pub open spec fn eff_unofficial_reg(s: MachineState, op: u8, mode: AddressingMode) -> MachineState {
    match op {
        0x0b | 0x2b => eff_anc(s, mode),
        0x6b => eff_arr(s, mode),
        0x4b => eff_alr(s, mode),
        0xab => eff_lxa(s, mode),
        0x8b => eff_xaa(s, mode),
        0xcb => eff_axs(s, mode),
        0xeb => eff_sbc(s, mode),
        0xbb => eff_las(s, mode),
        0xa7 | 0xb7 | 0xaf | 0xbf | 0xa3 | 0xb3 => eff_lax(s, mode),
        0x87 | 0x97 | 0x83 | 0x8f => eff_store(s, mode, s.a & s.x),
        0x9f | 0x93 => eff_sha(s, mode),
        0x9e => eff_shx(s, mode),
        0x9c => eff_shy(s, mode),
        0x9b => eff_tas(s, mode),
        _ => s,
    }
}

/// What an unofficial read-modify-write or operand-fetch NOP opcode
/// does.
pub open spec fn eff_unofficial_rmw(s: MachineState, op: u8, mode: AddressingMode) -> MachineState {
    match op {
        0xc7 | 0xd7 | 0xcf | 0xdf | 0xdb | 0xc3 | 0xd3 => eff_dcp(s, mode),
        0xe7 | 0xf7 | 0xef | 0xff | 0xfb | 0xe3 | 0xf3 => eff_isc(s, mode),
        0x07 | 0x17 | 0x0f | 0x1f | 0x1b | 0x03 | 0x13 => eff_slo(s, mode),
        0x27 | 0x37 | 0x2f | 0x3f | 0x3b | 0x23 | 0x33 => eff_rla(s, mode),
        0x47 | 0x57 | 0x4f | 0x5f | 0x5b | 0x43 | 0x53 => eff_sre(s, mode),
        0x67 | 0x77 | 0x6f | 0x7f | 0x7b | 0x63 | 0x73 => eff_rra(s, mode),
        _ => s,
    }
}

/// What the opcode at hand does to the machine, the mode drawn from the
/// decode table; PC already points past the opcode byte.
pub open spec fn spec_exec_opcode(s: MachineState, op: u8, mode: AddressingMode) -> MachineState {
    match op {
        0xa9 | 0xa5 | 0xb5 | 0xad | 0xbd | 0xb9 | 0xa1 | 0xb1 | 0xa2 | 0xa6 | 0xb6 | 0xae | 0xbe
            | 0xa0 | 0xa4 | 0xb4 | 0xac | 0xbc | 0x85 | 0x95 | 0x8d | 0x9d | 0x99 | 0x81 | 0x91
            | 0x86 | 0x96 | 0x8e | 0x84 | 0x94 | 0x8c => eff_load_store(s, op, mode),
        0x69 | 0x65 | 0x75 | 0x6d | 0x7d | 0x79 | 0x61 | 0x71 | 0xe9 | 0xe5 | 0xf5 | 0xed | 0xfd
            | 0xf9 | 0xe1 | 0xf1 | 0x29 | 0x25 | 0x35 | 0x2d | 0x3d | 0x39 | 0x21 | 0x31 | 0x49
            | 0x45 | 0x55 | 0x4d | 0x5d | 0x59 | 0x41 | 0x51 | 0x09 | 0x05 | 0x15 | 0x0d | 0x1d
            | 0x19 | 0x01 | 0x11 | 0x24 | 0x2c | 0xc9 | 0xc5 | 0xd5 | 0xcd | 0xdd | 0xd9 | 0xc1
            | 0xd1 | 0xe0 | 0xe4 | 0xec | 0xc0 | 0xc4 | 0xcc => eff_alu(s, op, mode),
        0x06 | 0x16 | 0x0e | 0x1e | 0x46 | 0x56 | 0x4e | 0x5e | 0x26 | 0x36 | 0x2e | 0x3e | 0x66
            | 0x76 | 0x6e | 0x7e | 0xe6 | 0xf6 | 0xee | 0xfe | 0xc6 | 0xd6 | 0xce | 0xde => eff_rmw(
            s,
            op,
            mode,
        ),
        0x90 | 0xb0 | 0x10 | 0x30 | 0x50 | 0x70 | 0xd0 | 0xf0 | 0x00 | 0x4c | 0x6c | 0x20 | 0x60
            | 0x40 | 0x48 | 0x08 | 0x68 | 0x28 => eff_control(s, op),
        0x18 | 0x38 | 0x58 | 0x78 | 0xb8 | 0xd8 | 0xf8 | 0xaa | 0xa8 | 0xba | 0x8a | 0x9a | 0x98
            | 0xe8 | 0xc8 | 0xca | 0x88 | 0xea | 0x1a | 0x3a | 0x5a | 0x7a | 0xda | 0xfa | 0x0a
            | 0x4a | 0x2a | 0x6a | 0x02 | 0x12 | 0x22 | 0x32 | 0x42 | 0x52 | 0x62 | 0x72 | 0x92
            | 0xb2 | 0xd2 | 0xf2 => eff_implied(s, op),
        0x0b | 0x2b | 0x6b | 0x4b | 0xab | 0x8b | 0xcb | 0xeb | 0xbb | 0xa7 | 0xb7 | 0xaf | 0xbf
            | 0xa3 | 0xb3 | 0x87 | 0x97 | 0x83 | 0x8f | 0x9f | 0x93 | 0x9e | 0x9c | 0x9b => eff_unofficial_reg(
            s,
            op,
            mode,
        ),
        _ => eff_unofficial_rmw(s, op, mode),
    }
}

/// One instruction of the machine: the opcode at PC is fetched, PC moves
/// past it, the opcode's effect is applied, and PC then advances by the
/// rest of the instruction length unless the instruction wrote to PC
/// itself.
pub open spec fn spec_step(s: MachineState) -> MachineState {
    let op = s.read(s.pc);
    let s1 = MachineState { pc: s.pc.wrapping_add(1), ..s };
    let mode = spec_opcode_mode(op);
    let s2 = spec_exec_opcode(s1, op, mode);
    if s2.pc == s1.pc {
        MachineState { pc: s2.pc.wrapping_add((spec_mode_len(mode) - 1) as u16), ..s2 }
    } else {
        s2
    }
}

/// The machine stepped until it halts or `fuel` instructions have run.
pub open spec fn spec_run(s: MachineState, fuel: nat) -> MachineState
    decreases fuel,
{
    if fuel == 0 || s.halted {
        s
    } else {
        spec_run(spec_step(s), (fuel - 1) as nat)
    }
}

} // verus!
