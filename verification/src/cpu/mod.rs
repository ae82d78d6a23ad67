//! The SM83 interpreter.

pub mod state;
pub mod semantics;
pub mod laws;
pub mod cycles;

use vstd::prelude::*;
use crate::bits::{lemma_join, lemma_nibbles, lemma_split, word};
use crate::alu::{add_offset, shift8, zero_bit, set_bit};
use crate::cpu::semantics::outcome;
use crate::cpu::state::{CpuView, address_after, INDIRECT_HL};
use crate::error::CoreError;
use crate::hex::{format_quad, hex_quad};
use crate::memory_bank::bank_for;
use crate::mmu::{MMU, MmuView, initial_bus};
use crate::register::{CPUFlag, Registers};

verus! {

/// The processor: its register file, the bus it drives, the master
/// enable of the interrupts with the delay of `EI`, and the halt state.
pub struct CPU {
    registers: Registers,
    pub mmu: MMU,
    ime: bool,
    ime_timer: u8,
    low_power_mode: bool,
}

impl View for CPU {
    type V = CpuView;

    closed spec fn view(&self) -> CpuView {
        CpuView {
            registers: self.registers,
            mmu: self.mmu@,
            ime: self.ime,
            ime_timer: self.ime_timer,
            halted: self.low_power_mode,
        }
    }
}

/// The processor as the boot sequence leaves it, on the bus `mmu`.
pub open spec fn initial_cpu(mmu: MmuView) -> CpuView {
    CpuView { registers: Registers::post_boot(), mmu, ime: false, ime_timer: 0, halted: false }
}

impl CPU {
    pub open spec fn wf(&self) -> bool {
        self@.wf()
    }

    /// A processor in its state after the boot sequence, on a bus with
    /// the cartridge that the header of `rom` selects.
    pub fn new(rom: &[u8]) -> (result: Result<CPU, CoreError>)
        ensures
            match result {
                Ok(cpu) => bank_for(rom@) is Some && cpu@ == initial_cpu(
                    initial_bus(bank_for(rom@).unwrap()),
                ) && cpu.wf(),
                Err(error) => bank_for(rom@) is None && error == CoreError::UnsupportedMapper,
            },
    {
        match MMU::new(rom) {
            Ok(mmu) => Ok(
                CPU {
                    registers: Registers::new(),
                    mmu,
                    ime: false,
                    ime_timer: 0,
                    low_power_mode: false,
                },
            ),
            Err(error) => Err(error),
        }
    }

    /// Puts another cartridge into the slot; see `MMU::load_rom`.
    pub fn load_rom(&mut self, rom: &[u8]) -> (result: Result<(), CoreError>)
        requires
            old(self).wf(),
        ensures
            final(self).wf(),
            match result {
                Ok(_) => bank_for(rom@) is Some && final(self)@ == (CpuView {
                    mmu: MmuView { bank: bank_for(rom@).unwrap(), ..old(self)@.mmu },
                    ..old(self)@
                }),
                Err(error) => bank_for(rom@) is None && error == CoreError::UnsupportedMapper
                    && final(self)@ == old(self)@,
            },
    {
        self.mmu.load_rom(rom)
    }

    /// The register file.
    pub fn registers(&self) -> (registers: Registers)
        ensures
            registers == self@.registers,
    {
        self.registers
    }

    /// Replaces the register file. The low nibble of `F` is cleared, so
    /// that the flag register holds nothing but the four flags.
    pub fn set_registers(&mut self, registers: Registers)
        ensures
            final(self)@ == old(self)@.with_registers(
                Registers { f: registers.f & 0xF0, ..registers },
            ),
            old(self).wf() ==> final(self).wf(),
    {
        proof {
            lemma_nibbles(registers.f);
        }
        self.registers = Registers { f: registers.f & 0xF0, ..registers };
    }

    /// Whether interrupts are enabled.
    pub fn interrupts_enabled(&self) -> (ime: bool)
        ensures
            ime == self@.ime,
    {
        self.ime
    }

    /// Whether the processor waits for an interrupt.
    pub fn is_halted(&self) -> (halted: bool)
        ensures
            halted == self@.halted,
    {
        self.low_power_mode
    }

    pub(crate) fn fetch_byte(&mut self) -> (value: u8)
        requires
            old(self).wf(),
        ensures
            value == old(self)@.imm8(),
            final(self)@ == old(self)@.skip(1),
            final(self).wf(),
    {
        let value: u8 = self.mmu.read_memory(self.registers.pc);
        self.registers.pc = self.registers.pc.wrapping_add(1);
        value
    }

    pub(crate) fn fetch_word(&mut self) -> (value: u16)
        requires
            old(self).wf(),
        ensures
            value == old(self)@.imm16(),
            final(self)@ == old(self)@.skip(2),
            final(self).wf(),
    {
        let (first, second) = self.fetch_split_word();
        proof {
            lemma_join(second, first);
        }
        (first as u16) | ((second as u16) << 8)
    }

    pub(crate) fn fetch_split_word(&mut self) -> (bytes: (u8, u8))
        requires
            old(self).wf(),
        ensures
            word(bytes.1, bytes.0) == old(self)@.imm16(),
            final(self)@ == old(self)@.skip(2),
            final(self).wf(),
    {
        let first: u8 = self.fetch_byte();
        let second: u8 = self.fetch_byte();
        (first, second)
    }

    /// Writes `value` at `addr` on the bus.
    pub fn write_memory(&mut self, addr: u16, value: u8)
        requires
            old(self).wf(),
        ensures
            final(self)@ == old(self)@.write(addr, value),
            final(self).wf(),
    {
        self.mmu.write_memory(addr, value)
    }

    /// The byte at `addr` on the bus.
    pub fn read_memory(&self, addr: u16) -> (value: u8)
        requires
            self.wf(),
        ensures
            value == self@.read(addr),
    {
        self.mmu.read_memory(addr)
    }

    /// The four bytes at the program counter in hexadecimal, as
    /// diagnostics show them.
    pub fn memory_string(&self) -> (text: String)
        requires
            self.wf(),
        ensures
            text@ == hex_quad(
                (
                    self@.read(self@.registers.pc),
                    self@.read(address_after(self@.registers.pc, 1)),
                    self@.read(address_after(self@.registers.pc, 2)),
                    self@.read(address_after(self@.registers.pc, 3)),
                ),
            ),
    {
        format_quad(
            self.read_memory(self.registers.pc),
            self.read_memory(self.registers.pc.wrapping_add(1)),
            self.read_memory(self.registers.pc.wrapping_add(2)),
            self.read_memory(self.registers.pc.wrapping_add(3)),
        )
    }

    pub(crate) fn jump_relative(&mut self)
        requires
            old(self).wf(),
        ensures
            final(self)@ == old(self)@.jump_relative(),
            final(self).wf(),
    {
        let offset: u8 = self.fetch_byte();
        if offset < 0x80 {
            self.registers.pc = self.registers.pc.wrapping_add(offset as u16);
        } else {
            self.registers.pc = self.registers.pc.wrapping_sub(0x100 - offset as u16);
        }
    }

    pub(crate) fn push_stack(&mut self, value: u16)
        requires
            old(self).wf(),
        ensures
            final(self)@ == old(self)@.push(value),
            final(self).wf(),
    {
        proof {
            lemma_split(value);
        }
        self.registers.sp = self.registers.sp.wrapping_sub(1);
        self.write_memory(self.registers.sp, (value >> 8) as u8);
        self.registers.sp = self.registers.sp.wrapping_sub(1);
        self.write_memory(self.registers.sp, (value & 0xFF) as u8);
    }

    pub(crate) fn pop_stack(&mut self) -> (value: u16)
        requires
            old(self).wf(),
        ensures
            value == old(self)@.top(),
            final(self)@ == old(self)@.drop_top(),
            final(self).wf(),
    {
        let low: u8 = self.read_memory(self.registers.sp);
        self.registers.sp = self.registers.sp.wrapping_add(1);
        let high: u8 = self.read_memory(self.registers.sp);
        self.registers.sp = self.registers.sp.wrapping_add(1);
        proof {
            lemma_join(high, low);
        }
        ((high as u16) << 8) | (low as u16)
    }

    fn read_operand(&self, index: u8) -> (value: u8)
        requires
            self.wf(),
            index <= 7,
        ensures
            value == self@.operand(index),
    {
        if index == 0 {
            self.registers.b
        } else if index == 1 {
            self.registers.c
        } else if index == 2 {
            self.registers.d
        } else if index == 3 {
            self.registers.e
        } else if index == 4 {
            self.registers.h
        } else if index == 5 {
            self.registers.l
        } else if index == INDIRECT_HL {
            self.read_memory(self.registers.hl())
        } else {
            self.registers.a
        }
    }

    fn write_operand(&mut self, index: u8, value: u8)
        requires
            old(self).wf(),
            index <= 7,
        ensures
            final(self)@ == old(self)@.set_operand(index, value),
            final(self).wf(),
    {
        if index == 0 {
            self.registers.b = value;
        } else if index == 1 {
            self.registers.c = value;
        } else if index == 2 {
            self.registers.d = value;
        } else if index == 3 {
            self.registers.e = value;
        } else if index == 4 {
            self.registers.h = value;
        } else if index == 5 {
            self.registers.l = value;
        } else if index == INDIRECT_HL {
            self.write_memory(self.registers.hl(), value);
        } else {
            self.registers.a = value;
        }
    }

    fn read_pair(&self, index: u8) -> (value: u16)
        requires
            index <= 3,
        ensures
            value == self@.pair(index),
    {
        if index == 0 {
            self.registers.bc()
        } else if index == 1 {
            self.registers.de()
        } else if index == 2 {
            self.registers.hl()
        } else {
            self.registers.sp
        }
    }

    fn write_pair(&mut self, index: u8, value: u16)
        requires
            old(self).wf(),
            index <= 3,
        ensures
            final(self)@ == old(self)@.set_pair(index, value),
            final(self).wf(),
    {
        if index == 0 {
            self.registers.write_bc(value);
        } else if index == 1 {
            self.registers.write_de(value);
        } else if index == 2 {
            self.registers.write_hl(value);
        } else {
            self.registers.sp = value;
        }
    }

    fn read_stack_pair(&self, index: u8) -> (value: u16)
        requires
            index <= 3,
        ensures
            value == self@.stack_pair(index),
    {
        if index == 3 {
            self.registers.af()
        } else {
            self.read_pair(index)
        }
    }

    fn write_stack_pair(&mut self, index: u8, value: u16)
        requires
            old(self).wf(),
            index <= 3,
        ensures
            final(self)@ == old(self)@.set_stack_pair(index, value),
            final(self).wf(),
    {
        if index == 3 {
            self.registers.write_af(value);
        } else {
            self.write_pair(index, value);
        }
    }

    fn condition(&self, index: u8) -> (holds: bool)
        requires
            index <= 3,
        ensures
            holds == self@.condition(index),
    {
        if index == 0 {
            self.registers.get_flag(CPUFlag::Z) == 0
        } else if index == 1 {
            self.registers.get_flag(CPUFlag::Z) == 1
        } else if index == 2 {
            self.registers.get_flag(CPUFlag::C) == 0
        } else {
            self.registers.get_flag(CPUFlag::C) == 1
        }
    }

    /// One of the eight rotates and shifts of the prefixed opcodes.
    fn shift(&mut self, operation: u8, value: u8) -> (new: u8)
        requires
            old(self).wf(),
            operation <= 7,
        ensures
            new == shift8(operation, value, old(self)@.registers.flag(CPUFlag::C)).0,
            final(self)@ == old(self)@.with_flags(
                shift8(operation, value, old(self)@.registers.flag(CPUFlag::C)).1,
            ),
            final(self).wf(),
    {
        if operation == 0 {
            self.registers.rotate_left(value)
        } else if operation == 1 {
            self.registers.rotate_right(value)
        } else if operation == 2 {
            self.registers.rotate_left_carry(value)
        } else if operation == 3 {
            self.registers.rotate_right_carry(value)
        } else if operation == 4 {
            self.registers.shift_left(value)
        } else if operation == 5 {
            self.registers.shift_right_arithmetic(value)
        } else if operation == 6 {
            self.registers.swap(value)
        } else {
            self.registers.shift_right_logic(value)
        }
    }

    /// Executes the prefixed instruction whose second byte is at the
    /// program counter.
    pub(crate) fn execute_extended(&mut self) -> (cycles: u32)
        requires
            old(self).wf(),
        ensures
            outcome(final(self)@, cycles) == old(self)@.extended(),
            final(self).wf(),
    {
        reveal(CpuView::extended);
        let opcode: u8 = self.fetch_byte();
        let target: u8 = opcode % 8;
        let index: u8 = (opcode / 8) % 8;
        let value: u8 = self.read_operand(target);
        let indirect: bool = target == INDIRECT_HL;
        if opcode < 0x40 {
            let new: u8 = self.shift(index, value);
            self.write_operand(target, new);
        } else if opcode < 0x80 {
            self.registers.test_bit(index, value);
            return if indirect {
                3
            } else {
                2
            };
        } else if opcode < 0xC0 {
            self.write_operand(target, zero_bit(index, value));
        } else {
            self.write_operand(target, set_bit(index, value));
        }
        if indirect {
            4
        } else {
            2
        }
    }

    /// One of the eight operations on `A` with an 8-bit value.
    fn accumulate(&mut self, operation: u8, value: u8)
        requires
            old(self).wf(),
            operation <= 7,
        ensures
            final(self)@ == old(self)@.accumulate(operation, value),
            final(self).wf(),
    {
        if operation == 0 {
            self.registers.add_a(value, 0);
        } else if operation == 1 {
            self.registers.add_a(value, self.registers.get_flag(CPUFlag::C));
        } else if operation == 2 {
            self.registers.sub_a(value, 0);
        } else if operation == 3 {
            self.registers.sub_a(value, self.registers.get_flag(CPUFlag::C));
        } else if operation == 4 {
            self.registers.and_a(value);
        } else if operation == 5 {
            self.registers.xor_a(value);
        } else if operation == 6 {
            self.registers.or_a(value);
        } else {
            self.registers.cp_a(value);
        }
    }

    /// One of the eight operations on `A` and the flags alone.
    fn accumulator_op(&mut self, index: u8)
        requires
            old(self).wf(),
            index <= 7,
        ensures
            final(self)@ == old(self)@.accumulator_op(index),
            final(self).wf(),
    {
        if index == 0 {
            self.registers.a = self.registers.rotate_left(self.registers.a);
            self.registers.set_flags(Some(false), None, None, None);
        } else if index == 1 {
            self.registers.a = self.registers.rotate_right(self.registers.a);
            self.registers.set_flags(Some(false), None, None, None);
        } else if index == 2 {
            self.registers.a = self.registers.rotate_left_carry(self.registers.a);
            self.registers.set_flags(Some(false), None, None, None);
        } else if index == 3 {
            self.registers.a = self.registers.rotate_right_carry(self.registers.a);
            self.registers.set_flags(Some(false), None, None, None);
        } else if index == 4 {
            self.registers.decimal_adjust();
        } else if index == 5 {
            self.registers.a = !self.registers.a;
            self.registers.set_flags(None, Some(true), Some(true), None);
        } else if index == 6 {
            self.registers.set_flags(None, Some(false), Some(false), Some(true));
        } else {
            let carry: u8 = self.registers.get_flag(CPUFlag::C);
            self.registers.set_flags(None, Some(false), Some(false), Some(carry == 0));
        }
    }

    /// `base` plus the signed byte at the program counter, with the
    /// flags of `ADD SP,e`.
    fn add16(&mut self, base: u16) -> (sum: u16)
        requires
            old(self).wf(),
        ensures
            sum == add_offset(base, old(self)@.imm8()).0,
            final(self)@ == old(self)@.skip(1).with_flags(add_offset(base, old(self)@.imm8()).1),
            final(self).wf(),
    {
        let offset: u8 = self.fetch_byte();
        self.registers.add_signed(base, offset)
    }

    /// Steps `HL` after an access through it: up for the pair index 2,
    /// down for 3.
    fn step_address(&mut self, index: u8)
        requires
            old(self).wf(),
        ensures
            final(self)@ == old(self)@.stepped(index),
            final(self).wf(),
    {
        if index == 2 {
            self.registers.write_hl(self.registers.hl().wrapping_add(1));
        } else if index == 3 {
            self.registers.write_hl(self.registers.hl().wrapping_sub(1));
        }
    }

    fn indirect_address(&self, index: u8) -> (address: u16)
        ensures
            address == self@.indirect_address(index),
    {
        if index == 0 {
            self.registers.bc()
        } else if index == 1 {
            self.registers.de()
        } else {
            self.registers.hl()
        }
    }

    /// Pushes the address `length` bytes behind the program counter and
    /// jumps to `address`.
    fn call(&mut self, length: u16, address: u16)
        requires
            old(self).wf(),
        ensures
            final(self)@ == old(self)@.call(length as int, address),
            final(self).wf(),
    {
        self.push_stack(self.registers.pc.wrapping_add(length));
        self.registers.pc = address;
    }

    fn ret(&mut self)
        requires
            old(self).wf(),
        ensures
            final(self)@ == old(self)@.ret(),
            final(self).wf(),
    {
        self.registers.pc = self.pop_stack();
    }

    fn skip(&mut self, count: u16)
        ensures
            final(self)@ == old(self)@.skip(count as int),
    {
        self.registers.pc = self.registers.pc.wrapping_add(count);
    }

    fn execute_control(&mut self, opcode: u8) -> (cycles: u32)
        requires
            old(self).wf(),
            opcode < 0x40 && opcode % 8 == 0,
        ensures
            outcome(final(self)@, cycles) == old(self)@.control(opcode),
            final(self).wf(),
    {
        reveal(CpuView::control);
        let y: u8 = (opcode / 8) % 8;
        let p: u8 = y / 2;
        if y == 0 || y == 2 {
            1
        } else if y == 1 {
            let sp: u16 = self.registers.sp;
            proof {
                lemma_split(sp);
            }
            let first: u8 = (sp & 0xFF) as u8;
            let second: u8 = (sp >> 8) as u8;
            let address: u16 = self.fetch_word();
            self.write_memory(address, first);
            self.write_memory(address.wrapping_add(1), second);
            5
        } else if y == 3 || self.condition(y - 4) {
            self.jump_relative();
            3
        } else {
            self.skip(1);
            2
        }
    }

    fn execute_pair_load_add(&mut self, opcode: u8) -> (cycles: u32)
        requires
            old(self).wf(),
            opcode < 0x40 && opcode % 8 == 1,
        ensures
            outcome(final(self)@, cycles) == old(self)@.pair_load_add(opcode),
            final(self).wf(),
    {
        reveal(CpuView::pair_load_add);
        let y: u8 = (opcode / 8) % 8;
        let p: u8 = y / 2;
        if y % 2 == 0 {
            let value: u16 = self.fetch_word();
            self.write_pair(p, value);
            3
        } else {
            let value: u16 = self.read_pair(p);
            self.registers.add_hl(value);
            2
        }
    }

    fn execute_indirect_load(&mut self, opcode: u8) -> (cycles: u32)
        requires
            old(self).wf(),
            opcode < 0x40 && opcode % 8 == 2,
        ensures
            outcome(final(self)@, cycles) == old(self)@.indirect_load(opcode),
            final(self).wf(),
    {
        reveal(CpuView::indirect_load);
        let y: u8 = (opcode / 8) % 8;
        let p: u8 = y / 2;
        let address: u16 = self.indirect_address(p);
        if y % 2 == 0 {
            self.write_memory(address, self.registers.a);
        } else {
            self.registers.a = self.read_memory(address);
        }
        self.step_address(p);
        2
    }

    fn execute_pair_step(&mut self, opcode: u8) -> (cycles: u32)
        requires
            old(self).wf(),
            opcode < 0x40 && opcode % 8 == 3,
        ensures
            outcome(final(self)@, cycles) == old(self)@.pair_step(opcode),
            final(self).wf(),
    {
        reveal(CpuView::pair_step);
        let y: u8 = (opcode / 8) % 8;
        let p: u8 = y / 2;
        let value: u16 = self.read_pair(p);
        if y % 2 == 0 {
            self.write_pair(p, value.wrapping_add(1));
        } else {
            self.write_pair(p, value.wrapping_sub(1));
        }
        2
    }

    fn execute_operand_step(&mut self, opcode: u8) -> (cycles: u32)
        requires
            old(self).wf(),
            opcode < 0x40 && (opcode % 8 == 4 || opcode % 8 == 5),
        ensures
            outcome(final(self)@, cycles) == old(self)@.operand_step(opcode),
            final(self).wf(),
    {
        reveal(CpuView::operand_step);
        let y: u8 = (opcode / 8) % 8;
        let p: u8 = y / 2;
        let value: u8 = self.read_operand(y);
        let updated: u8 = if opcode % 8 == 4 {
            self.registers.inc_reg(value)
        } else {
            self.registers.dec_reg(value)
        };
        self.write_operand(y, updated);
        if y == INDIRECT_HL {
            3
        } else {
            1
        }
    }

    fn execute_operand_load(&mut self, opcode: u8) -> (cycles: u32)
        requires
            old(self).wf(),
            opcode < 0x40 && opcode % 8 == 6,
        ensures
            outcome(final(self)@, cycles) == old(self)@.operand_load(opcode),
            final(self).wf(),
    {
        reveal(CpuView::operand_load);
        let y: u8 = (opcode / 8) % 8;
        let p: u8 = y / 2;
        let value: u8 = self.fetch_byte();
        self.write_operand(y, value);
        if y == INDIRECT_HL {
            3
        } else {
            2
        }
    }

    fn execute_block0(&mut self, opcode: u8) -> (cycles: u32)
        requires
            old(self).wf(),
            opcode < 0x40,
        ensures
            outcome(final(self)@, cycles) == old(self)@.block0(opcode),
            final(self).wf(),
    {
        let z: u8 = opcode % 8;
        if z == 0 {
            self.execute_control(opcode)
        } else if z == 1 {
            self.execute_pair_load_add(opcode)
        } else if z == 2 {
            self.execute_indirect_load(opcode)
        } else if z == 3 {
            self.execute_pair_step(opcode)
        } else if z == 4 || z == 5 {
            self.execute_operand_step(opcode)
        } else if z == 6 {
            self.execute_operand_load(opcode)
        } else {
            self.accumulator_op((opcode / 8) % 8);
            1
        }
    }

    fn execute_block1(&mut self, opcode: u8) -> (cycles: u32)
        requires
            old(self).wf(),
            0x40 <= opcode < 0x80,
        ensures
            outcome(final(self)@, cycles) == old(self)@.block1(opcode),
            final(self).wf(),
    {
        let y: u8 = (opcode / 8) % 8;
        let z: u8 = opcode % 8;
        if opcode == 0x76 {
            self.low_power_mode = true;
            1
        } else {
            let value: u8 = self.read_operand(z);
            self.write_operand(y, value);
            if y == INDIRECT_HL || z == INDIRECT_HL {
                2
            } else {
                1
            }
        }
    }

    fn execute_block2(&mut self, opcode: u8) -> (cycles: u32)
        requires
            old(self).wf(),
            0x80 <= opcode < 0xC0,
        ensures
            outcome(final(self)@, cycles) == old(self)@.block2(opcode),
            final(self).wf(),
    {
        let z: u8 = opcode % 8;
        let value: u8 = self.read_operand(z);
        self.accumulate((opcode / 8) % 8, value);
        if z == INDIRECT_HL {
            2
        } else {
            1
        }
    }

    fn execute_return_high(&mut self, opcode: u8) -> (cycles: u32)
        requires
            old(self).wf(),
            0xC0 <= opcode && opcode % 8 == 0,
        ensures
            outcome(final(self)@, cycles) == old(self)@.return_high(opcode),
            final(self).wf(),
    {
        reveal(CpuView::return_high);
        let y: u8 = (opcode / 8) % 8;
        let p: u8 = y / 2;
        if y < 4 {
            if self.condition(y) {
                self.ret();
                5
            } else {
                2
            }
        } else if y == 4 {
            let offset: u8 = self.fetch_byte();
            self.write_memory(0xFF00 + offset as u16, self.registers.a);
            3
        } else if y == 5 {
            let sum: u16 = self.add16(self.registers.sp);
            self.registers.sp = sum;
            4
        } else if y == 6 {
            let offset: u8 = self.fetch_byte();
            self.registers.a = self.read_memory(0xFF00 + offset as u16);
            3
        } else {
            let sum: u16 = self.add16(self.registers.sp);
            self.registers.write_hl(sum);
            3
        }
    }

    fn execute_pop_return(&mut self, opcode: u8) -> (cycles: u32)
        requires
            old(self).wf(),
            0xC0 <= opcode && opcode % 8 == 1,
        ensures
            outcome(final(self)@, cycles) == old(self)@.pop_return(opcode),
            final(self).wf(),
    {
        reveal(CpuView::pop_return);
        let y: u8 = (opcode / 8) % 8;
        let p: u8 = y / 2;
        if y % 2 == 0 {
            let value: u16 = self.pop_stack();
            self.write_stack_pair(p, value);
            3
        } else if p == 0 {
            self.ret();
            4
        } else if p == 1 {
            self.ime = true;
            self.ret();
            4
        } else if p == 2 {
            self.registers.pc = self.registers.hl();
            1
        } else {
            self.registers.sp = self.registers.hl();
            2
        }
    }

    fn execute_jump_absolute(&mut self, opcode: u8) -> (cycles: u32)
        requires
            old(self).wf(),
            0xC0 <= opcode && opcode % 8 == 2,
        ensures
            outcome(final(self)@, cycles) == old(self)@.jump_absolute(opcode),
            final(self).wf(),
    {
        reveal(CpuView::jump_absolute);
        let y: u8 = (opcode / 8) % 8;
        let p: u8 = y / 2;
        if y < 4 {
            if self.condition(y) {
                self.registers.pc = self.fetch_word();
                4
            } else {
                self.skip(2);
                3
            }
        } else if y == 4 {
            self.write_memory(0xFF00 + self.registers.c as u16, self.registers.a);
            2
        } else if y == 5 {
            let address: u16 = self.fetch_word();
            self.write_memory(address, self.registers.a);
            4
        } else if y == 6 {
            self.registers.a = self.read_memory(0xFF00 + self.registers.c as u16);
            2
        } else {
            let address: u16 = self.fetch_word();
            self.registers.a = self.read_memory(address);
            4
        }
    }

    fn execute_misc(&mut self, opcode: u8) -> (cycles: Option<u32>)
        requires
            old(self).wf(),
            0xC0 <= opcode && opcode % 8 == 3,
        ensures
            match cycles {
                Some(cycles) => Some(outcome(final(self)@, cycles)) == old(self)@.misc(opcode),
                None => old(self)@.misc(opcode) is None && final(self)@ == old(self)@,
            },
            final(self).wf(),
    {
        reveal(CpuView::misc);
        let y: u8 = (opcode / 8) % 8;
        let p: u8 = y / 2;
        if y == 0 {
            self.registers.pc = self.fetch_word();
            Some(4)
        } else if y == 1 {
            Some(self.execute_extended())
        } else if y == 6 {
            self.ime = false;
            self.ime_timer = 0;
            Some(1)
        } else if y == 7 {
            self.ime_timer = 2;
            Some(1)
        } else {
            None
        }
    }

    fn execute_call_push(&mut self, opcode: u8) -> (cycles: Option<u32>)
        requires
            old(self).wf(),
            0xC0 <= opcode && (opcode % 8 == 4 || opcode % 8 == 5),
        ensures
            match cycles {
                Some(cycles) => Some(outcome(final(self)@, cycles)) == old(self)@.call_push(opcode),
                None => old(self)@.call_push(opcode) is None && final(self)@ == old(self)@,
            },
            final(self).wf(),
    {
        reveal(CpuView::call_push);
        let y: u8 = (opcode / 8) % 8;
        let p: u8 = y / 2;
        if opcode % 8 == 5 && y % 2 == 0 {
            self.push_stack(self.read_stack_pair(p));
            Some(4)
        } else if opcode == 0xCD || (opcode % 8 == 4 && y < 4) {
            if opcode == 0xCD || self.condition(y) {
                let address: u16 = self.fetch_word();
                self.call(0, address);
                Some(6)
            } else {
                self.skip(2);
                Some(3)
            }
        } else {
            None
        }
    }

    fn execute_block3(&mut self, opcode: u8) -> (cycles: Option<u32>)
        requires
            old(self).wf(),
            0xC0 <= opcode,
        ensures
            match cycles {
                Some(cycles) => Some(outcome(final(self)@, cycles)) == old(self)@.block3(opcode),
                None => old(self)@.block3(opcode) is None && final(self)@ == old(self)@,
            },
            final(self).wf(),
    {
        let y: u8 = (opcode / 8) % 8;
        let z: u8 = opcode % 8;
        if z == 0 {
            Some(self.execute_return_high(opcode))
        } else if z == 1 {
            Some(self.execute_pop_return(opcode))
        } else if z == 2 {
            Some(self.execute_jump_absolute(opcode))
        } else if z == 3 {
            self.execute_misc(opcode)
        } else if z == 4 || z == 5 {
            self.execute_call_push(opcode)
        } else if z == 6 {
            let value: u8 = self.fetch_byte();
            self.accumulate(y, value);
            Some(2)
        } else {
            self.call(0, (y * 8) as u16);
            Some(4)
        }
    }

    /// Fetches the instruction at the program counter and executes it.
    /// Returns the machine cycles that it took.
    pub(crate) fn execute(&mut self) -> (result: Result<u32, CoreError>)
        requires
            old(self).wf(),
        ensures
            (final(self)@, result) == old(self)@.execute(),
            final(self).wf(),
    {
        let pc: u16 = self.registers.pc;
        let opcode: u8 = self.fetch_byte();
        if opcode < 0x40 {
            Ok(self.execute_block0(opcode))
        } else if opcode < 0x80 {
            Ok(self.execute_block1(opcode))
        } else if opcode < 0xC0 {
            Ok(self.execute_block2(opcode))
        } else {
            match self.execute_block3(opcode) {
                Some(cycles) => Ok(cycles),
                None => Err(CoreError::UnknownOpcode { pc, byte: opcode }),
            }
        }
    }

    fn update_timers(&mut self)
        requires
            old(self).wf(),
        ensures
            final(self)@ == old(self)@.update_timers(),
            final(self).wf(),
    {
        if self.ime_timer == 1 {
            self.ime = true;
        }
        if self.ime_timer > 0 {
            self.ime_timer -= 1;
        }
    }

    /// Looks at the interrupts; returns the cycles that servicing one
    /// took, which is 0 when none was serviced.
    fn handle_interrupt(&mut self) -> (cycles: u32)
        requires
            old(self).wf(),
        ensures
            final(self)@ == old(self)@.handle_interrupt(),
            cycles == (if old(self)@.services_interrupt() {
                4u32
            } else {
                0u32
            }),
            final(self).wf(),
    {
        if !self.ime && !self.low_power_mode {
            return 0;
        }
        match self.mmu.get_first_active_interrupt() {
            None => 0,
            Some(interrupt) => {
                self.low_power_mode = false;
                if !self.ime {
                    return 0;
                }
                self.ime = false;
                self.mmu.clear_interrupt(&interrupt);
                self.call(0, interrupt.vector());
                4
            },
        }
    }

    /// Advances the processor by one instruction or one interrupt
    /// service, and returns the machine cycles that this took. The bus
    /// does not advance: see `tick`.
    pub fn step(&mut self) -> (result: Result<u32, CoreError>)
        requires
            old(self).wf(),
        ensures
            (final(self)@, result) == old(self)@.step(),
            final(self).wf(),
    {
        self.update_timers();
        if self.handle_interrupt() > 0 {
            Ok(4)
        } else if self.low_power_mode {
            Ok(1)
        } else {
            self.execute()
        }
    }

    /// One step of the processor, after which the bus advances by the
    /// cycles that the step took.
    pub fn tick(&mut self) -> (result: Result<u32, CoreError>)
        requires
            old(self).wf(),
        ensures
            (final(self)@, result) == old(self)@.tick(),
            final(self).wf(),
    {
        let result = self.step();
        if let Ok(elapsed) = result {
            self.mmu.tick(elapsed);
        }
        result
    }
}

} // verus!
