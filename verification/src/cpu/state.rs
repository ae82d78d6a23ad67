//! The state of the processor as the contracts see it, and the steps
//! that instructions are made of: operands, register pairs, the
//! immediate bytes behind the program counter, and the stack.

use vstd::prelude::*;
use crate::alu::FlagUpdate;
use crate::bits::{word, high_byte, low_byte};
use crate::mmu::MmuView;
use crate::register::{CPUFlag, Registers};

verus! {

/// What the processor holds: the register file, the bus, the master
/// enable of the interrupts with its delay, and whether it is halted.
pub struct CpuView {
    pub registers: Registers,
    pub mmu: MmuView,
    pub ime: bool,
    pub ime_timer: u8,
    pub halted: bool,
}

/// The address `count` bytes after `address`; addresses wrap at 64 KiB.
pub open spec fn address_after(address: u16, count: int) -> u16 {
    if address + count > 0xFFFF {
        (address + count - 0x10000) as u16
    } else if address + count < 0 {
        (address + count + 0x10000) as u16
    } else {
        (address + count) as u16
    }
}

/// The index that stands for the byte at `(HL)` among the operands.
pub const INDIRECT_HL: u8 = 6;

impl CpuView {
    pub open spec fn wf(self) -> bool {
        &&& self.registers.wf()
        &&& self.mmu.wf()
        &&& self.ime_timer <= 2
    }

    pub open spec fn read(self, address: u16) -> u8 {
        self.mmu.read(address)
    }

    pub open spec fn write(self, address: u16, value: u8) -> CpuView {
        CpuView { mmu: self.mmu.write(address, value), ..self }
    }

    pub open spec fn with_registers(self, registers: Registers) -> CpuView {
        CpuView { registers, ..self }
    }

    pub open spec fn with_flags(self, update: FlagUpdate) -> CpuView {
        self.with_registers(self.registers.with_flags(update))
    }

    /// The state with the program counter at `address`.
    pub open spec fn jump(self, address: u16) -> CpuView {
        self.with_registers(Registers { pc: address, ..self.registers })
    }

    /// The state with the program counter `count` bytes further.
    pub open spec fn skip(self, count: int) -> CpuView {
        self.jump(address_after(self.registers.pc, count))
    }

    /// The byte at the program counter.
    pub open spec fn imm8(self) -> u8 {
        self.read(self.registers.pc)
    }

    /// The word at the program counter, low byte first.
    pub open spec fn imm16(self) -> u16 {
        word(self.read(address_after(self.registers.pc, 1)), self.read(self.registers.pc))
    }

    /// The 8-bit operand with the index `index` of an opcode: `B`, `C`,
    /// `D`, `E`, `H`, `L`, the byte at `(HL)`, `A`.
    pub open spec fn operand(self, index: u8) -> u8 {
        if index == 0 {
            self.registers.b
        } else if index == 1 {
            self.registers.c
        } else if index == 2 {
            self.registers.d
        } else if index == 3 {
            self.registers.e
        } else if index == 4 {
            self.registers.h
        } else if index == 5 {
            self.registers.l
        } else if index == 6 {
            self.read(self.registers.spec_hl())
        } else {
            self.registers.a
        }
    }

    /// The state with `value` in the 8-bit operand `index`.
    pub open spec fn set_operand(self, index: u8, value: u8) -> CpuView {
        if index == 0 {
            self.with_registers(Registers { b: value, ..self.registers })
        } else if index == 1 {
            self.with_registers(Registers { c: value, ..self.registers })
        } else if index == 2 {
            self.with_registers(Registers { d: value, ..self.registers })
        } else if index == 3 {
            self.with_registers(Registers { e: value, ..self.registers })
        } else if index == 4 {
            self.with_registers(Registers { h: value, ..self.registers })
        } else if index == 5 {
            self.with_registers(Registers { l: value, ..self.registers })
        } else if index == 6 {
            self.write(self.registers.spec_hl(), value)
        } else {
            self.with_registers(Registers { a: value, ..self.registers })
        }
    }

    /// The register pair with the index `index` of an opcode: `BC`, `DE`,
    /// `HL`, `SP`.
    pub open spec fn pair(self, index: u8) -> u16 {
        if index == 0 {
            self.registers.spec_bc()
        } else if index == 1 {
            self.registers.spec_de()
        } else if index == 2 {
            self.registers.spec_hl()
        } else {
            self.registers.sp
        }
    }

    pub open spec fn set_pair(self, index: u8, value: u16) -> CpuView {
        if index == 0 {
            self.with_registers(self.registers.with_bc(value))
        } else if index == 1 {
            self.with_registers(self.registers.with_de(value))
        } else if index == 2 {
            self.with_registers(self.registers.with_hl(value))
        } else {
            self.with_registers(Registers { sp: value, ..self.registers })
        }
    }

    /// The register pair with the index `index` of a `PUSH` or `POP`:
    /// `BC`, `DE`, `HL`, `AF`.
    pub open spec fn stack_pair(self, index: u8) -> u16 {
        if index == 3 {
            self.registers.spec_af()
        } else {
            self.pair(index)
        }
    }

    pub open spec fn set_stack_pair(self, index: u8, value: u16) -> CpuView {
        if index == 3 {
            self.with_registers(self.registers.with_af(value))
        } else {
            self.set_pair(index, value)
        }
    }

    /// The condition with the index `index` of an opcode: `NZ`, `Z`,
    /// `NC`, `C`.
    pub open spec fn condition(self, index: u8) -> bool {
        if index == 0 {
            !self.registers.flag(CPUFlag::Z)
        } else if index == 1 {
            self.registers.flag(CPUFlag::Z)
        } else if index == 2 {
            !self.registers.flag(CPUFlag::C)
        } else {
            self.registers.flag(CPUFlag::C)
        }
    }

    /// The state after `value` is pushed: its high byte at `SP - 1`, its
    /// low byte at `SP - 2`, and `SP` two lower.
    pub open spec fn push(self, value: u16) -> CpuView {
        let high = address_after(self.registers.sp, -1);
        let low = address_after(self.registers.sp, -2);
        let written = self.write(high, high_byte(value)).write(low, low_byte(value));
        written.with_registers(Registers { sp: low, ..self.registers })
    }

    /// The word on top of the stack: its low byte at `SP`, its high byte
    /// at `SP + 1`.
    pub open spec fn top(self) -> u16 {
        word(self.read(address_after(self.registers.sp, 1)), self.read(self.registers.sp))
    }

    /// The state after the word on top of the stack is taken off.
    pub open spec fn drop_top(self) -> CpuView {
        self.with_registers(
            Registers { sp: address_after(self.registers.sp, 2), ..self.registers },
        )
    }
}

} // verus!
