//! What each instruction does to the state and how many machine cycles
//! it takes.
//!
//! An opcode is read as three fields: its two top bits choose one of
//! four blocks, the three bits below them (`row`) and the three lowest
//! bits (`column`) choose the instruction and its operands within the
//! block. The functions below take the state with the program counter
//! already behind the opcode.

use vstd::prelude::*;
use crate::alu::{
    add16,
    add_offset,
    alu8,
    bit_test,
    daa,
    dec8,
    displaced,
    inc8,
    rl,
    rlc,
    rr,
    rrc,
    shift8,
    with_bit_clear,
    with_bit_set,
    FlagUpdate,
};
use crate::bits::{word, high_byte, low_byte};
use crate::cpu::state::{CpuView, address_after};
use crate::error::CoreError;
use crate::register::CPUFlag;

verus! {

/// Bits 5 to 3 of an opcode.
pub open spec fn row(opcode: u8) -> u8 {
    (opcode / 8) % 8
}

/// Bits 2 to 0 of an opcode.
pub open spec fn column(opcode: u8) -> u8 {
    opcode % 8
}

/// The primary opcodes that name no instruction.
pub open spec fn is_undefined(opcode: u8) -> bool {
    ||| opcode == 0xD3
    ||| opcode == 0xDB
    ||| opcode == 0xDD
    ||| opcode == 0xE3
    ||| opcode == 0xE4
    ||| opcode == 0xEB
    ||| opcode == 0xEC
    ||| opcode == 0xED
    ||| opcode == 0xF4
    ||| opcode == 0xFC
    ||| opcode == 0xFD
}

/// The state together with the machine cycles that led to it.
pub struct Outcome {
    pub state: CpuView,
    pub cycles: u32,
}

pub open spec fn outcome(state: CpuView, cycles: u32) -> Outcome {
    Outcome { state, cycles }
}

impl CpuView {
    /// The state after a jump relative to the byte behind the offset.
    pub open spec fn jump_relative(self) -> CpuView {
        self.jump(displaced(address_after(self.registers.pc, 1), self.imm8()))
    }

    /// The state after a call of `address` from an instruction of
    /// `length` more bytes: the address behind the instruction is pushed.
    pub open spec fn call(self, length: int, address: u16) -> CpuView {
        self.push(address_after(self.registers.pc, length)).jump(address)
    }

    /// The state after a return: the program counter comes off the stack.
    pub open spec fn ret(self) -> CpuView {
        self.drop_top().jump(self.top())
    }

    /// A prefixed instruction, the program counter being at its second
    /// byte. Rows 0 to 7 rotate, shift or swap the operand, rows 8 to 15
    /// test a bit of it, rows 16 to 23 clear one, rows 24 to 31 set one.
    #[verifier::opaque]
    pub open spec fn extended(self) -> Outcome {
        let opcode = self.imm8();
        let s = self.skip(1);
        let target = column(opcode);
        let index = row(opcode);
        let value = s.operand(target);
        let indirect = target == 6;
        if opcode < 0x40 {
            let shifted = shift8(index, value, s.registers.flag(CPUFlag::C));
            outcome(s.with_flags(shifted.1).set_operand(target, shifted.0), if indirect {
                4
            } else {
                2
            })
        } else if opcode < 0x80 {
            outcome(s.with_flags(bit_test(index, value)), if indirect {
                3
            } else {
                2
            })
        } else if opcode < 0xC0 {
            outcome(s.set_operand(target, with_bit_clear(index, value)), if indirect {
                4
            } else {
                2
            })
        } else {
            outcome(s.set_operand(target, with_bit_set(index, value)), if indirect {
                4
            } else {
                2
            })
        }
    }

    /// The address that `LD (rr),A` and `LD A,(rr)` use for the pair
    /// index `index`: `BC`, `DE`, `HL` or `HL`.
    pub open spec fn indirect_address(self, index: u8) -> u16 {
        if index == 0 {
            self.registers.spec_bc()
        } else if index == 1 {
            self.registers.spec_de()
        } else {
            self.registers.spec_hl()
        }
    }

    /// The state after the address register of `LD (rr),A` or `LD A,(rr)`
    /// is stepped: `HL` goes up for index 2 and down for index 3.
    pub open spec fn stepped(self, index: u8) -> CpuView {
        if index == 2 {
            self.with_registers(
                self.registers.with_hl(address_after(self.registers.spec_hl(), 1)),
            )
        } else if index == 3 {
            self.with_registers(
                self.registers.with_hl(address_after(self.registers.spec_hl(), -1)),
            )
        } else {
            self
        }
    }

    /// One of the eight operations on `A` and the flags alone, by `index`:
    /// `RLCA`, `RRCA`, `RLA`, `RRA`, `DAA`, `CPL`, `SCF`, `CCF`.
    pub open spec fn accumulator_op(self, index: u8) -> CpuView {
        let r = self.registers;
        let carry = r.flag(CPUFlag::C);
        let no_zero = FlagUpdate { z: Some(false), n: None, h: None, c: None };
        if index == 0 {
            self.with_registers(r.with_a(rlc(r.a)).with_flags(no_zero))
        } else if index == 1 {
            self.with_registers(r.with_a(rrc(r.a)).with_flags(no_zero))
        } else if index == 2 {
            self.with_registers(r.with_a(rl(r.a, carry)).with_flags(no_zero))
        } else if index == 3 {
            self.with_registers(r.with_a(rr(r.a, carry)).with_flags(no_zero))
        } else if index == 4 {
            self.with_registers(
                r.with_a(daa(r.a, r.flag(CPUFlag::N), r.flag(CPUFlag::H), carry)),
            )
        } else if index == 5 {
            self.with_registers(
                r.with_a((!r.a, FlagUpdate { z: None, n: Some(true), h: Some(true), c: None })),
            )
        } else if index == 6 {
            self.with_flags(FlagUpdate { z: None, n: Some(false), h: Some(false), c: Some(true) })
        } else {
            self.with_flags(
                FlagUpdate { z: None, n: Some(false), h: Some(false), c: Some(!carry) },
            )
        }
    }

    /// `NOP`, `LD (nn),SP`, `STOP`, `JR e` and `JR cc,e`, by the row of
    /// the opcode. `STOP` does nothing.
    #[verifier::opaque]
    pub open spec fn control(self, opcode: u8) -> Outcome {
        let y = row(opcode);
        let r = self.registers;
        if y == 0 || y == 2 {
            outcome(self, 1)
        } else if y == 1 {
            let address = self.imm16();
            outcome(
                self.skip(2).write(address, low_byte(r.sp)).write(
                    address_after(address, 1),
                    high_byte(r.sp),
                ),
                5,
            )
        } else if y == 3 || self.condition((y - 4) as u8) {
            outcome(self.jump_relative(), 3)
        } else {
            outcome(self.skip(1), 2)
        }
    }

    /// `LD rr,nn` in the even rows, `ADD HL,rr` in the odd ones.
    #[verifier::opaque]
    pub open spec fn pair_load_add(self, opcode: u8) -> Outcome {
        let y = row(opcode);
        let p = y / 2;
        let r = self.registers;
        if y % 2 == 0 {
            outcome(self.set_pair(p, self.imm16()).skip(2), 3)
        } else {
            let sum = add16(r.spec_hl(), self.pair(p));
            outcome(self.with_registers(r.with_hl(sum.0).with_flags(sum.1)), 2)
        }
    }

    /// `LD (rr),A` in the even rows, `LD A,(rr)` in the odd ones, through
    /// `BC`, `DE`, `HL+` or `HL-`.
    #[verifier::opaque]
    pub open spec fn indirect_load(self, opcode: u8) -> Outcome {
        let y = row(opcode);
        let p = y / 2;
        let address = self.indirect_address(p);
        if y % 2 == 0 {
            outcome(self.write(address, self.registers.a).stepped(p), 2)
        } else {
            outcome(self.set_operand(7, self.read(address)).stepped(p), 2)
        }
    }

    /// `INC rr` in the even rows, `DEC rr` in the odd ones; no flag
    /// changes.
    #[verifier::opaque]
    pub open spec fn pair_step(self, opcode: u8) -> Outcome {
        let y = row(opcode);
        let p = y / 2;
        if y % 2 == 0 {
            outcome(self.set_pair(p, address_after(self.pair(p), 1)), 2)
        } else {
            outcome(self.set_pair(p, address_after(self.pair(p), -1)), 2)
        }
    }

    /// `INC r` in column 4, `DEC r` in column 5, on the operand that the
    /// row names.
    #[verifier::opaque]
    pub open spec fn operand_step(self, opcode: u8) -> Outcome {
        let y = row(opcode);
        let result = if column(opcode) == 4 {
            inc8(self.operand(y))
        } else {
            dec8(self.operand(y))
        };
        outcome(self.with_flags(result.1).set_operand(y, result.0), if y == 6 {
            3
        } else {
            1
        })
    }

    /// `LD r,n` on the operand that the row names.
    #[verifier::opaque]
    pub open spec fn operand_load(self, opcode: u8) -> Outcome {
        let y = row(opcode);
        outcome(self.skip(1).set_operand(y, self.imm8()), if y == 6 {
            3
        } else {
            2
        })
    }

    /// The instructions `0x00..=0x3F`, by the column of the opcode.
    pub open spec fn block0(self, opcode: u8) -> Outcome {
        let z = column(opcode);
        if z == 0 {
            self.control(opcode)
        } else if z == 1 {
            self.pair_load_add(opcode)
        } else if z == 2 {
            self.indirect_load(opcode)
        } else if z == 3 {
            self.pair_step(opcode)
        } else if z == 4 || z == 5 {
            self.operand_step(opcode)
        } else if z == 6 {
            self.operand_load(opcode)
        } else {
            outcome(self.accumulator_op(row(opcode)), 1)
        }
    }

    /// The instructions `0x40..=0x7F`: the loads between 8-bit operands,
    /// and `HALT` where the load of `(HL)` from itself would be.
    pub open spec fn block1(self, opcode: u8) -> Outcome {
        let y = row(opcode);
        let z = column(opcode);
        if opcode == 0x76 {
            outcome(CpuView { halted: true, ..self }, 1)
        } else {
            outcome(self.set_operand(y, self.operand(z)), if y == 6 || z == 6 {
                2
            } else {
                1
            })
        }
    }

    /// The state after the operation `operation` on `A` with `value`.
    pub open spec fn accumulate(self, operation: u8, value: u8) -> CpuView {
        let r = self.registers;
        self.with_registers(r.with_a(alu8(operation, r.a, value, r.flag(CPUFlag::C))))
    }

    /// The instructions `0x80..=0xBF`: arithmetic and logic on `A` with
    /// an 8-bit operand.
    pub open spec fn block2(self, opcode: u8) -> Outcome {
        let z = column(opcode);
        outcome(self.accumulate(row(opcode), self.operand(z)), if z == 6 {
            2
        } else {
            1
        })
    }

    /// `RET cc` in rows 0 to 3, then `LDH (n),A`, `ADD SP,e`, `LDH A,(n)`
    /// and `LD HL,SP+e`.
    #[verifier::opaque]
    pub open spec fn return_high(self, opcode: u8) -> Outcome {
        let y = row(opcode);
        let r = self.registers;
        let high_page = word(0xFF, self.imm8());
        let sum = add_offset(r.sp, self.imm8());
        if y < 4 {
            if self.condition(y) {
                outcome(self.ret(), 5)
            } else {
                outcome(self, 2)
            }
        } else if y == 4 {
            outcome(self.skip(1).write(high_page, r.a), 3)
        } else if y == 5 {
            outcome(self.skip(1).with_flags(sum.1).set_pair(3, sum.0), 4)
        } else if y == 6 {
            outcome(self.skip(1).set_operand(7, self.read(high_page)), 3)
        } else {
            outcome(self.skip(1).with_flags(sum.1).set_pair(2, sum.0), 3)
        }
    }

    /// `POP rr` in the even rows; `RET`, `RETI`, `JP HL` and `LD SP,HL` in
    /// the odd ones. `RETI` sets the master enable at once.
    #[verifier::opaque]
    pub open spec fn pop_return(self, opcode: u8) -> Outcome {
        let y = row(opcode);
        let p = y / 2;
        let r = self.registers;
        if y % 2 == 0 {
            outcome(self.drop_top().set_stack_pair(p, self.top()), 3)
        } else if p == 0 {
            outcome(self.ret(), 4)
        } else if p == 1 {
            outcome(CpuView { ime: true, ..self.ret() }, 4)
        } else if p == 2 {
            outcome(self.jump(r.spec_hl()), 1)
        } else {
            outcome(self.set_pair(3, r.spec_hl()), 2)
        }
    }

    /// `JP cc,nn` in rows 0 to 3, then `LD (C),A`, `LD (nn),A`, `LD A,(C)`
    /// and `LD A,(nn)`.
    #[verifier::opaque]
    pub open spec fn jump_absolute(self, opcode: u8) -> Outcome {
        let y = row(opcode);
        let r = self.registers;
        let high_c = word(0xFF, r.c);
        if y < 4 {
            if self.condition(y) {
                outcome(self.jump(self.imm16()), 4)
            } else {
                outcome(self.skip(2), 3)
            }
        } else if y == 4 {
            outcome(self.write(high_c, r.a), 2)
        } else if y == 5 {
            outcome(self.skip(2).write(self.imm16(), r.a), 4)
        } else if y == 6 {
            outcome(self.set_operand(7, self.read(high_c)), 2)
        } else {
            outcome(self.skip(2).set_operand(7, self.read(self.imm16())), 4)
        }
    }

    /// `JP nn`, the prefixed instructions, `DI` and `EI`; the other four
    /// opcodes of the column name no instruction. `DI` clears the master
    /// enable and the delay of an `EI` before it; `EI` starts the delay.
    #[verifier::opaque]
    pub open spec fn misc(self, opcode: u8) -> Option<Outcome> {
        let y = row(opcode);
        if y == 0 {
            Some(outcome(self.jump(self.imm16()), 4))
        } else if y == 1 {
            Some(self.extended())
        } else if y == 6 {
            Some(outcome(CpuView { ime: false, ime_timer: 0, ..self }, 1))
        } else if y == 7 {
            Some(outcome(CpuView { ime_timer: 2, ..self }, 1))
        } else {
            None
        }
    }

    /// `CALL cc,nn` in rows 0 to 3 of column 4, `PUSH rr` in the even rows
    /// of column 5 and `CALL nn` in its row 1; the other opcodes of the
    /// two columns name no instruction.
    #[verifier::opaque]
    pub open spec fn call_push(self, opcode: u8) -> Option<Outcome> {
        let y = row(opcode);
        let p = y / 2;
        if column(opcode) == 4 {
            if y < 4 {
                if self.condition(y) {
                    Some(outcome(self.call(2, self.imm16()), 6))
                } else {
                    Some(outcome(self.skip(2), 3))
                }
            } else {
                None
            }
        } else if y % 2 == 0 {
            Some(outcome(self.push(self.stack_pair(p)), 4))
        } else if p == 0 {
            Some(outcome(self.call(2, self.imm16()), 6))
        } else {
            None
        }
    }

    /// The instructions `0xC0..=0xFF`, by the column of the opcode; `None`
    /// for the opcodes that name no instruction. Column 6 holds the
    /// operations on `A` with an immediate byte, column 7 the calls `RST`
    /// of the eight fixed addresses.
    pub open spec fn block3(self, opcode: u8) -> Option<Outcome> {
        let y = row(opcode);
        let z = column(opcode);
        if z == 0 {
            Some(self.return_high(opcode))
        } else if z == 1 {
            Some(self.pop_return(opcode))
        } else if z == 2 {
            Some(self.jump_absolute(opcode))
        } else if z == 3 {
            self.misc(opcode)
        } else if z == 4 || z == 5 {
            self.call_push(opcode)
        } else if z == 6 {
            Some(outcome(self.skip(1).accumulate(y, self.imm8()), 2))
        } else {
            Some(outcome(self.call(0, (y * 8) as u16), 4))
        }
    }

    /// The instruction `opcode`, the program counter being behind it;
    /// `None` for the opcodes that name no instruction.
    pub open spec fn instruction(self, opcode: u8) -> Option<Outcome> {
        if opcode < 0x40 {
            Some(self.block0(opcode))
        } else if opcode < 0x80 {
            Some(self.block1(opcode))
        } else if opcode < 0xC0 {
            Some(self.block2(opcode))
        } else {
            self.block3(opcode)
        }
    }

    /// Fetching the instruction at the program counter and executing it.
    /// An opcode that names no instruction stops the processor behind it.
    pub open spec fn execute(self) -> (CpuView, Result<u32, CoreError>) {
        let opcode = self.imm8();
        match self.skip(1).instruction(opcode) {
            Some(done) => (done.state, Ok(done.cycles)),
            None => (
                self.skip(1),
                Err(CoreError::UnknownOpcode { pc: self.registers.pc, byte: opcode }),
            ),
        }
    }

    /// The state after the delay of `EI` has advanced by one step: the
    /// master enable is set when the delay stands at 1.
    pub open spec fn update_timers(self) -> CpuView {
        CpuView {
            ime: self.ime || self.ime_timer == 1,
            ime_timer: if self.ime_timer > 0 {
                (self.ime_timer - 1) as u8
            } else {
                0
            },
            ..self
        }
    }

    /// Whether a pending interrupt is serviced now.
    pub open spec fn services_interrupt(self) -> bool {
        self.ime && self.mmu.pending().is_some()
    }

    /// The state after the interrupts were looked at. A pending interrupt
    /// ends the halt; with the master enable set it is also serviced: the
    /// enable and the flag of the source are cleared, the program counter
    /// is pushed and set to the vector of the source.
    pub open spec fn handle_interrupt(self) -> CpuView {
        match self.mmu.pending() {
            Some(source) => {
                if self.ime {
                    (CpuView {
                        ime: false,
                        halted: false,
                        mmu: self.mmu.clear(source),
                        ..self
                    }).call(0, source.spec_vector())
                } else if self.halted {
                    CpuView { halted: false, ..self }
                } else {
                    self
                }
            },
            None => self,
        }
    }

    /// One step of the processor: the delay of `EI` advances, then a
    /// pending interrupt is serviced in 4 cycles, or the halted processor
    /// idles for 1 cycle, or one instruction is executed.
    pub open spec fn step(self) -> (CpuView, Result<u32, CoreError>) {
        let timed = self.update_timers();
        let handled = timed.handle_interrupt();
        if timed.services_interrupt() {
            (handled, Ok(4))
        } else if handled.halted {
            (handled, Ok(1))
        } else {
            handled.execute()
        }
    }

    /// One step, after which the bus advances by the cycles that the
    /// step took.
    pub open spec fn tick(self) -> (CpuView, Result<u32, CoreError>) {
        let stepped = self.step();
        match stepped.1 {
            Ok(cycles) => (
                CpuView { mmu: stepped.0.mmu.tick(cycles as nat), ..stepped.0 },
                stepped.1,
            ),
            Err(_) => stepped,
        }
    }
}

} // verus!
