//! The machine cycles of each instruction, as a table by opcode.

use vstd::prelude::*;
use crate::cpu::semantics::{is_undefined, row};
use crate::cpu::state::CpuView;

verus! {

/// The opcode that announces a prefixed instruction.
pub const PREFIX: u8 = 0xCB;

/// The entry of a table row of sixteen for the low nibble `low`.
pub open spec fn entry(low: u8, cells: (u32, u32, u32, u32, u32, u32, u32, u32), more: (u32, u32, u32, u32, u32, u32, u32, u32)) -> u32 {
    if low == 0x0 {
        cells.0
    } else if low == 0x1 {
        cells.1
    } else if low == 0x2 {
        cells.2
    } else if low == 0x3 {
        cells.3
    } else if low == 0x4 {
        cells.4
    } else if low == 0x5 {
        cells.5
    } else if low == 0x6 {
        cells.6
    } else if low == 0x7 {
        cells.7
    } else if low == 0x8 {
        more.0
    } else if low == 0x9 {
        more.1
    } else if low == 0xA {
        more.2
    } else if low == 0xB {
        more.3
    } else if low == 0xC {
        more.4
    } else if low == 0xD {
        more.5
    } else if low == 0xE {
        more.6
    } else {
        more.7
    }
}

/// The machine cycles of the primary instruction `opcode`; for a
/// conditional jump, call or return, the cycles when the condition does
/// not hold. Each line is one row of sixteen opcodes, by the high nibble.
/// The table gives 0 for the prefix and for the opcodes that name no
/// instruction.
pub open spec fn base_cycles(opcode: u8) -> u32 {
    let high = opcode / 16;
    let low = opcode % 16;
    if high == 0x0 {
        entry(low, (1, 3, 2, 2, 1, 1, 2, 1), (5, 2, 2, 2, 1, 1, 2, 1))
    } else if high == 0x1 {
        entry(low, (1, 3, 2, 2, 1, 1, 2, 1), (3, 2, 2, 2, 1, 1, 2, 1))
    } else if high == 0x2 {
        entry(low, (2, 3, 2, 2, 1, 1, 2, 1), (2, 2, 2, 2, 1, 1, 2, 1))
    } else if high == 0x3 {
        entry(low, (2, 3, 2, 2, 3, 3, 3, 1), (2, 2, 2, 2, 1, 1, 2, 1))
    } else if high == 0x4 {
        entry(low, (1, 1, 1, 1, 1, 1, 2, 1), (1, 1, 1, 1, 1, 1, 2, 1))
    } else if high == 0x5 {
        entry(low, (1, 1, 1, 1, 1, 1, 2, 1), (1, 1, 1, 1, 1, 1, 2, 1))
    } else if high == 0x6 {
        entry(low, (1, 1, 1, 1, 1, 1, 2, 1), (1, 1, 1, 1, 1, 1, 2, 1))
    } else if high == 0x7 {
        entry(low, (2, 2, 2, 2, 2, 2, 1, 2), (1, 1, 1, 1, 1, 1, 2, 1))
    } else if high == 0x8 {
        entry(low, (1, 1, 1, 1, 1, 1, 2, 1), (1, 1, 1, 1, 1, 1, 2, 1))
    } else if high == 0x9 {
        entry(low, (1, 1, 1, 1, 1, 1, 2, 1), (1, 1, 1, 1, 1, 1, 2, 1))
    } else if high == 0xA {
        entry(low, (1, 1, 1, 1, 1, 1, 2, 1), (1, 1, 1, 1, 1, 1, 2, 1))
    } else if high == 0xB {
        entry(low, (1, 1, 1, 1, 1, 1, 2, 1), (1, 1, 1, 1, 1, 1, 2, 1))
    } else if high == 0xC {
        entry(low, (2, 3, 3, 4, 3, 4, 2, 4), (2, 4, 3, 0, 3, 6, 2, 4))
    } else if high == 0xD {
        entry(low, (2, 3, 3, 0, 3, 4, 2, 4), (2, 4, 3, 0, 3, 0, 2, 4))
    } else if high == 0xE {
        entry(low, (3, 3, 2, 0, 0, 4, 2, 4), (4, 1, 4, 0, 0, 0, 2, 4))
    } else {
        entry(low, (3, 3, 2, 1, 0, 4, 2, 4), (3, 2, 4, 1, 0, 0, 2, 4))
    }
}

/// Whether `opcode` is a conditional jump, call or return.
pub open spec fn is_conditional(opcode: u8) -> bool {
    ||| opcode == 0x20 || opcode == 0x28 || opcode == 0x30 || opcode == 0x38
    ||| opcode == 0xC0 || opcode == 0xC8 || opcode == 0xD0 || opcode == 0xD8
    ||| opcode == 0xC2 || opcode == 0xCA || opcode == 0xD2 || opcode == 0xDA
    ||| opcode == 0xC4 || opcode == 0xCC || opcode == 0xD4 || opcode == 0xDC
}

/// The cycles that a conditional instruction takes more when its
/// condition holds: 1 for a jump, 3 for a call or a return.
pub open spec fn taken_cycles(opcode: u8) -> u32 {
    if opcode == 0x20 || opcode == 0x28 || opcode == 0x30 || opcode == 0x38 {
        1
    } else if opcode == 0xC2 || opcode == 0xCA || opcode == 0xD2 || opcode == 0xDA {
        1
    } else {
        3
    }
}

/// The machine cycles of the prefixed instruction with the second byte
/// `opcode`, the prefix included: 2 on a register, 4 on the byte at
/// `(HL)`, 3 where `BIT` only reads it.
pub open spec fn prefixed_cycles(opcode: u8) -> u32 {
    if opcode % 8 != 6 {
        2
    } else if 0x40 <= opcode <= 0x7F {
        3
    } else {
        4
    }
}

impl CpuView {
    /// Whether the condition of the conditional instruction `opcode`
    /// holds: `NZ`, `Z`, `NC`, `C` by bits 4 and 3 of the opcode.
    pub open spec fn branch_taken(self, opcode: u8) -> bool {
        is_conditional(opcode) && self.condition(row(opcode) % 4)
    }

    /// The machine cycles that the table gives for `opcode` in this
    /// state, the program counter being behind the opcode.
    pub open spec fn tabulated_cycles(self, opcode: u8) -> u32 {
        if opcode == PREFIX {
            prefixed_cycles(self.imm8())
        } else if self.branch_taken(opcode) {
            (base_cycles(opcode) + taken_cycles(opcode)) as u32
        } else {
            base_cycles(opcode)
        }
    }
}

/// An instruction takes the machine cycles that the table gives for its
/// opcode and for whether its branch is taken; the opcodes without an
/// instruction are the eleven undefined ones.
pub proof fn lemma_cycles_tabulated(s: CpuView, opcode: u8)
    ensures
        is_undefined(opcode) <==> s.instruction(opcode) is None,
        !is_undefined(opcode) ==> s.instruction(opcode).unwrap().cycles == s.tabulated_cycles(
            opcode,
        ),
{
    if opcode < 0x40 {
        lemma_block0_cycles(s, opcode);
    } else if opcode < 0x80 {
        lemma_block1_cycles(s, opcode);
    } else if opcode < 0xC0 {
        lemma_block2_cycles(s, opcode);
    } else {
        lemma_block3_cycles(s, opcode);
    }
}

proof fn lemma_control_cycles(s: CpuView, opcode: u8)
    requires
        0x00 <= opcode <= 0x3F,
        opcode % 8 == 0,
    ensures
        !is_undefined(opcode),
        s.control(opcode).cycles == s.tabulated_cycles(opcode),
{
    reveal(CpuView::control);
    assert(opcode == 0x00 || opcode == 0x08 || opcode == 0x10 || opcode == 0x18 || opcode == 0x20 || opcode == 0x28 || opcode == 0x30 || opcode == 0x38);
}

proof fn lemma_pair_load_add_cycles(s: CpuView, opcode: u8)
    requires
        0x00 <= opcode <= 0x3F,
        opcode % 8 == 1,
    ensures
        !is_undefined(opcode),
        s.pair_load_add(opcode).cycles == s.tabulated_cycles(opcode),
{
    reveal(CpuView::pair_load_add);
    assert(opcode == 0x01 || opcode == 0x09 || opcode == 0x11 || opcode == 0x19 || opcode == 0x21 || opcode == 0x29 || opcode == 0x31 || opcode == 0x39);
}

proof fn lemma_indirect_load_cycles(s: CpuView, opcode: u8)
    requires
        0x00 <= opcode <= 0x3F,
        opcode % 8 == 2,
    ensures
        !is_undefined(opcode),
        s.indirect_load(opcode).cycles == s.tabulated_cycles(opcode),
{
    reveal(CpuView::indirect_load);
    assert(opcode == 0x02 || opcode == 0x0A || opcode == 0x12 || opcode == 0x1A || opcode == 0x22 || opcode == 0x2A || opcode == 0x32 || opcode == 0x3A);
}

proof fn lemma_pair_step_cycles(s: CpuView, opcode: u8)
    requires
        0x00 <= opcode <= 0x3F,
        opcode % 8 == 3,
    ensures
        !is_undefined(opcode),
        s.pair_step(opcode).cycles == s.tabulated_cycles(opcode),
{
    reveal(CpuView::pair_step);
    assert(opcode == 0x03 || opcode == 0x0B || opcode == 0x13 || opcode == 0x1B || opcode == 0x23 || opcode == 0x2B || opcode == 0x33 || opcode == 0x3B);
}

proof fn lemma_operand_step_cycles(s: CpuView, opcode: u8)
    requires
        0x00 <= opcode <= 0x3F,
        opcode % 8 == 4 || opcode % 8 == 5,
    ensures
        !is_undefined(opcode),
        s.operand_step(opcode).cycles == s.tabulated_cycles(opcode),
{
    reveal(CpuView::operand_step);
    assert(opcode == 0x04 || opcode == 0x05 || opcode == 0x0C || opcode == 0x0D || opcode == 0x14 || opcode == 0x15 || opcode == 0x1C || opcode == 0x1D || opcode == 0x24 || opcode == 0x25 || opcode == 0x2C || opcode == 0x2D || opcode == 0x34 || opcode == 0x35 || opcode == 0x3C || opcode == 0x3D);
}

proof fn lemma_operand_load_cycles(s: CpuView, opcode: u8)
    requires
        0x00 <= opcode <= 0x3F,
        opcode % 8 == 6,
    ensures
        !is_undefined(opcode),
        s.operand_load(opcode).cycles == s.tabulated_cycles(opcode),
{
    reveal(CpuView::operand_load);
    assert(opcode == 0x06 || opcode == 0x0E || opcode == 0x16 || opcode == 0x1E || opcode == 0x26 || opcode == 0x2E || opcode == 0x36 || opcode == 0x3E);
}

proof fn lemma_block0_cycles(s: CpuView, opcode: u8)
    requires
        opcode < 0x40,
    ensures
        !is_undefined(opcode),
        s.block0(opcode).cycles == s.tabulated_cycles(opcode),
{
    let z = opcode % 8;
    if z == 0 {
        lemma_control_cycles(s, opcode);
    } else if z == 1 {
        lemma_pair_load_add_cycles(s, opcode);
    } else if z == 2 {
        lemma_indirect_load_cycles(s, opcode);
    } else if z == 3 {
        lemma_pair_step_cycles(s, opcode);
    } else if z == 4 || z == 5 {
        lemma_operand_step_cycles(s, opcode);
    } else if z == 6 {
        lemma_operand_load_cycles(s, opcode);
    } else {
        assert(opcode == 0x07 || opcode == 0x0F || opcode == 0x17 || opcode == 0x1F || opcode
            == 0x27 || opcode == 0x2F || opcode == 0x37 || opcode == 0x3F);
    }
}

proof fn lemma_block1_cycles(s: CpuView, opcode: u8)
    requires
        0x40 <= opcode < 0x80,
    ensures
        !is_undefined(opcode),
        s.block1(opcode).cycles == s.tabulated_cycles(opcode),
{
}

proof fn lemma_block2_cycles(s: CpuView, opcode: u8)
    requires
        0x80 <= opcode < 0xC0,
    ensures
        !is_undefined(opcode),
        s.block2(opcode).cycles == s.tabulated_cycles(opcode),
{
}

proof fn lemma_return_high_cycles(s: CpuView, opcode: u8)
    requires
        0xC0 <= opcode <= 0xFF,
        opcode % 8 == 0,
    ensures
        !is_undefined(opcode),
        s.return_high(opcode).cycles == s.tabulated_cycles(opcode),
{
    reveal(CpuView::return_high);
    assert(opcode == 0xC0 || opcode == 0xC8 || opcode == 0xD0 || opcode == 0xD8 || opcode == 0xE0 || opcode == 0xE8 || opcode == 0xF0 || opcode == 0xF8);
}

proof fn lemma_pop_return_cycles(s: CpuView, opcode: u8)
    requires
        0xC0 <= opcode <= 0xFF,
        opcode % 8 == 1,
    ensures
        !is_undefined(opcode),
        s.pop_return(opcode).cycles == s.tabulated_cycles(opcode),
{
    reveal(CpuView::pop_return);
    assert(opcode == 0xC1 || opcode == 0xC9 || opcode == 0xD1 || opcode == 0xD9 || opcode == 0xE1 || opcode == 0xE9 || opcode == 0xF1 || opcode == 0xF9);
}

proof fn lemma_jump_absolute_cycles(s: CpuView, opcode: u8)
    requires
        0xC0 <= opcode <= 0xFF,
        opcode % 8 == 2,
    ensures
        !is_undefined(opcode),
        s.jump_absolute(opcode).cycles == s.tabulated_cycles(opcode),
{
    reveal(CpuView::jump_absolute);
    assert(opcode == 0xC2 || opcode == 0xCA || opcode == 0xD2 || opcode == 0xDA || opcode == 0xE2 || opcode == 0xEA || opcode == 0xF2 || opcode == 0xFA);
}

proof fn lemma_misc_cycles(s: CpuView, opcode: u8)
    requires
        0xC0 <= opcode <= 0xFF,
        opcode % 8 == 3,
    ensures
        is_undefined(opcode) <==> s.misc(opcode) is None,
        !is_undefined(opcode) ==> s.misc(opcode).unwrap().cycles == s.tabulated_cycles(opcode),
{
    reveal(CpuView::misc);
    reveal(CpuView::extended);
    assert(opcode == 0xC3 || opcode == 0xCB || opcode == 0xD3 || opcode == 0xDB || opcode == 0xE3 || opcode == 0xEB || opcode == 0xF3 || opcode == 0xFB);
}

proof fn lemma_call_push_cycles(s: CpuView, opcode: u8)
    requires
        0xC0 <= opcode <= 0xFF,
        opcode % 8 == 4 || opcode % 8 == 5,
    ensures
        is_undefined(opcode) <==> s.call_push(opcode) is None,
        !is_undefined(opcode) ==> s.call_push(opcode).unwrap().cycles == s.tabulated_cycles(opcode),
{
    reveal(CpuView::call_push);
    assert(opcode == 0xC4 || opcode == 0xC5 || opcode == 0xCC || opcode == 0xCD || opcode == 0xD4 || opcode == 0xD5 || opcode == 0xDC || opcode == 0xDD || opcode == 0xE4 || opcode == 0xE5 || opcode == 0xEC || opcode == 0xED || opcode == 0xF4 || opcode == 0xF5 || opcode == 0xFC || opcode == 0xFD);
}

proof fn lemma_block3_cycles(s: CpuView, opcode: u8)
    requires
        0xC0 <= opcode,
    ensures
        is_undefined(opcode) <==> s.block3(opcode) is None,
        !is_undefined(opcode) ==> s.block3(opcode).unwrap().cycles == s.tabulated_cycles(opcode),
{
    let z = opcode % 8;
    if z == 0 {
        lemma_return_high_cycles(s, opcode);
    } else if z == 1 {
        lemma_pop_return_cycles(s, opcode);
    } else if z == 2 {
        lemma_jump_absolute_cycles(s, opcode);
    } else if z == 3 {
        lemma_misc_cycles(s, opcode);
    } else if z == 4 || z == 5 {
        lemma_call_push_cycles(s, opcode);
    } else if z == 6 {
        assert(opcode == 0xC6 || opcode == 0xCE || opcode == 0xD6 || opcode == 0xDE || opcode
            == 0xE6 || opcode == 0xEE || opcode == 0xF6 || opcode == 0xFE);
    } else {
        assert(opcode == 0xC7 || opcode == 0xCF || opcode == 0xD7 || opcode == 0xDF || opcode
            == 0xE7 || opcode == 0xEF || opcode == 0xF7 || opcode == 0xFF);
    }
}

} // verus!
