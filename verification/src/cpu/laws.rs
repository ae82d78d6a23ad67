//! Laws of the instruction set that hold in every state.

use vstd::prelude::*;
use crate::bits::{lemma_split, high_byte, low_byte};
use crate::cpu::semantics::{column, outcome, row};
use crate::cpu::state::{CpuView, address_after};
use crate::error::CoreError;
use crate::interupt::{Interrupt, bit_is_set, cleared, lemma_raise_and_clear};
use crate::mmu::{lemma_read_after_write, lemma_read_elsewhere};
use crate::register::{lemma_write_af_then_read, lemma_write_pair_then_read};

verus! {

/// A word that is pushed comes back when it is popped, and the stack
/// pointer is where it was, provided the bus stores bytes at the two
/// addresses below the stack pointer. Popped into `BC`, `DE` or `HL` the
/// pair then holds the word; popped into `AF` it holds the word with the
/// low nibble cleared.
pub proof fn lemma_push_then_pop(s: CpuView, pair: u8, value: u16)
    requires
        s.wf(),
        pair <= 3,
        s.mmu.stores(address_after(s.registers.sp, -1)),
        s.mmu.stores(address_after(s.registers.sp, -2)),
    ensures
        s.push(value).top() == value,
        s.push(value).drop_top().registers.sp == s.registers.sp,
        s.push(value).drop_top().set_stack_pair(pair, s.push(value).top()).stack_pair(pair) == (
        if pair == 3 {
            value & 0xFFF0
        } else {
            value
        }),
{
    let high = address_after(s.registers.sp, -1);
    let low = address_after(s.registers.sp, -2);
    let first = s.mmu.write(high, high_byte(value));
    lemma_read_after_write(s.mmu, high, high_byte(value));
    lemma_read_elsewhere(s.mmu, high, high_byte(value), low);
    lemma_read_after_write(first, low, low_byte(value));
    lemma_read_elsewhere(first, low, low_byte(value), high);
    lemma_split(value);
    lemma_write_af_then_read(s.push(value).drop_top().registers, value);
}

/// `DI` right after `EI` leaves the interrupts disabled: the master
/// enable is clear after each of the two instructions, the delay of `EI`
/// is gone, and the step after them services no interrupt.
pub proof fn lemma_ei_then_di(s: CpuView)
    requires
        !s.ime,
        !s.halted,
        s.ime_timer == 0,
        s.read(s.registers.pc) == 0xFB,
        s.read(address_after(s.registers.pc, 1)) == 0xF3,
    ensures
        s.step().1 == Ok::<u32, CoreError>(1),
        !s.step().0.ime,
        s.step().0.step().1 == Ok::<u32, CoreError>(1),
        !s.step().0.step().0.ime,
        s.step().0.step().0.ime_timer == 0,
        !s.step().0.step().0.update_timers().services_interrupt(),
{
    reveal(CpuView::misc);
    let enabled = s.step().0;
    assert(row(0xFB) == 7 && column(0xFB) == 3 && row(0xF3) == 6 && column(0xF3) == 3);
    assert(s.skip(1).instruction(0xFB) == s.skip(1).misc(0xFB));
    assert(enabled == (CpuView { ime_timer: 2, ..s.skip(1) }));
    let timed = enabled.update_timers();
    assert(timed.imm8() == 0xF3);
    assert(timed.skip(1).instruction(0xF3) == timed.skip(1).misc(0xF3));
}

/// The service of an interrupt. With the master enable set and a source
/// pending, the step takes 4 cycles and executes no instruction: the
/// master enable and the halt are cleared, the program counter goes to
/// the vector of the pending source with the highest priority, and the
/// old program counter lies on the stack, low byte first, provided the
/// bus stores bytes at the two addresses below the stack pointer. The
/// flag of the source is cleared, unless the stack lies on the flag
/// register.
pub proof fn lemma_interrupt_service(s: CpuView, source: Interrupt)
    requires
        s.wf(),
        s.ime,
        s.ime_timer == 0,
        s.mmu.pending() == Some(source),
        s.mmu.stores(address_after(s.registers.sp, -1)),
        s.mmu.stores(address_after(s.registers.sp, -2)),
    ensures
        s.step().1 == Ok::<u32, CoreError>(4),
        !s.step().0.ime,
        !s.step().0.halted,
        s.step().0.registers.pc == source.spec_vector(),
        s.step().0.registers.sp == address_after(s.registers.sp, -2),
        s.step().0.top() == s.registers.pc,
        address_after(s.registers.sp, -1) != 0xFF0F && address_after(s.registers.sp, -2) != 0xFF0F
            ==> s.step().0.mmu.interrupt_f == cleared(s.mmu.interrupt_f, source),
        !bit_is_set(cleared(s.mmu.interrupt_f, source), source.spec_index()),
{
    let high = address_after(s.registers.sp, -1);
    let low = address_after(s.registers.sp, -2);
    let acknowledged = s.mmu.clear(source);
    let first = acknowledged.write(high, high_byte(s.registers.pc));
    lemma_read_after_write(acknowledged, high, high_byte(s.registers.pc));
    lemma_read_elsewhere(acknowledged, high, high_byte(s.registers.pc), low);
    lemma_read_after_write(first, low, low_byte(s.registers.pc));
    lemma_read_elsewhere(first, low, low_byte(s.registers.pc), high);
    lemma_split(s.registers.pc);
    lemma_raise_and_clear(s.mmu.interrupt_f, source);
    assert(s.update_timers() == s);
}

/// `LD (HL+),A` puts `A` at the address in `HL` and steps `HL` up by one,
/// in 2 cycles. The byte is read back there provided the bus stores
/// bytes at that address.
pub proof fn lemma_store_and_increment(s: CpuView)
    requires
        s.wf(),
    ensures
        s.instruction(0x22) == Some(
            outcome(
                s.write(s.registers.spec_hl(), s.registers.a).with_registers(
                    s.registers.with_hl(address_after(s.registers.spec_hl(), 1)),
                ),
                2,
            ),
        ),
        s.instruction(0x22).unwrap().state.registers.spec_hl() == address_after(
            s.registers.spec_hl(),
            1,
        ),
        s.mmu.stores(s.registers.spec_hl()) ==> s.instruction(0x22).unwrap().state.read(
            s.registers.spec_hl(),
        ) == s.registers.a,
{
    reveal(CpuView::indirect_load);
    assert(row(0x22) == 4 && column(0x22) == 2);
    assert(s.instruction(0x22) == Some(s.indirect_load(0x22)));
    if s.mmu.stores(s.registers.spec_hl()) {
        lemma_read_after_write(s.mmu, s.registers.spec_hl(), s.registers.a);
    }
    lemma_write_pair_then_read(s.registers, address_after(s.registers.spec_hl(), 1));
}

} // verus!
