//! A flat bus: 64 KiB of plain storage with the timer and the interrupt
//! registers on top, for programs that need no cartridge mapper.

use vstd::prelude::*;
use crate::interupt::{Interrupt, raised, cleared};
use crate::memory_bank::zeros;
use crate::timer::{Timer, TimerView, is_timer_address};

verus! {

/// The flat bus.
pub struct Memory {
    memory: Vec<u8>,
    timer: Timer,
    interrupt_e: u8,
    interrupt_f: u8,
    serial: Vec<u8>,
}

/// What the flat bus holds.
pub struct MemoryView {
    pub memory: Seq<u8>,
    pub timer: TimerView,
    pub interrupt_e: u8,
    pub interrupt_f: u8,
    /// The bytes written to the serial data register and not yet taken.
    pub serial: Seq<u8>,
}

/// `memory` with the image `rom` copied to its start, as far as it fits.
pub open spec fn loaded(memory: Seq<u8>, rom: Seq<u8>) -> Seq<u8> {
    Seq::new(
        memory.len(),
        |i: int|
            if i < rom.len() {
                rom[i]
            } else {
                memory[i]
            },
    )
}

impl MemoryView {
    pub open spec fn wf(self) -> bool {
        self.memory.len() == 0x10000
    }

    /// The byte that a read at `address` gives.
    pub open spec fn read(self, address: u16) -> u8 {
        if is_timer_address(address) {
            self.timer.read(address)
        } else if address == 0xFF0F {
            self.interrupt_f
        } else if address == 0xFFFF {
            self.interrupt_e
        } else {
            self.memory[address as int]
        }
    }

    /// The bus after `value` is written at `address`.
    pub open spec fn write(self, address: u16, value: u8) -> MemoryView {
        if address == 0xFF01 {
            MemoryView { serial: self.serial.push(value), ..self }
        } else if is_timer_address(address) {
            MemoryView { timer: self.timer.write(address, value), ..self }
        } else if address == 0xFF0F {
            MemoryView { interrupt_f: value, ..self }
        } else if address == 0xFFFF {
            MemoryView { interrupt_e: value, ..self }
        } else {
            MemoryView { memory: self.memory.update(address as int, value), ..self }
        }
    }

    /// The enabled source with the highest priority whose flag is raised.
    pub open spec fn pending(self) -> Option<Interrupt> {
        Interrupt::lowest(self.interrupt_e & self.interrupt_f)
    }

    /// The bus after `elapsed` machine cycles: the timer has advanced, and
    /// an overflow of `TIMA` has raised the timer interrupt.
    pub open spec fn tick(self, elapsed: nat) -> MemoryView {
        MemoryView {
            timer: self.timer.tick(elapsed),
            interrupt_f: if self.timer.overflows(elapsed) {
                raised(self.interrupt_f, Interrupt::TimeOverflow)
            } else {
                self.interrupt_f
            },
            ..self
        }
    }
}

impl View for Memory {
    type V = MemoryView;

    closed spec fn view(&self) -> MemoryView {
        MemoryView {
            memory: self.memory@,
            timer: self.timer@,
            interrupt_e: self.interrupt_e,
            interrupt_f: self.interrupt_f,
            serial: self.serial@,
        }
    }
}

impl Memory {
    pub open spec fn wf(&self) -> bool {
        self@.wf()
    }

    pub fn new() -> (memory: Memory)
        ensures
            memory@ == (MemoryView {
                memory: zeros(0x10000),
                timer: TimerView { div: 0, tima: 0, tma: 0, tac: 0, div_cycles: 0, tima_cycles: 0 },
                interrupt_e: 0,
                interrupt_f: 0,
                serial: Seq::empty(),
            }),
            memory.wf(),
    {
        let cells: Vec<u8> = vec![0u8; 0x10000];
        assert(cells@ =~= zeros(0x10000));
        Memory {
            memory: cells,
            interrupt_e: 0,
            interrupt_f: 0,
            timer: Timer::new(),
            serial: Vec::new(),
        }
    }

    pub fn read_memory(&self, address: u16) -> (value: u8)
        requires
            self.wf(),
        ensures
            value == self@.read(address),
    {
        if 0xFF04 <= address && address <= 0xFF07 {
            self.timer.read_byte(address)
        } else if address == 0xFF0F {
            self.interrupt_f
        } else if address == 0xFFFF {
            self.interrupt_e
        } else {
            self.memory[address as usize]
        }
    }

    pub fn write_memory(&mut self, address: u16, value: u8)
        requires
            old(self).wf(),
        ensures
            final(self)@ == old(self)@.write(address, value),
            final(self).wf(),
    {
        if address == 0xFF01 {
            self.serial.push(value);
        } else if 0xFF04 <= address && address <= 0xFF07 {
            self.timer.write_byte(address, value);
        } else if address == 0xFF0F {
            self.interrupt_f = value;
        } else if address == 0xFFFF {
            self.interrupt_e = value;
        } else {
            self.memory.set(address as usize, value);
        }
    }

    /// Hands over the bytes written to the serial data register since the
    /// last call, oldest first.
    pub fn take_serial(&mut self) -> (bytes: Vec<u8>)
        ensures
            bytes@ == old(self)@.serial,
            final(self)@ == (MemoryView { serial: Seq::empty(), ..old(self)@ }),
    {
        let mut bytes: Vec<u8> = Vec::new();
        core::mem::swap(&mut self.serial, &mut bytes);
        bytes
    }

    /// Copies the image `rom` to the start of the storage; what does not
    /// fit into 64 KiB is left out.
    pub fn load_rom(&mut self, rom: &[u8])
        requires
            old(self).wf(),
        ensures
            final(self)@ == (MemoryView { memory: loaded(old(self)@.memory, rom@), ..old(self)@ }),
            final(self).wf(),
    {
        let count: usize = if rom.len() < self.memory.len() {
            rom.len()
        } else {
            self.memory.len()
        };
        let mut i: usize = 0;
        while i < count
            invariant
                i <= count,
                count <= rom@.len(),
                count <= 0x10000,
                count == rom@.len() || count == 0x10000,
                self.memory@.len() == 0x10000,
                self.timer == old(self).timer,
                self.interrupt_e == old(self).interrupt_e,
                self.interrupt_f == old(self).interrupt_f,
                self.serial == old(self).serial,
                forall|j: int| 0 <= j < i ==> self.memory@[j] == rom@[j],
                forall|j: int| i <= j < 0x10000 ==> self.memory@[j] == old(self).memory@[j],
            decreases count - i,
        {
            self.memory.set(i, rom[i]);
            i += 1;
        }
        assert(self.memory@ =~= loaded(old(self)@.memory, rom@));
    }

    pub fn get_first_active_interrupt(&self) -> (first: Option<Interrupt>)
        ensures
            first == self@.pending(),
    {
        Interrupt::first_from(self.interrupt_e & self.interrupt_f)
    }

    pub fn clear_interrupt(&mut self, interrupt: &Interrupt)
        ensures
            final(self)@ == (MemoryView {
                interrupt_f: cleared(old(self)@.interrupt_f, *interrupt),
                ..old(self)@
            }),
    {
        let index: u8 = interrupt.get_index();
        self.interrupt_f = self.interrupt_f & !(1u8 << index);
    }

    /// Pins the line counter of the display to `0x90`.
    pub fn stub(&mut self)
        requires
            old(self).wf(),
        ensures
            final(self)@ == (MemoryView {
                memory: old(self)@.memory.update(0xFF44, 0x90),
                ..old(self)@
            }),
            final(self).wf(),
    {
        self.memory.set(0xFF44, 0x90);
    }

    pub fn tick(&mut self, elapsed: u32)
        ensures
            final(self)@ == old(self)@.tick(elapsed as nat),
    {
        if self.timer.tick(elapsed) {
            self.set_timer_interrupt();
        }
    }

    fn set_timer_interrupt(&mut self)
        ensures
            final(self)@ == (MemoryView {
                interrupt_f: raised(old(self)@.interrupt_f, Interrupt::TimeOverflow),
                ..old(self)@
            }),
    {
        self.interrupt_f = self.interrupt_f | (1u8 << 2u8);
    }
}

} // verus!
