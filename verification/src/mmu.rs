//! The memory bus: one 16-bit address space over the cartridge, the work
//! RAM and its echo, the timer, the interrupt registers and plain storage
//! for the remaining I/O and high RAM.

use vstd::prelude::*;
use crate::error::CoreError;
use crate::interupt::{Interrupt, raised, cleared};
use crate::memory_bank::{
    BankModel,
    Cartridge,
    MemoryBank,
    bank_for,
    instantiate_memory_bank,
    is_bank_address,
    zeros,
};
use crate::timer::{Timer, TimerView, is_timer_address};

verus! {

pub const WORKING_RAM_SIZE: usize = 0x2000;

pub const ADDRESS_SPACE_SIZE: usize = 0x10000;

/// The serial data register: what is written to it goes to the host.
pub const SERIAL_DATA_ADDRESS: u16 = 0xFF01;

pub const INTERRUPT_FLAG_ADDRESS: u16 = 0xFF0F;

pub const INTERRUPT_ENABLE_ADDRESS: u16 = 0xFFFF;

/// The line counter of the display, which `stub` pins.
pub const LCD_LINE_ADDRESS: usize = 0xFF44;

/// The memory bus of the machine.
pub struct MMU {
    memory_bank: Cartridge,
    working_ram: Vec<u8>,
    memory: Vec<u8>,
    timer: Timer,
    interrupt_e: u8,
    interrupt_f: u8,
    serial: Vec<u8>,
}

/// What the bus holds.
pub struct MmuView {
    pub bank: BankModel,
    pub working_ram: Seq<u8>,
    /// Storage for the addresses that no other component owns.
    pub memory: Seq<u8>,
    pub timer: TimerView,
    pub interrupt_e: u8,
    pub interrupt_f: u8,
    /// The bytes written to the serial data register and not yet taken.
    pub serial: Seq<u8>,
}

/// Whether `address` is in the work RAM.
pub open spec fn is_working_ram(address: u16) -> bool {
    0xC000 <= address <= 0xDFFF
}

/// Whether `address` is in the echo of the work RAM.
pub open spec fn is_echo_ram(address: u16) -> bool {
    0xE000 <= address <= 0xFDFF
}

impl MmuView {
    pub open spec fn wf(self) -> bool {
        &&& self.bank.wf()
        &&& self.working_ram.len() == 0x2000
        &&& self.memory.len() == 0x10000
    }

    /// The byte that a read at `address` gives.
    pub open spec fn read(self, address: u16) -> u8 {
        if is_bank_address(address) {
            self.bank.read(address)
        } else if is_working_ram(address) {
            self.working_ram[address - 0xC000]
        } else if is_echo_ram(address) {
            self.working_ram[address - 0xE000]
        } else if is_timer_address(address) {
            self.timer.read(address)
        } else if address == 0xFF0F {
            self.interrupt_f
        } else if address == 0xFFFF {
            self.interrupt_e
        } else {
            self.memory[address as int]
        }
    }

    /// The bus after `value` is written at `address`.
    pub open spec fn write(self, address: u16, value: u8) -> MmuView {
        if is_bank_address(address) {
            MmuView { bank: self.bank.write(address, value), ..self }
        } else if is_working_ram(address) {
            MmuView { working_ram: self.working_ram.update(address - 0xC000, value), ..self }
        } else if is_echo_ram(address) {
            MmuView { working_ram: self.working_ram.update(address - 0xE000, value), ..self }
        } else if address == 0xFF01 {
            MmuView { serial: self.serial.push(value), ..self }
        } else if is_timer_address(address) {
            MmuView { timer: self.timer.write(address, value), ..self }
        } else if address == 0xFF0F {
            MmuView { interrupt_f: value, ..self }
        } else if address == 0xFFFF {
            MmuView { interrupt_e: value, ..self }
        } else {
            MmuView { memory: self.memory.update(address as int, value), ..self }
        }
    }

    /// Whether a byte written at `address` is the byte read there
    /// afterwards. That is so everywhere but in ROM, in cartridge RAM that
    /// is switched off, at the serial data register and at `DIV`.
    pub open spec fn stores(self, address: u16) -> bool {
        if is_bank_address(address) {
            address >= 0xA000 && match self.bank {
                BankModel::Plain { .. } => true,
                BankModel::Mbc1 { ram_enabled, .. } => ram_enabled,
            }
        } else {
            address != 0xFF01 && address != 0xFF04
        }
    }

    /// The enabled source with the highest priority whose flag is raised.
    pub open spec fn pending(self) -> Option<Interrupt> {
        Interrupt::lowest(self.interrupt_e & self.interrupt_f)
    }

    /// The bus with the flag of `source` raised.
    pub open spec fn raise(self, source: Interrupt) -> MmuView {
        MmuView { interrupt_f: raised(self.interrupt_f, source), ..self }
    }

    /// The bus with the flag of `source` cleared.
    pub open spec fn clear(self, source: Interrupt) -> MmuView {
        MmuView { interrupt_f: cleared(self.interrupt_f, source), ..self }
    }

    /// The bus after `elapsed` machine cycles: the timer has advanced, and
    /// an overflow of `TIMA` has raised the timer interrupt.
    pub open spec fn tick(self, elapsed: nat) -> MmuView {
        let ticked = MmuView { timer: self.timer.tick(elapsed), ..self };
        if self.timer.overflows(elapsed) {
            ticked.raise(Interrupt::TimeOverflow)
        } else {
            ticked
        }
    }

    /// The bus with the line counter of the display pinned to `0x90`.
    pub open spec fn stub(self) -> MmuView {
        MmuView { memory: self.memory.update(0xFF44, 0x90), ..self }
    }
}

/// The bus as it is when the machine starts with the cartridge `bank`.
pub open spec fn initial_bus(bank: BankModel) -> MmuView {
    MmuView {
        bank,
        working_ram: zeros(0x2000),
        memory: zeros(0x10000),
        timer: TimerView { div: 0, tima: 0, tma: 0, tac: 0, div_cycles: 0, tima_cycles: 0 },
        interrupt_e: 0,
        interrupt_f: 0,
        serial: Seq::empty(),
    }
}

/// Whether `first` and `second` name the same byte of work RAM, one of
/// them through the echo.
pub open spec fn is_echo_of(first: u16, second: u16) -> bool {
    ||| is_working_ram(first) && is_echo_ram(second) && first - 0xC000 == second - 0xE000
    ||| is_echo_ram(first) && is_working_ram(second) && first - 0xE000 == second - 0xC000
}

/// A byte written where the bus stores bytes is read back there.
pub proof fn lemma_read_after_write(bus: MmuView, address: u16, value: u8)
    requires
        bus.wf(),
        bus.stores(address),
    ensures
        bus.write(address, value).read(address) == value,
        bus.write(address, value).wf(),
{
}

/// A byte written where the bus stores bytes changes no other byte but
/// its echo, and does not change where the bus stores bytes.
pub proof fn lemma_read_elsewhere(bus: MmuView, address: u16, value: u8, other: u16)
    requires
        bus.wf(),
        bus.stores(address),
        other != address,
        !is_echo_of(address, other),
    ensures
        bus.write(address, value).read(other) == bus.read(other),
        bus.write(address, value).stores(other) == bus.stores(other),
{
}

/// The echo mirrors the work RAM: a byte written at `0xC000 + offset` is
/// read at `0xE000 + offset`, and the other way round.
pub proof fn lemma_echo(bus: MmuView, offset: u16, value: u8)
    requires
        bus.wf(),
        offset < 0x1E00,
    ensures
        bus.write((0xC000 + offset) as u16, value).read((0xE000 + offset) as u16) == value,
        bus.write((0xE000 + offset) as u16, value).read((0xC000 + offset) as u16) == value,
{
}

impl View for MMU {
    type V = MmuView;

    closed spec fn view(&self) -> MmuView {
        MmuView {
            bank: self.memory_bank.model(),
            working_ram: self.working_ram@,
            memory: self.memory@,
            timer: self.timer@,
            interrupt_e: self.interrupt_e,
            interrupt_f: self.interrupt_f,
            serial: self.serial@,
        }
    }
}

fn cleared_bytes(length: usize) -> (bytes: Vec<u8>)
    ensures
        bytes@ == zeros(length as nat),
{
    let bytes: Vec<u8> = vec![0u8; length];
    assert(bytes@ =~= zeros(length as nat));
    bytes
}

impl MMU {
    pub open spec fn wf(&self) -> bool {
        self@.wf()
    }

    /// A bus around the cartridge that the header of `rom` selects.
    pub fn new(rom: &[u8]) -> (result: Result<MMU, CoreError>)
        ensures
            match result {
                Ok(mmu) => bank_for(rom@) is Some && mmu@ == initial_bus(bank_for(rom@).unwrap())
                    && mmu.wf(),
                Err(error) => bank_for(rom@) is None && error == CoreError::UnsupportedMapper,
            },
    {
        match instantiate_memory_bank(rom) {
            Ok(memory_bank) => Ok(
                MMU {
                    memory_bank,
                    working_ram: cleared_bytes(WORKING_RAM_SIZE),
                    memory: cleared_bytes(ADDRESS_SPACE_SIZE),
                    interrupt_e: 0,
                    interrupt_f: 0,
                    timer: Timer::new(),
                    serial: Vec::new(),
                },
            ),
            Err(error) => Err(error),
        }
    }

    /// Puts the cartridge that the header of `rom` selects into the slot.
    /// An image that selects none leaves the bus as it was.
    pub fn load_rom(&mut self, rom: &[u8]) -> (result: Result<(), CoreError>)
        requires
            old(self).wf(),
        ensures
            final(self).wf(),
            match result {
                Ok(_) => bank_for(rom@) is Some && final(self)@ == (MmuView {
                    bank: bank_for(rom@).unwrap(),
                    ..old(self)@
                }),
                Err(error) => bank_for(rom@) is None && error == CoreError::UnsupportedMapper
                    && final(self)@ == old(self)@,
            },
    {
        match instantiate_memory_bank(rom) {
            Ok(memory_bank) => {
                self.memory_bank = memory_bank;
                Ok(())
            },
            Err(error) => Err(error),
        }
    }

    pub fn read_memory(&self, address: u16) -> (value: u8)
        requires
            self.wf(),
        ensures
            value == self@.read(address),
    {
        if address <= 0x7FFF || (0xA000 <= address && address <= 0xBFFF) {
            self.memory_bank.read_memory(address)
        } else if 0xC000 <= address && address <= 0xDFFF {
            self.working_ram[address as usize - 0xC000]
        } else if 0xE000 <= address && address <= 0xFDFF {
            self.working_ram[address as usize - 0xE000]
        } else if 0xFF04 <= address && address <= 0xFF07 {
            self.timer.read_byte(address)
        } else if address == INTERRUPT_FLAG_ADDRESS {
            self.interrupt_f
        } else if address == INTERRUPT_ENABLE_ADDRESS {
            self.interrupt_e
        } else {
            self.memory[address as usize]
        }
    }

    pub fn write_memory(&mut self, address: u16, value: u8)
        requires
            old(self).wf(),
        ensures
            final(self)@ == old(self)@.write(address, value),
            final(self).wf(),
    {
        if address <= 0x7FFF || (0xA000 <= address && address <= 0xBFFF) {
            self.memory_bank.write_memory(address, value);
        } else if 0xC000 <= address && address <= 0xDFFF {
            self.working_ram.set(address as usize - 0xC000, value);
        } else if 0xE000 <= address && address <= 0xFDFF {
            self.working_ram.set(address as usize - 0xE000, value);
        } else if address == SERIAL_DATA_ADDRESS {
            self.serial.push(value);
        } else if 0xFF04 <= address && address <= 0xFF07 {
            self.timer.write_byte(address, value);
        } else if address == INTERRUPT_FLAG_ADDRESS {
            self.interrupt_f = value;
        } else if address == INTERRUPT_ENABLE_ADDRESS {
            self.interrupt_e = value;
        } else {
            self.memory.set(address as usize, value);
        }
    }

    /// Hands over the bytes written to the serial data register since the
    /// last call, oldest first.
    pub fn take_serial(&mut self) -> (bytes: Vec<u8>)
        ensures
            bytes@ == old(self)@.serial,
            final(self)@ == (MmuView { serial: Seq::empty(), ..old(self)@ }),
    {
        let mut bytes: Vec<u8> = Vec::new();
        core::mem::swap(&mut self.serial, &mut bytes);
        bytes
    }

    pub fn is_interrupt_waiting(&self) -> (waiting: bool)
        ensures
            waiting == self@.pending().is_some(),
    {
        match self.get_first_active_interrupt() {
            Some(_) => true,
            None => false,
        }
    }

    pub fn get_first_active_interrupt(&self) -> (first: Option<Interrupt>)
        ensures
            first == self@.pending(),
    {
        Interrupt::first_from(self.interrupt_e & self.interrupt_f)
    }

    /// Raises the flag of `interrupt`.
    pub fn raise_interrupt(&mut self, interrupt: &Interrupt)
        ensures
            final(self)@ == old(self)@.raise(*interrupt),
    {
        let index: u8 = interrupt.get_index();
        self.interrupt_f = self.interrupt_f | (1u8 << index);
    }

    pub fn clear_interrupt(&mut self, interrupt: &Interrupt)
        ensures
            final(self)@ == old(self)@.clear(*interrupt),
    {
        let index: u8 = interrupt.get_index();
        self.interrupt_f = self.interrupt_f & !(1u8 << index);
    }

    /// Pins the line counter of the display to `0x90`, the value that
    /// programs waiting for the vertical blank look for.
    pub fn stub(&mut self)
        requires
            old(self).wf(),
        ensures
            final(self)@ == old(self)@.stub(),
            final(self).wf(),
    {
        self.memory.set(LCD_LINE_ADDRESS, 0x90);
    }

    pub fn tick(&mut self, elapsed: u32)
        ensures
            final(self)@ == old(self)@.tick(elapsed as nat),
    {
        if self.timer.tick(elapsed) {
            self.set_timer_interrupt();
        }
    }

    fn set_timer_interrupt(&mut self)
        ensures
            final(self)@ == old(self)@.raise(Interrupt::TimeOverflow),
    {
        self.raise_interrupt(&Interrupt::TimeOverflow);
    }
}

} // verus!
