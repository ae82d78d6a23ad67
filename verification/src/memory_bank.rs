//! Cartridge memory: the plain 32 KiB cartridge and the MBC1 mapper.

use vstd::prelude::*;
use vstd::slice::slice_to_vec;
use crate::bits::lemma_masks;
use crate::error::CoreError;

verus! {

/// Where the cartridge header names the mapper.
pub const CARTRIDGE_TYPE_ADDRESS: usize = 0x147;

pub const ROM_BANK_SIZE: usize = 0x4000;

pub const RAM_BANK_SIZE: usize = 0x2000;

pub const RAM_BANK_COUNT: usize = 4;

/// Whether `address` belongs to the cartridge: its ROM or its RAM.
pub open spec fn is_bank_address(address: u16) -> bool {
    address <= 0x7FFF || 0xA000 <= address <= 0xBFFF
}

/// The byte of a ROM image at `offset`; past the end of the image a read
/// gives zero.
pub open spec fn rom_byte(rom: Seq<u8>, offset: int) -> u8 {
    if 0 <= offset < rom.len() {
        rom[offset]
    } else {
        0
    }
}

/// What a cartridge holds, for each family of mappers.
pub enum BankModel {
    /// No mapper: 32 KiB of ROM and 8 KiB of RAM.
    Plain { rom: Seq<u8>, ram: Seq<u8> },
    /// MBC1: banked ROM, four banks of RAM behind an enable latch, and
    /// the mode that says what the two upper bank bits select.
    Mbc1 {
        rom: Seq<u8>,
        ram: Seq<u8>,
        ram_enabled: bool,
        rom_bank: u8,
        rom_grouping: u8,
        ram_bank: u8,
        ram_mode: bool,
    },
}

impl BankModel {
    pub open spec fn wf(self) -> bool {
        match self {
            BankModel::Plain { rom, ram } => ram.len() == 0x2000,
            BankModel::Mbc1 { rom, ram, ram_enabled, rom_bank, rom_grouping, ram_bank, ram_mode } => {
                &&& ram.len() == 4 * 0x2000
                &&& 1 <= rom_bank <= 31
                &&& rom_grouping <= 3
                &&& ram_bank <= 3
            },
        }
    }

    /// The ROM bank that reads of `0x4000..=0x7FFF` reach.
    pub open spec fn selected_rom_bank(self) -> int {
        match self {
            BankModel::Plain { .. } => 1,
            BankModel::Mbc1 { rom_bank, rom_grouping, .. } => rom_grouping * 32 + rom_bank,
        }
    }

    /// The byte that a read at `address` gives.
    pub open spec fn read(self, address: u16) -> u8 {
        match self {
            BankModel::Plain { rom, ram } => {
                if address <= 0x7FFF {
                    rom_byte(rom, address as int)
                } else {
                    ram[address - 0xA000]
                }
            },
            BankModel::Mbc1 { rom, ram, ram_enabled, ram_bank, .. } => {
                if address <= 0x3FFF {
                    rom_byte(rom, address as int)
                } else if address <= 0x7FFF {
                    rom_byte(rom, self.selected_rom_bank() * 0x4000 + (address - 0x4000))
                } else if ram_enabled {
                    ram[ram_bank * 0x2000 + (address - 0xA000)]
                } else {
                    0
                }
            },
        }
    }

    /// The cartridge after `value` is written at `address`. A write to ROM
    /// changes no byte: the plain cartridge ignores it, MBC1 takes it as
    /// a write to one of its four control registers.
    pub open spec fn write(self, address: u16, value: u8) -> BankModel {
        match self {
            BankModel::Plain { rom, ram } => {
                if address <= 0x7FFF {
                    self
                } else {
                    BankModel::Plain { rom, ram: ram.update(address - 0xA000, value) }
                }
            },
            BankModel::Mbc1 { rom, ram, ram_enabled, rom_bank, rom_grouping, ram_bank, ram_mode } => {
                if address <= 0x1FFF {
                    BankModel::Mbc1 {
                        rom,
                        ram,
                        ram_enabled: value & 0x0F == 0x0A,
                        rom_bank,
                        rom_grouping,
                        ram_bank,
                        ram_mode,
                    }
                } else if address <= 0x3FFF {
                    BankModel::Mbc1 {
                        rom,
                        ram,
                        ram_enabled,
                        rom_bank: if value & 0x1F == 0 {
                            1
                        } else {
                            value & 0x1F
                        },
                        rom_grouping,
                        ram_bank,
                        ram_mode,
                    }
                } else if address <= 0x5FFF {
                    if ram_mode {
                        BankModel::Mbc1 {
                            rom,
                            ram,
                            ram_enabled,
                            rom_bank,
                            rom_grouping,
                            ram_bank: value & 0x03,
                            ram_mode,
                        }
                    } else {
                        BankModel::Mbc1 {
                            rom,
                            ram,
                            ram_enabled,
                            rom_bank,
                            rom_grouping: value & 0x03,
                            ram_bank,
                            ram_mode,
                        }
                    }
                } else if address <= 0x7FFF {
                    BankModel::Mbc1 {
                        rom,
                        ram,
                        ram_enabled,
                        rom_bank,
                        rom_grouping,
                        ram_bank,
                        ram_mode: value & 0x01 == 0x01,
                    }
                } else if ram_enabled {
                    BankModel::Mbc1 {
                        rom,
                        ram: ram.update(ram_bank * 0x2000 + (address - 0xA000), value),
                        ram_enabled,
                        rom_bank,
                        rom_grouping,
                        ram_bank,
                        ram_mode,
                    }
                } else {
                    self
                }
            },
        }
    }
}

/// `length` zero bytes.
pub open spec fn zeros(length: nat) -> Seq<u8> {
    Seq::new(length, |i: int| 0u8)
}

/// The plain cartridge that holds the image `rom`, its RAM cleared.
pub open spec fn plain_bank(rom: Seq<u8>) -> BankModel {
    BankModel::Plain { rom, ram: zeros(0x2000) }
}

/// The MBC1 cartridge that holds the image `rom` as it is when the
/// machine starts: ROM bank 1 selected, RAM enabled and cleared, ROM mode.
pub open spec fn mbc1_bank(rom: Seq<u8>) -> BankModel {
    BankModel::Mbc1 {
        rom,
        ram: zeros(4 * 0x2000),
        ram_enabled: true,
        rom_bank: 1,
        rom_grouping: 0,
        ram_bank: 0,
        ram_mode: false,
    }
}

/// The cartridge that the header of the image `rom` asks for: type `0x00`
/// is the plain cartridge, types `0x01` to `0x03` are MBC1. An image
/// without that header byte, or with another type, has no cartridge.
pub open spec fn bank_for(rom: Seq<u8>) -> Option<BankModel> {
    if rom.len() <= 0x147 {
        None
    } else if rom[0x147] == 0x00 {
        Some(plain_bank(rom))
    } else if 0x01 <= rom[0x147] <= 0x03 {
        Some(mbc1_bank(rom))
    } else {
        None
    }
}

/// A cartridge as the bus sees it.
pub trait MemoryBank {
    /// What the cartridge holds.
    spec fn model(&self) -> BankModel;

    fn read_memory(&self, address: u16) -> (value: u8)
        requires
            self.model().wf(),
            is_bank_address(address),
        ensures
            value == self.model().read(address),
    ;

    fn write_memory(&mut self, address: u16, value: u8)
        requires
            old(self).model().wf(),
            is_bank_address(address),
        ensures
            final(self).model() == old(self).model().write(address, value),
            final(self).model().wf(),
    ;
}

fn cleared_ram(length: usize) -> (ram: Vec<u8>)
    ensures
        ram@ == zeros(length as nat),
{
    let ram: Vec<u8> = vec![0u8; length];
    assert(ram@ =~= zeros(length as nat));
    ram
}

fn rom_at(rom: &Vec<u8>, offset: usize) -> (value: u8)
    ensures
        value == rom_byte(rom@, offset as int),
{
    if offset < rom.len() {
        rom[offset]
    } else {
        0
    }
}

/// The cartridge without a mapper: 32 KiB of ROM that ignores writes,
/// and 8 KiB of RAM.
pub struct MemoryBankZero {
    rom: Vec<u8>,
    ram: Vec<u8>,
}

impl MemoryBankZero {
    pub fn new(rom: &[u8]) -> (bank: MemoryBankZero)
        ensures
            bank.model() == plain_bank(rom@),
            bank.model().wf(),
    {
        MemoryBankZero { rom: slice_to_vec(rom), ram: cleared_ram(RAM_BANK_SIZE) }
    }
}

impl MemoryBank for MemoryBankZero {
    closed spec fn model(&self) -> BankModel {
        BankModel::Plain { rom: self.rom@, ram: self.ram@ }
    }

    fn read_memory(&self, address: u16) -> (value: u8) {
        if address <= 0x7FFF {
            rom_at(&self.rom, address as usize)
        } else {
            self.ram[address as usize - 0xA000]
        }
    }

    fn write_memory(&mut self, address: u16, value: u8) {
        if address > 0x7FFF {
            self.ram.set(address as usize - 0xA000, value);
        }
    }
}

/// The cartridge with the MBC1 mapper.
pub struct MemoryBankOne {
    rom: Vec<u8>,
    ram_banks: Vec<u8>,
    selected_rom_bank: u8,
    selected_rom_grouping: u8,
    ram_enabled: bool,
    selected_ram_bank: u8,
    ram_mode: bool,
}

impl MemoryBankOne {
    pub fn new(rom: &[u8]) -> (bank: MemoryBankOne)
        ensures
            bank.model() == mbc1_bank(rom@),
            bank.model().wf(),
    {
        MemoryBankOne {
            rom: slice_to_vec(rom),
            ram_banks: cleared_ram(RAM_BANK_COUNT * RAM_BANK_SIZE),
            selected_rom_bank: 1,
            selected_rom_grouping: 0,
            ram_enabled: true,
            selected_ram_bank: 0,
            ram_mode: false,
        }
    }
}

impl MemoryBank for MemoryBankOne {
    closed spec fn model(&self) -> BankModel {
        BankModel::Mbc1 {
            rom: self.rom@,
            ram: self.ram_banks@,
            ram_enabled: self.ram_enabled,
            rom_bank: self.selected_rom_bank,
            rom_grouping: self.selected_rom_grouping,
            ram_bank: self.selected_ram_bank,
            ram_mode: self.ram_mode,
        }
    }

    fn read_memory(&self, address: u16) -> (value: u8) {
        if address <= 0x3FFF {
            rom_at(&self.rom, address as usize)
        } else if address <= 0x7FFF {
            let bank: usize = self.selected_rom_grouping as usize * 32
                + self.selected_rom_bank as usize;
            rom_at(&self.rom, bank * ROM_BANK_SIZE + (address as usize - ROM_BANK_SIZE))
        } else if self.ram_enabled {
            self.ram_banks[self.selected_ram_bank as usize * RAM_BANK_SIZE + (address as usize
                - 0xA000)]
        } else {
            0
        }
    }

    fn write_memory(&mut self, address: u16, value: u8) {
        proof {
            lemma_masks(value);
        }
        if address <= 0x1FFF {
            self.ram_enabled = (value & 0x0F) == 0x0A;
        } else if address <= 0x3FFF {
            let masked: u8 = value & 0x1F;
            if masked == 0 {
                self.selected_rom_bank = 1;
            } else {
                self.selected_rom_bank = masked;
            }
        } else if address <= 0x5FFF {
            let selected: u8 = value & 0x03;
            if self.ram_mode {
                self.selected_ram_bank = selected;
            } else {
                self.selected_rom_grouping = selected;
            }
        } else if address <= 0x7FFF {
            self.ram_mode = (value & 0x01) == 0x01;
        } else if self.ram_enabled {
            self.ram_banks.set(
                self.selected_ram_bank as usize * RAM_BANK_SIZE + (address as usize - 0xA000),
                value,
            );
        }
    }
}

/// The cartridge in the slot: one of the supported mapper families.
pub enum Cartridge {
    NoMbc(MemoryBankZero),
    Mbc1(MemoryBankOne),
}

impl MemoryBank for Cartridge {
    open spec fn model(&self) -> BankModel {
        match self {
            Cartridge::NoMbc(bank) => bank.model(),
            Cartridge::Mbc1(bank) => bank.model(),
        }
    }

    fn read_memory(&self, address: u16) -> (value: u8) {
        match self {
            Cartridge::NoMbc(bank) => bank.read_memory(address),
            Cartridge::Mbc1(bank) => bank.read_memory(address),
        }
    }

    fn write_memory(&mut self, address: u16, value: u8) {
        match self {
            Cartridge::NoMbc(bank) => bank.write_memory(address, value),
            Cartridge::Mbc1(bank) => bank.write_memory(address, value),
        }
    }
}

/// Builds the cartridge that the header byte of `rom` at `0x0147` selects.
pub fn instantiate_memory_bank(rom: &[u8]) -> (result: Result<Cartridge, CoreError>)
    ensures
        match result {
            Ok(bank) => bank_for(rom@) == Some(bank.model()) && bank.model().wf(),
            Err(error) => bank_for(rom@) is None && error == CoreError::UnsupportedMapper,
        },
{
    if rom.len() <= CARTRIDGE_TYPE_ADDRESS {
        return Err(CoreError::UnsupportedMapper);
    }
    let kind: u8 = rom[CARTRIDGE_TYPE_ADDRESS];
    if kind == 0x00 {
        Ok(Cartridge::NoMbc(MemoryBankZero::new(rom)))
    } else if kind <= 0x03 {
        Ok(Cartridge::Mbc1(MemoryBankOne::new(rom)))
    } else {
        Err(CoreError::UnsupportedMapper)
    }
}

} // verus!
