use dmg_core::error::CoreError;
use dmg_core::memory_bank::{instantiate_memory_bank, Cartridge, MemoryBank, MemoryBankOne, MemoryBankZero};

/// An image of `banks` ROM banks whose every byte is the number of its bank,
/// with the cartridge type `kind` in the header.
fn image(banks: usize, kind: u8) -> Vec<u8> {
    let mut rom = vec![0u8; banks * 0x4000];
    for (i, byte) in rom.iter_mut().enumerate() {
        *byte = (i / 0x4000) as u8;
    }
    rom[0x147] = kind;
    rom
}

fn is_plain(bank: &Cartridge) -> bool {
    matches!(bank, Cartridge::NoMbc(_))
}

#[test]
fn header_zero_selects_the_plain_cartridge() {
    let bank = instantiate_memory_bank(&image(2, 0x00)).unwrap();
    assert!(is_plain(&bank));
}

#[test]
fn headers_one_to_three_select_mbc1() {
    for kind in 1..=3u8 {
        let bank = instantiate_memory_bank(&image(4, kind)).unwrap();
        assert!(!is_plain(&bank));
    }
}

#[test]
fn other_headers_are_unsupported() {
    for kind in 4..=0xFFu8 {
        assert!(matches!(
            instantiate_memory_bank(&image(2, kind)),
            Err(CoreError::UnsupportedMapper)
        ));
    }
}

#[test]
fn an_image_without_header_is_unsupported() {
    assert!(matches!(instantiate_memory_bank(&[]), Err(CoreError::UnsupportedMapper)));
    assert!(matches!(
        instantiate_memory_bank(&vec![0u8; 0x147]),
        Err(CoreError::UnsupportedMapper)
    ));
    assert!(instantiate_memory_bank(&vec![0u8; 0x148]).is_ok());
}

#[test]
fn plain_cartridge_reads_its_image() {
    let mut rom = image(2, 0x00);
    rom[0x0000] = 0x11;
    rom[0x3FFF] = 0x22;
    rom[0x4000] = 0x33;
    rom[0x7FFF] = 0x44;
    let bank = MemoryBankZero::new(&rom);
    assert_eq!(bank.read_memory(0x0000), 0x11);
    assert_eq!(bank.read_memory(0x3FFF), 0x22);
    assert_eq!(bank.read_memory(0x4000), 0x33);
    assert_eq!(bank.read_memory(0x7FFF), 0x44);
    assert_eq!(bank.read_memory(0x0147), 0x00);
}

#[test]
fn plain_cartridge_reads_zero_past_a_short_image() {
    let bank = MemoryBankZero::new(&[0xAA, 0xBB]);
    assert_eq!(bank.read_memory(0x0000), 0xAA);
    assert_eq!(bank.read_memory(0x0001), 0xBB);
    assert_eq!(bank.read_memory(0x0002), 0x00);
    assert_eq!(bank.read_memory(0x7FFF), 0x00);
}

#[test]
fn plain_cartridge_ignores_writes_to_rom() {
    let mut rom = image(2, 0x00);
    rom[0x1234] = 0x77;
    let mut bank = MemoryBankZero::new(&rom);
    for address in [0x0000u16, 0x1234, 0x2000, 0x3FFF, 0x4000, 0x6000, 0x7FFF] {
        let before = bank.read_memory(address);
        bank.write_memory(address, 0x5A);
        assert_eq!(bank.read_memory(address), before);
    }
    assert_eq!(bank.read_memory(0x1234), 0x77);
}

#[test]
fn plain_cartridge_ram_keeps_what_is_written() {
    let mut bank = MemoryBankZero::new(&image(2, 0x00));
    assert_eq!(bank.read_memory(0xA000), 0);
    bank.write_memory(0xA000, 0x12);
    bank.write_memory(0xBFFF, 0x34);
    assert_eq!(bank.read_memory(0xA000), 0x12);
    assert_eq!(bank.read_memory(0xBFFF), 0x34);
    assert_eq!(bank.read_memory(0xA001), 0);
}

#[test]
fn mbc1_starts_with_bank_one_switched_in() {
    let bank = MemoryBankOne::new(&image(8, 0x01));
    assert_eq!(bank.read_memory(0x0000), 0);
    assert_eq!(bank.read_memory(0x3FFF), 0);
    assert_eq!(bank.read_memory(0x4000), 1);
    assert_eq!(bank.read_memory(0x7FFF), 1);
}

#[test]
fn mbc1_selects_the_rom_bank_by_the_low_five_bits() {
    let mut bank = MemoryBankOne::new(&image(32, 0x01));
    for selected in 1..32u8 {
        bank.write_memory(0x2000, selected);
        assert_eq!(bank.read_memory(0x4000), selected);
        assert_eq!(bank.read_memory(0x7FFF), selected);
        assert_eq!(bank.read_memory(0x0000), 0);
    }
    bank.write_memory(0x3FFF, 0xE5);
    assert_eq!(bank.read_memory(0x4000), 0x05);
}

#[test]
fn mbc1_takes_bank_zero_as_bank_one() {
    let mut bank = MemoryBankOne::new(&image(8, 0x01));
    bank.write_memory(0x2000, 5);
    assert_eq!(bank.read_memory(0x4000), 5);
    bank.write_memory(0x2000, 0);
    assert_eq!(bank.read_memory(0x4000), 1);
    bank.write_memory(0x2000, 0x20);
    assert_eq!(bank.read_memory(0x4000), 1);
}

#[test]
fn mbc1_upper_bits_extend_the_rom_bank_in_rom_mode() {
    let mut bank = MemoryBankOne::new(&image(128, 0x01));
    bank.write_memory(0x6000, 0);
    bank.write_memory(0x2000, 3);
    bank.write_memory(0x4000, 2);
    assert_eq!(bank.read_memory(0x4000), (2 << 5) | 3);
    bank.write_memory(0x5FFF, 0xFF);
    assert_eq!(bank.read_memory(0x4000), (3 << 5) | 3);
    bank.write_memory(0x2000, 0);
    assert_eq!(bank.read_memory(0x4000), (3 << 5) | 1);
    bank.write_memory(0x4000, 0);
    assert_eq!(bank.read_memory(0x4000), 1);
}

#[test]
fn mbc1_reads_zero_from_a_bank_past_the_image() {
    let mut bank = MemoryBankOne::new(&image(4, 0x01));
    bank.write_memory(0x2000, 9);
    assert_eq!(bank.read_memory(0x4000), 0);
    assert_eq!(bank.read_memory(0x7FFF), 0);
}

#[test]
fn mbc1_ram_is_gated_by_the_enable_latch() {
    let mut bank = MemoryBankOne::new(&image(4, 0x03));
    bank.write_memory(0x0000, 0x0A);
    bank.write_memory(0xA000, 0x42);
    assert_eq!(bank.read_memory(0xA000), 0x42);
    bank.write_memory(0x0000, 0x00);
    assert_eq!(bank.read_memory(0xA000), 0x00);
    bank.write_memory(0xA000, 0x99);
    bank.write_memory(0x1FFF, 0x3A);
    assert_eq!(bank.read_memory(0xA000), 0x42);
    bank.write_memory(0x0000, 0xA0);
    assert_eq!(bank.read_memory(0xA000), 0x00);
}

#[test]
fn mbc1_ram_is_enabled_at_the_start() {
    let mut bank = MemoryBankOne::new(&image(4, 0x03));
    bank.write_memory(0xB123, 0x77);
    assert_eq!(bank.read_memory(0xB123), 0x77);
}

#[test]
fn mbc1_ram_mode_selects_one_of_four_ram_banks() {
    let mut bank = MemoryBankOne::new(&image(4, 0x03));
    bank.write_memory(0x0000, 0x0A);
    bank.write_memory(0x6000, 1);
    for selected in 0..4u8 {
        bank.write_memory(0x4000, selected);
        bank.write_memory(0xA000, 0x10 + selected);
        bank.write_memory(0xBFFF, 0x20 + selected);
    }
    for selected in 0..4u8 {
        bank.write_memory(0x4000, selected);
        assert_eq!(bank.read_memory(0xA000), 0x10 + selected);
        assert_eq!(bank.read_memory(0xBFFF), 0x20 + selected);
    }
    // In RAM mode the two bits do not move the ROM bank.
    bank.write_memory(0x4000, 3);
    assert_eq!(bank.read_memory(0x4000), 1);
}

#[test]
fn mbc1_mode_bit_decides_what_the_two_bits_select() {
    let mut bank = MemoryBankOne::new(&image(128, 0x03));
    bank.write_memory(0x0000, 0x0A);
    bank.write_memory(0x6000, 1);
    bank.write_memory(0x4000, 2);
    bank.write_memory(0xA000, 0xEE);
    bank.write_memory(0x7FFF, 0xFE);
    bank.write_memory(0x4000, 1);
    // ROM mode again: the two bits went to the ROM bank, the RAM bank stayed.
    assert_eq!(bank.read_memory(0x4000), (1 << 5) | 1);
    assert_eq!(bank.read_memory(0xA000), 0xEE);
}

#[test]
fn cartridge_dispatches_to_its_mapper() {
    let mut plain = instantiate_memory_bank(&image(2, 0x00)).unwrap();
    plain.write_memory(0x2000, 1);
    assert_eq!(plain.read_memory(0x4000), 1);
    plain.write_memory(0xA010, 0x66);
    assert_eq!(plain.read_memory(0xA010), 0x66);

    let mut mbc1 = instantiate_memory_bank(&image(8, 0x02)).unwrap();
    mbc1.write_memory(0x2000, 6);
    assert_eq!(mbc1.read_memory(0x4000), 6);
}
