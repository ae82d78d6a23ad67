use dmg_core::error::CoreError;
use dmg_core::interupt::Interrupt;
use dmg_core::mmu::MMU;

fn patterned_image(kind: u8) -> Vec<u8> {
    let mut rom = vec![0u8; 0x8000];
    for (i, byte) in rom.iter_mut().enumerate() {
        *byte = (i % 251) as u8;
    }
    rom[0x147] = kind;
    rom
}

fn bus() -> MMU {
    MMU::new(&patterned_image(0x00)).unwrap()
}

#[test]
fn new_bus_rejects_an_unsupported_mapper() {
    assert!(matches!(MMU::new(&patterned_image(0x05)), Err(CoreError::UnsupportedMapper)));
    assert!(matches!(MMU::new(&[0u8; 16]), Err(CoreError::UnsupportedMapper)));
}

#[test]
fn rom_reads_come_from_the_cartridge() {
    let mmu = bus();
    let rom = patterned_image(0x00);
    for address in [0x0000usize, 0x0100, 0x3FFF, 0x4000, 0x7FFE, 0x7FFF] {
        assert_eq!(mmu.read_memory(address as u16), rom[address]);
    }
}

#[test]
fn rom_writes_do_not_change_a_plain_cartridge() {
    let mut mmu = bus();
    let before = mmu.read_memory(0x1234);
    mmu.write_memory(0x1234, before.wrapping_add(1));
    assert_eq!(mmu.read_memory(0x1234), before);
}

#[test]
fn rom_writes_reach_the_bank_controller() {
    let mut rom = vec![0u8; 4 * 0x4000];
    for (i, byte) in rom.iter_mut().enumerate() {
        *byte = (i / 0x4000) as u8;
    }
    rom[0x147] = 0x01;
    let mut mmu = MMU::new(&rom).unwrap();
    assert_eq!(mmu.read_memory(0x4000), 1);
    mmu.write_memory(0x2000, 3);
    assert_eq!(mmu.read_memory(0x4000), 3);
}

#[test]
fn work_ram_keeps_what_is_written() {
    let mut mmu = bus();
    mmu.write_memory(0xC000, 0x11);
    mmu.write_memory(0xDFFF, 0x22);
    assert_eq!(mmu.read_memory(0xC000), 0x11);
    assert_eq!(mmu.read_memory(0xDFFF), 0x22);
}

#[test]
fn echo_ram_mirrors_work_ram() {
    let mut mmu = bus();
    mmu.write_memory(0xC000, 0xAB);
    assert_eq!(mmu.read_memory(0xE000), 0xAB);
    mmu.write_memory(0xE000, 0xCD);
    assert_eq!(mmu.read_memory(0xC000), 0xCD);
}

#[test]
fn echo_ram_mirrors_every_byte_it_covers() {
    let mut mmu = bus();
    for offset in 0..0x1E00u16 {
        let value = (offset % 253) as u8 + 1;
        mmu.write_memory(0xC000 + offset, value);
        assert_eq!(mmu.read_memory(0xE000 + offset), value);
        mmu.write_memory(0xE000 + offset, value.wrapping_add(1));
        assert_eq!(mmu.read_memory(0xC000 + offset), value.wrapping_add(1));
    }
    mmu.write_memory(0xDE00, 0x77);
    assert_eq!(mmu.read_memory(0xDE00), 0x77);
}

#[test]
fn cartridge_ram_is_reached_through_the_bus() {
    let mut mmu = bus();
    mmu.write_memory(0xA000, 0x31);
    mmu.write_memory(0xBFFF, 0x32);
    assert_eq!(mmu.read_memory(0xA000), 0x31);
    assert_eq!(mmu.read_memory(0xBFFF), 0x32);
}

#[test]
fn plain_storage_covers_the_remaining_ranges() {
    let mut mmu = bus();
    for address in [0x8000u16, 0x9FFF, 0xFE00, 0xFE9F, 0xFEA0, 0xFF00, 0xFF40, 0xFF7F, 0xFF80, 0xFFFE] {
        mmu.write_memory(address, 0x5C);
        assert_eq!(mmu.read_memory(address), 0x5C);
    }
}

#[test]
fn serial_writes_are_captured_in_order() {
    let mut mmu = bus();
    for byte in b"Passed" {
        mmu.write_memory(0xFF01, *byte);
    }
    assert_eq!(mmu.read_memory(0xFF01), 0);
    assert_eq!(mmu.take_serial(), b"Passed".to_vec());
    assert_eq!(mmu.take_serial(), Vec::<u8>::new());
    mmu.write_memory(0xFF01, b'!');
    assert_eq!(mmu.take_serial(), vec![b'!']);
}

#[test]
fn timer_registers_are_on_the_bus() {
    let mut mmu = bus();
    mmu.write_memory(0xFF05, 0x12);
    mmu.write_memory(0xFF06, 0x34);
    mmu.write_memory(0xFF07, 0x05);
    assert_eq!(mmu.read_memory(0xFF05), 0x12);
    assert_eq!(mmu.read_memory(0xFF06), 0x34);
    assert_eq!(mmu.read_memory(0xFF07), 0x05);
    mmu.tick(256);
    assert_eq!(mmu.read_memory(0xFF04), 1);
    mmu.write_memory(0xFF04, 0x99);
    assert_eq!(mmu.read_memory(0xFF04), 0);
}

#[test]
fn interrupt_registers_are_on_the_bus() {
    let mut mmu = bus();
    mmu.write_memory(0xFFFF, 0x1F);
    mmu.write_memory(0xFF0F, 0x0A);
    assert_eq!(mmu.read_memory(0xFFFF), 0x1F);
    assert_eq!(mmu.read_memory(0xFF0F), 0x0A);
}

#[test]
fn pending_is_the_lowest_enabled_and_raised_source() {
    let mut mmu = bus();
    assert_eq!(mmu.get_first_active_interrupt(), None);
    assert!(!mmu.is_interrupt_waiting());
    mmu.write_memory(0xFF0F, 0b11111);
    assert_eq!(mmu.get_first_active_interrupt(), None);
    mmu.write_memory(0xFFFF, 0b11000);
    assert_eq!(mmu.get_first_active_interrupt(), Some(Interrupt::SerialLink));
    assert!(mmu.is_interrupt_waiting());
    mmu.write_memory(0xFFFF, 0b11111);
    assert_eq!(mmu.get_first_active_interrupt(), Some(Interrupt::VBlank));
    mmu.write_memory(0xFF0F, 0b00000);
    assert!(!mmu.is_interrupt_waiting());
}

#[test]
fn raise_and_clear_touch_one_flag() {
    let mut mmu = bus();
    mmu.write_memory(0xFF0F, 0b01010);
    mmu.raise_interrupt(&Interrupt::TimeOverflow);
    assert_eq!(mmu.read_memory(0xFF0F), 0b01110);
    mmu.clear_interrupt(&Interrupt::LCDStatus);
    assert_eq!(mmu.read_memory(0xFF0F), 0b01100);
    mmu.clear_interrupt(&Interrupt::VBlank);
    assert_eq!(mmu.read_memory(0xFF0F), 0b01100);
    mmu.raise_interrupt(&Interrupt::JoypadPress);
    assert_eq!(mmu.read_memory(0xFF0F), 0b11100);
}

#[test]
fn timer_overflow_raises_bit_two() {
    let mut mmu = bus();
    mmu.write_memory(0xFF07, 0b101);
    mmu.write_memory(0xFF06, 0x80);
    mmu.write_memory(0xFF05, 0xFF);
    mmu.tick(3);
    assert_eq!(mmu.read_memory(0xFF0F), 0x00);
    mmu.tick(1);
    assert_eq!(mmu.read_memory(0xFF0F), 0x04);
    assert_eq!(mmu.read_memory(0xFF05), 0x80);
}

#[test]
fn stub_pins_the_line_counter() {
    let mut mmu = bus();
    assert_eq!(mmu.read_memory(0xFF44), 0x00);
    mmu.stub();
    assert_eq!(mmu.read_memory(0xFF44), 0x90);
}

#[test]
fn load_rom_swaps_the_cartridge_and_keeps_the_rest() {
    let mut mmu = bus();
    mmu.write_memory(0xC000, 0x42);
    let mut other = vec![0x3Cu8; 0x8000];
    other[0x147] = 0x00;
    assert!(mmu.load_rom(&other).is_ok());
    assert_eq!(mmu.read_memory(0x0000), 0x3C);
    assert_eq!(mmu.read_memory(0xC000), 0x42);
    other[0x147] = 0x77;
    assert!(matches!(mmu.load_rom(&other), Err(CoreError::UnsupportedMapper)));
    assert_eq!(mmu.read_memory(0x0147), 0x00);
}
