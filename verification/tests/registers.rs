use dmg_core::register::{CPUFlag, Registers};

fn flags() -> [CPUFlag; 4] {
    [CPUFlag::Z, CPUFlag::N, CPUFlag::H, CPUFlag::C]
}

#[test]
fn registers_start_in_post_boot_state() {
    let r = Registers::new();
    assert_eq!(r.a, 0x01);
    assert_eq!(r.f, 0xB0);
    assert_eq!(r.b, 0x00);
    assert_eq!(r.c, 0x13);
    assert_eq!(r.d, 0x00);
    assert_eq!(r.e, 0xD8);
    assert_eq!(r.h, 0x01);
    assert_eq!(r.l, 0x4D);
    assert_eq!(r.sp, 0xFFFE);
    assert_eq!(r.pc, 0x0100);
}

#[test]
fn flag_masks_are_the_high_nibble_bits() {
    assert_eq!(CPUFlag::Z.mask(), 0x80);
    assert_eq!(CPUFlag::N.mask(), 0x40);
    assert_eq!(CPUFlag::H.mask(), 0x20);
    assert_eq!(CPUFlag::C.mask(), 0x10);
}

#[test]
fn set_flag_then_get_flag_reads_one() {
    for start in [0x00u8, 0x10, 0x50, 0xA0, 0xF0] {
        for flag in flags() {
            let mut r = Registers::new();
            r.f = start;
            r.set_flag(flag, true);
            assert_eq!(r.get_flag(flag), 1);
            assert_eq!(r.f, start | flag.mask());
        }
    }
}

#[test]
fn set_then_clear_flag_reads_zero_and_keeps_the_others() {
    for start in [0x00u8, 0x10, 0x50, 0xA0, 0xF0] {
        for flag in flags() {
            let mut r = Registers::new();
            r.f = start;
            let before: Vec<u8> = flags().iter().map(|other| r.get_flag(*other)).collect();
            r.set_flag(flag, true);
            r.set_flag(flag, false);
            assert_eq!(r.get_flag(flag), 0);
            for (i, other) in flags().iter().enumerate() {
                if *other != flag {
                    assert_eq!(r.get_flag(*other), before[i]);
                }
            }
            assert_eq!(r.f & 0x0F, 0);
        }
    }
}

#[test]
fn get_flag_is_zero_or_one() {
    let mut r = Registers::new();
    r.f = 0xB0;
    assert_eq!(r.get_flag(CPUFlag::Z), 1);
    assert_eq!(r.get_flag(CPUFlag::N), 0);
    assert_eq!(r.get_flag(CPUFlag::H), 1);
    assert_eq!(r.get_flag(CPUFlag::C), 1);
}

#[test]
fn write_af_masks_the_low_nibble() {
    for value in [0x0000u16, 0x1234, 0xFFFF, 0x00FF, 0xAB0F, 0x8001] {
        let mut r = Registers::new();
        r.write_af(value);
        assert_eq!(r.af(), value & 0xFFF0);
        assert_eq!(r.a, (value >> 8) as u8);
        assert_eq!(r.f & 0x0F, 0);
    }
}

#[test]
fn write_af_masks_every_value() {
    let mut r = Registers::new();
    for value in 0..=0xFFFFu16 {
        r.write_af(value);
        assert_eq!(r.af(), value & 0xFFF0);
    }
}

#[test]
fn pairs_are_big_endian() {
    let mut r = Registers::new();
    r.write_bc(0x1234);
    r.write_de(0x5678);
    r.write_hl(0x9ABC);
    assert_eq!((r.b, r.c), (0x12, 0x34));
    assert_eq!((r.d, r.e), (0x56, 0x78));
    assert_eq!((r.h, r.l), (0x9A, 0xBC));
    assert_eq!(r.bc(), 0x1234);
    assert_eq!(r.de(), 0x5678);
    assert_eq!(r.hl(), 0x9ABC);
}

#[test]
fn af_reads_with_a_masked_low_nibble() {
    let mut r = Registers::new();
    r.a = 0x12;
    r.f = 0xFF;
    assert_eq!(r.af(), 0x12F0);
}

#[test]
fn post_boot_pairs() {
    let r = Registers::new();
    assert_eq!(r.af(), 0x01B0);
    assert_eq!(r.bc(), 0x0013);
    assert_eq!(r.de(), 0x00D8);
    assert_eq!(r.hl(), 0x014D);
}

#[test]
fn describe_writes_the_register_file_as_one_line() {
    let r = Registers::new();
    assert_eq!(
        r.describe(),
        "A: 01 F: B0 B: 00 C: 13 D: 00 E: D8 H: 01 L: 4D SP: FFFE PC: 00:0100 "
    );
    let mut r = Registers::new();
    r.sp = 0x0005;
    r.pc = 0xABCD;
    r.a = 0xEF;
    assert_eq!(
        r.describe(),
        "A: EF F: B0 B: 00 C: 13 D: 00 E: D8 H: 01 L: 4D SP: 05 PC: 00:ABCD "
    );
    r.sp = 0x0123;
    assert_eq!(
        r.describe(),
        "A: EF F: B0 B: 00 C: 13 D: 00 E: D8 H: 01 L: 4D SP: 123 PC: 00:ABCD "
    );
}

#[test]
fn describe_agrees_with_the_standard_formatting() {
    let mut r = Registers::new();
    for (sp, pc, a) in [(0u16, 0u16, 0u8), (0x00FF, 0x00FF, 0x9A), (0x0100, 0x1000, 0x0F), (0x0FFF, 0xFFFF, 0xF0), (0x1000, 0x0001, 0xFF)] {
        r.sp = sp;
        r.pc = pc;
        r.a = a;
        let expected = format!(
            "A: {:02X} F: {:02X} B: {:02X} C: {:02X} D: {:02X} E: {:02X} H: {:02X} L: {:02X} SP: {:02X} PC: 00:{:04X} ",
            r.a, r.f, r.b, r.c, r.d, r.e, r.h, r.l, r.sp, r.pc
        );
        assert_eq!(r.describe(), expected);
    }
}
