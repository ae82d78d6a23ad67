use dmg_core::alu::{set_bit, zero_bit};
use dmg_core::register::{CPUFlag, Registers};

fn cleared() -> Registers {
    let mut r = Registers::new();
    r.a = 0;
    r.f = 0;
    r
}

fn flag_bits(r: &Registers) -> (u8, u8, u8, u8) {
    (
        r.get_flag(CPUFlag::Z),
        r.get_flag(CPUFlag::N),
        r.get_flag(CPUFlag::H),
        r.get_flag(CPUFlag::C),
    )
}

#[test]
fn add_follows_the_carry_rules_for_every_input() {
    for a in 0..=0xFFu16 {
        for x in 0..=0xFFu16 {
            for c in 0..=1u16 {
                let mut r = cleared();
                r.a = a as u8;
                r.f = 0xF0;
                r.add_a(x as u8, c as u8);
                let sum = a + x + c;
                assert_eq!(r.a, (sum & 0xFF) as u8);
                assert_eq!(r.get_flag(CPUFlag::Z), ((sum & 0xFF) == 0) as u8);
                assert_eq!(r.get_flag(CPUFlag::N), 0);
                assert_eq!(r.get_flag(CPUFlag::H), ((a & 0x0F) + (x & 0x0F) + c > 0x0F) as u8);
                assert_eq!(r.get_flag(CPUFlag::C), (sum > 0xFF) as u8);
                assert_eq!(r.f & 0x0F, 0);
            }
        }
    }
}

#[test]
fn sub_follows_the_borrow_rules_for_every_input() {
    for a in 0..=0xFFu16 {
        for x in 0..=0xFFu16 {
            for b in 0..=1u16 {
                let mut r = cleared();
                r.a = a as u8;
                r.sub_a(x as u8, b as u8);
                assert_eq!(r.a, (a as u8).wrapping_sub(x as u8).wrapping_sub(b as u8));
                assert_eq!(r.get_flag(CPUFlag::Z), (r.a == 0) as u8);
                assert_eq!(r.get_flag(CPUFlag::N), 1);
                assert_eq!(r.get_flag(CPUFlag::H), ((x & 0x0F) + b > (a & 0x0F)) as u8);
                assert_eq!(r.get_flag(CPUFlag::H), ((a & 0x0F) < (x & 0x0F) + b) as u8);
                assert_eq!(r.get_flag(CPUFlag::C), (x + b > a) as u8);
            }
        }
    }
}

#[test]
fn add_ff_and_one_gives_zero_with_all_carries() {
    let mut r = cleared();
    r.a = 0xFF;
    r.add_a(0x01, 0);
    assert_eq!(r.a, 0x00);
    assert_eq!(r.f, 0xB0);
}

#[test]
fn sub_one_from_sixteen_borrows_from_bit_four() {
    let mut r = cleared();
    r.a = 0x10;
    r.sub_a(0x01, 0);
    assert_eq!(r.a, 0x0F);
    assert_eq!(r.f, 0x60);
}

#[test]
fn logic_operations_set_their_fixed_flags() {
    let mut r = cleared();
    r.a = 0b1100;
    r.f = 0xF0;
    r.and_a(0b1010);
    assert_eq!((r.a, r.f), (0b1000, 0x20));
    r.and_a(0b0111);
    assert_eq!((r.a, r.f), (0, 0xA0));
    r.f = 0xF0;
    r.or_a(0);
    assert_eq!((r.a, r.f), (0, 0x80));
    r.or_a(0x81);
    assert_eq!((r.a, r.f), (0x81, 0x00));
    r.f = 0xF0;
    r.xor_a(0x0F);
    assert_eq!((r.a, r.f), (0x8E, 0x00));
    r.xor_a(0x8E);
    assert_eq!((r.a, r.f), (0, 0x80));
}

#[test]
fn compare_sets_flags_and_keeps_a() {
    let mut r = cleared();
    r.a = 0x3C;
    r.cp_a(0x2F);
    assert_eq!((r.a, r.f), (0x3C, 0x60));
    r.cp_a(0x3C);
    assert_eq!((r.a, r.f), (0x3C, 0xC0));
    r.cp_a(0x40);
    assert_eq!((r.a, r.f), (0x3C, 0x50));
}

#[test]
fn inc_sets_half_carry_and_leaves_carry() {
    let mut r = cleared();
    assert_eq!(r.inc_reg(0x0F), 0x10);
    assert_eq!(r.f, 0x20);
    r.f = 0x10;
    assert_eq!(r.inc_reg(0x0F), 0x10);
    assert_eq!(r.f, 0x30);
    assert_eq!(r.inc_reg(0x41), 0x42);
    assert_eq!(r.f, 0x10);
}

#[test]
fn inc_ff_wraps_to_zero() {
    let mut r = cleared();
    r.f = 0x40;
    assert_eq!(r.inc_reg(0xFF), 0x00);
    assert_eq!(flag_bits(&r), (1, 0, 1, 0));
}

#[test]
fn dec_sets_subtract_and_half_borrow() {
    let mut r = cleared();
    assert_eq!(r.dec_reg(0x10), 0x0F);
    assert_eq!(r.f, 0x60);
    assert_eq!(r.dec_reg(0x01), 0x00);
    assert_eq!(r.f, 0xC0);
    r.f = 0x10;
    assert_eq!(r.dec_reg(0x00), 0xFF);
    assert_eq!(r.f, 0x70);
}

#[test]
fn add_hl_sets_carries_from_bits_11_and_15() {
    let mut r = cleared();
    r.write_hl(0x8000);
    r.f = 0x80;
    r.add_hl(0x8000);
    assert_eq!(r.hl(), 0x0000);
    assert_eq!(flag_bits(&r), (1, 0, 0, 1));

    r.f = 0x00;
    r.write_hl(0x8000);
    r.add_hl(0x8000);
    assert_eq!(flag_bits(&r), (0, 0, 0, 1));

    r.write_hl(0x0FFF);
    r.f = 0xC0;
    r.add_hl(0x0001);
    assert_eq!(r.hl(), 0x1000);
    assert_eq!(flag_bits(&r), (1, 0, 1, 0));

    r.write_hl(0xFFFF);
    r.add_hl(0x0001);
    assert_eq!(r.hl(), 0x0000);
    assert_eq!(flag_bits(&r), (1, 0, 1, 1));
}

#[test]
fn add_signed_uses_the_low_byte_for_its_flags() {
    let mut r = cleared();
    r.f = 0xC0;
    assert_eq!(r.add_signed(0xFFF8, 0x08), 0x0000);
    assert_eq!(flag_bits(&r), (0, 0, 1, 1));
    assert_eq!(r.add_signed(0x0000, 0xFF), 0xFFFF);
    assert_eq!(flag_bits(&r), (0, 0, 0, 0));
    assert_eq!(r.add_signed(0x0001, 0xFF), 0x0000);
    assert_eq!(flag_bits(&r), (0, 0, 1, 1));
    assert_eq!(r.add_signed(0x1000, 0x80), 0x0F80);
    assert_eq!(flag_bits(&r), (0, 0, 0, 0));
    assert_eq!(r.add_signed(0x00FF, 0x7F), 0x017E);
    assert_eq!(flag_bits(&r), (0, 0, 1, 1));
}

#[test]
fn rotates_and_shifts() {
    let mut r = cleared();
    assert_eq!(r.rotate_left(0x85), 0x0B);
    assert_eq!(r.f, 0x10);
    assert_eq!(r.rotate_left(0x00), 0x00);
    assert_eq!(r.f, 0x80);
    assert_eq!(r.rotate_right(0x01), 0x80);
    assert_eq!(r.f, 0x10);
    r.f = 0x00;
    assert_eq!(r.rotate_left_carry(0x80), 0x00);
    assert_eq!(r.f, 0x90);
    assert_eq!(r.rotate_left_carry(0x11), 0x23);
    assert_eq!(r.f, 0x00);
    r.f = 0x10;
    assert_eq!(r.rotate_right_carry(0x01), 0x80);
    assert_eq!(r.f, 0x10);
    r.f = 0x00;
    assert_eq!(r.rotate_right_carry(0x01), 0x00);
    assert_eq!(r.f, 0x90);
    assert_eq!(r.shift_left(0xFF), 0xFE);
    assert_eq!(r.f, 0x10);
    assert_eq!(r.shift_left(0x80), 0x00);
    assert_eq!(r.f, 0x90);
    assert_eq!(r.shift_right_arithmetic(0x8A), 0xC5);
    assert_eq!(r.f, 0x00);
    assert_eq!(r.shift_right_arithmetic(0x01), 0x00);
    assert_eq!(r.f, 0x90);
    assert_eq!(r.shift_right_logic(0xFF), 0x7F);
    assert_eq!(r.f, 0x10);
    assert_eq!(r.shift_right_logic(0x01), 0x00);
    assert_eq!(r.f, 0x90);
}

#[test]
fn rotates_agree_with_the_machine_rotations_for_every_byte() {
    for value in 0..=0xFFu8 {
        let mut r = cleared();
        assert_eq!(r.rotate_left(value), value.rotate_left(1));
        assert_eq!(r.get_flag(CPUFlag::C), value >> 7);
        assert_eq!(r.rotate_right(value), value.rotate_right(1));
        assert_eq!(r.get_flag(CPUFlag::C), value & 1);
        assert_eq!(r.shift_right_arithmetic(value), ((value as i8) >> 1) as u8);
        assert_eq!(r.get_flag(CPUFlag::C), value & 1);
    }
}

#[test]
fn swap_exchanges_the_nibbles() {
    let mut r = cleared();
    r.f = 0xF0;
    assert_eq!(r.swap(0xA5), 0x5A);
    assert_eq!(r.f, 0x00);
    assert_eq!(r.swap(0x00), 0x00);
    assert_eq!(r.f, 0x80);
    assert_eq!(r.swap(0xF0), 0x0F);
}

#[test]
fn swap_twice_is_the_identity() {
    let mut r = cleared();
    for value in 0..=0xFFu8 {
        let once = r.swap(value);
        assert_eq!(r.swap(once), value);
    }
}

#[test]
fn set_then_bit_reports_set_and_res_then_bit_reports_clear() {
    for value in 0..=0xFFu8 {
        for index in 0..=7u8 {
            let mut r = cleared();
            r.f = 0x10;
            r.test_bit(index, set_bit(index, value));
            assert_eq!(flag_bits(&r), (0, 0, 1, 1));
            r.test_bit(index, zero_bit(index, value));
            assert_eq!(flag_bits(&r), (1, 0, 1, 1));
        }
    }
}

#[test]
fn set_and_res_change_one_bit() {
    assert_eq!(set_bit(0, 0x00), 0x01);
    assert_eq!(set_bit(7, 0x01), 0x81);
    assert_eq!(set_bit(3, 0xFF), 0xFF);
    assert_eq!(zero_bit(0, 0xFF), 0xFE);
    assert_eq!(zero_bit(7, 0x80), 0x00);
    assert_eq!(zero_bit(4, 0x0F), 0x0F);
}

fn bcd(value: u32) -> u8 {
    (((value / 10) % 10) << 4 | (value % 10)) as u8
}

#[test]
fn daa_after_add_gives_the_decimal_sum() {
    for x in 0..100u32 {
        for y in 0..100u32 {
            for carry in 0..=1u32 {
                let mut r = cleared();
                r.a = bcd(x);
                r.add_a(bcd(y), carry as u8);
                r.decimal_adjust();
                assert_eq!(r.a, bcd((x + y + carry) % 100));
                assert_eq!(r.get_flag(CPUFlag::C), (x + y + carry >= 100) as u8);
                assert_eq!(r.get_flag(CPUFlag::Z), ((x + y + carry) % 100 == 0) as u8);
                assert_eq!(r.get_flag(CPUFlag::H), 0);
                assert_eq!(r.get_flag(CPUFlag::N), 0);
            }
        }
    }
}

#[test]
fn daa_after_sub_gives_the_decimal_difference() {
    for x in 0..100u32 {
        for y in 0..100u32 {
            for borrow in 0..=1u32 {
                let mut r = cleared();
                r.a = bcd(x);
                r.sub_a(bcd(y), borrow as u8);
                r.decimal_adjust();
                assert_eq!(r.a, bcd((100 + x - y - borrow) % 100));
                assert_eq!(r.get_flag(CPUFlag::C), (y + borrow > x) as u8);
                assert_eq!(r.get_flag(CPUFlag::Z), ((100 + x - y - borrow) % 100 == 0) as u8);
                assert_eq!(r.get_flag(CPUFlag::H), 0);
                assert_eq!(r.get_flag(CPUFlag::N), 1);
            }
        }
    }
}

#[test]
fn daa_examples() {
    let mut r = cleared();
    r.a = 0x45;
    r.add_a(0x38, 0);
    assert_eq!(r.a, 0x7D);
    r.decimal_adjust();
    assert_eq!((r.a, r.f), (0x83, 0x00));

    r.a = 0x99;
    r.add_a(0x01, 0);
    r.decimal_adjust();
    assert_eq!((r.a, r.f), (0x00, 0x90));

    r.a = 0x20;
    r.sub_a(0x01, 0);
    r.decimal_adjust();
    assert_eq!((r.a, r.f), (0x19, 0x40));
}

#[test]
fn set_flags_leaves_flags_without_a_value() {
    let mut r = cleared();
    r.f = 0x50;
    r.set_flags(Some(true), None, Some(true), None);
    assert_eq!(r.f, 0xF0);
    r.set_flags(None, Some(false), None, Some(false));
    assert_eq!(r.f, 0xA0);
    r.set_flags(None, None, None, None);
    assert_eq!(r.f, 0xA0);
}
