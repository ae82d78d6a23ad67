use dmg_core::cpu::CPU;

/// Machine cycles by opcode; for conditional instructions the cycles when the
/// condition does not hold. 0 marks the prefix and the undefined opcodes.
const BASE: [u32; 256] = [
    1, 3, 2, 2, 1, 1, 2, 1, 5, 2, 2, 2, 1, 1, 2, 1, //
    1, 3, 2, 2, 1, 1, 2, 1, 3, 2, 2, 2, 1, 1, 2, 1, //
    2, 3, 2, 2, 1, 1, 2, 1, 2, 2, 2, 2, 1, 1, 2, 1, //
    2, 3, 2, 2, 3, 3, 3, 1, 2, 2, 2, 2, 1, 1, 2, 1, //
    1, 1, 1, 1, 1, 1, 2, 1, 1, 1, 1, 1, 1, 1, 2, 1, //
    1, 1, 1, 1, 1, 1, 2, 1, 1, 1, 1, 1, 1, 1, 2, 1, //
    1, 1, 1, 1, 1, 1, 2, 1, 1, 1, 1, 1, 1, 1, 2, 1, //
    2, 2, 2, 2, 2, 2, 1, 2, 1, 1, 1, 1, 1, 1, 2, 1, //
    1, 1, 1, 1, 1, 1, 2, 1, 1, 1, 1, 1, 1, 1, 2, 1, //
    1, 1, 1, 1, 1, 1, 2, 1, 1, 1, 1, 1, 1, 1, 2, 1, //
    1, 1, 1, 1, 1, 1, 2, 1, 1, 1, 1, 1, 1, 1, 2, 1, //
    1, 1, 1, 1, 1, 1, 2, 1, 1, 1, 1, 1, 1, 1, 2, 1, //
    2, 3, 3, 4, 3, 4, 2, 4, 2, 4, 3, 0, 3, 6, 2, 4, //
    2, 3, 3, 0, 3, 4, 2, 4, 2, 4, 3, 0, 3, 0, 2, 4, //
    3, 3, 2, 0, 0, 4, 2, 4, 4, 1, 4, 0, 0, 0, 2, 4, //
    3, 3, 2, 1, 0, 4, 2, 4, 3, 2, 4, 1, 0, 0, 2, 4, //
];

/// Cycles when the condition holds, for the conditional instructions.
fn taken(opcode: u8) -> Option<u32> {
    match opcode {
        0x20 | 0x28 | 0x30 | 0x38 => Some(3),
        0xC0 | 0xC8 | 0xD0 | 0xD8 => Some(5),
        0xC2 | 0xCA | 0xD2 | 0xDA => Some(4),
        0xC4 | 0xCC | 0xD4 | 0xDC => Some(6),
        _ => None,
    }
}

/// Whether the condition of a conditional instruction holds under `f`.
fn holds(opcode: u8, f: u8) -> bool {
    let zero = f & 0x80 != 0;
    let carry = f & 0x10 != 0;
    match (opcode >> 3) & 3 {
        0 => !zero,
        1 => zero,
        2 => !carry,
        _ => carry,
    }
}

fn cpu_with_flags(program: &[u8], f: u8) -> CPU {
    let mut rom = vec![0u8; 0x8000];
    rom[0x100..0x100 + program.len()].copy_from_slice(program);
    let mut cpu = CPU::new(&rom).unwrap();
    let mut registers = cpu.registers();
    registers.f = f;
    cpu.set_registers(registers);
    cpu
}

#[test]
fn primary_opcodes_take_their_tabulated_cycles() {
    for opcode in 0..=0xFFu8 {
        if BASE[opcode as usize] == 0 {
            continue;
        }
        for f in [0x00u8, 0x10, 0x80, 0x90, 0xF0] {
            let mut cpu = cpu_with_flags(&[opcode, 0x00, 0x00], f);
            let expected = match taken(opcode) {
                Some(cycles) if holds(opcode, f) => cycles,
                _ => BASE[opcode as usize],
            };
            assert_eq!(cpu.step(), Ok(expected), "opcode {:02X} with F={:02X}", opcode, f);
        }
    }
}

#[test]
fn prefixed_opcodes_take_their_tabulated_cycles() {
    for opcode in 0..=0xFFu8 {
        let mut cpu = cpu_with_flags(&[0xCB, opcode], 0x00);
        let expected = if opcode & 7 != 6 {
            2
        } else if (0x40..0x80).contains(&opcode) {
            3
        } else {
            4
        };
        assert_eq!(cpu.step(), Ok(expected), "prefixed opcode {:02X}", opcode);
        assert_eq!(cpu.registers().pc, 0x0102);
    }
}

#[test]
fn an_interrupt_service_takes_four_cycles_and_a_halted_step_one() {
    let mut cpu = cpu_with_flags(&[0xFB, 0x00, 0x76], 0x00);
    cpu.write_memory(0xFFFF, 0x01);
    assert_eq!(cpu.step(), Ok(1));
    assert_eq!(cpu.step(), Ok(1));
    assert_eq!(cpu.step(), Ok(1));
    assert_eq!(cpu.step(), Ok(1));
    cpu.write_memory(0xFF0F, 0x01);
    assert_eq!(cpu.step(), Ok(4));
}
