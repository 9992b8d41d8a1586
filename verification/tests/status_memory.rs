use cpu6502::cpu::CPU;
use cpu6502::memory::Memory;
use cpu6502::status::{Flag, StatusRegister, POWER_ON_STATUS};

const ALL_FLAGS: [Flag; 8] = [
    Flag::Carry,
    Flag::Zero,
    Flag::InterruptDisable,
    Flag::DecimalMode,
    Flag::BreakA,
    Flag::BreakB,
    Flag::Overflow,
    Flag::Negative,
];

#[test]
fn flag_masks_are_the_eight_bits_in_order() {
    let masks: Vec<u8> = ALL_FLAGS.iter().map(|f| f.mask()).collect();
    assert_eq!(masks, vec![0x01, 0x02, 0x04, 0x08, 0x10, 0x20, 0x40, 0x80]);
}

#[test]
fn status_register_keeps_all_eight_bits() {
    for bits in 0..=255u8 {
        assert_eq!(StatusRegister::from_bits_truncate(bits).bits(), bits);
    }
    assert_eq!(StatusRegister::empty().bits(), 0);
}

#[test]
fn status_insert_remove_contains() {
    let mut s = StatusRegister::from_bits_truncate(0b0010_0100);
    assert!(s.contains(Flag::BreakB));
    assert!(s.contains(Flag::InterruptDisable));
    assert!(!s.contains(Flag::Carry));
    s.insert(Flag::Carry);
    assert_eq!(s.bits(), 0b0010_0101);
    s.insert(Flag::Carry);
    assert_eq!(s.bits(), 0b0010_0101);
    s.remove(Flag::BreakB);
    assert_eq!(s.bits(), 0b0000_0101);
    s.remove(Flag::Overflow);
    assert_eq!(s.bits(), 0b0000_0101);
    assert_eq!(s, StatusRegister::from_bits_truncate(5));
}

#[test]
fn zero_and_negative_follow_the_result_for_every_byte() {
    for start in [0x00u8, 0xFF, POWER_ON_STATUS, 0b0100_1001, 0b1000_0010] {
        for b in 0..=255u8 {
            let mut cpu = CPU::new();
            cpu.status = StatusRegister::from_bits_truncate(start);
            cpu.update_status_register_flags(b);
            assert_eq!(cpu.status.contains(Flag::Zero), b == 0);
            assert_eq!(cpu.status.contains(Flag::Negative), b >= 0x80);
            for f in ALL_FLAGS {
                if f != Flag::Zero && f != Flag::Negative {
                    assert_eq!(
                        cpu.status.contains(f),
                        StatusRegister::from_bits_truncate(start).contains(f)
                    );
                }
            }
        }
    }
}

#[test]
fn zero_and_negative_exact_bytes() {
    let mut s = StatusRegister::from_bits_truncate(0b0010_0100);
    s.update_zero_and_negative(0x00);
    assert_eq!(s.bits(), 0b0010_0110);
    s.update_zero_and_negative(0x80);
    assert_eq!(s.bits(), 0b1010_0100);
    s.update_zero_and_negative(0x7F);
    assert_eq!(s.bits(), 0b0010_0100);
    s.update_zero_and_negative(0xFF);
    assert_eq!(s.bits(), 0b1010_0100);
}

#[test]
fn update_flags_touches_nothing_but_status() {
    let mut cpu = CPU::new();
    cpu.a_register = 1;
    cpu.x_register = 2;
    cpu.y_register = 3;
    cpu.stack_pointer = 4;
    cpu.program_counter = 5;
    cpu.write_memory(6, 7);
    cpu.update_status_register_flags(0);
    assert_eq!(
        (cpu.a_register, cpu.x_register, cpu.y_register, cpu.stack_pointer, cpu.program_counter),
        (1, 2, 3, 4, 5)
    );
    assert_eq!(cpu.read_memory(6), 7);
    assert_eq!(cpu.status.bits(), 0b0010_0110);
}

#[test]
fn memory_starts_zeroed_and_holds_bytes() {
    let mut m = Memory::new();
    assert_eq!(m.read(0x0000), 0);
    assert_eq!(m.read(0x8000), 0);
    assert_eq!(m.read(0xFFFF), 0);
    m.write(0xFFFF, 0xAB);
    m.write(0x0000, 0x12);
    assert_eq!(m.read(0xFFFF), 0xAB);
    assert_eq!(m.read(0x0000), 0x12);
    assert_eq!(m.read(0x0001), 0);
    assert_eq!(m.read(0xFFFE), 0);
}

#[test]
fn word_is_little_endian() {
    let mut m = Memory::new();
    m.write(10, 0xFF);
    m.write(11, 0xAA);
    assert_eq!(m.read_u16(10), 0xAAFF);
    m.write_u16(0x20, 0xABCD);
    assert_eq!(m.read(0x20), 0xCD);
    assert_eq!(m.read(0x21), 0xAB);
    assert_eq!(m.read(0x1F), 0);
    assert_eq!(m.read(0x22), 0);
}

#[test]
fn word_round_trip_without_wrap() {
    let mut cpu = CPU::new();
    for (addr, word) in [(0x0000u16, 0x0000u16), (0x1234, 0xBEEF), (0xFFFE, 0xFFFF), (0x00FF, 0x0100)] {
        cpu.write_u16_memory(addr, word);
        assert_eq!(cpu.read_u16_memory(addr), word);
    }
}

#[test]
fn word_round_trip_wraps_at_top_of_memory() {
    let mut cpu = CPU::new();
    cpu.write_u16_memory(0xFFFF, 0xABCD);
    assert_eq!(cpu.read_u16_memory(0xFFFF), 0xABCD);
    assert_eq!(cpu.read_memory(0xFFFF), 0xCD);
    assert_eq!(cpu.read_memory(0x0000), 0xAB);
}

#[test]
fn word_write_keeps_registers() {
    let mut cpu = CPU::new();
    cpu.a_register = 9;
    cpu.program_counter = 0x4242;
    cpu.write_u16_memory(0x0100, 0x0201);
    cpu.write_memory(0x0200, 0x33);
    assert_eq!(cpu.a_register, 9);
    assert_eq!(cpu.program_counter, 0x4242);
    assert_eq!(cpu.status.bits(), POWER_ON_STATUS);
    assert_eq!(cpu.read_memory(0x0200), 0x33);
}
