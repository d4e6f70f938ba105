use emu8080::cpu::CPU;
use emu8080::machine::Machine;

fn fresh_cpu() -> CPU {
    CPU::build(Machine::new())
}

#[test]
fn memory_starts_zeroed() {
    let mut m = Machine::new();
    assert_eq!(m.read_byte(0), 0);
    assert_eq!(m.read_byte(0x3FFF), 0);
}

#[test]
fn memory_read_back() {
    let mut m = Machine::new();
    m.write_byte(0x0100, 0xAB);
    assert_eq!(m.read_byte(0x0100), 0xAB);
    m.write_byte(0x0100, 0x12);
    assert_eq!(m.read_byte(0x0100), 0x12);
}

#[test]
fn memory_wraparound() {
    let mut m = Machine::new();
    m.write_byte(0x4000, 0x55);
    assert_eq!(m.read_byte(0), 0x55);
    m.write_byte(0x8003, 0x66);
    assert_eq!(m.read_byte(3), 0x66);
    m.write_byte(0x0007, 0x77);
    assert_eq!(m.read_byte(0xC007), 0x77);
    assert_eq!(m.read_byte(0x4007), 0x77);
}

#[test]
fn fetch_advances_and_wraps() {
    let mut cpu = fresh_cpu();
    cpu.bus.write_byte(0, 0x42);
    assert_eq!(cpu.fetch(), 0x42);
    assert_eq!(cpu.pc, 1);
    cpu.pc = 0xFFFF;
    cpu.bus.write_byte(0xFFFF, 0x99);
    assert_eq!(cpu.fetch(), 0x99);
    assert_eq!(cpu.pc, 0);
}

#[test]
fn fetch_16_is_little_endian() {
    let mut cpu = fresh_cpu();
    cpu.bus.write_byte(0, 0x34);
    cpu.bus.write_byte(1, 0x12);
    assert_eq!(cpu.fetch_16(), 0x1234);
    assert_eq!(cpu.pc, 2);
}

#[test]
fn read_16_returns_high_low() {
    let mut cpu = fresh_cpu();
    cpu.bus.write_byte(0x0200, 0xCD);
    cpu.bus.write_byte(0x0201, 0xAB);
    assert_eq!(cpu.read_16(0x0200), (0xAB, 0xCD));
}

#[test]
fn write_16_stores_low_then_high() {
    let mut cpu = fresh_cpu();
    cpu.write_16(0x0300, (0xAB, 0xCD));
    assert_eq!(cpu.bus.read_byte(0x0300), 0xCD);
    assert_eq!(cpu.bus.read_byte(0x0301), 0xAB);
    assert_eq!(cpu.read_16(0x0300), (0xAB, 0xCD));
}

#[test]
fn read_8_write_8_reach_the_bus() {
    let mut cpu = fresh_cpu();
    cpu.write_8(0x1234, 0x5A);
    assert_eq!(cpu.read_8(0x1234), 0x5A);
    assert_eq!(cpu.bus.read_byte(0x1234), 0x5A);
}

#[test]
fn stack_round_trip() {
    let mut cpu = fresh_cpu();
    for &sp in &[0xFFFFu16, 0x0000, 0x0001, 0x2000, 0x4000] {
        for &(high, low) in &[(0x12u8, 0x34u8), (0x00, 0x00), (0xFF, 0x01)] {
            cpu.sp = sp;
            cpu.push((high, low));
            assert_eq!(cpu.sp, sp.wrapping_sub(2));
            assert_eq!(cpu.pop(), (high, low));
            assert_eq!(cpu.sp, sp);
        }
    }
}

#[test]
fn push_byte_order() {
    let mut cpu = fresh_cpu();
    cpu.sp = 0x2000;
    cpu.push((0xAB, 0xCD));
    // The high byte sits at sp - 1, the low byte at sp - 2.
    assert_eq!(cpu.bus.read_byte(0x1FFF), 0xAB);
    assert_eq!(cpu.bus.read_byte(0x1FFE), 0xCD);
    assert_eq!(cpu.sp, 0x1FFE);
}

#[test]
fn hook_points_change_nothing() {
    let mut cpu = fresh_cpu();
    cpu.bus.write_byte(0x10, 0x42);
    cpu.handle_input();
    cpu.handle_interrupts();
    cpu.bus.execute();
    assert_eq!(cpu.pc, 0);
    assert_eq!(cpu.sp, 0xFFFF);
    assert_eq!(cpu.bus.read_byte(0x10), 0x42);
}

#[test]
fn machine_default_matches_new() {
    let mut m = Machine::default();
    assert_eq!(m.read_byte(0x2000), 0);
}
