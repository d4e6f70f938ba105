use emu8080::cpu::CPU;
use emu8080::machine::Machine;

fn fresh_cpu() -> CPU {
    CPU::build(Machine::new())
}

#[test]
fn build_power_on_pattern() {
    let cpu = fresh_cpu();
    assert_eq!(cpu.a, 0xFF);
    assert_eq!(cpu.b, 0xFF);
    assert_eq!(cpu.c, 0xFF);
    assert_eq!(cpu.d, 0xFF);
    assert_eq!(cpu.e, 0xFF);
    assert_eq!(cpu.h, 0xFF);
    assert_eq!(cpu.l, 0xFF);
    assert_eq!(cpu.pc, 0);
    assert_eq!(cpu.sp, 0xFFFF);
    assert!(cpu.sign_flag);
    assert!(cpu.zero_flag);
    assert!(cpu.parity_flag);
    assert!(cpu.carry_flag);
    assert!(cpu.half_carry_flag);
    assert!(cpu.interrupts_enabled);
    assert!(!cpu.halted);
}

#[test]
fn pair_round_trips() {
    let mut cpu = fresh_cpu();
    for &v in &[0x0000u16, 0x0001, 0x1234, 0x00FF, 0xFF00, 0xFFFF, 0x8081] {
        cpu.set_bc(v);
        assert_eq!(cpu.get_bc(), v);
        cpu.set_de(v);
        assert_eq!(cpu.get_de(), v);
        cpu.set_hl(v);
        assert_eq!(cpu.get_hl(), v);
    }
}

#[test]
fn pair_is_view_over_bytes() {
    let mut cpu = fresh_cpu();
    cpu.set_bc(0x1234);
    assert_eq!(cpu.b, 0x12);
    assert_eq!(cpu.c, 0x34);
    cpu.d = 0xAB;
    cpu.e = 0xCD;
    assert_eq!(cpu.get_de(), 0xABCD);
}

fn apply_flags(cpu: &mut CPU, bits: u8) {
    cpu.sign_flag = bits & 1 != 0;
    cpu.zero_flag = bits & 2 != 0;
    cpu.parity_flag = bits & 4 != 0;
    cpu.carry_flag = bits & 8 != 0;
    cpu.half_carry_flag = bits & 16 != 0;
}

#[test]
fn psw_round_trip_all_flag_combinations() {
    let mut cpu = fresh_cpu();
    for bits in 0u8..32 {
        apply_flags(&mut cpu, bits);
        let saved = (
            cpu.sign_flag,
            cpu.zero_flag,
            cpu.parity_flag,
            cpu.carry_flag,
            cpu.half_carry_flag,
        );
        let psw = cpu.psw_get_flags();
        // Fixed bits: bit 1 always set, bits 5 and 3 always clear.
        assert_eq!(psw & 0x02, 0x02);
        assert_eq!(psw & 0x20, 0x00);
        assert_eq!(psw & 0x08, 0x00);
        apply_flags(&mut cpu, !bits);
        cpu.psw_set_flags(psw);
        let restored = (
            cpu.sign_flag,
            cpu.zero_flag,
            cpu.parity_flag,
            cpu.carry_flag,
            cpu.half_carry_flag,
        );
        assert_eq!(saved, restored);
    }
}

#[test]
fn psw_bit_positions() {
    let mut cpu = fresh_cpu();
    apply_flags(&mut cpu, 0);
    assert_eq!(cpu.psw_get_flags(), 0x02);
    cpu.sign_flag = true;
    assert_eq!(cpu.psw_get_flags(), 0x82);
    cpu.zero_flag = true;
    assert_eq!(cpu.psw_get_flags(), 0xC2);
    cpu.half_carry_flag = true;
    assert_eq!(cpu.psw_get_flags(), 0xD2);
    cpu.parity_flag = true;
    assert_eq!(cpu.psw_get_flags(), 0xD6);
    cpu.carry_flag = true;
    assert_eq!(cpu.psw_get_flags(), 0xD7);
}

#[test]
fn psw_set_discards_fixed_bits() {
    let mut cpu = fresh_cpu();
    cpu.psw_set_flags(0x28);
    assert!(!cpu.sign_flag);
    assert!(!cpu.zero_flag);
    assert!(!cpu.parity_flag);
    assert!(!cpu.carry_flag);
    assert!(!cpu.half_carry_flag);
}

#[test]
fn parity_of_every_byte() {
    let mut cpu = fresh_cpu();
    for v in 0u16..256 {
        let value = v as u8;
        cpu.update_parity_flag(value);
        assert_eq!(cpu.parity_flag, value.count_ones() % 2 == 0);
    }
}

#[test]
fn parity_examples() {
    let mut cpu = fresh_cpu();
    cpu.update_parity_flag(0x00);
    assert!(cpu.parity_flag);
    cpu.update_parity_flag(0x01);
    assert!(!cpu.parity_flag);
    cpu.update_parity_flag(0x03);
    assert!(cpu.parity_flag);
}

#[test]
fn carry_boundaries_8_bit() {
    let mut cpu = fresh_cpu();
    cpu.update_carry_flag_8(255, 1);
    assert!(cpu.carry_flag);
    cpu.update_carry_flag_8(254, 1);
    assert!(!cpu.carry_flag);
}

#[test]
fn carry_boundaries_16_bit() {
    let mut cpu = fresh_cpu();
    cpu.update_carry_flag_16(0xFFFF, 1);
    assert!(cpu.carry_flag);
    cpu.update_carry_flag_16(0xFFFE, 1);
    assert!(!cpu.carry_flag);
}

#[test]
fn half_carry_boundaries() {
    let mut cpu = fresh_cpu();
    cpu.update_half_carry(7, 1);
    assert!(cpu.half_carry_flag);
    cpu.update_half_carry(6, 1);
    assert!(!cpu.half_carry_flag);
}

#[test]
fn borrow_boundaries() {
    let mut cpu = fresh_cpu();
    cpu.update_borrow_8(0, 1);
    assert!(cpu.carry_flag);
    cpu.update_borrow_8(1, 1);
    assert!(!cpu.carry_flag);
    cpu.update_borrow_16(0x1233, 0x1234);
    assert!(cpu.carry_flag);
    cpu.update_borrow_16(0x1234, 0x1234);
    assert!(!cpu.carry_flag);
}

#[test]
fn half_borrow_boundaries() {
    let mut cpu = fresh_cpu();
    cpu.update_half_borrow(0, 8);
    assert!(cpu.half_carry_flag);
    cpu.update_half_borrow(8, 8);
    assert!(!cpu.half_carry_flag);
    cpu.update_half_borrow(8, 0);
    assert!(!cpu.half_carry_flag);
}

#[test]
fn sign_and_zero_flags() {
    let mut cpu = fresh_cpu();
    cpu.update_sign_flag(0x80);
    assert!(cpu.sign_flag);
    cpu.update_sign_flag(0x7F);
    assert!(!cpu.sign_flag);
    cpu.update_zero_flag(0);
    assert!(cpu.zero_flag);
    cpu.update_zero_flag(1);
    assert!(!cpu.zero_flag);
}
