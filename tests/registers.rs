use rust_gameboy::registers::{Registers, CARRY_FLAG, ZERO_FLAG};

#[test]
fn test_ind_reg() {
    let mut reg = Registers::new();
    assert_eq!(reg.a(), 0);
    reg.set_a(5);
    assert_eq!(reg.a(), 5);
}

#[test]
fn registers_test_ind_reg() {
    let mut reg = Registers::new();
    assert_eq!(reg.a(), 0);
    reg.set_a(5);
    assert_eq!(reg.a(), 5);
}

#[test]
fn test_joint_reg() {
    let mut reg = Registers::new();
    assert_eq!(reg.a(), 0);
    reg.set_af(256);
    assert_eq!(reg.a(), 1);
    assert_eq!(reg.f(), 0);
}

#[test]
fn pair_write_shows_in_singles() {
    let mut reg = Registers::new();
    reg.set_af(0x12FF);
    assert_eq!(reg.a(), 0x12);
    assert_eq!(reg.f(), 0xF0);
    assert_eq!(reg.af(), 0x12F0);
    reg.set_bc(0xBEEF);
    assert_eq!((reg.b(), reg.c()), (0xBE, 0xEF));
    reg.set_de(0x0102);
    assert_eq!((reg.d(), reg.e()), (0x01, 0x02));
    reg.set_hl(0xFFB5);
    assert_eq!((reg.h(), reg.l()), (0xFF, 0xB5));
    assert_eq!(reg.hl_immut(), 0xFFB5);
    reg.set_h(0x80);
    assert_eq!(reg.hl(), 0x80B5);
}

#[test]
fn flag_writes_keep_low_nibble_clear() {
    let mut reg = Registers::new();
    reg.set_f(0xFF);
    assert_eq!(reg.f(), 0xF0);
    reg.clear_flags(0xFF);
    assert_eq!(reg.f(), 0);
    reg.set_flags(0x0F | CARRY_FLAG);
    assert_eq!(reg.f(), CARRY_FLAG);
    reg.update_flags(ZERO_FLAG, true);
    assert!(reg.get_flag(ZERO_FLAG));
    reg.update_flags(CARRY_FLAG, false);
    assert!(!reg.get_flag(CARRY_FLAG));
    assert_eq!(reg.f(), ZERO_FLAG);
}
