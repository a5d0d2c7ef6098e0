use gameboy::registers::{Clock, CpuFlag, Registers};

#[test]
fn test_clock_set() {
    let mut clock: Clock = Clock { t: 0, m: 0 };
    assert_eq!(clock.t, 0);
    assert_eq!(clock.m, 0);

    clock.set_m(1);
    clock.set_t(2);

    assert_eq!(clock.t, 2);
    assert_eq!(clock.m, 1);
}

#[test]
fn clock_increments_ticks() {
    let mut clock = Clock { t: 10, m: 3 };
    clock.inc_t(5);
    assert_eq!(clock.t, 15);
    assert_eq!(clock.m, 3);
    clock.inc_m(7);
    assert_eq!(clock.t, 22);
    assert_eq!(clock.m, 3);
}

#[test]
fn power_on_register_values() {
    let r = Registers::new();
    assert_eq!(r.a, 0x11);
    assert_eq!(r.f, 0xB0);
    assert_eq!(r.b, 0x00);
    assert_eq!(r.c, 0x13);
    assert_eq!(r.d, 0x00);
    assert_eq!(r.e, 0xD8);
    assert_eq!(r.h, 0x01);
    assert_eq!(r.l, 0x4D);
    assert_eq!(r.pc, 0x0100);
    assert_eq!(r.sp, 0xFFFE);
    assert_eq!(r.ime, 0);
}

#[test]
fn flag_set_and_clear() {
    let mut r = Registers::new();
    r.flag(CpuFlag::Z, true);
    assert!(r.getflag(CpuFlag::Z));
    r.flag(CpuFlag::Z, false);
    assert!(!r.getflag(CpuFlag::Z));
    r.flag(CpuFlag::C, true);
    r.flag(CpuFlag::H, true);
    r.flag(CpuFlag::N, true);
    assert!(r.getflag(CpuFlag::C));
    assert!(r.getflag(CpuFlag::H));
    assert!(r.getflag(CpuFlag::N));
}

#[test]
fn flag_updates_keep_low_nibble_zero() {
    let mut r = Registers::new();
    r.f = 0xB0;
    r.flag(CpuFlag::C, true);
    assert_eq!(r.f & 0x0F, 0);
    r.flag(CpuFlag::Z, false);
    assert_eq!(r.f & 0x0F, 0);
    r.flag(CpuFlag::H, true);
    assert_eq!(r.f & 0x0F, 0);
    r.flag(CpuFlag::N, false);
    assert_eq!(r.f & 0x0F, 0);
}

#[test]
fn flag_leaves_other_flags_alone() {
    let mut r = Registers::new();
    r.flag(CpuFlag::C, true);
    r.flag(CpuFlag::Z, true);
    r.flag(CpuFlag::H, false);
    let carry_before = r.getflag(CpuFlag::C);
    r.flag(CpuFlag::Z, false);
    assert_eq!(r.getflag(CpuFlag::C), carry_before);
    assert!(!r.getflag(CpuFlag::H));
}

#[test]
fn register_pairs_combine_and_split() {
    let mut r = Registers::new();
    r.set_bc(0x1234);
    assert_eq!(r.b, 0x12);
    assert_eq!(r.c, 0x34);
    assert_eq!(r.bc(), 0x1234);
    r.set_de(0xABCD);
    assert_eq!(r.de(), 0xABCD);
    r.set_hl(0xFF01);
    assert_eq!(r.h, 0xFF);
    assert_eq!(r.l, 0x01);
    assert_eq!(r.hl(), 0xFF01);
}

#[test]
fn af_write_masks_low_nibble() {
    let mut r = Registers::new();
    r.set_af(0x12FF);
    assert_eq!(r.a, 0x12);
    assert_eq!(r.f, 0xF0);
}
