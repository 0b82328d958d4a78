use nes_emu::cpu::BitOps;

#[test]
fn cpu_get_bit() {
    let r: u8 = 0x55;
    assert_eq!(1, r.get_bit(0));
    assert_eq!(0, r.get_bit(1));
    assert_eq!(1, r.get_bit(2));
    assert_eq!(0, r.get_bit(3));
    assert_eq!(1, r.get_bit(4));
    assert_eq!(0, r.get_bit(5));
    assert_eq!(1, r.get_bit(6));
    assert_eq!(0, r.get_bit(7));
}

#[test]
fn cpu_set_bit() {
    let mut r: u8 = 0x00;
    r.set_bit(0);
    r.set_bit(2);
    r.set_bit(4);
    r.set_bit(6);

    assert_eq!(0x55, r);
}

#[test]
fn cpu_clear_bit() {
    let mut r: u8 = 0xff;
    r.clear_bit(0);
    r.clear_bit(2);
    r.clear_bit(4);
    r.clear_bit(6);

    assert_eq!(0xaa, r);
}

#[test]
fn cpu_assign_bit() {
    let mut r: u8 = 0;
    r.assign_bit(0, 1);
    assert_eq!(r, 1);
    r.assign_bit(0, 0);
    assert_eq!(r, 0);

    let mut r: u8 = 0xaa; // 1010_1010
    r.assign_bit(7, 0); // 0010_1010
    assert_eq!(r, 0x2a);
    r.assign_bit(6, 1); // 0110_1010
    assert_eq!(r, 0x6a);
    r.assign_bit(4, 1); // 0111_1010
    assert_eq!(r, 0x7a);
}
