use nes_emu::bus::{Bus, RamDevice};
use nes_emu::cpu::{BitOps, Cpu, CARRY_BIT, OVERFLOW_BIT};

fn init() -> Cpu<RamDevice> {
    let mut bus = Bus::new();
    bus.add(RamDevice::new(0, 0x1_0000)).unwrap();
    Cpu::init(bus)
}

const ADC_CARRY: &str = "0600: 18 a9 ff 69 01 18 a9 80 69 80 18 a9 c0 69 40 38\n\
                         0610: a9 fe 69 01 18 a9 80 69 40\n";

const ADC_OVERFLOW: &str = "0600: 18 a9 50 69 50 18 a9 7f 69 01 38 a9 7f 69 00 18\n\
                            0610: a9 7e 69 01\n";

const SBC_OVERFLOW: &str = "0600: 38 a9 50 e9 b0 38 a9 d0 e9 70 38 a9 50 e9 f0\n";

fn adc_carry_flag(mut cpu: Cpu<RamDevice>) {
    cpu.load_hexdump(ADC_CARRY).unwrap();
    cpu.pc = 0x0600;

    // CLC, LDA #$FF, ADC #$01
    // sum: 1111_1111 + 0000_0001 (should carry)
    for _i in 0..3 {
        cpu.tick().unwrap();
    }
    assert_eq!(cpu.sr.get_bit(CARRY_BIT), 1);
    assert_eq!(cpu.a, 0x00);

    // CLC, LDA #$80, ADC #$80
    // sum: 1000_000 + 1000_0000 (should carry)
    for _i in 0..3 {
        cpu.tick().unwrap();
    }
    assert_eq!(cpu.sr.get_bit(CARRY_BIT), 1);
    assert_eq!(cpu.a, 0x00);

    // CLC, LDA #$C0, ADC #$40
    // sum: 1100_000 + 0100_0000 (should carry)
    for _i in 0..3 {
        cpu.tick().unwrap();
    }
    assert_eq!(cpu.sr.get_bit(CARRY_BIT), 1);
    assert_eq!(cpu.a, 0x00);

    // SEC, LDA #$fe, ADC #$01
    // sum: 1111_1110 + 0000_0001 (should carry)
    for _i in 0..3 {
        cpu.tick().unwrap();
    }
    assert_eq!(cpu.sr.get_bit(CARRY_BIT), 1);
    assert_eq!(cpu.a, 0x00);

    // CLC, LDA #$80, ADC #$40
    // sum: 1000_000 + 0100_0000 (should not carry)
    for _i in 0..3 {
        cpu.tick().unwrap();
    }
    assert_eq!(cpu.sr.get_bit(CARRY_BIT), 0);
    assert_eq!(cpu.a, 0xc0);
}

fn adc_overflow_flag(mut cpu: Cpu<RamDevice>) {
    cpu.load_hexdump(ADC_OVERFLOW).unwrap();
    cpu.pc = 0x0600;

    // CLC, LDA #$50, ADC #$50
    // 80 + 80 = 160 > 127 (should set overflow)
    for _i in 0..3 {
        cpu.tick().unwrap();
    }
    assert_eq!(cpu.sr.get_bit(OVERFLOW_BIT), 1);
    assert_eq!(cpu.a, 0xa0);

    // CLC, LDA #$7f, ADC #$01
    // 127 + 1 = 128 > 127 (should set overflow)
    for _i in 0..3 {
        cpu.tick().unwrap();
    }
    assert_eq!(cpu.sr.get_bit(OVERFLOW_BIT), 1);
    assert_eq!(cpu.a, 0x80);

    // SEC, LDA #$7f, ADC #$00
    // 127 + 0 + 1 = 128 > 127 (should set overflow)
    for _i in 0..3 {
        cpu.tick().unwrap();
    }
    assert_eq!(cpu.sr.get_bit(OVERFLOW_BIT), 1);
    assert_eq!(cpu.a, 0x80);

    // CLC, LDA #$7e, ADC #$01
    // 126 + 1 = 127 <= 127 (should not set overflow)
    for _i in 0..3 {
        cpu.tick().unwrap();
    }
    assert_eq!(cpu.sr.get_bit(OVERFLOW_BIT), 0);
    assert_eq!(cpu.a, 0x7f);
}

fn sbc_carry_flag(mut cpu: Cpu<RamDevice>) {
    cpu.load_hexdump(SBC_OVERFLOW).unwrap();
    cpu.pc = 0x0600;

    // SEC, LDA #$50, SBC #$b0
    // 80 - -80 = -96 (should set overflow)
    for _i in 0..3 {
        cpu.tick().unwrap();
    }
    assert_eq!(cpu.sr.get_bit(OVERFLOW_BIT), 1);
    assert_eq!(cpu.a, 0xa0);
    assert_eq!(cpu.sr.get_bit(CARRY_BIT), 1u8 - 1);

    // SEC, LDA #$d0, SBC #$70
    // -48 - 112 = 96 >(should set overflow)
    for _i in 0..3 {
        cpu.tick().unwrap();
    }
    assert_eq!(cpu.sr.get_bit(OVERFLOW_BIT), 1);
    assert_eq!(cpu.a, 0x60);
    assert_eq!(cpu.sr.get_bit(CARRY_BIT), 1u8 - 0);

    // SEC, LDA #$50, SBC #$f0
    // 80 - -16 = 96 >(should not set overflow)
    for _i in 0..3 {
        cpu.tick().unwrap();
    }
    assert_eq!(cpu.sr.get_bit(OVERFLOW_BIT), 0);
    assert_eq!(cpu.a, 0x60);
    assert_eq!(cpu.sr.get_bit(CARRY_BIT), 1u8 - 1);
}

#[test]
fn cpu_adc_carry_flag() {
    adc_carry_flag(init());
}

#[test]
fn cpu_adc_overflow_flag() {
    adc_overflow_flag(init());
}

#[test]
fn cpu_sbc_carry_flag() {
    sbc_carry_flag(init());
}

#[test]
fn test_adc_carry_flag() {
    adc_carry_flag(init());
}

#[test]
fn test_adc_overflow_flag() {
    adc_overflow_flag(init());
}

#[test]
fn test_sbc_carry_flag() {
    sbc_carry_flag(init());
}
