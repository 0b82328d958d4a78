use nes_emu::bus::{Bus, BusError, CpuRamDevice, RamDevice};
use nes_emu::cpu::hexdump::{hex_value, parse_hexdump, HexRecord, LoadError};
use nes_emu::cpu::{Cpu, CpuError};
use nes_emu::nes::Nes;

fn records(text: &str) -> Result<Vec<(u16, Vec<u8>)>, LoadError> {
    parse_hexdump(text.as_bytes())
        .map(|records| records.into_iter().map(|r: HexRecord| (r.addr, r.bytes)).collect())
}

fn cpu() -> Cpu<RamDevice> {
    let mut bus = Bus::new();
    bus.add(RamDevice::new(0, 0x1_0000)).unwrap();
    Cpu::init(bus)
}

#[test]
fn hex_digits() {
    assert_eq!(hex_value(b'0'), Some(0));
    assert_eq!(hex_value(b'9'), Some(9));
    assert_eq!(hex_value(b'a'), Some(10));
    assert_eq!(hex_value(b'f'), Some(15));
    assert_eq!(hex_value(b'A'), Some(10));
    assert_eq!(hex_value(b'F'), Some(15));
    assert_eq!(hex_value(b'g'), None);
    assert_eq!(hex_value(b'G'), None);
    assert_eq!(hex_value(b'/'), None);
    assert_eq!(hex_value(b':'), None);
    assert_eq!(hex_value(b'@'), None);
    assert_eq!(hex_value(b'`'), None);
    assert_eq!(hex_value(b' '), None);
}

#[test]
fn a_dump_of_two_lines() {
    assert_eq!(
        records("0600: a9 01 8d 00 02\n0605: 60\n"),
        Ok(vec![(0x0600, vec![0xa9, 0x01, 0x8d, 0x00, 0x02]), (0x0605, vec![0x60])])
    );
}

#[test]
fn the_last_line_needs_no_line_feed() {
    assert_eq!(records("0600: a9 01"), Ok(vec![(0x0600, vec![0xa9, 0x01])]));
    assert_eq!(records("0600: a9 01\n"), Ok(vec![(0x0600, vec![0xa9, 0x01])]));
}

#[test]
fn an_empty_dump_has_no_records() {
    assert_eq!(records(""), Ok(vec![]));
}

#[test]
fn address_without_colon_and_without_bytes() {
    assert_eq!(records("c000 4c f5 c5"), Ok(vec![(0xc000, vec![0x4c, 0xf5, 0xc5])]));
    assert_eq!(records("FFFF"), Ok(vec![(0xffff, vec![])]));
    assert_eq!(records("0600:"), Ok(vec![(0x0600, vec![])]));
}

#[test]
fn digits_of_either_case_and_single_digit_bytes() {
    assert_eq!(records("AbCd: A 0b FF 0"), Ok(vec![(0xabcd, vec![0x0a, 0x0b, 0xff, 0x00])]));
}

#[test]
fn blanks_at_the_ends_of_a_line_are_ignored() {
    assert_eq!(
        records("  0600: a9 01 \r\n\t0602: 60\t\r\n"),
        Ok(vec![(0x0600, vec![0xa9, 0x01]), (0x0602, vec![0x60])])
    );
}

#[test]
fn malformed_lines_are_reported_by_number() {
    assert_eq!(records("060: a9"), Err(LoadError::MalformedLine { line: 0 }));
    assert_eq!(records("06g0: a9"), Err(LoadError::MalformedLine { line: 0 }));
    assert_eq!(records("0600: a9\n0602: zz\n"), Err(LoadError::MalformedLine { line: 1 }));
    assert_eq!(records("0600: a9\n\n0602: 60\n"), Err(LoadError::MalformedLine { line: 1 }));
    assert_eq!(records("0600: a9  01"), Err(LoadError::MalformedLine { line: 0 }));
    assert_eq!(records("0600: a9f"), Err(LoadError::MalformedLine { line: 0 }));
    assert_eq!(records("0600: a9\t01"), Err(LoadError::MalformedLine { line: 0 }));
    assert_eq!(records("0600: +1"), Err(LoadError::MalformedLine { line: 0 }));
    assert_eq!(records("\n"), Err(LoadError::MalformedLine { line: 0 }));
    assert_eq!(
        records("0600: 01\n0601: 02\n0602: 03\n0603 0x4"),
        Err(LoadError::MalformedLine { line: 3 })
    );
}

#[test]
fn load_hexdump_writes_each_record_at_its_address() {
    let mut cpu = cpu();
    cpu.a = 0x12;
    cpu.pc = 0x3456;
    assert_eq!(cpu.load_hexdump("0600: a9 01 8d 00 02\n0700: 60\n"), Ok(()));
    assert_eq!(cpu.bus.read_slice(0x0600, 0x0606).unwrap(), &[0xa9, 0x01, 0x8d, 0x00, 0x02, 0x00]);
    assert_eq!(cpu.bus.read(0x0700), Ok(0x60));
    assert_eq!(cpu.bus.read(0x05ff), Ok(0x00));
    assert_eq!((cpu.a, cpu.x, cpu.y, cpu.sp, cpu.pc, cpu.sr), (0x12, 0, 0, 0xfd, 0x3456, 0x04));
}

#[test]
fn later_records_overwrite_earlier_ones() {
    let mut cpu = cpu();
    cpu.load_hexdump("0600: 01 02 03\n0601: ff\n").unwrap();
    assert_eq!(cpu.bus.read_slice(0x0600, 0x0603).unwrap(), &[0x01, 0xff, 0x03]);
}

#[test]
fn a_malformed_dump_writes_nothing() {
    let mut cpu = cpu();
    assert_eq!(
        cpu.load_hexdump("0600: a9 01\n0602: xx\n"),
        Err(LoadError::MalformedLine { line: 1 })
    );
    assert_eq!(cpu.bus.read(0x0600), Ok(0x00));
    assert_eq!(cpu.bus.read(0x0601), Ok(0x00));
}

#[test]
fn records_for_unmapped_addresses_are_dropped() {
    let mut bus = Bus::new();
    bus.add(RamDevice::new(0x0600, 0x0002)).unwrap();
    let mut cpu = Cpu::init(bus);
    assert_eq!(cpu.load_hexdump("05ff: 01 02 03 04"), Ok(()));
    assert_eq!(cpu.bus.read(0x0600), Ok(0x02));
    assert_eq!(cpu.bus.read(0x0601), Ok(0x03));
    assert_eq!(cpu.bus.read(0x05ff), Err(BusError::Unmapped { addr: 0x05ff }));
}

fn image() -> Vec<u8> {
    let mut image = vec![0xee; 0x10];
    for i in 0..0x4000usize {
        image.push((i % 251) as u8);
    }
    image.extend_from_slice(&[0xdd; 0x100]);
    image
}

#[test]
fn load_ines_maps_the_bank_after_the_header() {
    let mut cpu = cpu();
    let image = image();
    assert_eq!(cpu.load_ines(&image), Ok(()));
    assert_eq!(cpu.bus.read(0xbfff), Ok(0x00));
    assert_eq!(cpu.bus.read(0xc000), Ok(0));
    assert_eq!(cpu.bus.read(0xc001), Ok(1));
    assert_eq!(cpu.bus.read(0xc0fb), Ok(0));
    assert_eq!(cpu.bus.read(0xffff), Ok((0x3fff % 251) as u8));
    assert_eq!(cpu.bus.read(0x0000), Ok(0x00));
    assert_eq!(cpu.pc, 0x0000);
}

#[test]
fn load_ines_refuses_a_short_image() {
    let mut cpu = cpu();
    let image = vec![0x01; 0x400f];
    assert_eq!(cpu.load_ines(&image), Err(LoadError::TruncatedImage));
    assert_eq!(cpu.bus.read(0xc000), Ok(0x00));
    let image = vec![0x01; 0x4010];
    assert_eq!(cpu.load_ines(&image), Ok(()));
    assert_eq!(cpu.bus.read(0xc000), Ok(0x01));
    assert_eq!(cpu.bus.read(0xffff), Ok(0x01));
}

#[test]
fn the_system_starts_at_the_program_bank() {
    let mut image = vec![0u8; 0x4010];
    // LDA #$42, STA $0000, JMP $C000
    image[0x10..0x18].copy_from_slice(&[0xa9, 0x42, 0x8d, 0x00, 0x00, 0x4c, 0x00, 0xc0]);
    let mut nes = Nes::init(&image).unwrap();
    assert_eq!(
        (nes.cpu.a, nes.cpu.x, nes.cpu.y, nes.cpu.sp, nes.cpu.pc, nes.cpu.sr),
        (0, 0, 0, 0xfd, 0xc000, 0x04)
    );
    nes.tick().unwrap();
    nes.tick().unwrap();
    nes.tick().unwrap();
    assert_eq!(nes.cpu.pc, 0xc000);
    // internal RAM is mirrored, the rest of the address space is not
    assert_eq!(nes.cpu.bus.read(0x0000), Ok(0x42));
    assert_eq!(nes.cpu.bus.read(0x0800), Ok(0x42));
    assert_eq!(nes.cpu.bus.read(0x1800), Ok(0x42));
    assert_eq!(nes.cpu.bus.read(0x2000), Ok(0x00));
    assert_eq!(nes.cpu.bus.read(0xffff), Ok(0x00));
}

#[test]
fn the_system_refuses_a_short_image() {
    assert!(matches!(Nes::init(&[0u8; 0x400f]), Err(LoadError::TruncatedImage)));
    assert!(Nes::init(&[0u8; 0x4010]).is_ok());
}

#[test]
fn the_system_stops_on_break() {
    let image = vec![0u8; 0x4010];
    let mut nes = Nes::init(&image).unwrap();
    assert_eq!(nes.tick(), Err(CpuError::Unsupported { opcode: 0x00 }));
    assert_eq!(nes.cpu.pc, 0xc000);
}

#[test]
fn load_through_mirrored_ram() {
    let mut bus = Bus::new();
    bus.add(CpuRamDevice::new()).unwrap();
    let mut cpu = Cpu::init(bus);
    cpu.load_hexdump("0ffe: 01 02 03").unwrap();
    assert_eq!(cpu.bus.read(0x07fe), Ok(0x01));
    assert_eq!(cpu.bus.read(0x07ff), Ok(0x02));
    assert_eq!(cpu.bus.read(0x0000), Ok(0x03));
}
