use nes_emu::bus::{AddrRange, Bus, BusDevice, BusError, CpuRamDevice, RamDevice};

#[test]
fn adjacent_ranges_are_accepted() {
    let mut bus = Bus::new();
    assert_eq!(bus.add(RamDevice::new(0x0000, 0x0200)), Ok(()));
    assert_eq!(bus.add(RamDevice::new(0x0200, 0x0200)), Ok(()));
    assert!(bus.is_mapped(0x01ff));
    assert!(bus.is_mapped(0x0200));
    assert!(bus.is_mapped(0x03ff));
    assert!(!bus.is_mapped(0x0400));
}

#[test]
fn range_sharing_one_address_is_refused() {
    let mut bus = Bus::new();
    bus.add(RamDevice::new(0x0000, 0x0202)).unwrap();
    let refused = bus.add(RamDevice::new(0x0200, 0x0001));
    assert_eq!(
        refused,
        Err(BusError::Overlap {
            new_range: AddrRange { start: 0x0200, end: 0x0200 },
            existing_range: AddrRange { start: 0x0000, end: 0x0201 },
        })
    );
}

#[test]
fn enclosed_range_is_refused() {
    let mut bus = Bus::new();
    bus.add(RamDevice::new(0x0000, 0x0301)).unwrap();
    let refused = bus.add(RamDevice::new(0x0200, 0x0001));
    assert_eq!(
        refused,
        Err(BusError::Overlap {
            new_range: AddrRange { start: 0x0200, end: 0x0200 },
            existing_range: AddrRange { start: 0x0000, end: 0x0300 },
        })
    );
}

#[test]
fn enclosing_range_is_refused() {
    let mut bus = Bus::new();
    bus.add(RamDevice::new(0x0200, 0x0001)).unwrap();
    let refused = bus.add(RamDevice::new(0x0000, 0x0301));
    assert!(matches!(refused, Err(BusError::Overlap { .. })));
}

#[test]
fn overlap_names_the_first_conflicting_device() {
    let mut bus = Bus::new();
    bus.add(RamDevice::new(0x0000, 0x0100)).unwrap();
    bus.add(RamDevice::new(0x0100, 0x0100)).unwrap();
    bus.add(RamDevice::new(0x0200, 0x0100)).unwrap();
    let refused = bus.add(RamDevice::new(0x0180, 0x0100));
    assert_eq!(
        refused,
        Err(BusError::Overlap {
            new_range: AddrRange { start: 0x0180, end: 0x027f },
            existing_range: AddrRange { start: 0x0100, end: 0x01ff },
        })
    );
}

#[test]
fn refused_device_leaves_the_bus_as_it_was() {
    let mut bus = Bus::new();
    bus.add(RamDevice::new(0x0000, 0x0100)).unwrap();
    bus.write(0x0010, 0x77).unwrap();
    assert!(bus.add(RamDevice::new(0x00ff, 0x0100)).is_err());
    assert_eq!(bus.read(0x0010), Ok(0x77));
    assert_eq!(bus.read(0x0100), Err(BusError::Unmapped { addr: 0x0100 }));
    // the range is still free for a device that fits
    assert_eq!(bus.add(RamDevice::new(0x0100, 0x0100)), Ok(()));
}

#[test]
fn unmapped_address_is_reported() {
    let mut bus = Bus::new();
    bus.add(RamDevice::new(0x1000, 0x0100)).unwrap();
    assert_eq!(bus.read(0x0fff), Err(BusError::Unmapped { addr: 0x0fff }));
    assert_eq!(bus.read(0x1100), Err(BusError::Unmapped { addr: 0x1100 }));
    assert_eq!(bus.write(0x0fff, 1), Err(BusError::Unmapped { addr: 0x0fff }));
    assert_eq!(bus.read_slice(0x0fff, 0x1002), Err(BusError::Unmapped { addr: 0x0fff }));
    assert!(bus.get_mapped_device(0x0fff).is_err());
}

#[test]
fn empty_bus_maps_nothing() {
    let bus: Bus<RamDevice> = Bus::new();
    assert_eq!(bus.read(0x0000), Err(BusError::Unmapped { addr: 0x0000 }));
    assert!(!bus.is_mapped(0xffff));
}

#[test]
fn write_then_read_round_trip_on_every_address() {
    let mut bus = Bus::new();
    bus.add(RamDevice::new(0x4000, 0x0100)).unwrap();
    for addr in 0x4000u16..0x4100 {
        let value = (addr as u8) ^ 0x5a;
        bus.write(addr, value).unwrap();
        assert_eq!(bus.read(addr), Ok(value));
    }
    // no write disturbed another address
    for addr in 0x4000u16..0x4100 {
        assert_eq!(bus.read(addr), Ok((addr as u8) ^ 0x5a));
    }
}

#[test]
fn write_changes_one_device_only() {
    let mut bus = Bus::new();
    bus.add(RamDevice::new(0x0000, 0x0100)).unwrap();
    bus.add(RamDevice::new(0x0100, 0x0100)).unwrap();
    bus.write(0x0000, 0x11).unwrap();
    bus.write(0x0100, 0x22).unwrap();
    assert_eq!(bus.read(0x0000), Ok(0x11));
    assert_eq!(bus.read(0x0100), Ok(0x22));
    assert_eq!(bus.read(0x0001), Ok(0x00));
    assert_eq!(bus.read(0x0101), Ok(0x00));
}

#[test]
fn mirrored_ram_repeats_every_2048_bytes() {
    let mut bus = Bus::new();
    bus.add(CpuRamDevice::new()).unwrap();
    bus.write(0x0000, 0x42).unwrap();
    assert_eq!(bus.read(0x0800), Ok(0x42));
    assert_eq!(bus.read(0x1800), Ok(0x42));
    assert_eq!(bus.read(0x1000), Ok(0x42));
    assert_eq!(bus.read(0x0001), Ok(0x00));
}

#[test]
fn mirrored_ram_aliases_in_both_directions() {
    let mut bus = Bus::new();
    bus.add(CpuRamDevice::new()).unwrap();
    bus.write(0x1fff, 0x99).unwrap();
    assert_eq!(bus.read(0x07ff), Ok(0x99));
    assert_eq!(bus.read(0x0fff), Ok(0x99));
    assert_eq!(bus.read(0x17ff), Ok(0x99));
    bus.write(0x0a34, 0x17).unwrap();
    assert_eq!(bus.read(0x0234), Ok(0x17));
    assert_eq!(bus.read(0x1234), Ok(0x17));
    assert_eq!(bus.read(0x2000), Err(BusError::Unmapped { addr: 0x2000 }));
}

#[test]
fn device_ranges_are_as_constructed() {
    let ram = RamDevice::new(0x0800, 0x0400);
    assert_eq!(*ram.get_addr_range(), AddrRange { start: 0x0800, end: 0x0bff });
    let whole = RamDevice::new(0, 0x1_0000);
    assert_eq!(*whole.get_addr_range(), AddrRange { start: 0x0000, end: 0xffff });
    let mirrored = CpuRamDevice::new();
    assert_eq!(*mirrored.get_addr_range(), AddrRange { start: 0x0000, end: 0x1fff });
    let one = RamDevice::new(0xffff, 1);
    assert_eq!(*one.get_addr_range(), AddrRange::new(0xffff, 0xffff));
}

#[test]
fn address_to_index_is_the_offset() {
    let range = AddrRange::new(0x0800, 0x0bff);
    assert_eq!(range.address_to_index(0x0800), 0);
    assert_eq!(range.address_to_index(0x0bff), 0x3ff);
    assert!(range.includes(0x0800));
    assert!(range.includes(0x0bff));
    assert!(!range.includes(0x07ff));
    assert!(!range.includes(0x0c00));
}

#[test]
fn intersects_is_symmetric_and_inclusive() {
    let a = AddrRange::new(0x0000, 0x01ff);
    let b = AddrRange::new(0x01ff, 0x0200);
    let c = AddrRange::new(0x0200, 0x0200);
    assert!(a.intersects(&b));
    assert!(b.intersects(&a));
    assert!(b.intersects(&c));
    assert!(!a.intersects(&c));
    assert!(!c.intersects(&a));
}

#[test]
fn read_slice_returns_the_bytes_of_the_window() {
    let mut bus = Bus::new();
    let mut ram = RamDevice::new(0x0600, 0x0100);
    ram.fill_with_test_data();
    bus.add(ram).unwrap();
    assert_eq!(bus.read_slice(0x0610, 0x0613).unwrap(), &[0x10, 0x11, 0x12]);
    assert_eq!(bus.read_slice(0x0600, 0x0601).unwrap(), &[0x00]);
    assert_eq!(bus.read_slice(0x0610, 0x0610).unwrap(), &[] as &[u8]);
    // an end before the beginning asks for nothing
    assert_eq!(bus.read_slice(0x0610, 0x0600).unwrap(), &[] as &[u8]);
}

#[test]
fn read_slice_is_cut_at_the_end_of_the_device() {
    let mut bus = Bus::new();
    let mut ram = RamDevice::new(0x0600, 0x0100);
    ram.fill_with_test_data();
    bus.add(ram).unwrap();
    bus.add(RamDevice::new(0x0700, 0x0100)).unwrap();
    assert_eq!(bus.read_slice(0x06fe, 0x0701).unwrap(), &[0xfe, 0xff]);
    assert_eq!(bus.read_slice(0x06ff, 0x0702).unwrap(), &[0xff]);
}

#[test]
fn read_slice_of_mirrored_ram_is_cut_at_the_end_of_the_store() {
    let mut bus = Bus::new();
    bus.add(CpuRamDevice::new()).unwrap();
    bus.write(0x07fe, 0xa1).unwrap();
    bus.write(0x07ff, 0xa2).unwrap();
    bus.write(0x0000, 0xa3).unwrap();
    assert_eq!(bus.read_slice(0x07fe, 0x0801).unwrap(), &[0xa1, 0xa2]);
    assert_eq!(bus.read_slice(0x0ffe, 0x1001).unwrap(), &[0xa1, 0xa2]);
    assert_eq!(bus.read_slice(0x0800, 0x0801).unwrap(), &[0xa3]);
}

#[test]
fn load_copies_bytes_to_consecutive_addresses() {
    let mut bus = Bus::new();
    bus.add(RamDevice::new(0x0000, 0x0100)).unwrap();
    bus.load(0x0010, &[1, 2, 3, 4]);
    assert_eq!(bus.read(0x000f), Ok(0));
    assert_eq!(bus.read(0x0010), Ok(1));
    assert_eq!(bus.read(0x0013), Ok(4));
    assert_eq!(bus.read(0x0014), Ok(0));
}

#[test]
fn load_drops_bytes_for_unmapped_addresses_and_wraps() {
    let mut bus = Bus::new();
    bus.add(RamDevice::new(0x0000, 0x0002)).unwrap();
    bus.add(RamDevice::new(0xffff, 0x0001)).unwrap();
    bus.load(0xfffe, &[9, 8, 7, 6, 5]);
    assert_eq!(bus.read(0xffff), Ok(8));
    assert_eq!(bus.read(0x0000), Ok(7));
    assert_eq!(bus.read(0x0001), Ok(6));
}

#[test]
fn fill_with_test_data_stores_index_modulo_256() {
    let mut ram = RamDevice::new(0x0100, 0x0300);
    ram.fill_with_test_data();
    assert_eq!(ram.read_from_bus(0x0100), 0x00);
    assert_eq!(ram.read_from_bus(0x01ff), 0xff);
    assert_eq!(ram.read_from_bus(0x0200), 0x00);
    assert_eq!(ram.read_from_bus(0x03ff), 0xff);
}

#[test]
fn devices_can_be_used_without_a_bus() {
    let mut ram = RamDevice::new(0x2000, 0x0010);
    ram.write_from_bus(0x2005, 0x33);
    assert_eq!(ram.read_from_bus(0x2005), 0x33);
    assert_eq!(ram.read_slice_from_bus(0x2004, 0x2007), &[0x00, 0x33, 0x00]);
    let mut mirrored = CpuRamDevice::new();
    mirrored.write_from_bus(0x0805, 0x44);
    assert_eq!(mirrored.read_from_bus(0x0005), 0x44);
    assert_eq!(mirrored.read_slice_from_bus(0x1804, 0x1807), &[0x00, 0x44, 0x00]);
}
