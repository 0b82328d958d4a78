use nes_emu::bus::{Bus, RamDevice};

// RamDevice filling up the entire memory map
#[test]
fn bus_read_from_ram_device() {
    let mut bus = Bus::new();

    // init devices
    let mut ram = RamDevice::new(0, 2_usize.pow(16));
    ram.fill_with_test_data();

    // add devices to bus
    bus.add(ram).unwrap();

    for i in 0..2_usize.pow(16) {
        assert_eq!(bus.read(i as u16).unwrap(), (i % 256) as u8);
    }
}

// 1KB RamDevice starting at address 0x0800
#[test]
fn bus_read_from_ram_device_with_offset() {
    let mut bus = Bus::new();

    let start: usize = 0x0800;
    let size: usize = 2_usize.pow(10);

    // init devices
    let mut ram = RamDevice::new(start, size);
    ram.fill_with_test_data();

    // add devices to bus
    bus.add(ram).unwrap();

    for i in start..start + size {
        assert_eq!(bus.read(i as u16).unwrap(), (i % 256) as u8);
    }
}

#[test]
fn bus_write_to_ram_device() {
    let mut bus = Bus::new();

    let start: usize = 0x0800;
    let size: usize = 2_usize.pow(10);

    // init devices
    let ram = RamDevice::new(start, size);

    // add devices to bus
    bus.add(ram).unwrap();

    // write bytes to mapped memory
    for addr in start..start + size {
        bus.write(addr as u16, (addr % 256) as u8).unwrap();
    }

    // read bytes from mapped memory
    for addr in start..start + size {
        assert_eq!(bus.read(addr as u16).unwrap(), (addr % 256) as u8);
    }
}

// legal memory mapping where ram1 < ram2
#[test]
fn bus_disallow_overlapping_memory_regions_1() {
    let mut bus = Bus::new();
    let ram1 = RamDevice::new(0x0000, 0x0200);
    let ram2 = RamDevice::new(0x0200, 0x0200);
    bus.add(ram1).unwrap();
    bus.add(ram2).unwrap();
}

// illegal memory mapping where ram1 <= ram2
#[test]
#[should_panic]
fn bus_disallow_overlapping_memory_regions_2() {
    let mut bus = Bus::new();
    let ram1 = RamDevice::new(0x0000, 0x0201);
    let ram2 = RamDevice::new(0x0200, 0x0200);
    bus.add(ram1).unwrap();
    bus.add(ram2).unwrap(); // should panic
}

// illegal memory mapping where ram1 <= ram2
#[test]
#[should_panic]
fn bus_disallow_overlapping_memory_regions_3() {
    let mut bus = Bus::new();
    let ram1 = RamDevice::new(0x0000, 0x0300);
    let ram2 = RamDevice::new(0x0200, 0x0200);
    bus.add(ram1).unwrap();
    bus.add(ram2).unwrap(); // should panic
}

// illegal memory mapping where ram2 is enclosed in ram1
#[test]
#[should_panic]
fn bus_disallow_overlapping_memory_regions_4() {
    let mut bus = Bus::new();
    let ram1 = RamDevice::new(0x0200, 0x0200);
    let ram2 = RamDevice::new(0x0300, 0x0080);
    bus.add(ram1).unwrap();
    bus.add(ram2).unwrap(); // should panic
}

// illegal memory mapping where ram1 >= ram2
#[test]
#[should_panic]
fn bus_disallow_overlapping_memory_regions_5() {
    let mut bus = Bus::new();
    let ram1 = RamDevice::new(0x0300, 0x0200);
    let ram2 = RamDevice::new(0x0200, 0x0200);
    bus.add(ram1).unwrap();
    bus.add(ram2).unwrap(); // should panic
}

// illegal memory mapping where ram1 >= ram2
#[test]
#[should_panic]
fn bus_disallow_overlapping_memory_regions_6() {
    let mut bus = Bus::new();
    let ram1 = RamDevice::new(0x0400, 0x0200);
    let ram2 = RamDevice::new(0x0200, 0x0201);
    bus.add(ram1).unwrap();
    bus.add(ram2).unwrap(); // should panic
}

// legal memory mapping where ram1 > ram2
#[test]
fn bus_disallow_overlapping_memory_regions_7() {
    let mut bus = Bus::new();
    let ram1 = RamDevice::new(0x0400, 0x0200);
    let ram2 = RamDevice::new(0x0200, 0x0200);
    bus.add(ram1).unwrap();
    bus.add(ram2).unwrap();
}
