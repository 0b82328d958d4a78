//! The whole system: the processor and the devices of its memory map.
use vstd::prelude::*;
use crate::bus::device::{CPU_RAM_END, CPU_RAM_SIZE};
use crate::bus::{AddrRange, Bus, BusDevice, CpuRamDevice, DeviceView, MemoryMap, RamDevice};
use crate::cpu::flags::{with_bit, INT_DISABLE_BIT};
use crate::cpu::hexdump::LoadError;
use crate::cpu::loader::{program_bank, INES_HEADER_SIZE, PRG_BANK_SIZE, PRG_START};
use crate::cpu::{Cpu, CpuError, CpuState};

verus! {

/// First address above the window of the internal RAM.
pub const UPPER_MEMORY_START: usize = 0x2000;

/// Number of addresses from `UPPER_MEMORY_START` to the top of the address
/// space.
pub const UPPER_MEMORY_SIZE: usize = 0xe000;

/// The kinds of device on the system's bus.
pub enum NesDevice {
    /// 2KB internal CPU RAM
    CpuRam(CpuRamDevice),
    /// Plain memory over the rest of the address space.
    Ram(RamDevice),
}

impl BusDevice for NesDevice {
    open spec fn view(&self) -> DeviceView {
        match self {
            NesDevice::CpuRam(device) => device@,
            NesDevice::Ram(device) => device@,
        }
    }

    open spec fn inv(&self) -> bool {
        match self {
            NesDevice::CpuRam(device) => device.inv(),
            NesDevice::Ram(device) => device.inv(),
        }
    }

    proof fn lemma_inv(&self) {
        match self {
            NesDevice::CpuRam(device) => device.lemma_inv(),
            NesDevice::Ram(device) => device.lemma_inv(),
        }
    }

    fn read_from_bus(&self, addr: u16) -> (data: u8) {
        match self {
            NesDevice::CpuRam(device) => device.read_from_bus(addr),
            NesDevice::Ram(device) => device.read_from_bus(addr),
        }
    }

    fn read_slice_from_bus(&self, begin: u16, end: u16) -> (bytes: &[u8]) {
        match self {
            NesDevice::CpuRam(device) => device.read_slice_from_bus(begin, end),
            NesDevice::Ram(device) => device.read_slice_from_bus(begin, end),
        }
    }

    fn write_from_bus(&mut self, addr: u16, data: u8) {
        match self {
            NesDevice::CpuRam(device) => device.write_from_bus(addr, data),
            NesDevice::Ram(device) => device.write_from_bus(addr, data),
        }
    }

    fn get_addr_range(&self) -> (range: &AddrRange) {
        match self {
            NesDevice::CpuRam(device) => device.get_addr_range(),
            NesDevice::Ram(device) => device.get_addr_range(),
        }
    }
}

/// The memory of a system that was just switched on: the internal RAM
/// repeated across `$0000..=$1FFF` and plain memory from `$2000` to the top,
/// all bytes zero.
pub open spec fn blank_memory() -> MemoryMap {
    MemoryMap {
        devices: seq![
            DeviceView {
                range: AddrRange { start: 0, end: CPU_RAM_END },
                store: Seq::new(CPU_RAM_SIZE as nat, |i: int| 0u8),
            },
            DeviceView {
                range: AddrRange { start: UPPER_MEMORY_START as u16, end: 0xffff },
                store: Seq::new(UPPER_MEMORY_SIZE as nat, |i: int| 0u8),
            },
        ],
    }
}

/// Representation of a full NES system
pub struct Nes {
    // the processor, which owns the system bus and with it all of the
    // connected devices
    pub cpu: Cpu<NesDevice>,
}

impl Nes {
    pub open spec fn wf(&self) -> bool {
        self.cpu.wf()
    }

    /// Initialize a new system emulator instance and all subcomponents
    ///
    /// The program bank of `image` is loaded at `$C000` and the processor
    /// starts there. An image too short to hold a header and one bank is
    /// refused.
    pub fn init(image: &[u8]) -> (r: Result<Self, LoadError>)
        ensures
            image@.len() >= INES_HEADER_SIZE + PRG_BANK_SIZE ==> r is Ok && r->Ok_0.wf()
                && r->Ok_0.cpu@ == (CpuState {
                a: 0,
                x: 0,
                y: 0,
                sp: 0xfd,
                pc: PRG_START,
                sr: with_bit(0, INT_DISABLE_BIT, true),
                mem: blank_memory().load(PRG_START, program_bank(image@)),
            }),
            image@.len() < INES_HEADER_SIZE + PRG_BANK_SIZE ==> r is Err && r->Err_0
                == LoadError::TruncatedImage,
    {
        let mut bus: Bus<NesDevice> = Bus::new();

        // init devices connected to system bus
        let cpu_ram = NesDevice::CpuRam(CpuRamDevice::new());  // 2KB internal CPU RAM
        let remaining_addr_space = NesDevice::Ram(
            RamDevice::new(UPPER_MEMORY_START, UPPER_MEMORY_SIZE),
        );

        // add devices to bus
        let added = bus.add(cpu_ram);
        assert(added is Ok);
        let added = bus.add(remaining_addr_space);
        assert(added is Ok);
        assert(bus@.devices =~= blank_memory().devices);

        let mut cpu = Cpu::init(bus);
        cpu.load_ines(image)?;
        cpu.pc = PRG_START;

        Ok(Nes { cpu })
    }

    /// Advance system emulation by one time step
    pub fn tick(&mut self) -> (r: Result<(), CpuError>)
        requires
            old(self).wf(),
        ensures
            final(self).wf(),
            match old(self).cpu@.step() {
                Ok(state) => r is Ok && final(self).cpu@ == state,
                Err(e) => r == Err::<(), CpuError>(e) && final(self).cpu@ == old(self).cpu@,
            },
    {
        self.cpu.tick()
    }
}

} // verus!
