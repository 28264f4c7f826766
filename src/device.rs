//! The device set of the standard machine, as one type a bus can hold.
use vstd::prelude::*;
use crate::bus::{route, Bus, DeviceRanges, MmioDevice, RWEnum, Range};
use crate::common::{Address, Byte, Fault};
use crate::memory::{CPURam, Rom, ULARam};
use crate::ula::Ula;

verus! {

/// Any device of the standard machine.
#[derive(Clone, Copy, Debug)]
pub enum Device {
    Rom(Rom),
    CpuRam(CPURam),
    UlaRam(ULARam),
    Ula(Ula),
}

impl MmioDevice for Device {
    open spec fn claims(&self, io: bool, dir: RWEnum) -> Seq<Range> {
        match self {
            Device::Rom(d) => d.claims(io, dir),
            Device::CpuRam(d) => d.claims(io, dir),
            Device::UlaRam(d) => d.claims(io, dir),
            Device::Ula(d) => d.claims(io, dir),
        }
    }

    open spec fn read_spec(&self, io: bool, address: Address) -> Result<Byte, ()> {
        match self {
            Device::Rom(d) => d.read_spec(io, address),
            Device::CpuRam(d) => d.read_spec(io, address),
            Device::UlaRam(d) => d.read_spec(io, address),
            Device::Ula(d) => d.read_spec(io, address),
        }
    }

    open spec fn write_spec(&self, io: bool, address: Address, data: Byte) -> Option<Device> {
        match self {
            Device::Rom(d) => match d.write_spec(io, address, data) {
                Some(n) => Some(Device::Rom(n)),
                None => None,
            },
            Device::CpuRam(d) => match d.write_spec(io, address, data) {
                Some(n) => Some(Device::CpuRam(n)),
                None => None,
            },
            Device::UlaRam(d) => match d.write_spec(io, address, data) {
                Some(n) => Some(Device::UlaRam(n)),
                None => None,
            },
            Device::Ula(d) => match d.write_spec(io, address, data) {
                Some(n) => Some(Device::Ula(n)),
                None => None,
            },
        }
    }

    fn read(&self, address: Address, io: bool) -> (r: Result<Byte, ()>) {
        match self {
            Device::Rom(d) => d.read(address, io),
            Device::CpuRam(d) => d.read(address, io),
            Device::UlaRam(d) => d.read(address, io),
            Device::Ula(d) => d.read(address, io),
        }
    }

    fn write(&mut self, address: Address, data: Byte, io: bool) -> (r: Result<(), ()>) {
        match self {
            Device::Rom(d) => d.write(address, data, io),
            Device::CpuRam(d) => d.write(address, data, io),
            Device::UlaRam(d) => d.write(address, data, io),
            Device::Ula(d) => d.write(address, data, io),
        }
    }

    fn get_ranges(&self) -> (r: DeviceRanges) {
        match self {
            Device::Rom(d) => d.get_ranges(),
            Device::CpuRam(d) => d.get_ranges(),
            Device::UlaRam(d) => d.get_ranges(),
            Device::Ula(d) => d.get_ranges(),
        }
    }
}

/// Write rejection: where the device that serves `address` in the memory
/// write table is a ROM, a write of any value fails with an address fault,
/// and the bus it leaves behind reads `address` as before.
pub proof fn lemma_rom_rejects_writes(bus: Bus<Device>, address: Address, data: Byte, i: int)
    requires
        route(bus.table(false, RWEnum::Write), address) == Some(i),
        bus.devices()[bus.table(false, RWEnum::Write)[i].device as int] is Rom,
    ensures
        bus.write_result(address, data, false) == Err::<(), Fault>(Fault::AddressFault),
        bus.write_devices(address, data, false) == bus.devices(),
        forall|after: Bus<Device>|
            after.devices() == bus.write_devices(address, data, false) && after.table(
                false,
                RWEnum::Read,
            ) == bus.table(false, RWEnum::Read) ==> #[trigger] after.read_spec(address, false)
                == bus.read_spec(address, false),
{
}

} // verus!
