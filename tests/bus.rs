use kosmetic_zx::bus::{check_add_device, device_reply, Bus, BusMessage, MmioDevice, Range};
use kosmetic_zx::common::Fault;
use kosmetic_zx::device::Device;
use kosmetic_zx::memory::{CPURam, Rom, ULARam};
use kosmetic_zx::ula::{Color, Ula, BORDER_PORT};

fn standard_bus() -> (Bus<Device>, usize) {
    let mut bus: Bus<Device> = Bus::new();
    bus.add_device(Device::Rom(Rom::new([0x7F; 0x4000])));
    bus.add_device(Device::UlaRam(ULARam::new()));
    bus.add_device(Device::CpuRam(CPURam::new()));
    let ula = bus.add_device(Device::Ula(Ula::new()));
    (bus, ula)
}

fn border_of(bus: &Bus<Device>, id: usize) -> Color {
    match bus.device(id) {
        Device::Ula(u) => u.border_color(),
        _ => panic!("not the display-timing unit"),
    }
}

#[test]
fn end_to_end_standard_map() {
    let (mut bus, ula) = standard_bus();
    assert_eq!(bus.write(0x9000, 0xFF, false), Ok(()));
    assert_eq!(bus.read(0x9000, false), Ok(0xFF));
    assert_eq!(bus.write(0x0100, 0xFF, false), Err(Fault::AddressFault));
    assert_eq!(bus.read(0x0100, false), Ok(0x7F));
    assert_eq!(bus.write(BORDER_PORT, 0x02, true), Ok(()));
    assert_eq!(border_of(&bus, ula), Color { r: 0xd7, g: 0x00, b: 0x00 });
}

#[test]
fn rom_rejects_every_write_and_keeps_its_byte() {
    let (mut bus, _) = standard_bus();
    for addr in [0x0000u16, 0x1234, 0x3FFF] {
        for value in [0x00u8, 0x7F, 0xFF] {
            assert_eq!(bus.write(addr, value, false), Err(Fault::AddressFault));
            assert_eq!(bus.read(addr, false), Ok(0x7F));
        }
    }
}

#[test]
fn read_translates_to_device_offset() {
    let (mut bus, _) = standard_bus();
    assert_eq!(bus.write(0x4005, 0x11, false), Ok(()));
    assert_eq!(bus.write(0x8005, 0x22, false), Ok(()));
    assert_eq!(bus.read(0x4005, false), Ok(0x11));
    assert_eq!(bus.read(0x8005, false), Ok(0x22));
    match bus.device(1) {
        Device::UlaRam(r) => assert_eq!(r.read(0x0005, false), Ok(0x11)),
        _ => panic!("device 1 is the RAM bank"),
    }
    match bus.device(2) {
        Device::CpuRam(r) => assert_eq!(r.read(0x0005, false), Ok(0x22)),
        _ => panic!("device 2 is general RAM"),
    }
}

#[test]
fn address_miss_faults() {
    let mut empty: Bus<Device> = Bus::new();
    assert_eq!(empty.read(0x1000, false), Err(Fault::AddressFault));
    assert_eq!(empty.write(0x1000, 1, false), Err(Fault::AddressFault));
    let (mut bus, _) = standard_bus();
    assert_eq!(bus.read(0x0010, true), Err(Fault::AddressFault));
    assert_eq!(bus.write(0x0010, 1, true), Err(Fault::AddressFault));
    assert_eq!(bus.read(0xFFFF, false), Err(Fault::AddressFault));
    assert_eq!(bus.write(0xFFFF, 1, false), Err(Fault::AddressFault));
}

#[test]
fn border_port_read_is_refused() {
    let (bus, _) = standard_bus();
    assert_eq!(bus.read(BORDER_PORT, true), Err(Fault::AddressFault));
}

#[test]
fn later_registration_with_same_start_wins() {
    let mut bus: Bus<Device> = Bus::new();
    let first = bus.add_device(Device::CpuRam(CPURam::new()));
    assert_eq!(bus.write(0x8000, 0x55, false), Ok(()));
    let second = bus.add_device(Device::CpuRam(CPURam::new()));
    assert_eq!((first, second), (0, 1));
    assert_eq!(bus.device_count(), 2);
    assert_eq!(bus.read(0x8000, false), Ok(0x00));
    assert_eq!(bus.write(0x8000, 0x66, false), Ok(()));
    match bus.device(0) {
        Device::CpuRam(r) => assert_eq!(r.bytes[0], 0x55),
        _ => panic!("device 0 is general RAM"),
    }
}

#[test]
fn serve_answers_requests() {
    let (mut bus, _) = standard_bus();
    assert!(matches!(bus.serve(BusMessage::MemGet(0x0000)), Some(BusMessage::MemReadOk(0x7F))));
    assert!(matches!(bus.serve(BusMessage::MemPut(0x0000, 1)), Some(BusMessage::Error)));
    assert!(matches!(bus.serve(BusMessage::MemPut(0x8001, 9)), Some(BusMessage::MemWriteOk)));
    assert!(matches!(bus.serve(BusMessage::MemGet(0x8001)), Some(BusMessage::MemReadOk(9))));
    assert!(matches!(bus.serve(BusMessage::IOPut(BORDER_PORT, 5)), Some(BusMessage::IOWriteOk)));
    assert!(matches!(bus.serve(BusMessage::IOGet(BORDER_PORT)), Some(BusMessage::Error)));
    assert!(matches!(bus.serve(BusMessage::MemWriteOk), None));
}

#[test]
fn device_reply_follows_protocol() {
    let mut rom = Rom::new([3; 0x4000]);
    assert!(matches!(device_reply(&mut rom, BusMessage::MemGet(0x10)), Some(BusMessage::MemReadOk(3))));
    assert!(matches!(device_reply(&mut rom, BusMessage::MemPut(0x10, 1)), Some(BusMessage::Error)));
    assert!(matches!(device_reply(&mut rom, BusMessage::IOGet(0x10)), Some(BusMessage::Error)));
    match device_reply(&mut rom, BusMessage::GetRanges) {
        Some(BusMessage::RangesRet(r, w, ior, iow)) => {
            assert_eq!(r, vec![Range(0x0000, 0x4000)]);
            assert_eq!(w, vec![Range(0x0000, 0x4000)]);
            assert!(ior.is_empty() && iow.is_empty());
        }
        _ => panic!("GetRanges must be answered with RangesRet"),
    }
    let mut ram = ULARam::new();
    assert!(matches!(device_reply(&mut ram, BusMessage::MemPut(0x20, 7)), Some(BusMessage::MemWriteOk)));
    assert!(matches!(device_reply(&mut ram, BusMessage::MemGet(0x20)), Some(BusMessage::MemReadOk(7))));
    assert!(matches!(device_reply(&mut ram, BusMessage::MemGet(0x4000)), Some(BusMessage::Error)));
    let mut ula = Ula::new();
    assert!(matches!(device_reply(&mut ula, BusMessage::IOPut(0, 4)), Some(BusMessage::IOWriteOk)));
    assert_eq!(ula.border_color, Color { r: 0x00, g: 0xd7, b: 0x00 });
    assert!(matches!(device_reply(&mut ula, BusMessage::AddDeviceOk), None));
}

#[test]
fn registration_answer_is_checked() {
    assert_eq!(check_add_device(&BusMessage::AddDeviceOk), Ok(()));
    assert_eq!(check_add_device(&BusMessage::Error), Err(Fault::ProtocolViolation));
    assert_eq!(check_add_device(&BusMessage::MemWriteOk), Err(Fault::ProtocolViolation));
}

#[test]
fn range_is_half_open() {
    let r = Range(0x10, 0x20);
    assert!(!r.contains(0x0F));
    assert!(r.contains(0x10));
    assert!(r.contains(0x1F));
    assert!(!r.contains(0x20));
}

#[test]
fn memory_images_copy_out() {
    let rom = Rom::new([9; 0x4000]);
    let image = rom.get_memory();
    assert_eq!(image.len(), 0x4000);
    assert!(image.iter().all(|b| *b == 9));
    let mut ram = CPURam::new();
    assert_eq!(ram.write(0x7FFF, 1, false), Ok(()));
    assert_eq!(ram.write(0x8000, 1, false), Err(()));
    let image = ram.get_memory();
    assert_eq!(image.len(), 0x8000);
    assert_eq!(image[0x7FFF], 1);
}
