use rust6502::address_bus::{AddressBus, Component};
use rust6502::mc6821::MC6821;
use rust6502::memory::Memory;

fn bus_with_ram(offset: u16, size: usize, block_size: usize) -> AddressBus {
    let mem = Memory::new(offset, size);
    let mut address_bus = AddressBus::new(block_size);
    if address_bus
        .add_component(offset, mem.len(), Component::Memory(mem))
        .is_err()
    {
        panic!("add_component failed");
    }
    address_bus
}

#[test]
fn writes_and_reads_memory_block_zero() {
    let mut address_bus = bus_with_ram(0, 0x200, 0x100);

    let addr = 10;
    let expected = 42u8;

    address_bus.write(addr, 42).expect("wrong address");
    let actual = address_bus.read(addr);

    assert_eq!(actual.is_ok(), true);
    assert_eq!(actual.is_err(), false);
    assert_eq!(expected, actual.unwrap());
}

#[test]
fn tests_writes_and_reads_memory_block_zero() {
    let mem = Memory::new(0, 0x200);
    let mut address_bus = AddressBus::new(0x100);
    if address_bus.add_component(0, mem.len(), Component::Memory(mem)).is_err() {
        panic!("add_component failed");
    }

    let addr = 10;
    let expected = 42u8;

    address_bus.write(addr, 42).expect("wrong address");
    let actual = address_bus.read(addr);

    assert_eq!(actual.is_ok(), true);
    assert_eq!(actual.is_err(), false);
    assert_eq!(expected, actual.unwrap());
}

#[test]
fn writes_and_reads_memory_block_one() {
    let mut address_bus = bus_with_ram(0, 0x200, 0x100);

    let addr = 0x110;
    let expected = 42u8;

    address_bus.write(addr, 42).expect("wrong address");
    let actual = address_bus.read(addr);

    assert_eq!(actual.is_ok(), true);
    assert_eq!(actual.is_err(), false);
    assert_eq!(expected, actual.unwrap());
}

#[test]
fn tests_writes_and_reads_memory_block_one() {
    let mem = Memory::new(0, 0x200);
    let mut address_bus = AddressBus::new(0x100);
    if address_bus.add_component(0, mem.len(), Component::Memory(mem)).is_err() {
        panic!("add_component failed");
    }

    let addr = 0x110;
    let expected = 42u8;

    address_bus.write(addr, 42).expect("wrong address");
    let actual = address_bus.read(addr);

    assert_eq!(actual.is_ok(), true);
    assert_eq!(actual.is_err(), false);
    assert_eq!(expected, actual.unwrap());
}

#[test]
fn writes_and_reads_memory_nonzero_offset() {
    let offset = 0xF000u16;
    let mut address_bus = bus_with_ram(offset, 0x200, 0x100);

    let addr = 0xF010;
    let expected = 42u8;

    address_bus.write(addr, 42).expect("wrong address");
    let actual = address_bus.read(addr);

    assert_eq!(actual.is_ok(), true);
    assert_eq!(actual.is_err(), false);
    assert_eq!(expected, actual.unwrap());
}

#[test]
fn tests_writes_and_reads_memory_nonzero_offset() {
    let offset = 0xF000u16;
    let mem = Memory::new(offset, 0x200);
    let mut address_bus = AddressBus::new(0x100);
    if address_bus
        .add_component(offset, mem.len(), Component::Memory(mem))
        .is_err()
    {
        panic!("add_component failed");
    }

    let addr = 0xF010;
    let expected = 42u8;

    address_bus.write(addr, 42).expect("wrong address");
    let actual = address_bus.read(addr);

    assert_eq!(actual.is_ok(), true);
    assert_eq!(actual.is_err(), false);
    assert_eq!(expected, actual.unwrap());
}

#[test]
fn writes_to_invalid_address() {
    let mut address_bus = bus_with_ram(0, 0x100, 0x100);

    let addr = 0x1000;

    let actual = address_bus.write(addr, 42);

    assert_eq!(actual.is_ok(), false);
    assert_eq!(actual.is_err(), true);
}

#[test]
fn tests_writes_to_invalid_address() {
    let mem = Memory::new(0, 0x100);
    let mut address_bus = AddressBus::new(mem.len());
    if address_bus.add_component(0, mem.len(), Component::Memory(mem)).is_err() {
        panic!("add_component failed");
    }

    let actual = address_bus.write(0x1000, 42);

    assert_eq!(actual.is_ok(), false);
    assert_eq!(actual.is_err(), true);
}

#[test]
fn reads_from_invalid_address() {
    let mut address_bus = bus_with_ram(0, 0x100, 0x100);

    let addr = 0x1000;

    let actual = address_bus.read(addr);

    assert_eq!(actual.is_ok(), false);
    assert_eq!(actual.is_err(), true);
}

#[test]
fn tests_reads_from_invalid_address() {
    let mem = Memory::new(0, 0x100);
    let mut address_bus = AddressBus::new(mem.len());
    if address_bus.add_component(0, mem.len(), Component::Memory(mem)).is_err() {
        panic!("add_component failed");
    }

    let actual = address_bus.read(0x1000);

    assert_eq!(actual.is_ok(), false);
    assert_eq!(actual.is_err(), true);
}

#[test]
fn invalid_mem_block_size() {
    let mem = Memory::from_vec(0, vec![0x01, 0x02, 0x03, 0x00]);
    let mut address_bus = AddressBus::new(0x100);

    let actual = address_bus.add_component(0, 0x100, Component::Memory(mem));

    assert_eq!(actual.is_ok(), false);
    assert_eq!(actual.is_err(), true);
}

#[test]
fn tests_invalid_mem_block_size() {
    let mem = Memory::from_vec(0, vec![0x01, 0x02, 0x03, 0x00]);
    let mut address_bus = AddressBus::new(0x100);

    let actual = address_bus.add_component(0, 0x100, Component::Memory(mem));

    assert_eq!(actual.is_ok(), false);
    assert_eq!(actual.is_err(), true);
}

#[test]
fn add_component_unaligned_start() {
    let offset = 0x10u16;
    let mem = Memory::new(offset, 0x200);
    let mut bus = AddressBus::new(0x100);

    let size = mem.len();
    // a base that is not a multiple of the block size is refused
    assert!(bus.add_component(offset, size, Component::Memory(mem)).is_err());

    let addr = offset + size as u16 - 1;
    assert!(bus.write(addr, 0xAA).is_err());
    assert!(bus.read(addr).is_err());
}

#[test]
fn overlapping_registration_is_refused() {
    let mut bus = bus_with_ram(0, 0x200, 0x100);
    let other = Memory::new(0x100, 0x100);
    let r = bus.add_component(0x100, 0x100, Component::Memory(other));
    assert!(r.is_err());
    assert_eq!(bus.components.len(), 1);
    let pia = MC6821::new();
    assert!(bus.add_component(0x200, 0x100, Component::Pia(pia)).is_ok());
}

#[test]
fn registration_past_the_address_space_is_refused() {
    let mut bus = AddressBus::new(0x100);
    let mem = Memory::new(0xFF00, 0x200);
    assert!(bus.add_component(0xFF00, 0x200, Component::Memory(mem)).is_err());
}

#[test]
fn address_outside_device_within_block_is_an_error() {
    // a 0x80-byte region registered for a whole 0x100-byte block
    let mut bus = AddressBus::new(0x100);
    let mem = Memory::new(0, 0x80);
    bus.add_component(0, 0x100, Component::Memory(mem)).unwrap_err();
    let mut bus = AddressBus::new(0x80);
    bus.add_component(0x100, 0x100, Component::Memory(Memory::new(0x100, 0x80))).unwrap();
    assert_eq!(bus.read(0x17F).unwrap(), 0);
    assert!(bus.read(0x180).is_err());
    assert!(bus.write(0x1FF, 1).is_err());
}

#[test]
fn misaligned_base_is_refused() {
    let mut bus = AddressBus::new(0x100);
    let mem = Memory::new(0x80, 0x100);
    assert!(bus.add_component(0x80, 0x100, Component::Memory(mem)).is_err());
    assert_eq!(bus.components.len(), 0);
    assert!(bus.read(0x80).is_err());
}

#[test]
fn written_ram_byte_reads_back() {
    let mut bus = bus_with_ram(0, 0x1000, 0x100);
    for a in [0u16, 0x1FF, 0x0FFF] {
        bus.write(a, (a & 0xFF) as u8 ^ 0x5A).unwrap();
        assert_eq!(bus.read(a).unwrap(), (a & 0xFF) as u8 ^ 0x5A);
    }
}

#[test]
fn pia_registers_mirror_every_four_bytes() {
    let mut bus = AddressBus::new(0x100);
    bus.add_component(0xD000, 0x200, Component::Pia(MC6821::new())).unwrap();
    bus.write(0xD013, 0x04).unwrap();
    assert_eq!(bus.read(0xD013).unwrap(), 0x04);
    assert_eq!(bus.read(0xD1F3).unwrap(), 0x04);
    assert_eq!(bus.read(0xD017).unwrap(), 0x04);
}
