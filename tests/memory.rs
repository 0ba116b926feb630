use rust6502::memory::Memory;

#[test]
fn writes_and_reads_memory() {
    let mut mem = Memory::new(0, 0x100);
    let expected = 42u8;

    mem.int_write(10, expected);
    let actual = mem.int_read(10);

    assert_eq!(expected, actual);
}

#[test]
fn read_vec_memory() {
    let mut mem = Memory::from_vec(0, vec![0x01, 0x02, 0x03, 0x00]);
    let expected = 42u8;

    mem.int_write(3, expected);
    let actual = mem.int_read(3);

    assert_eq!(expected, actual);
}

#[test]
fn writes_and_reads_external() {
    let mut mem = Memory::new(0, 0x200);

    let addr = 10;
    let expected = 42u8;

    mem.write(addr, 42).expect("wrong address");
    let actual = mem.read(addr);

    assert_eq!(actual.is_ok(), true);
    assert_eq!(actual.is_err(), false);
    assert_eq!(expected, actual.unwrap());
}

#[test]
fn writes_and_reads_external_with_offset() {
    let mut mem = Memory::new(0x100, 0x200);

    let addr = 0x211;
    let expected = 42u8;

    mem.write(addr, 42).expect("wrong address");
    let actual = mem.read(addr);

    assert_eq!(actual.is_ok(), true);
    assert_eq!(actual.is_err(), false);
    assert_eq!(expected, actual.unwrap());
}

#[test]
fn writes_and_reads_external_wrong_lower_addr() {
    let mut mem = Memory::new(0x100, 0x200);

    let addr = 0x050;

    let actual_write = mem.write(addr, 42);
    let actual_read = mem.read(addr);

    assert_eq!(actual_write.is_ok(), false);
    assert_eq!(actual_write.is_err(), true);
    assert_eq!(actual_read.is_ok(), false);
    assert_eq!(actual_read.is_err(), true);
}

#[test]
fn writes_and_reads_external_wrong_higher_addr() {
    let mut mem = Memory::new(0x100, 0x200);

    let addr = 0x301;

    let actual_write = mem.write(addr, 42);
    let actual_read = mem.read(addr);

    assert_eq!(actual_write.is_ok(), false);
    assert_eq!(actual_write.is_err(), true);
    assert_eq!(actual_read.is_ok(), false);
    assert_eq!(actual_read.is_err(), true);
}

#[test]
fn fill_pads_to_size() {
    let mut mem = Memory::from_vec(0x200, vec![1, 2]);
    mem.fill(5, 0xEA);
    assert_eq!(mem.mem, vec![1, 2, 0xEA, 0xEA, 0xEA]);
    mem.fill(3, 0);
    assert_eq!(mem.len(), 5);
}

#[test]
fn write_error_carries_address() {
    let mut mem = Memory::new(0x100, 0x10);
    let err = mem.write(0x110, 1).unwrap_err();
    assert_eq!(err.addr, 0x110);
    assert_eq!(err.operation, "write");
    let err = mem.read(0x0FF).unwrap_err();
    assert_eq!(err.addr, 0x0FF);
    assert_eq!(err.operation, "read");
}

#[test]
fn rom_refuses_writes() {
    let mut rom = Memory::rom(0xFF00, vec![1, 2, 3, 4]);
    assert!(rom.write(0xFF01, 9).is_err());
    assert_eq!(rom.read(0xFF01).unwrap(), 2);
    rom.int_write(0xFF02, 9);
    assert_eq!(rom.int_read(0xFF02), 3);
}
