use rust6502::address_bus::{AddressBus, Component};
use rust6502::addressmodes::{abs, aby, abx, imm, imp, ind, izx, izy, rel, zp0, zpx, zpy};
use rust6502::memory::Memory;
use rust6502::mos6502::{decode, AddressModeResult, Cpu, CpuRegisters, StatusFlag};

fn cpu_with(program: Vec<u8>) -> Cpu {
    let mem = Memory::from_vec(0, program);
    let mut address_bus = AddressBus::new(mem.len());
    if address_bus.add_component(0, mem.len(), Component::Memory(mem)).is_err() {
        panic!("add_component failed");
    }
    Cpu::new(CpuRegisters::default(), address_bus)
}

#[test]
fn test_address_mode_abs() {
    let expected: u16 = 0x0302;
    let mut cpu = cpu_with(vec![0x01, 0x02, 0x03, 0x00]);
    cpu.r.pc = 1;

    let cpu_r_before = cpu.r.clone();

    let actual = abs(&mut cpu);

    assert_eq!(actual.is_ok(), true);
    assert_eq!(actual.is_err(), false);
    let a = actual.unwrap();
    assert_eq!(expected, a.absolute_address);
    assert_eq!(AddressModeResult::Absolute, a.result);
    assert_eq!(cpu_r_before.pc + 2, cpu.r.pc);
}

#[test]
fn test_address_mode_abx() {
    let expected: u16 = 0x0304;
    let mut cpu = cpu_with(vec![0x01, 0x02, 0x03, 0x00]);
    cpu.r.pc = 1;
    cpu.r.x = 2;

    let cpu_r_before = cpu.r.clone();

    let actual = abx(&mut cpu);

    assert_eq!(actual.is_ok(), true);
    assert_eq!(actual.is_err(), false);
    let a = actual.unwrap();
    assert_eq!(expected, a.absolute_address);
    assert_eq!(AddressModeResult::Absolute, a.result);
    assert_eq!(cpu_r_before.pc + 2, cpu.r.pc);
}

#[test]
fn test_address_mode_abx_cross_page() {
    let expected: u16 = 0x0401;
    let mut cpu = cpu_with(vec![0x01, 0xFE, 0x03, 0x00]);
    cpu.r.pc = 1;
    cpu.r.x = 3;

    let cpu_r_before = cpu.r.clone();

    let actual = abx(&mut cpu);

    assert_eq!(actual.is_ok(), true);
    assert_eq!(actual.is_err(), false);
    let a = actual.unwrap();
    assert_eq!(expected, a.absolute_address);
    assert_eq!(AddressModeResult::Absolute, a.result);
    assert_eq!(1, a.add_cycles);
    assert_eq!(cpu_r_before.pc + 2, cpu.r.pc);
}

#[test]
fn test_address_mode_aby() {
    let expected: u16 = 0x0305;
    let mut cpu = cpu_with(vec![0x01, 0x02, 0x03, 0x00]);
    cpu.r.pc = 1;
    cpu.r.y = 3;

    let cpu_r_before = cpu.r.clone();

    let actual = aby(&mut cpu);

    assert_eq!(actual.is_ok(), true);
    assert_eq!(actual.is_err(), false);
    let a = actual.unwrap();
    assert_eq!(expected, a.absolute_address);
    assert_eq!(AddressModeResult::Absolute, a.result);
    assert_eq!(cpu_r_before.pc + 2, cpu.r.pc);
}

#[test]
fn test_address_mode_abs_addr_error() {
    let mut cpu = cpu_with(vec![0x01, 0x02, 0x03, 0x00]);
    cpu.r.pc = 0x100;

    let actual = abs(&mut cpu);

    assert_eq!(actual.is_ok(), false);
    assert_eq!(actual.is_err(), true);
}

#[test]
fn test_address_mode_ind() {
    let expected: u16 = 0x0201;
    let mut cpu = cpu_with(vec![0x00, 0x01, 0x02, 0x01, 0x00]);
    cpu.r.pc = 3;

    let cpu_r_before = cpu.r.clone();

    let actual = ind(&mut cpu);

    assert_eq!(actual.is_ok(), true);
    assert_eq!(actual.is_err(), false);
    let a = actual.unwrap();
    assert_eq!(expected, a.absolute_address);
    assert_eq!(AddressModeResult::Absolute, a.result);
    assert_eq!(cpu_r_before.pc + 2, cpu.r.pc);
}

#[test]
fn test_address_mode_imm() {
    let expected: u16 = 0x1234;
    let address_bus = AddressBus::new(0x1000);
    let mut cpu = Cpu::new(CpuRegisters::default(), address_bus);
    cpu.r.pc = expected;

    let actual = imm(&mut cpu);

    assert_eq!(actual.is_ok(), true);
    assert_eq!(actual.is_err(), false);
    let a = actual.unwrap();
    assert_eq!(expected, a.absolute_address);
    assert_eq!(AddressModeResult::Absolute, a.result);
    assert_eq!(expected + 1, cpu.r.pc);
}

#[test]
fn test_address_mode_imp() {
    let expected: u8 = 0x12;
    let address_bus = AddressBus::new(0x1000);
    let mut cpu = Cpu::new(CpuRegisters::default(), address_bus);
    cpu.r.a = expected;

    let actual = imp(&mut cpu);

    assert_eq!(actual.is_ok(), true);
    assert_eq!(actual.is_err(), false);
    let a = actual.unwrap();
    assert_eq!(expected, a.fetched_value);
    assert_eq!(AddressModeResult::Fetched, a.result);
}

#[test]
fn test_address_mode_izx() {
    let expected: u16 = 0x0201;
    let mut cpu = cpu_with(vec![0, 0x05, 0, 0, 0, 0, 0x01, 0x02]);
    cpu.r.x = 1;
    cpu.r.pc = 1;

    let cpu_r_before = cpu.r.clone();

    let actual = izx(&mut cpu);

    assert_eq!(actual.is_ok(), true);
    assert_eq!(actual.is_err(), false);
    let a = actual.unwrap();
    assert_eq!(expected, a.absolute_address);
    assert_eq!(AddressModeResult::Absolute, a.result);
    assert_eq!(cpu_r_before.pc + 1, cpu.r.pc);
}

#[test]
fn test_address_mode_izy() {
    let expected: u16 = 0x0203;
    let mut cpu = cpu_with(vec![0, 0x06, 0, 0, 0, 0, 0x01, 0x02]);
    cpu.r.y = 2;
    cpu.r.pc = 1;

    let cpu_r_before = cpu.r.clone();

    let actual = izy(&mut cpu);

    assert_eq!(actual.is_ok(), true);
    assert_eq!(actual.is_err(), false);
    let a = actual.unwrap();
    assert_eq!(expected, a.absolute_address);
    assert_eq!(AddressModeResult::Absolute, a.result);
    assert_eq!(cpu_r_before.pc + 1, cpu.r.pc);
}

#[test]
fn test_address_mode_rel() {
    let expected: u16 = 0x06;
    let mut cpu = cpu_with(vec![0, 0x06, 0, 0, 0, 0, 0x01, 0x02]);
    cpu.r.pc = 1;

    let cpu_r_before = cpu.r.clone();

    let actual = rel(&mut cpu);

    assert_eq!(actual.is_ok(), true);
    assert_eq!(actual.is_err(), false);
    let a = actual.unwrap();
    assert_eq!(expected, a.relative_address);
    assert_eq!(AddressModeResult::Relative, a.result);
    assert_eq!(cpu_r_before.pc + 1, cpu.r.pc);
}

#[test]
fn test_address_mode_zp0() {
    let expected: u16 = 0x06;
    let mut cpu = cpu_with(vec![0, 0x06, 0, 0, 0, 0, 0x01, 0x02]);
    cpu.r.pc = 1;

    let cpu_r_before = cpu.r.clone();

    let actual = zp0(&mut cpu);

    assert_eq!(actual.is_ok(), true);
    assert_eq!(actual.is_err(), false);
    let a = actual.unwrap();
    assert_eq!(expected, a.absolute_address);
    assert_eq!(AddressModeResult::Absolute, a.result);
    assert_eq!(cpu_r_before.pc + 1, cpu.r.pc);
}

#[test]
fn test_address_mode_zpx() {
    let expected: u16 = 0x07;
    let mut cpu = cpu_with(vec![0, 0x06, 0, 0, 0, 0, 0x01, 0x02]);
    cpu.r.pc = 1;
    cpu.r.x = 1;

    let cpu_r_before = cpu.r.clone();

    let actual = zpx(&mut cpu);

    assert_eq!(actual.is_ok(), true);
    assert_eq!(actual.is_err(), false);
    let a = actual.unwrap();
    assert_eq!(expected, a.absolute_address);
    assert_eq!(AddressModeResult::Absolute, a.result);
    assert_eq!(cpu_r_before.pc + 1, cpu.r.pc);
}

#[test]
fn test_address_mode_zpy() {
    let expected: u16 = 0x08;
    let mut cpu = cpu_with(vec![0, 0x06, 0, 0, 0, 0, 0x01, 0x02]);
    cpu.r.pc = 1;
    cpu.r.y = 2;

    let cpu_r_before = cpu.r.clone();

    let actual = zpy(&mut cpu);

    assert_eq!(actual.is_ok(), true);
    assert_eq!(actual.is_err(), false);
    let a = actual.unwrap();
    assert_eq!(expected, a.absolute_address);
    assert_eq!(AddressModeResult::Absolute, a.result);
    assert_eq!(cpu_r_before.pc + 1, cpu.r.pc);
}

#[test]
fn test_set_flags() {
    let expected: u8 = StatusFlag::D as u8 | StatusFlag::C as u8;
    let mut cpu = cpu_with(vec![0]);

    cpu.set_flag(StatusFlag::D, true);
    cpu.set_flag(StatusFlag::C, true);

    assert_eq!(expected, cpu.r.status);
    assert_eq!(true, cpu.get_flag(StatusFlag::D));
    assert_eq!(true, cpu.get_flag(StatusFlag::C));
    assert_eq!(false, cpu.get_flag(StatusFlag::Z));
}

#[test]
fn test_clear_flags() {
    let expected: u8 = 0xFF & !(StatusFlag::D as u8 | StatusFlag::C as u8);
    let mut cpu = cpu_with(vec![0]);
    cpu.r.status = 0xFF;

    cpu.set_flag(StatusFlag::D, false);
    cpu.set_flag(StatusFlag::C, false);

    assert_eq!(expected, cpu.r.status);
    assert_eq!(false, cpu.get_flag(StatusFlag::D));
    assert_eq!(false, cpu.get_flag(StatusFlag::C));
    assert_eq!(true, cpu.get_flag(StatusFlag::Z));
}

#[test]
fn test_lda_imp() {
    let expected: u8 = 0x55;
    let mut cpu = cpu_with(vec![0xA9, 0x55]); // LDA #$55
    let cpu_r_before = cpu.r.clone();

    cpu.cycle().unwrap();

    assert_eq!(expected, cpu.r.a);
    assert_eq!(cpu_r_before.pc + 2, cpu.r.pc);
}

#[test]
fn test_lda_zp0() {
    let expected: u8 = 0x55;
    let mut cpu = cpu_with(vec![0xA5, 0x02, 0x55]); // LDA $02
    let cpu_r_before = cpu.r.clone();

    cpu.cycle().unwrap();

    assert_eq!(expected, cpu.r.a);
    assert_eq!(cpu_r_before.pc + 2, cpu.r.pc);
}

#[test]
fn test_ld_axy_st_axy() {
    let expected: u8 = 0x55;
    let program = vec![
        0xA9, 0x55, // LDA #$55
        0x85, 0x10, // STA $10
        0xA6, 0x10, // LDX $10
        0xE8, //       INX
        0x86, 0x11, // STX $11
        0xA4, 0x11, // LDY $11
        0xC8, //       INY
        0x84, 0x12, // STY $12
        0x00, //       BRK
        0x00, 0x00, 0x00, 0x00, 0x00, 0x00,
    ];
    let mut cpu = cpu_with(program);

    while cpu.r.pc < 0x0E {
        cpu.cycle().unwrap();
    }

    assert_eq!(expected, cpu.r.a);
    assert_eq!(expected + 1, cpu.r.x);
    assert_eq!(expected + 2, cpu.r.y);
    assert_eq!(expected, cpu.address_bus.read(0x10).unwrap());
    assert_eq!(expected + 1, cpu.address_bus.read(0x11).unwrap());
    assert_eq!(expected + 2, cpu.address_bus.read(0x12).unwrap());
}

#[test]
fn base_cycles_match_the_documented_timings() {
    // (opcode, cycles) from the published 6502 timing tables
    let table: [(u8, u8); 24] = [
        (0x00, 7), (0x01, 6), (0x08, 3), (0x0A, 2), (0x0E, 6), (0x10, 2), (0x1E, 7),
        (0x20, 6), (0x28, 4), (0x40, 6), (0x48, 3), (0x4C, 3), (0x60, 6), (0x68, 4),
        (0x6C, 5), (0x91, 6), (0x99, 5), (0x9D, 5), (0xA9, 2), (0xB1, 5), (0xBD, 4),
        (0xDE, 7), (0xEA, 2), (0xFE, 7),
    ];
    for (op, cycles) in table {
        assert_eq!(decode(op).cycles, cycles, "opcode {:02X}", op);
    }
}
