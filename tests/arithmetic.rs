use rust6502::address_bus::{AddressBus, Component};
use rust6502::memory::Memory;
use rust6502::mos6502::{Cpu, CpuRegisters, StatusFlag};

fn small_cpu() -> Cpu {
    let mut bus = AddressBus::new(0x100);
    bus.add_component(0, 0x1000, Component::Memory(Memory::new(0, 0x1000))).unwrap();
    Cpu::new(CpuRegisters::default(), bus)
}

/// Runs `opcode #m` with the given A, carry and decimal flag.
fn run_imm(cpu: &mut Cpu, opcode: u8, a: u8, m: u8, carry: bool, decimal: bool) {
    cpu.address_bus.write(0, opcode).unwrap();
    cpu.address_bus.write(1, m).unwrap();
    cpu.r.pc = 0;
    cpu.r.a = a;
    cpu.r.status = StatusFlag::U;
    cpu.set_flag(StatusFlag::C, carry);
    cpu.set_flag(StatusFlag::D, decimal);
    cpu.step_instruction().unwrap();
}

fn bcd(v: u32) -> u8 {
    ((v / 10) * 16 + v % 10) as u8
}

fn dec(b: u8) -> u32 {
    (b >> 4) as u32 * 10 + (b & 0x0F) as u32
}

#[test]
fn adc_binary_matches_reference() {
    let mut cpu = small_cpu();
    for a in 0..=255u8 {
        for m in 0..=255u8 {
            for c in [false, true] {
                run_imm(&mut cpu, 0x69, a, m, c, false);
                let t = a as u32 + m as u32 + c as u32;
                let r = (t & 0xFF) as u8;
                let v = (a ^ r) & (m ^ r) & 0x80 != 0;
                assert_eq!(cpu.r.a, r);
                assert_eq!(cpu.get_flag(StatusFlag::C), t > 0xFF);
                assert_eq!(cpu.get_flag(StatusFlag::Z), r == 0);
                assert_eq!(cpu.get_flag(StatusFlag::N), r & 0x80 != 0);
                assert_eq!(cpu.get_flag(StatusFlag::V), v);
            }
        }
    }
}

#[test]
fn sbc_binary_matches_reference() {
    let mut cpu = small_cpu();
    for a in 0..=255u8 {
        for m in 0..=255u8 {
            for c in [false, true] {
                run_imm(&mut cpu, 0xE9, a, m, c, false);
                let t = a as i32 - m as i32 - (1 - c as i32);
                let r = (t & 0xFF) as u8;
                let v = (a ^ m) & (a ^ r) & 0x80 != 0;
                assert_eq!(cpu.r.a, r);
                assert_eq!(cpu.get_flag(StatusFlag::C), t >= 0);
                assert_eq!(cpu.get_flag(StatusFlag::Z), r == 0);
                assert_eq!(cpu.get_flag(StatusFlag::N), r & 0x80 != 0);
                assert_eq!(cpu.get_flag(StatusFlag::V), v);
            }
        }
    }
}

#[test]
fn decimal_mode_matches_bcd_arithmetic() {
    let mut cpu = small_cpu();
    for x in 0..100u32 {
        for y in 0..100u32 {
            for c in [false, true] {
                let (a, m) = (bcd(x), bcd(y));
                run_imm(&mut cpu, 0x69, a, m, c, true);
                let s = x + y + c as u32;
                assert_eq!(cpu.r.a, bcd(s % 100), "{:02x}+{:02x}+{}", a, m, c);
                assert_eq!(cpu.get_flag(StatusFlag::C), s >= 100);
                let binary = (a as u32 + m as u32 + c as u32) & 0xFF;
                assert_eq!(cpu.get_flag(StatusFlag::Z), binary == 0);

                run_imm(&mut cpu, 0xE9, a, m, c, true);
                let d = x as i32 - y as i32 - (1 - c as i32);
                let expected = if d < 0 { d + 100 } else { d } as u32;
                assert_eq!(cpu.r.a, bcd(expected), "{:02x}-{:02x}-{}", a, m, !c);
                assert_eq!(cpu.get_flag(StatusFlag::C), d >= 0);
                assert_eq!(dec(cpu.r.a), expected);
            }
        }
    }
}

#[test]
fn branch_page_cross_costs_one_more_cycle() {
    let mut bus = AddressBus::new(0x100);
    bus.add_component(0, 0x10000, Component::Memory(Memory::new(0, 0x10000))).unwrap();
    let mut cpu = Cpu::new(CpuRegisters::default(), bus);
    // BCC, BCS, BEQ, BMI, BNE, BPL, BVC, BVS with the status that takes each
    let branches: [(u8, u8); 8] = [
        (0x90, 0x00),
        (0xB0, StatusFlag::C),
        (0xF0, StatusFlag::Z),
        (0x30, StatusFlag::N),
        (0xD0, 0x00),
        (0x10, 0x00),
        (0x50, 0x00),
        (0x70, StatusFlag::V),
    ];
    for pc in [0x0010u16, 0x10F0, 0x20FE, 0x8080, 0xFF00] {
        for offset in [0x00u8, 0x01, 0x0F, 0x7F, 0x80, 0xF0, 0xFE, 0xFF] {
            for (opcode, status) in branches {
                cpu.address_bus.write(pc, opcode).unwrap();
                cpu.address_bus.write(pc + 1, offset).unwrap();
                cpu.r.pc = pc;
                cpu.r.status = status | StatusFlag::U;
                cpu.remaining_cycles = 0;
                cpu.cycle().unwrap();
                let next = pc.wrapping_add(2);
                let target = next.wrapping_add(offset as i8 as u16);
                assert_eq!(cpu.r.pc, target);
                let cross = (target >> 8) != (next >> 8);
                assert_eq!(cpu.remaining_cycles as u32 + 1, 3 + cross as u32);
            }
        }
    }
}
