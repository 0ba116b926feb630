use rust6502::address_bus::{AddressBus, Component};
use rust6502::apple1::{keyboard_signals, terminal_output, woz_monitor, Apple1, TerminalOutput};
use rust6502::mc6821::{InputSignal, InterruptSignal, Signal};
use rust6502::memory::Memory;
use rust6502::mos6502::{Cpu, CpuRegisters, StatusFlag};

/// 4 KiB of RAM holding `program` from $0000, and a top page whose vectors
/// all point at `vector`.
fn machine(program: &[u8], vector: u16) -> Cpu {
    let mut ram = Memory::new(0, 0x1000);
    for (i, b) in program.iter().enumerate() {
        ram.int_write(i as u16, *b);
    }
    let mut top = Memory::new(0xFF00, 0x100);
    for v in [0xFFFAu16, 0xFFFC, 0xFFFE] {
        top.int_write(v, (vector & 0xFF) as u8);
        top.int_write(v + 1, (vector >> 8) as u8);
    }
    let mut bus = AddressBus::new(0x100);
    bus.add_component(0, 0x1000, Component::Memory(ram)).unwrap();
    bus.add_component(0xFF00, 0x100, Component::Memory(top)).unwrap();
    let mut cpu = Cpu::new(CpuRegisters::default(), bus);
    cpu.reset().unwrap();
    cpu.wait_for_system_reset_cycles();
    cpu
}

fn flags(cpu: &Cpu) -> (bool, bool, bool, bool) {
    (
        cpu.get_flag(StatusFlag::N),
        cpu.get_flag(StatusFlag::V),
        cpu.get_flag(StatusFlag::Z),
        cpu.get_flag(StatusFlag::C),
    )
}

#[test]
fn lda_immediate_after_reset() {
    let mut cpu = machine(&[0xA9, 0x55], 0x0000);
    assert_eq!(cpu.r.pc, 0x0000);
    cpu.step_instruction().unwrap();
    assert_eq!(cpu.r.a, 0x55);
    assert_eq!(cpu.r.pc, 0x0002);
    assert!(!cpu.get_flag(StatusFlag::Z));
    assert!(!cpu.get_flag(StatusFlag::N));
}

#[test]
fn reset_loads_pc_from_vector() {
    let mut cpu = machine(&[], 0x1234);
    assert_eq!(cpu.r.pc, 0x1234);
    assert_eq!(cpu.r.sp, 0xFD);
    assert_eq!(cpu.r.status, StatusFlag::U);
    assert_eq!(cpu.remaining_cycles, 0);
    cpu.r.a = 9;
    cpu.reset().unwrap();
    assert_eq!(cpu.r.a, 0);
    assert_eq!(cpu.remaining_cycles, 7);
}

#[test]
fn reset_without_vector_is_an_error() {
    let mut bus = AddressBus::new(0x100);
    bus.add_component(0, 0x100, Component::Memory(Memory::new(0, 0x100))).unwrap();
    let mut cpu = Cpu::new(CpuRegisters::default(), bus);
    assert!(cpu.reset().is_err());
}

#[test]
fn load_store_chain() {
    let program = [
        0xA9, 0x55, 0x85, 0x10, 0xA6, 0x10, 0xE8, 0x86, 0x11, 0xA4, 0x11, 0xC8, 0x84, 0x12, 0x00,
    ];
    let mut cpu = machine(&program, 0x0000);
    for _ in 0..8 {
        cpu.step_instruction().unwrap();
    }
    assert_eq!(cpu.r.a, 0x55);
    assert_eq!(cpu.r.x, 0x56);
    assert_eq!(cpu.r.y, 0x57);
    assert_eq!(cpu.address_bus.read(0x10).unwrap(), 0x55);
    assert_eq!(cpu.address_bus.read(0x11).unwrap(), 0x56);
    assert_eq!(cpu.address_bus.read(0x12).unwrap(), 0x57);
}

#[test]
fn indirect_jump_wraps_within_page() {
    let mut ram = Memory::new(0, 0x4000);
    for (i, b) in [0x6Cu8, 0xFF, 0x30].iter().enumerate() {
        ram.int_write(i as u16, *b);
    }
    ram.int_write(0x30FF, 0x34);
    ram.int_write(0x3000, 0x12);
    ram.int_write(0x3100, 0x56);
    let mut bus = AddressBus::new(0x100);
    bus.add_component(0, 0x4000, Component::Memory(ram)).unwrap();
    let mut cpu = Cpu::new(CpuRegisters::default(), bus);
    cpu.step_instruction().unwrap();
    assert_eq!(cpu.r.pc, 0x1234);
}

#[test]
fn page_crossing_costs_a_cycle_on_reads_only() {
    // LDA $01FF,X with X = 1 crosses into page 2: 4 + 1 cycles
    let mut cpu = machine(&[0xBD, 0xFF, 0x01], 0x0000);
    cpu.r.x = 1;
    cpu.cycle().unwrap();
    assert_eq!(cpu.remaining_cycles, 4);
    // STA $01FF,X always takes 5
    let mut cpu = machine(&[0x9D, 0xFF, 0x01], 0x0000);
    cpu.r.x = 1;
    cpu.cycle().unwrap();
    assert_eq!(cpu.remaining_cycles, 4);
    // LDA $0100,X without crossing: 4
    let mut cpu = machine(&[0xBD, 0x00, 0x01], 0x0000);
    cpu.r.x = 1;
    cpu.cycle().unwrap();
    assert_eq!(cpu.remaining_cycles, 3);
    // ADC immediate: 2
    let mut cpu = machine(&[0x69, 0x01], 0x0000);
    cpu.cycle().unwrap();
    assert_eq!(cpu.remaining_cycles, 1);
}

#[test]
fn taken_branch_costs_one_or_two_cycles() {
    // BNE +0x10 at $00F0: target $0102 lies on the next page
    let mut program = vec![0xEA; 0xF0];
    program.extend_from_slice(&[0xD0, 0x10]);
    let mut cpu = machine(&program, 0x00F0);
    cpu.cycle().unwrap();
    assert_eq!(cpu.r.pc, 0x0102);
    assert_eq!(cpu.remaining_cycles, 3);
    // BEQ not taken: 2
    let mut cpu = machine(&[0xF0, 0x10], 0x0000);
    cpu.cycle().unwrap();
    assert_eq!(cpu.r.pc, 0x0002);
    assert_eq!(cpu.remaining_cycles, 1);
    // BNE -2 within the page: 3
    let mut cpu = machine(&[0xEA, 0xEA, 0xD0, 0xFC], 0x0002);
    cpu.cycle().unwrap();
    assert_eq!(cpu.r.pc, 0x0000);
    assert_eq!(cpu.remaining_cycles, 2);
}

#[test]
fn pha_pla_round_trip() {
    // LDA #$A5, PHA, LDA #$00, PLA
    let mut cpu = machine(&[0xA9, 0xA5, 0x48, 0xA9, 0x00, 0x68], 0x0000);
    let sp = cpu.r.sp;
    cpu.step_instruction().unwrap();
    cpu.step_instruction().unwrap();
    assert_eq!(cpu.r.sp, sp.wrapping_sub(1));
    assert_eq!(cpu.address_bus.read(0x0100 + sp as u16).unwrap(), 0xA5);
    cpu.step_instruction().unwrap();
    cpu.step_instruction().unwrap();
    assert_eq!(cpu.r.a, 0xA5);
    assert_eq!(cpu.r.sp, sp);
    assert!(cpu.get_flag(StatusFlag::N));
}

#[test]
fn php_plp_round_trip() {
    // SEC, SED, PHP, CLC, CLD, PLP
    let mut cpu = machine(&[0x38, 0xF8, 0x08, 0x18, 0xD8, 0x28], 0x0000);
    let sp = cpu.r.sp;
    cpu.step_instruction().unwrap();
    cpu.step_instruction().unwrap();
    let before = cpu.r.status;
    cpu.step_instruction().unwrap();
    let pushed = cpu.address_bus.read(0x0100 + sp as u16).unwrap();
    assert_eq!(pushed, before | StatusFlag::B | StatusFlag::U);
    cpu.step_instruction().unwrap();
    cpu.step_instruction().unwrap();
    cpu.r.status ^= 0xC3;
    cpu.step_instruction().unwrap();
    let mask = !(StatusFlag::B | StatusFlag::U);
    assert_eq!(cpu.r.status & mask, before & mask);
    assert!(cpu.get_flag(StatusFlag::U));
    assert_eq!(cpu.r.sp, sp);
}

#[test]
fn stack_pointer_wraps_within_page_one() {
    let mut cpu = machine(&[0x48], 0x0000);
    cpu.r.sp = 0x00;
    cpu.r.a = 0x77;
    cpu.step_instruction().unwrap();
    assert_eq!(cpu.r.sp, 0xFF);
    assert_eq!(cpu.address_bus.read(0x0100).unwrap(), 0x77);
}

#[test]
fn jsr_rts_round_trip() {
    // JSR $0010 ; at $0010: RTS
    let mut program = vec![0x20, 0x10, 0x00];
    program.resize(0x10, 0xEA);
    program.push(0x60);
    let mut cpu = machine(&program, 0x0000);
    let sp = cpu.r.sp;
    cpu.step_instruction().unwrap();
    assert_eq!(cpu.r.pc, 0x0010);
    assert_eq!(cpu.address_bus.read(0x0100 + sp as u16).unwrap(), 0x00);
    assert_eq!(cpu.address_bus.read(0x00FF + sp as u16).unwrap(), 0x02);
    cpu.step_instruction().unwrap();
    assert_eq!(cpu.r.pc, 0x0003);
    assert_eq!(cpu.r.sp, sp);
}

#[test]
fn brk_and_rti() {
    // BRK at $0000 vectors to $0200, which holds RTI
    let mut program = vec![0x00, 0xEA, 0xEA];
    program.resize(0x200, 0xEA);
    program.push(0x40);
    let mut cpu = machine(&program, 0x0200);
    cpu.r.pc = 0;
    let sp = cpu.r.sp;
    cpu.step_instruction().unwrap();
    assert_eq!(cpu.r.pc, 0x0200);
    assert!(cpu.get_flag(StatusFlag::I));
    assert!(!cpu.get_flag(StatusFlag::B));
    let pushed = cpu.address_bus.read(0x0100 + sp as u16 - 2).unwrap();
    assert_eq!(pushed & (StatusFlag::B | StatusFlag::U), StatusFlag::B | StatusFlag::U);
    cpu.step_instruction().unwrap();
    assert_eq!(cpu.r.pc, 0x0002);
    assert_eq!(cpu.r.sp, sp);
    assert!(cpu.get_flag(StatusFlag::U));
}

#[test]
fn irq_is_masked_by_i_and_nmi_is_not() {
    let mut program = vec![0xEA; 0x10];
    program[0] = 0xEA;
    let mut cpu = machine(&program, 0x0008);
    cpu.r.status |= StatusFlag::I;
    assert_eq!(cpu.irq().unwrap(), false);
    assert_eq!(cpu.r.pc, 0x0008);
    cpu.r.status &= !StatusFlag::I;
    let sp = cpu.r.sp;
    assert_eq!(cpu.irq().unwrap(), true);
    assert_eq!(cpu.r.pc, 0x0008);
    assert_eq!(cpu.remaining_cycles, 7);
    assert!(cpu.get_flag(StatusFlag::I));
    let pushed = cpu.address_bus.read(0x0100 + sp as u16 - 2).unwrap();
    assert_eq!(pushed & StatusFlag::B, 0);
    assert_eq!(pushed & StatusFlag::U, StatusFlag::U);
    cpu.wait_for_system_reset_cycles();
    cpu.nmi().unwrap();
    assert_eq!(cpu.r.sp, sp.wrapping_sub(6));
}

fn adc_with(a: u8, m: u8, carry: bool, decimal: bool) -> Cpu {
    let mut cpu = machine(&[0x69, m], 0x0000);
    cpu.r.a = a;
    cpu.set_flag(StatusFlag::C, carry);
    cpu.set_flag(StatusFlag::D, decimal);
    cpu.step_instruction().unwrap();
    cpu
}

fn sbc_with(a: u8, m: u8, carry: bool, decimal: bool) -> Cpu {
    let mut cpu = machine(&[0xE9, m], 0x0000);
    cpu.r.a = a;
    cpu.set_flag(StatusFlag::C, carry);
    cpu.set_flag(StatusFlag::D, decimal);
    cpu.step_instruction().unwrap();
    cpu
}

#[test]
fn adc_binary_results() {
    let cpu = adc_with(0x50, 0x50, false, false);
    assert_eq!(cpu.r.a, 0xA0);
    assert_eq!(flags(&cpu), (true, true, false, false));
    let cpu = adc_with(0xFF, 0x01, false, false);
    assert_eq!(cpu.r.a, 0x00);
    assert_eq!(flags(&cpu), (false, false, true, true));
    let cpu = adc_with(0x80, 0x80, true, false);
    assert_eq!(cpu.r.a, 0x01);
    assert_eq!(flags(&cpu), (false, true, false, true));
}

#[test]
fn adc_decimal_results() {
    let cpu = adc_with(0x58, 0x46, true, true);
    assert_eq!(cpu.r.a, 0x05);
    assert!(cpu.get_flag(StatusFlag::C));
    let cpu = adc_with(0x12, 0x34, false, true);
    assert_eq!(cpu.r.a, 0x46);
    assert!(!cpu.get_flag(StatusFlag::C));
    let cpu = adc_with(0x81, 0x92, false, true);
    assert_eq!(cpu.r.a, 0x73);
    assert!(cpu.get_flag(StatusFlag::C));
    let cpu = adc_with(0x99, 0x01, false, true);
    assert_eq!(cpu.r.a, 0x00);
    assert!(cpu.get_flag(StatusFlag::C));
    // Z follows the binary sum 0x9A
    assert!(!cpu.get_flag(StatusFlag::Z));
}

#[test]
fn sbc_results() {
    let cpu = sbc_with(0x50, 0xF0, true, false);
    assert_eq!(cpu.r.a, 0x60);
    assert_eq!(flags(&cpu), (false, false, false, false));
    let cpu = sbc_with(0x50, 0xB0, true, false);
    assert_eq!(cpu.r.a, 0xA0);
    assert_eq!(flags(&cpu), (true, true, false, false));
    let cpu = sbc_with(0x05, 0x05, true, false);
    assert_eq!(cpu.r.a, 0x00);
    assert_eq!(flags(&cpu), (false, false, true, true));
    let cpu = sbc_with(0x46, 0x12, true, true);
    assert_eq!(cpu.r.a, 0x34);
    assert!(cpu.get_flag(StatusFlag::C));
    let cpu = sbc_with(0x40, 0x13, true, true);
    assert_eq!(cpu.r.a, 0x27);
    let cpu = sbc_with(0x32, 0x02, false, true);
    assert_eq!(cpu.r.a, 0x29);
    let cpu = sbc_with(0x12, 0x21, true, true);
    assert_eq!(cpu.r.a, 0x91);
    assert!(!cpu.get_flag(StatusFlag::C));
}

#[test]
fn compare_and_shift_results() {
    // CMP #$10 with A = $20
    let mut cpu = machine(&[0xC9, 0x10, 0x0A, 0x6A], 0x0000);
    cpu.r.a = 0x20;
    cpu.step_instruction().unwrap();
    assert_eq!(flags(&cpu), (false, false, false, true));
    // ASL A: $20 -> $40
    cpu.step_instruction().unwrap();
    assert_eq!(cpu.r.a, 0x40);
    // ROR A with C set: $40 -> $A0
    cpu.set_flag(StatusFlag::C, true);
    cpu.step_instruction().unwrap();
    assert_eq!(cpu.r.a, 0xA0);
    assert!(!cpu.get_flag(StatusFlag::C));
}

#[test]
fn run_stops_on_endless_loop() {
    // $0000: JMP $0000
    let mut cpu = machine(&[0x4C, 0x00, 0x00], 0x0000);
    let e = cpu.run(0x0000, 0x1234, 100).unwrap_err();
    assert_eq!(e.operation, "infinite loop");
    assert_eq!(e.pc, 0x0000);
}

#[test]
fn run_reaches_target() {
    // INX, INX, INX, JMP $0003
    let mut cpu = machine(&[0xE8, 0xE8, 0xE8, 0x4C, 0x03, 0x00], 0x0000);
    cpu.run(0x0000, 0x0002, 100).unwrap();
    assert_eq!(cpu.current_pc, 0x0002);
    assert_eq!(cpu.r.x, 3);
}

#[test]
fn run_gives_up_after_limit() {
    // $0000: INX ; JMP $0000
    let mut cpu = machine(&[0xE8, 0x4C, 0x00, 0x00], 0x0000);
    let e = cpu.run(0x0000, 0x0800, 10).unwrap_err();
    assert_eq!(e.operation, "instruction limit");
}

#[test]
fn fetch_from_unmapped_address_is_an_error() {
    let mut cpu = machine(&[0x4C, 0x00, 0x20], 0x0000);
    cpu.step_instruction().unwrap();
    assert_eq!(cpu.r.pc, 0x2000);
    assert!(cpu.cycle().is_err());
}

#[test]
fn undocumented_opcode_acts_as_nop() {
    let mut cpu = machine(&[0x02, 0xEB, 0x01], 0x0000);
    cpu.step_instruction().unwrap();
    assert_eq!(cpu.r.pc, 0x0001);
    // $EB is SBC #imm
    cpu.r.a = 5;
    cpu.set_flag(StatusFlag::C, true);
    cpu.step_instruction().unwrap();
    assert_eq!(cpu.r.a, 4);
}

#[test]
fn keyboard_signal_sequence() {
    assert_eq!(
        keyboard_signals(b'a'),
        vec![
            InputSignal::CA1(Signal::Fall),
            InputSignal::IRA(0xC1),
            InputSignal::CA1(Signal::Rise),
            InputSignal::CA1(Signal::Fall),
        ]
    );
    assert_eq!(keyboard_signals(0x0A)[1], InputSignal::IRA(0x8D));
    assert_eq!(keyboard_signals(b'1')[1], InputSignal::IRA(0xB1));
}

#[test]
fn terminal_mapping() {
    assert_eq!(terminal_output(0x8D), TerminalOutput::NewLine);
    assert_eq!(terminal_output(0x0A), TerminalOutput::NewLine);
    assert_eq!(terminal_output(0xC1), TerminalOutput::Glyph(b'A'));
    assert_eq!(terminal_output(0x61), TerminalOutput::Glyph(b'A'));
    assert_eq!(terminal_output(0xDC), TerminalOutput::Glyph(b'\\'));
}

#[test]
fn woz_monitor_image() {
    let rom = woz_monitor();
    assert_eq!(rom.len(), 256);
    assert_eq!(&rom[..7], &[0xD8, 0x58, 0xA0, 0x7F, 0x8C, 0x12, 0xD0]);
    assert_eq!(&rom[0xFA..], &[0x00, 0x0F, 0x00, 0xFF, 0x00, 0x00]);
}

fn run_cycles(m: &mut Apple1, n: usize) {
    for _ in 0..n {
        m.step().unwrap();
    }
}

#[test]
fn monitor_echoes_a_key() {
    let mut m = Apple1::new(None).unwrap();
    assert_eq!(m.cpu.r.pc, 0xFF00);
    assert!(m.cpu.address_bus.write(0xFF00, 0).is_err());
    assert!(m.cpu.address_bus.write(0x0FFF, 0).is_ok());
    assert!(m.cpu.address_bus.write(0x1000, 0).is_err());
    run_cycles(&mut m, 20_000);
    let start = m.take_output();
    assert_eq!(start, vec![0x5C, 0x0D]);
    m.key(b'A');
    run_cycles(&mut m, 20_000);
    assert_eq!(m.take_output(), vec![0x41]);
}

#[test]
fn monitor_examines_memory() {
    let mut m = Apple1::new(None).unwrap();
    run_cycles(&mut m, 20_000);
    m.take_output();
    for c in b"FF00\r" {
        m.key(*c);
        run_cycles(&mut m, 20_000);
    }
    let out: Vec<u8> = m.take_output();
    let text: String = out
        .iter()
        .map(|b| match terminal_output(*b) {
            TerminalOutput::NewLine => '\n',
            TerminalOutput::Glyph(g) => g as char,
        })
        .collect();
    assert_eq!(text, "FF00\n\nFF00: D8\n");
}

#[test]
fn basic_image_must_be_whole_pages() {
    let m = Apple1::new(Some(vec![0u8; 0x1000])).unwrap();
    assert_eq!(m.cpu.r.pc, 0xFF00);
    assert_eq!(m.cpu.address_bus.components.len(), 4);
    assert!(Apple1::new(Some(vec![0u8; 0x1F00])).is_ok());
    assert!(Apple1::new(Some(vec![0u8; 0x2000])).is_err());
    assert!(Apple1::new(Some(vec![0u8; 0x10])).is_err());
}

#[test]
fn memory_map_of_the_apple1() {
    let mut m = Apple1::new(Some(vec![0xAB; 0x1000])).unwrap();
    let bus = &mut m.cpu.address_bus;
    assert_eq!(bus.read(0x0FFF).unwrap(), 0);
    assert!(bus.read(0x1000).is_err());
    assert!(bus.read(0xCFFF).is_err());
    assert_eq!(bus.read(0xD1F3).unwrap(), 0);
    assert!(bus.read(0xD200).is_err());
    assert_eq!(bus.read(0xE000).unwrap(), 0xAB);
    assert_eq!(bus.read(0xEFFF).unwrap(), 0xAB);
    assert!(bus.read(0xF000).is_err());
    assert_eq!(bus.read(0xFF00).unwrap(), 0xD8);
    assert!(bus.write(0xE000, 0).is_err());
}

#[test]
fn take_output_empties_the_queue() {
    let mut m = Apple1::new(None).unwrap();
    run_cycles(&mut m, 20_000);
    assert_eq!(m.take_output().len(), 2);
    assert!(m.take_output().is_empty());
}

#[test]
fn polled_interrupt_signals() {
    let mut cpu = machine(&[0xEA; 0x10], 0x0008);
    cpu.r.status = StatusFlag::U | StatusFlag::I;
    assert_eq!(cpu.poll_interrupt(InterruptSignal::IRQ).unwrap(), false);
    assert_eq!(cpu.poll_interrupt(InterruptSignal::NoSignal).unwrap(), false);
    assert_eq!(cpu.remaining_cycles, 0);
    let sp = cpu.r.sp;
    assert_eq!(cpu.poll_interrupt(InterruptSignal::NMI).unwrap(), true);
    assert_eq!(cpu.r.sp, sp.wrapping_sub(3));
    assert_eq!(cpu.remaining_cycles, 7);
    cpu.wait_for_system_reset_cycles();
    cpu.r.status &= !StatusFlag::I;
    assert_eq!(cpu.poll_interrupt(InterruptSignal::IRQ).unwrap(), true);
    assert_eq!(cpu.r.pc, 0x0008);
}
