//! The Apple 1 around the CPU: its memory map, the Woz monitor, and the
//! conventions of its keyboard and display.
use vstd::prelude::*;

use crate::address_bus::{
    lemma_layout_keeps_pias, AddressBus, NO_DEVICE, AddressingError, BusModel, Component, DeviceModel,
};
use crate::mc6821::{InputSignal, PiaModel, Signal, MC6821};
use crate::memory::Memory;
use crate::mos6502::{cycle_done, word, Cpu, CpuError, CpuRegisters, StatusFlag};

verus! {

/// Size of the bus blocks of the Apple 1 memory map.
pub const BLOCK_SIZE: usize = 0x100;

/// 4 KiB of RAM from $0000.
pub const RAM_SIZE: usize = 0x1000;

/// The PIA answers $D000-$D1FF; its registers repeat every 4 bytes.
pub const PIA_BASE: u16 = 0xD000;

pub const PIA_SIZE: usize = 0x200;

/// The Woz monitor ROM sits in the last page.
pub const MONITOR_BASE: u16 = 0xFF00;

/// Integer BASIC, when present, starts at $E000.
pub const BASIC_BASE: u16 = 0xE000;

/// The 256 bytes of the Woz monitor; its reset vector points at $FF00.
pub open spec fn woz_image() -> Seq<u8> {
    seq![
        0xD8, 0x58, 0xA0, 0x7F, 0x8C, 0x12, 0xD0, 0xA9, 0xA7, 0x8D, 0x11, 0xD0,
        0x8D, 0x13, 0xD0, 0xC9, 0xDF, 0xF0, 0x13, 0xC9, 0x9B, 0xF0, 0x03, 0xC8,
        0x10, 0x0F, 0xA9, 0xDC, 0x20, 0xEF, 0xFF, 0xA9, 0x8D, 0x20, 0xEF, 0xFF,
        0xA0, 0x01, 0x88, 0x30, 0xF6, 0xAD, 0x11, 0xD0, 0x10, 0xFB, 0xAD, 0x10,
        0xD0, 0x99, 0x00, 0x02, 0x20, 0xEF, 0xFF, 0xC9, 0x8D, 0xD0, 0xD4, 0xA0,
        0xFF, 0xA9, 0x00, 0xAA, 0x0A, 0x85, 0x2B, 0xC8, 0xB9, 0x00, 0x02, 0xC9,
        0x8D, 0xF0, 0xD4, 0xC9, 0xAE, 0x90, 0xF4, 0xF0, 0xF0, 0xC9, 0xBA, 0xF0,
        0xEB, 0xC9, 0xD2, 0xF0, 0x3B, 0x86, 0x28, 0x86, 0x29, 0x84, 0x2A, 0xB9,
        0x00, 0x02, 0x49, 0xB0, 0xC9, 0x0A, 0x90, 0x06, 0x69, 0x88, 0xC9, 0xFA,
        0x90, 0x11, 0x0A, 0x0A, 0x0A, 0x0A, 0xA2, 0x04, 0x0A, 0x26, 0x28, 0x26,
        0x29, 0xCA, 0xD0, 0xF8, 0xC8, 0xD0, 0xE0, 0xC4, 0x2A, 0xF0, 0x97, 0x24,
        0x2B, 0x50, 0x10, 0xA5, 0x28, 0x81, 0x26, 0xE6, 0x26, 0xD0, 0xB5, 0xE6,
        0x27, 0x4C, 0x44, 0xFF, 0x6C, 0x24, 0x00, 0x30, 0x2B, 0xA2, 0x02, 0xB5,
        0x27, 0x95, 0x25, 0x95, 0x23, 0xCA, 0xD0, 0xF7, 0xD0, 0x14, 0xA9, 0x8D,
        0x20, 0xEF, 0xFF, 0xA5, 0x25, 0x20, 0xDC, 0xFF, 0xA5, 0x24, 0x20, 0xDC,
        0xFF, 0xA9, 0xBA, 0x20, 0xEF, 0xFF, 0xA9, 0xA0, 0x20, 0xEF, 0xFF, 0xA1,
        0x24, 0x20, 0xDC, 0xFF, 0x86, 0x2B, 0xA5, 0x24, 0xC5, 0x28, 0xA5, 0x25,
        0xE5, 0x29, 0xB0, 0xC1, 0xE6, 0x24, 0xD0, 0x02, 0xE6, 0x25, 0xA5, 0x24,
        0x29, 0x07, 0x10, 0xC8, 0x48, 0x4A, 0x4A, 0x4A, 0x4A, 0x20, 0xE5, 0xFF,
        0x68, 0x29, 0x0F, 0x09, 0xB0, 0xC9, 0xBA, 0x90, 0x02, 0x69, 0x06, 0x2C,
        0x12, 0xD0, 0x30, 0xFB, 0x8D, 0x12, 0xD0, 0x60, 0x00, 0x00, 0x00, 0x0F,
        0x00, 0xFF, 0x00, 0x00,
    ]
}

/// The Woz monitor image.
pub fn woz_monitor() -> (r: Vec<u8>)
    ensures
        r@ == woz_image(),
        r@.len() == 256,
        word(r@[0xFC], r@[0xFD]) == MONITOR_BASE,
{
    let r = vec![
        0xD8, 0x58, 0xA0, 0x7F, 0x8C, 0x12, 0xD0, 0xA9, 0xA7, 0x8D, 0x11, 0xD0,
        0x8D, 0x13, 0xD0, 0xC9, 0xDF, 0xF0, 0x13, 0xC9, 0x9B, 0xF0, 0x03, 0xC8,
        0x10, 0x0F, 0xA9, 0xDC, 0x20, 0xEF, 0xFF, 0xA9, 0x8D, 0x20, 0xEF, 0xFF,
        0xA0, 0x01, 0x88, 0x30, 0xF6, 0xAD, 0x11, 0xD0, 0x10, 0xFB, 0xAD, 0x10,
        0xD0, 0x99, 0x00, 0x02, 0x20, 0xEF, 0xFF, 0xC9, 0x8D, 0xD0, 0xD4, 0xA0,
        0xFF, 0xA9, 0x00, 0xAA, 0x0A, 0x85, 0x2B, 0xC8, 0xB9, 0x00, 0x02, 0xC9,
        0x8D, 0xF0, 0xD4, 0xC9, 0xAE, 0x90, 0xF4, 0xF0, 0xF0, 0xC9, 0xBA, 0xF0,
        0xEB, 0xC9, 0xD2, 0xF0, 0x3B, 0x86, 0x28, 0x86, 0x29, 0x84, 0x2A, 0xB9,
        0x00, 0x02, 0x49, 0xB0, 0xC9, 0x0A, 0x90, 0x06, 0x69, 0x88, 0xC9, 0xFA,
        0x90, 0x11, 0x0A, 0x0A, 0x0A, 0x0A, 0xA2, 0x04, 0x0A, 0x26, 0x28, 0x26,
        0x29, 0xCA, 0xD0, 0xF8, 0xC8, 0xD0, 0xE0, 0xC4, 0x2A, 0xF0, 0x97, 0x24,
        0x2B, 0x50, 0x10, 0xA5, 0x28, 0x81, 0x26, 0xE6, 0x26, 0xD0, 0xB5, 0xE6,
        0x27, 0x4C, 0x44, 0xFF, 0x6C, 0x24, 0x00, 0x30, 0x2B, 0xA2, 0x02, 0xB5,
        0x27, 0x95, 0x25, 0x95, 0x23, 0xCA, 0xD0, 0xF7, 0xD0, 0x14, 0xA9, 0x8D,
        0x20, 0xEF, 0xFF, 0xA5, 0x25, 0x20, 0xDC, 0xFF, 0xA5, 0x24, 0x20, 0xDC,
        0xFF, 0xA9, 0xBA, 0x20, 0xEF, 0xFF, 0xA9, 0xA0, 0x20, 0xEF, 0xFF, 0xA1,
        0x24, 0x20, 0xDC, 0xFF, 0x86, 0x2B, 0xA5, 0x24, 0xC5, 0x28, 0xA5, 0x25,
        0xE5, 0x29, 0xB0, 0xC1, 0xE6, 0x24, 0xD0, 0x02, 0xE6, 0x25, 0xA5, 0x24,
        0x29, 0x07, 0x10, 0xC8, 0x48, 0x4A, 0x4A, 0x4A, 0x4A, 0x20, 0xE5, 0xFF,
        0x68, 0x29, 0x0F, 0x09, 0xB0, 0xC9, 0xBA, 0x90, 0x02, 0x69, 0x06, 0x2C,
        0x12, 0xD0, 0x30, 0xFB, 0x8D, 0x12, 0xD0, 0x60, 0x00, 0x00, 0x00, 0x0F,
        0x00, 0xFF, 0x00, 0x00,
    ];
    assert(r@ =~= woz_image());
    r
}

/// The code a key sends: line feed becomes carriage return, lower case
/// becomes upper case, and bit 7 is set.
pub open spec fn key_code(c: u8) -> u8 {
    let c = if c == 0x0A { 0x0Du8 } else { c };
    let c = if 0x61 <= c <= 0x7A { (c - 0x20) as u8 } else { c };
    c | 0x80
}

/// The signals of one key press: the strobe on CA1 falls, the code appears
/// on port A, the strobe rises (the edge the PIA latches) and falls again.
pub open spec fn key_signals(c: u8) -> Seq<InputSignal> {
    seq![
        InputSignal::CA1(Signal::Fall),
        InputSignal::IRA(key_code(c)),
        InputSignal::CA1(Signal::Rise),
        InputSignal::CA1(Signal::Fall),
    ]
}

/// The PIA input signals for key `c`.
pub fn keyboard_signals(c: u8) -> (r: Vec<InputSignal>)
    ensures
        r@ == key_signals(c),
{
    let c = if c == 0x0A {
        0x0D
    } else {
        c
    };
    let c = if 0x61 <= c && c <= 0x7A {
        c - 0x20
    } else {
        c
    };
    let code = c | 0x80;
    let r = vec![
        InputSignal::CA1(Signal::Fall),
        InputSignal::IRA(code),
        InputSignal::CA1(Signal::Rise),
        InputSignal::CA1(Signal::Fall),
    ];
    assert(r@ =~= key_signals(c));
    r
}

/// What the display does with a byte from port B.
#[derive(PartialEq, Eq, Structural, Clone, Copy, Debug)]
pub enum TerminalOutput {
    /// cursor to the start of the next row
    NewLine,
    /// an upper-case character to draw
    Glyph(u8),
}

/// The display ignores bit 7, starts a new row on CR or LF, and draws
/// everything else in upper case.
pub open spec fn display_of(b: u8) -> TerminalOutput {
    let c = b & 0x7F;
    if c == 0x0D || c == 0x0A {
        TerminalOutput::NewLine
    } else if 0x61 <= c <= 0x7A {
        TerminalOutput::Glyph((c - 0x20) as u8)
    } else {
        TerminalOutput::Glyph(c)
    }
}

pub fn terminal_output(b: u8) -> (r: TerminalOutput)
    ensures
        r == display_of(b),
{
    let c = b & 0x7F;
    if c == 0x0D || c == 0x0A {
        TerminalOutput::NewLine
    } else if 0x61 <= c && c <= 0x7A {
        TerminalOutput::Glyph(c - 0x20)
    } else {
        TerminalOutput::Glyph(c)
    }
}

/// Whether a BASIC image is whole pages that fit between $E000 and the monitor.
pub open spec fn basic_fits(v: Seq<u8>) -> bool {
    v.len() % 256 == 0 && v.len() <= 0x1F00
}

pub open spec fn basic_view(basic: Option<Vec<u8>>) -> Option<Seq<u8>> {
    match basic {
        Some(v) => Some(v@),
        None => None,
    }
}

/// The Apple 1 memory map in blocks of 256 bytes: zeroed RAM at
/// $0000-$0FFF, the PIA at $D000-$D1FF, the Woz monitor ROM at $FF00 and,
/// when given, the BASIC ROM from $E000; nothing else is mapped.
pub open spec fn apple1_layout(bus: BusModel, basic: Option<Seq<u8>>) -> bool {
    let pages: int = match basic {
        Some(v) => v.len() as int / 256,
        None => 0,
    };
    &&& bus.block_size == BLOCK_SIZE
    &&& bus.map.len() == 256
    &&& bus.devices.len() == if basic is Some { 4int } else { 3int }
    &&& bus.devices[0] == DeviceModel::Memory {
        offset: 0,
        bytes: Seq::new(RAM_SIZE as nat, |i: int| 0u8),
        read_only: false,
    }
    &&& bus.devices[1] is Pia
    &&& bus.devices[2] == DeviceModel::Memory { offset: MONITOR_BASE, bytes: woz_image(), read_only: true }
    &&& basic matches Some(v) ==> bus.devices[3] == DeviceModel::Memory {
        offset: BASIC_BASE,
        bytes: v,
        read_only: true,
    }
    &&& forall|b: int|
        0 <= b < 256 ==> #[trigger] bus.map[b] == if b < 0x10 {
            0usize
        } else if 0xD0 <= b < 0xD2 {
            1usize
        } else if b == 0xFF {
            2usize
        } else if 0xE0 <= b < 0xE0 + pages {
            3usize
        } else {
            NO_DEVICE
        }
}

/// An Apple 1: the CPU, its bus, and where on the bus the PIA is.
pub struct Apple1 {
    pub cpu: Cpu,
    pub pia: usize,
}

impl Apple1 {
    pub open spec fn wf(&self) -> bool {
        self.cpu.wf() && self.cpu.address_bus.is_pia(self.pia as int)
    }

    /// Assembles the machine (RAM, PIA, Woz monitor and, if given, BASIC at
    /// $E000), resets the CPU and lets the reset cycles pass. Fails exactly
    /// when the BASIC image is not a whole number of pages or does not fit
    /// below the monitor.
    #[verifier::rlimit(100)]
    pub fn new(basic: Option<Vec<u8>>) -> (r: Result<Apple1, AddressingError>)
        ensures
            (r is Ok) <==> (basic matches Some(v) ==> basic_fits(v@)),
            r matches Ok(m) ==> {
                &&& m.wf()
                &&& m.pia == 1
                &&& m.cpu.remaining_cycles == 0
                &&& m.cpu.r == CpuRegisters { a: 0, x: 0, y: 0, pc: MONITOR_BASE, sp: 0xFD, status: StatusFlag::U }
                &&& apple1_layout(m.cpu.address_bus@, basic_view(basic))
            },
    {
        let mut bus = AddressBus::new(BLOCK_SIZE);
        assert(bus@.can_register(0, RAM_SIZE as nat, RAM_SIZE as nat));
        let ram = Memory::new(0, RAM_SIZE);
        let ghost ram_view = ram.mem@;
        assert(ram.offset == 0 && !ram.read_only);
        let ram = Component::Memory(ram);
        assert(ram@ == DeviceModel::Memory { offset: 0, bytes: ram_view, read_only: false });
        bus.add_component(0, RAM_SIZE, ram)?;
        let pia = bus.components.len();
        assert(bus@.devices.len() == 1);
        assert(bus@.devices[0] == DeviceModel::Memory { offset: 0, bytes: ram_view, read_only: false });
        assert(pia == 1);
        assert(bus@.block_size == 256);
        assert(0xD000int / 256int == 0xD0 && (0xD000int + 0x200 + 256 - 1) / 256int == 0xD2) by (nonlinear_arith);
        assert(bus@.start_block(PIA_BASE) == 0xD0 && bus@.end_block(PIA_BASE, PIA_SIZE as nat) == 0xD2);
        assert forall|b: int| 0xD0 <= b < 0xD2 implies #[trigger] bus@.map[b] == NO_DEVICE by {
            assert(b == 0xD0 || b == 0xD1);
        }
        assert(bus@.can_register(PIA_BASE, PIA_SIZE as nat, 0));
        bus.add_component(PIA_BASE, PIA_SIZE, Component::Pia(MC6821::new()))?;
        assert(bus@.has_pia(1));
        assert(bus@.devices[0] == DeviceModel::Memory { offset: 0, bytes: ram_view, read_only: false });
        let monitor = Memory::rom(MONITOR_BASE, woz_monitor());
        let size = monitor.len();
        let ghost image = monitor.mem@;
        assert(bus@.block_size == 256);
        assert(0xFF00int / 256int == 0xFF && (0xFF00int + 256 + 256 - 1) / 256int == 0x100) by (nonlinear_arith);
        assert(bus@.start_block(MONITOR_BASE) == 0xFF && bus@.end_block(MONITOR_BASE, 256) == 0x100);
        assert forall|b: int| 0xFF <= b < 0x100 implies #[trigger] bus@.map[b] == NO_DEVICE by {
            assert(b == 0xFF);
        }
        assert(bus@.can_register(MONITOR_BASE, size as nat, 256));
        let monitor = Component::Memory(monitor);
        assert(monitor@ == DeviceModel::Memory { offset: MONITOR_BASE, bytes: image, read_only: true });
        bus.add_component(MONITOR_BASE, size, monitor)?;
        assert(bus@.devices[0] == DeviceModel::Memory { offset: 0, bytes: ram_view, read_only: false });
        assert(apple1_layout(bus@, None));
        match basic {
            Some(image) => {
                let rom = Memory::rom(BASIC_BASE, image);
                let size = rom.len();
                let ghost pages = size as int / 256;
                proof {
                    if size % 256 == 0 {
                        vstd::arithmetic::div_mod::lemma_fundamental_div_mod_converse(
                            0xE000 + size + 255,
                            256,
                            0xE0 + pages,
                            255,
                        );
                        assert(bus@.end_block(BASIC_BASE, size as nat) == 0xE0 + pages);
                        assert(bus@.start_block(BASIC_BASE) == 0xE0) by (nonlinear_arith)
                            requires bus@.block_size == 256;
                        if size > 0x1F00 {
                            assert(bus@.map[0xFF] == 2);
                        }
                    }
                }
                let ghost rom_view = rom.mem@;
                let rom = Component::Memory(rom);
                assert(rom@ == DeviceModel::Memory { offset: BASIC_BASE, bytes: rom_view, read_only: true });
                bus.add_component(BASIC_BASE, size, rom)?;
                proof {
                    assert(bus@.map =~= Seq::new(256, |b: int| if b < 0x10 { 0usize } else if 0xD0 <= b < 0xD2 { 1usize } else if b == 0xFF { 2usize } else if 0xE0 <= b < 0xE0 + pages { 3usize } else { NO_DEVICE }));
                }
            },
            None => {},
        }
        assert(apple1_layout(bus@, basic_view(basic)));
        let mut cpu = Cpu::new(CpuRegisters { a: 0, x: 0, y: 0, pc: 0, sp: 0, status: 0 }, bus);
        let ghost b1 = cpu.address_bus@;
        assert(b1.map[0xFF] == 2);
        assert(b1.route(0xFFFC) == Some(2int));
        assert(b1.read(0xFFFC).1 == Some(image[0xFC]));
        assert(b1.read(0xFFFC).0.devices =~= b1.devices);
        assert(b1.read(0xFFFC).0 == b1);
        assert(0xFFFDint / 256int == 255 && 0xFFFCint / 256int == 255) by (nonlinear_arith);
        assert(b1.route(0xFFFD) == Some(2int));
        assert(b1.read(0xFFFD).1 == Some(image[0xFD]));
        assert(b1.read(0xFFFD).0.devices =~= b1.devices);
        assert(b1.read(0xFFFD).0 == b1);
        match cpu.reset() {
            Ok(()) => {},
            Err(_) => {
                return Err(AddressingError::new("reset", 0xFFFC));
            },
        }
        cpu.wait_for_system_reset_cycles();
        Ok(Apple1 { cpu, pia })
    }

    /// Queues the signals of key `c` for the PIA.
    pub fn key(&mut self, c: u8)
        requires
            old(self).wf(),
        ensures
            final(self).wf(),
            final(self).pia == old(self).pia,
            final(self).cpu.r == old(self).cpu.r,
            final(self).cpu.same_cycles(old(self).cpu),
            old(self).cpu.address_bus@.devices[old(self).pia as int] matches DeviceModel::Pia(p)
                && final(self).cpu.address_bus@ == (BusModel {
                devices: old(self).cpu.address_bus@.devices.update(
                    old(self).pia as int,
                    DeviceModel::Pia(PiaModel { input: p.input + key_signals(c), ..p }),
                ),
                ..old(self).cpu.address_bus@
            }),
    {
        let signals = keyboard_signals(c);
        let pia = self.pia;
        let mut i: usize = 0;
        let ghost p0 = match old(self).cpu.address_bus@.devices[pia as int] {
            DeviceModel::Pia(p) => p,
            _ => arbitrary(),
        };
        proof {
            assert(p0.input + signals@.subrange(0, 0) =~= p0.input);
            assert(old(self).cpu.address_bus@.devices =~= old(self).cpu.address_bus@.devices.update(
                pia as int,
                DeviceModel::Pia(PiaModel { input: p0.input + signals@.subrange(0, 0), ..p0 }),
            ));
        }
        while i < signals.len()
            invariant
                i <= signals@.len(),
                signals@ == key_signals(c),
                self.wf(),
                self.pia == pia,
                self.cpu.r == old(self).cpu.r,
                self.cpu.same_cycles(old(self).cpu),
                old(self).cpu.address_bus@.has_pia(pia as int),
                old(self).cpu.address_bus@.devices[pia as int] == DeviceModel::Pia(p0),
                self.cpu.address_bus@ == (BusModel {
                    devices: old(self).cpu.address_bus@.devices.update(
                        pia as int,
                        DeviceModel::Pia(PiaModel { input: p0.input + signals@.subrange(0, i as int), ..p0 }),
                    ),
                    ..old(self).cpu.address_bus@
                }),
            decreases signals@.len() - i,
        {
            let s = signals[i];
            let ghost prev = self.cpu.address_bus@;
            let ghost q = PiaModel { input: p0.input + signals@.subrange(0, i as int), ..p0 };
            assert(prev.devices[pia as int] == DeviceModel::Pia(q));
            let sent = self.cpu.address_bus.send_input(pia, s);
            assert(sent);
            assert(self.cpu.address_bus@.devices == prev.devices.update(pia as int, DeviceModel::Pia(PiaModel { input: q.input.push(s), ..q })));
            proof {
                assert(p0.input + signals@.subrange(0, i + 1) =~= (p0.input + signals@.subrange(0, i as int)).push(s));
                assert(self.cpu.address_bus@.devices =~= old(self).cpu.address_bus@.devices.update(
                    pia as int,
                    DeviceModel::Pia(PiaModel { input: p0.input + signals@.subrange(0, i + 1), ..p0 }),
                ));
            }
            i = i + 1;
        }
        assert(signals@.subrange(0, 4) =~= signals@);
    }

    /// Takes the bytes sent to the display since the last call, leaving the
    /// PIA's output queue for port B empty.
    pub fn take_output(&mut self) -> (r: Vec<u8>)
        requires
            old(self).wf(),
        ensures
            final(self).wf(),
            final(self).pia == old(self).pia,
            final(self).cpu.r == old(self).cpu.r,
            final(self).cpu.same_cycles(old(self).cpu),
            old(self).cpu.address_bus@.devices[old(self).pia as int] matches DeviceModel::Pia(p)
                && r@ == p.output_b && final(self).cpu.address_bus@ == (BusModel {
                devices: old(self).cpu.address_bus@.devices.update(
                    old(self).pia as int,
                    DeviceModel::Pia(PiaModel { output_b: Seq::empty(), ..p }),
                ),
                ..old(self).cpu.address_bus@
            }),
    {
        let pia = self.pia;
        self.cpu.address_bus.take_output_b(pia)
    }

    /// One host cycle of the CPU. The PIA's interrupt outputs are not wired
    /// to the CPU on the Apple 1 (the monitor polls the flags instead), so
    /// interrupt requests stay in the PIA's queue for the host.
    pub fn step(&mut self) -> (r: Result<(), CpuError>)
        requires
            old(self).wf(),
        ensures
            final(self).wf(),
            final(self).pia == old(self).pia,
            cycle_done(old(self).cpu, final(self).cpu, r),
    {
        let ghost before = self.cpu.address_bus@;
        let r = self.cpu.cycle();
        proof {
            lemma_layout_keeps_pias(before, self.cpu.address_bus@, self.pia as int);
        }
        r
    }
}

/// A key press reaching a PIA set up as the Woz monitor leaves port A
/// (CRA = $27: CA1 latches the rising edge, port A selected, CA2 in handshake
/// mode; DDRA = 0; CA1 high; nothing queued): once the signals are applied
/// the key code is in the input register, CA1 is low again, the CA1 flag is
/// set and CA2 has been raised in acknowledgement. Reading CRA then shows the
/// flag and reading port A returns the code.
pub proof fn lemma_key_press(p: PiaModel, c: u8)
    requires
        p.a.wf(),
        p.a.cr == 0x27,
        p.a.ddr == 0,
        p.a.c1 == Signal::Rise,
        p.input.len() == 0,
    ensures
        ({
            let m = PiaModel { input: key_signals(c), ..p }.drained();
            &&& m.input.len() == 0
            &&& m.a.ir == key_code(c)
            &&& m.a.c1 == Signal::Fall
            &&& m.a.cr & 0x80 != 0
            &&& m.a.c2 == Signal::Rise
            &&& m.read(0xD011).1 & 0x80 != 0
            &&& m.read(0xD010).1 == key_code(c)
        }),
{
    assert(0x27u8 & 0x02 != 0 && 0x27u8 & 0x20 != 0 && 0x27u8 & 0x10 == 0 && 0x27u8 & 0x08 == 0)
        by (bit_vector);
    assert((0x27u8 | 0x80u8) & 0x80 != 0) by (bit_vector);
    assert(0xD011u16 & 3 == 1 && 0xD010u16 & 3 == 0) by (bit_vector);
    let q = key_signals(c);
    let base = PiaModel { input: Seq::empty(), ..p };
    assert(q.drop_last() =~= seq![q[0], q[1], q[2]]);
    assert(q.drop_last().drop_last() =~= seq![q[0], q[1]]);
    assert(q.drop_last().drop_last().drop_last() =~= seq![q[0]]);
    assert(q.drop_last().drop_last().drop_last().drop_last() =~= Seq::<InputSignal>::empty());
    let m1 = base.apply_signal(q[0]);
    let m2 = m1.apply_signal(q[1]);
    let m3 = m2.apply_signal(q[2]);
    let m4 = m3.apply_signal(q[3]);
    assert(base.apply_signals(seq![q[0]]) == m1) by {
        assert(seq![q[0]].drop_last() =~= Seq::<InputSignal>::empty());
        assert(base.apply_signals(Seq::<InputSignal>::empty()) == base);
        assert(seq![q[0]].last() == q[0]);
    }
    assert(base.apply_signals(seq![q[0], q[1]]) == m2) by {
        assert(seq![q[0], q[1]].drop_last() =~= seq![q[0]]);
    }
    assert(base.apply_signals(seq![q[0], q[1], q[2]]) == m3) by {
        assert(seq![q[0], q[1], q[2]].drop_last() =~= seq![q[0], q[1]]);
    }
    assert(base.apply_signals(q) == m4);
    let m = PiaModel { input: q, ..p }.drained();
    assert(m == m4);
    assert(m.a.cr == 0xA7u8) by {
        assert(0x27u8 | 0x80u8 == 0xA7u8) by (bit_vector);
    }
    assert(m.a.ddr_neg == 0xFFu8) by {
        assert(!0u8 == 0xFFu8) by (bit_vector);
    }
    let ir = m.a.ir;
    let or = m.a.or;
    assert((or & 0u8) | (ir & 0xFFu8) == ir) by (bit_vector);
    assert(m.drained() == m) by {
        assert(PiaModel { input: Seq::empty(), ..m } == m) by {
            assert(m.input =~= Seq::<InputSignal>::empty());
        }
    }
}

} // verus!
