//! The addressing modes. Each reads the operand bytes that follow the opcode,
//! advances PC past them and yields an effective address, a branch offset or
//! an operand, with the page-crossing cycle where the mode has one.
use vstd::prelude::*;

use crate::address_bus::BusModel;
use crate::mos6502::{
    add16, hi_byte, word, AddressModeResult, AddressModeValues, Cpu, CpuError, CpuRegisters,
};

verus! {

/// What a mode does to the bus and PC, and what it yields; `None` when one
/// of its reads fails.
pub type ModeOutcome = (BusModel, u16, Option<AddressModeValues>);

pub open spec fn absolute_values(addr: u16, add_cycles: u8) -> AddressModeValues {
    AddressModeValues {
        result: AddressModeResult::Absolute,
        absolute_address: addr,
        relative_address: 0,
        fetched_value: 0,
        add_cycles,
    }
}

/// `c` is the state that `o` describes, reached from `before`, and `r` the
/// result it describes.
pub open spec fn mode_done(
    c: Cpu,
    before: Cpu,
    r: Result<AddressModeValues, CpuError>,
    o: ModeOutcome,
) -> bool {
    &&& c.wf()
    &&& c.address_bus@.layout() == before.address_bus@.layout()
    &&& (r is Ok <==> o.2 is Some)
    &&& r is Ok ==> {
        &&& c.is(before, CpuRegisters { pc: o.1, ..before.r }, o.0)
        &&& r->Ok_0 == o.2->Some_0
    }
}

/// Two operand bytes form a base address; `index` is added, and a change of
/// the high byte costs a cycle.
pub open spec fn word_mode(bus: BusModel, r: CpuRegisters, index: u8) -> ModeOutcome {
    let (b1, lo) = bus.read(r.pc);
    let (b2, hi) = b1.read(add16(r.pc as int, 1));
    if lo is Some && hi is Some {
        let addr = add16(word(lo->Some_0, hi->Some_0) as int, index as int);
        (b2, add16(r.pc as int, 2), Some(absolute_values(addr, if hi_byte(addr) != hi->Some_0 { 1 } else { 0 })))
    } else {
        (b2, r.pc, None)
    }
}

/// One operand byte, plus `index`, wrapped within page zero.
pub open spec fn zero_page_mode(bus: BusModel, r: CpuRegisters, index: u8) -> ModeOutcome {
    let (b1, v) = bus.read(r.pc);
    if v is Some {
        (b1, add16(r.pc as int, 1), Some(absolute_values(((v->Some_0 + index) % 256) as u16, 0)))
    } else {
        (b1, r.pc, None)
    }
}

pub open spec fn ind_mode(bus: BusModel, r: CpuRegisters) -> ModeOutcome {
    let w = word_mode(bus, r, 0);
    if w.2 is Some {
        let ptr = w.2->Some_0.absolute_address;
        let (b2, lo) = w.0.read(ptr);
        // the high byte comes from the same page: the 6502's indirect jump bug
        let hi_addr = if ptr % 256 == 255 { (ptr - 255) as u16 } else { (ptr + 1) as u16 };
        let (b3, hi) = b2.read(hi_addr);
        if lo is Some && hi is Some {
            (b3, w.1, Some(absolute_values(word(lo->Some_0, hi->Some_0), 0)))
        } else {
            (b3, w.1, None)
        }
    } else {
        w
    }
}

pub open spec fn izx_mode(bus: BusModel, r: CpuRegisters) -> ModeOutcome {
    let (b1, v) = bus.read(r.pc);
    if v is Some {
        let z = (v->Some_0 + r.x) % 256;
        let (b2, lo) = b1.read(z as u16);
        let (b3, hi) = b2.read(((z + 1) % 256) as u16);
        if lo is Some && hi is Some {
            (b3, add16(r.pc as int, 1), Some(absolute_values(word(lo->Some_0, hi->Some_0), 0)))
        } else {
            (b3, r.pc, None)
        }
    } else {
        (b1, r.pc, None)
    }
}

pub open spec fn izy_mode(bus: BusModel, r: CpuRegisters) -> ModeOutcome {
    let (b1, v) = bus.read(r.pc);
    if v is Some {
        let z = v->Some_0;
        let (b2, lo) = b1.read(z as u16);
        let (b3, hi) = b2.read(((z + 1) % 256) as u16);
        if lo is Some && hi is Some {
            let addr = add16(word(lo->Some_0, hi->Some_0) as int, r.y as int);
            (b3, add16(r.pc as int, 1), Some(absolute_values(addr, if hi_byte(addr) != hi->Some_0 { 1 } else { 0 })))
        } else {
            (b3, r.pc, None)
        }
    } else {
        (b1, r.pc, None)
    }
}

/// Immediate: the operand is the byte at PC.
pub open spec fn imm_mode(bus: BusModel, r: CpuRegisters) -> ModeOutcome {
    (bus, add16(r.pc as int, 1), Some(absolute_values(r.pc, 0)))
}

/// Implied: the operand is A.
pub open spec fn imp_mode(bus: BusModel, r: CpuRegisters) -> ModeOutcome {
    (
        bus,
        r.pc,
        Some(
            AddressModeValues {
                result: AddressModeResult::Fetched,
                absolute_address: 0,
                relative_address: 0,
                fetched_value: r.a,
                add_cycles: 0,
            },
        ),
    )
}

/// The offset byte sign-extended to 16 bits.
pub open spec fn sign_extend(v: u8) -> u16 {
    if v >= 0x80 {
        (v + 0xFF00) as u16
    } else {
        v as u16
    }
}

pub open spec fn rel_mode(bus: BusModel, r: CpuRegisters) -> ModeOutcome {
    let (b1, v) = bus.read(r.pc);
    if v is Some {
        (
            b1,
            add16(r.pc as int, 1),
            Some(
                AddressModeValues {
                    result: AddressModeResult::Relative,
                    absolute_address: 0,
                    relative_address: sign_extend(v->Some_0),
                    fetched_value: 0,
                    add_cycles: 0,
                },
            ),
        )
    } else {
        (b1, r.pc, None)
    }
}

fn from_pc_word(cpu: &mut Cpu, operation: &str, index: u8) -> (r: Result<
    AddressModeValues,
    CpuError,
>)
    requires
        old(cpu).wf(),
    ensures
        mode_done(*final(cpu), *old(cpu), r, word_mode(old(cpu).address_bus@, old(cpu).r, index)),
{
    let pc = cpu.r.pc;
    let lo = cpu.read(pc, operation)?;
    let hi = cpu.read(pc.wrapping_add(1), operation)?;
    let addr = (hi as u16 * 256 + lo as u16).wrapping_add(index as u16);
    let add_cycles: u8 = if addr / 256 != hi as u16 {
        1
    } else {
        0
    };
    cpu.r.pc = pc.wrapping_add(2);
    Ok(
        AddressModeValues {
            result: AddressModeResult::Absolute,
            absolute_address: addr,
            relative_address: 0,
            fetched_value: 0,
            add_cycles,
        },
    )
}

fn from_pc_byte(cpu: &mut Cpu, operation: &str, index: u8) -> (r: Result<
    AddressModeValues,
    CpuError,
>)
    requires
        old(cpu).wf(),
    ensures
        mode_done(*final(cpu), *old(cpu), r, zero_page_mode(old(cpu).address_bus@, old(cpu).r, index)),
{
    let pc = cpu.r.pc;
    let v = cpu.read(pc, operation)?;
    cpu.r.pc = pc.wrapping_add(1);
    Ok(
        AddressModeValues {
            result: AddressModeResult::Absolute,
            absolute_address: (v as u16 + index as u16) % 256,
            relative_address: 0,
            fetched_value: 0,
            add_cycles: 0,
        },
    )
}

/// Absolute: the two operand bytes are the address.
pub fn abs(cpu: &mut Cpu) -> (r: Result<AddressModeValues, CpuError>)
    requires
        old(cpu).wf(),
    ensures
        mode_done(*final(cpu), *old(cpu), r, word_mode(old(cpu).address_bus@, old(cpu).r, 0)),
{
    from_pc_word(cpu, "ABS", 0)
}

/// Absolute indexed by X.
pub fn abx(cpu: &mut Cpu) -> (r: Result<AddressModeValues, CpuError>)
    requires
        old(cpu).wf(),
    ensures
        mode_done(*final(cpu), *old(cpu), r, word_mode(old(cpu).address_bus@, old(cpu).r, old(cpu).r.x)),
{
    let x = cpu.r.x;
    from_pc_word(cpu, "ABX", x)
}

/// Absolute indexed by Y.
pub fn aby(cpu: &mut Cpu) -> (r: Result<AddressModeValues, CpuError>)
    requires
        old(cpu).wf(),
    ensures
        mode_done(*final(cpu), *old(cpu), r, word_mode(old(cpu).address_bus@, old(cpu).r, old(cpu).r.y)),
{
    let y = cpu.r.y;
    from_pc_word(cpu, "ABY", y)
}

/// Indirect: the operand word points at the address.
pub fn ind(cpu: &mut Cpu) -> (r: Result<AddressModeValues, CpuError>)
    requires
        old(cpu).wf(),
    ensures
        mode_done(*final(cpu), *old(cpu), r, ind_mode(old(cpu).address_bus@, old(cpu).r)),
{
    let pointer = from_pc_word(cpu, "IND", 0)?;
    let ptr = pointer.absolute_address;
    let lo = cpu.read(ptr, "IND")?;
    let hi_addr = if ptr % 256 == 255 {
        ptr - 255
    } else {
        ptr + 1
    };
    let hi = cpu.read(hi_addr, "IND")?;
    Ok(
        AddressModeValues {
            result: AddressModeResult::Absolute,
            absolute_address: hi as u16 * 256 + lo as u16,
            relative_address: 0,
            fetched_value: 0,
            add_cycles: 0,
        },
    )
}

/// Immediate: the operand byte itself, at PC.
pub fn imm(cpu: &mut Cpu) -> (r: Result<AddressModeValues, CpuError>)
    requires
        old(cpu).wf(),
    ensures
        mode_done(*final(cpu), *old(cpu), r, imm_mode(old(cpu).address_bus@, old(cpu).r)),
{
    let addr = cpu.r.pc;
    cpu.r.pc = addr.wrapping_add(1);
    Ok(
        AddressModeValues {
            result: AddressModeResult::Absolute,
            absolute_address: addr,
            relative_address: 0,
            fetched_value: 0,
            add_cycles: 0,
        },
    )
}

/// Implied: the operand is the accumulator.
pub fn imp(cpu: &mut Cpu) -> (r: Result<AddressModeValues, CpuError>)
    requires
        old(cpu).wf(),
    ensures
        mode_done(*final(cpu), *old(cpu), r, imp_mode(old(cpu).address_bus@, old(cpu).r)),
{
    Ok(
        AddressModeValues {
            result: AddressModeResult::Fetched,
            absolute_address: 0,
            relative_address: 0,
            fetched_value: cpu.r.a,
            add_cycles: 0,
        },
    )
}

/// Indexed indirect: the operand byte plus X, in page zero, points at the address.
pub fn izx(cpu: &mut Cpu) -> (r: Result<AddressModeValues, CpuError>)
    requires
        old(cpu).wf(),
    ensures
        mode_done(*final(cpu), *old(cpu), r, izx_mode(old(cpu).address_bus@, old(cpu).r)),
{
    let pc = cpu.r.pc;
    let v = cpu.read(pc, "IZX")?;
    let z = (v as u16 + cpu.r.x as u16) % 256;
    let lo = cpu.read(z, "IZX")?;
    let hi = cpu.read((z + 1) % 256, "IZX")?;
    cpu.r.pc = pc.wrapping_add(1);
    Ok(
        AddressModeValues {
            result: AddressModeResult::Absolute,
            absolute_address: hi as u16 * 256 + lo as u16,
            relative_address: 0,
            fetched_value: 0,
            add_cycles: 0,
        },
    )
}

/// Indirect indexed: the operand byte points, in page zero, at a base address
/// to which Y is added; a change of the high byte costs a cycle.
pub fn izy(cpu: &mut Cpu) -> (r: Result<AddressModeValues, CpuError>)
    requires
        old(cpu).wf(),
    ensures
        mode_done(*final(cpu), *old(cpu), r, izy_mode(old(cpu).address_bus@, old(cpu).r)),
{
    let pc = cpu.r.pc;
    let z = cpu.read(pc, "IZY")? as u16;
    let lo = cpu.read(z, "IZY")?;
    let hi = cpu.read((z + 1) % 256, "IZY")?;
    let addr = (hi as u16 * 256 + lo as u16).wrapping_add(cpu.r.y as u16);
    let add_cycles: u8 = if addr / 256 != hi as u16 {
        1
    } else {
        0
    };
    cpu.r.pc = pc.wrapping_add(1);
    Ok(
        AddressModeValues {
            result: AddressModeResult::Absolute,
            absolute_address: addr,
            relative_address: 0,
            fetched_value: 0,
            add_cycles,
        },
    )
}

/// Relative: the operand byte, sign-extended, is a branch offset.
pub fn rel(cpu: &mut Cpu) -> (r: Result<AddressModeValues, CpuError>)
    requires
        old(cpu).wf(),
    ensures
        mode_done(*final(cpu), *old(cpu), r, rel_mode(old(cpu).address_bus@, old(cpu).r)),
{
    let pc = cpu.r.pc;
    let v = cpu.read(pc, "REL")?;
    let offset: u16 = if v >= 0x80 {
        v as u16 + 0xFF00
    } else {
        v as u16
    };
    cpu.r.pc = pc.wrapping_add(1);
    Ok(
        AddressModeValues {
            result: AddressModeResult::Relative,
            absolute_address: 0,
            relative_address: offset,
            fetched_value: 0,
            add_cycles: 0,
        },
    )
}

/// Zero page: the operand byte is the address.
pub fn zp0(cpu: &mut Cpu) -> (r: Result<AddressModeValues, CpuError>)
    requires
        old(cpu).wf(),
    ensures
        mode_done(*final(cpu), *old(cpu), r, zero_page_mode(old(cpu).address_bus@, old(cpu).r, 0)),
{
    from_pc_byte(cpu, "ZP0", 0)
}

/// Zero page indexed by X, wrapping within page zero.
pub fn zpx(cpu: &mut Cpu) -> (r: Result<AddressModeValues, CpuError>)
    requires
        old(cpu).wf(),
    ensures
        mode_done(*final(cpu), *old(cpu), r, zero_page_mode(old(cpu).address_bus@, old(cpu).r, old(cpu).r.x)),
{
    let x = cpu.r.x;
    from_pc_byte(cpu, "ZPX", x)
}

/// Zero page indexed by Y, wrapping within page zero.
pub fn zpy(cpu: &mut Cpu) -> (r: Result<AddressModeValues, CpuError>)
    requires
        old(cpu).wf(),
    ensures
        mode_done(*final(cpu), *old(cpu), r, zero_page_mode(old(cpu).address_bus@, old(cpu).r, old(cpu).r.y)),
{
    let y = cpu.r.y;
    from_pc_byte(cpu, "ZPY", y)
}

} // verus!
