//! The instructions. Each takes what its addressing mode produced and returns
//! the extra cycles it costs itself (a taken branch), or the failed bus access.
use vstd::prelude::*;

use crate::address_bus::BusModel;
use crate::mos6502::{
    add16, add8, flag_set, hi_byte, lo_byte, stack_addr, sub16, sub8, with_zn, word,
    AddressModeResult, AddressModeValues, Cpu, CpuError, CpuRegisters, StatusFlag,
};

verus! {

/// What an instruction does to the bus and the registers, and the extra
/// cycles it costs; `None` when one of its bus accesses fails.
pub type OpOutcome = (BusModel, CpuRegisters, Option<u8>);

/// `c` is the state that `o` describes, reached from `before`, and `r` the
/// result it describes.
pub open spec fn op_done(c: Cpu, before: Cpu, r: Result<u8, CpuError>, o: OpOutcome) -> bool {
    &&& c.wf()
    &&& c.address_bus@.layout() == before.address_bus@.layout()
    &&& (r is Ok <==> o.2 is Some)
    &&& r is Ok ==> c.is(before, o.1, o.0) && r->Ok_0 == o.2->Some_0
}

/// The operand: read from the effective address, or the value the mode fetched.
pub open spec fn operand(bus: BusModel, amv: AddressModeValues) -> (BusModel, Option<u8>) {
    match amv.result {
        AddressModeResult::Absolute => bus.read(amv.absolute_address),
        AddressModeResult::Fetched => (bus, Some(amv.fetched_value)),
        AddressModeResult::Relative => (bus, None),
    }
}

/// Registers only, no bus access, no extra cycle.
pub open spec fn regs_only(bus: BusModel, r: CpuRegisters) -> OpOutcome {
    (bus, r, Some(0))
}

/// Reads the operand and sets the registers from it.
pub open spec fn reading(
    bus: BusModel,
    amv: AddressModeValues,
    r: CpuRegisters,
    f: spec_fn(u8) -> CpuRegisters,
) -> OpOutcome {
    let (b, v) = operand(bus, amv);
    if v is Some {
        (b, f(v->Some_0), Some(0))
    } else {
        (b, r, None)
    }
}

/// Reads the operand, computes `(result, status)` from it and puts the result
/// back: into A in implied mode, else at the effective address.
pub open spec fn modifying(
    bus: BusModel,
    amv: AddressModeValues,
    r: CpuRegisters,
    f: spec_fn(u8) -> (u8, u8),
) -> OpOutcome {
    let (b1, v) = operand(bus, amv);
    if v is Some {
        let (res, st) = f(v->Some_0);
        if amv.result == AddressModeResult::Fetched {
            (b1, CpuRegisters { a: res, status: st, ..r }, Some(0))
        } else {
            let (b2, ok) = b1.write(amv.absolute_address, res);
            if ok {
                (b2, CpuRegisters { status: st, ..r }, Some(0))
            } else {
                (b2, r, None)
            }
        }
    } else {
        (b1, r, None)
    }
}

/// Writes `v` at the effective address.
pub open spec fn storing(bus: BusModel, amv: AddressModeValues, r: CpuRegisters, v: u8) -> OpOutcome {
    let (b, ok) = bus.write(amv.absolute_address, v);
    (b, r, if ok { Some(0) } else { None })
}

/// A conditional branch: when taken, PC moves by the offset at the cost of a
/// cycle, and of one more when it lands on another page.
pub open spec fn branching(bus: BusModel, amv: AddressModeValues, r: CpuRegisters, taken: bool) -> OpOutcome {
    if taken {
        let target = add16(r.pc as int, amv.relative_address as int);
        (bus, CpuRegisters { pc: target, ..r }, Some(if hi_byte(target) != hi_byte(r.pc) { 2u8 } else { 1u8 }))
    } else {
        (bus, r, Some(0))
    }
}

/// The carry as a number.
pub open spec fn carry(status: u8) -> u16 {
    if status & StatusFlag::C != 0 {
        1
    } else {
        0
    }
}

pub open spec fn load_a(r: CpuRegisters, v: u8) -> CpuRegisters {
    CpuRegisters { a: v, status: with_zn(r.status, v), ..r }
}

pub open spec fn load_x(r: CpuRegisters, v: u8) -> CpuRegisters {
    CpuRegisters { x: v, status: with_zn(r.status, v), ..r }
}

pub open spec fn load_y(r: CpuRegisters, v: u8) -> CpuRegisters {
    CpuRegisters { y: v, status: with_zn(r.status, v), ..r }
}

/// CMP, CPX, CPY: C when `reg >= m`, Z and N from `reg - m`.
pub open spec fn compare(r: CpuRegisters, reg: u8, m: u8) -> CpuRegisters {
    CpuRegisters { status: with_zn(flag_set(r.status, StatusFlag::C, reg >= m), sub8(reg as int, m as int)), ..r }
}

pub open spec fn bit_test(r: CpuRegisters, m: u8) -> CpuRegisters {
    let s = flag_set(r.status, StatusFlag::Z, r.a & m == 0);
    let s = flag_set(s, StatusFlag::N, m & 0x80 != 0);
    CpuRegisters { status: flag_set(s, StatusFlag::V, m & 0x40 != 0), ..r }
}

/// Binary addition: `t = A + M + C`.
pub open spec fn adc_binary(r: CpuRegisters, m: u8) -> CpuRegisters {
    let a = r.a as u16;
    let m = m as u16;
    let t = (a + m + carry(r.status)) as u16;
    let s = flag_set(r.status, StatusFlag::N, t & 0x80 != 0);
    let s = flag_set(s, StatusFlag::Z, t & 0xFF == 0);
    let s = flag_set(s, StatusFlag::V, (!(a ^ m) & (a ^ t)) & 0x80 != 0);
    let s = flag_set(s, StatusFlag::C, t > 0xFF);
    CpuRegisters { a: (t & 0xFF) as u8, status: s, ..r }
}

/// Decimal addition as the NMOS 6502 does it: Z from the binary sum, N and V
/// from the sum before the high digit is adjusted, C from the adjusted sum.
pub open spec fn adc_decimal(r: CpuRegisters, m: u8) -> CpuRegisters {
    let a = r.a as u16;
    let m = m as u16;
    let c = carry(r.status);
    let lo = ((a & 0x0F) + (m & 0x0F) + c) as u16;
    let lo = if lo > 9 { (lo + 6) as u16 } else { lo };
    let t = if lo < 0x0F {
        ((lo & 0x0F) + (a & 0xF0) + (m & 0xF0)) as u16
    } else {
        ((lo & 0x0F) + (a & 0xF0) + (m & 0xF0) + 0x10) as u16
    };
    let s = flag_set(r.status, StatusFlag::Z, (a + m + c) as u16 & 0xFF == 0);
    let s = flag_set(s, StatusFlag::N, t & 0x80 != 0);
    let s = flag_set(s, StatusFlag::V, (a ^ t) & 0x80 != 0 && (a ^ m) & 0x80 == 0);
    let t = if t & 0x1F0 > 0x90 { (t + 0x60) as u16 } else { t };
    let s = flag_set(s, StatusFlag::C, t > 0xF0);
    CpuRegisters { a: (t & 0xFF) as u8, status: s, ..r }
}

pub open spec fn adc_regs(r: CpuRegisters, m: u8) -> CpuRegisters {
    if r.status & StatusFlag::D != 0 {
        adc_decimal(r, m)
    } else {
        adc_binary(r, m)
    }
}

/// `x - y` modulo 65536, on 16-bit values.
pub open spec fn wsub(x: u16, y: u16) -> u16 {
    vstd::wrapping::u16_specs::wrapping_sub(x, y)
}

/// The BCD difference of `a - m - (1 - c)` as the NMOS 6502 forms it.
pub open spec fn sbc_decimal(a: u16, m: u16, c: u16) -> u8 {
    let lo = wsub(wsub(a & 0x0F, m & 0x0F), (1 - c) as u16);
    let d = if lo & 0x10 != 0 {
        wsub(wsub((wsub(lo, 6) & 0x0F) | (a & 0xF0), m & 0xF0), 0x10)
    } else {
        wsub((lo & 0x0F) | (a & 0xF0), m & 0xF0)
    };
    let d = if d & 0x100 != 0 { wsub(d, 0x60) } else { d };
    (d & 0xFF) as u8
}

/// Subtraction `t = A - M - (1 - C)`: the flags always come from the binary
/// difference; in decimal mode A gets the BCD-adjusted difference.
pub open spec fn sbc_regs(r: CpuRegisters, m: u8) -> CpuRegisters {
    let a = r.a as u16;
    let m = m as u16;
    let c = carry(r.status);
    let t = sub16(sub16(a as int, m as int) as int, (1 - c) as int);
    let s = flag_set(r.status, StatusFlag::V, (a ^ m) & (a ^ t) & 0x80 != 0);
    let result = if r.status & StatusFlag::D != 0 {
        sbc_decimal(a, m, c)
    } else {
        (t & 0xFF) as u8
    };
    let s = flag_set(s, StatusFlag::C, t < 0x100);
    let s = flag_set(s, StatusFlag::Z, t & 0xFF == 0);
    let s = flag_set(s, StatusFlag::N, t & 0x80 != 0);
    CpuRegisters { a: result, status: s, ..r }
}

pub open spec fn asl_of(status: u8, v: u8) -> (u8, u8) {
    let res = ((v * 2) % 256) as u8;
    (res, with_zn(flag_set(status, StatusFlag::C, v >= 0x80), res))
}

pub open spec fn lsr_of(status: u8, v: u8) -> (u8, u8) {
    let res = v / 2;
    (res, with_zn(flag_set(status, StatusFlag::C, v % 2 == 1), res))
}

pub open spec fn rol_of(status: u8, v: u8) -> (u8, u8) {
    let res = ((v * 2 + carry(status)) % 256) as u8;
    (res, with_zn(flag_set(status, StatusFlag::C, v >= 0x80), res))
}

pub open spec fn ror_of(status: u8, v: u8) -> (u8, u8) {
    let res = (v / 2 + carry(status) * 128) as u8;
    (res, with_zn(flag_set(status, StatusFlag::C, v % 2 == 1), res))
}

pub open spec fn inc_of(status: u8, v: u8) -> (u8, u8) {
    let res = add8(v as int, 1);
    (res, with_zn(status, res))
}

pub open spec fn dec_of(status: u8, v: u8) -> (u8, u8) {
    let res = sub8(v as int, 1);
    (res, with_zn(status, res))
}

/// Pushes `v`: it goes to $0100 + SP, then SP decreases.
pub open spec fn push(bus: BusModel, r: CpuRegisters, v: u8) -> (BusModel, CpuRegisters, bool) {
    let (b, ok) = bus.write(stack_addr(r.sp), v);
    (b, CpuRegisters { sp: sub8(r.sp as int, 1), ..r }, ok)
}

/// Pulls a byte: SP increases, then the byte at $0100 + SP is read.
pub open spec fn pull(bus: BusModel, r: CpuRegisters) -> (BusModel, CpuRegisters, Option<u8>) {
    let sp = add8(r.sp as int, 1);
    let (b, v) = bus.read(stack_addr(sp));
    (b, CpuRegisters { sp, ..r }, v)
}

pub open spec fn pha_spec(bus: BusModel, r: CpuRegisters) -> OpOutcome {
    let (b, r1, ok) = push(bus, r, r.a);
    if ok { (b, r1, Some(0)) } else { (b, r, None) }
}

/// PHP pushes P with B and U set, and B is then clear in P.
pub open spec fn php_spec(bus: BusModel, r: CpuRegisters) -> OpOutcome {
    let (b, r1, ok) = push(bus, r, r.status | StatusFlag::B | StatusFlag::U);
    if ok {
        (b, CpuRegisters { status: flag_set(r.status, StatusFlag::B, false), ..r1 }, Some(0))
    } else {
        (b, r, None)
    }
}

pub open spec fn pla_spec(bus: BusModel, r: CpuRegisters) -> OpOutcome {
    let (b, r1, v) = pull(bus, r);
    if v is Some { (b, load_a(r1, v->Some_0), Some(0)) } else { (b, r, None) }
}

/// PLP pulls P and forces U.
pub open spec fn plp_spec(bus: BusModel, r: CpuRegisters) -> OpOutcome {
    let (b, r1, v) = pull(bus, r);
    if v is Some {
        (b, CpuRegisters { status: v->Some_0 | StatusFlag::U, ..r1 }, Some(0))
    } else {
        (b, r, None)
    }
}

/// JSR pushes the address of its last byte, high byte first, and jumps.
pub open spec fn jsr_spec(bus: BusModel, amv: AddressModeValues, r: CpuRegisters) -> OpOutcome {
    let ret = sub16(r.pc as int, 1);
    let (b1, r1, ok1) = push(bus, r, hi_byte(ret));
    let (b2, r2, ok2) = push(b1, r1, lo_byte(ret));
    if ok1 && ok2 {
        (b2, CpuRegisters { pc: amv.absolute_address, ..r2 }, Some(0))
    } else {
        (b2, r, None)
    }
}

/// RTS pulls the return address, low byte first, and continues after it.
pub open spec fn rts_spec(bus: BusModel, r: CpuRegisters) -> OpOutcome {
    let (b1, r1, lo) = pull(bus, r);
    let (b2, r2, hi) = pull(b1, r1);
    if lo is Some && hi is Some {
        (b2, CpuRegisters { pc: add16(word(lo->Some_0, hi->Some_0) as int, 1), ..r2 }, Some(0))
    } else {
        (b2, r, None)
    }
}

/// RTI pulls P (with U forced), then PC low and high.
pub open spec fn rti_spec(bus: BusModel, r: CpuRegisters) -> OpOutcome {
    let (b1, r1, p) = pull(bus, r);
    let (b2, r2, lo) = pull(b1, r1);
    let (b3, r3, hi) = pull(b2, r2);
    if p is Some && lo is Some && hi is Some {
        (
            b3,
            CpuRegisters { status: p->Some_0 | StatusFlag::U, pc: word(lo->Some_0, hi->Some_0), ..r3 },
            Some(0),
        )
    } else {
        (b3, r, None)
    }
}

/// BRK pushes PC (high, low) and P with B and U set, sets I, clears B and
/// jumps through the vector at $FFFE/$FFFF.
pub open spec fn brk_spec(bus: BusModel, r: CpuRegisters) -> OpOutcome {
    let (b1, r1, ok1) = push(bus, r, hi_byte(r.pc));
    let (b2, r2, ok2) = push(b1, r1, lo_byte(r.pc));
    let (b3, r3, ok3) = push(b2, r2, r.status | StatusFlag::B | StatusFlag::U);
    let (b4, hi) = b3.read(0xFFFF);
    let (b5, lo) = b4.read(0xFFFE);
    if ok1 && ok2 && ok3 && hi is Some && lo is Some {
        (
            b5,
            CpuRegisters {
                status: flag_set(flag_set(r.status, StatusFlag::I, true), StatusFlag::B, false),
                pc: word(lo->Some_0, hi->Some_0),
                ..r3
            },
            Some(0),
        )
    } else {
        (b5, r, None)
    }
}

proof fn lemma_masks(a: u16)
    by (bit_vector)
    ensures
        a & 0x0F <= 0x0F,
        a & 0xF0 <= 0xF0,
        a & 0xFF <= 0xFF,
{
}

fn fetch(cpu: &mut Cpu, mode: AddressModeValues) -> (r: Result<u8, CpuError>)
    requires
        old(cpu).wf(),
    ensures
        final(cpu).wf(),
        final(cpu).r == old(cpu).r,
        final(cpu).same_cycles(*old(cpu)),
        final(cpu).address_bus@.layout() == old(cpu).address_bus@.layout(),
        final(cpu).address_bus@ == operand(old(cpu).address_bus@, mode).0,
        r is Ok <==> operand(old(cpu).address_bus@, mode).1 is Some,
        r matches Ok(v) ==> operand(old(cpu).address_bus@, mode).1 == Some(v),
{
    match mode.result {
        AddressModeResult::Absolute => cpu.read(mode.absolute_address, "fetch"),
        AddressModeResult::Fetched => Ok(mode.fetched_value),
        AddressModeResult::Relative => Err(CpuError::new("fetch", cpu.current_pc)),
    }
}

/// Puts a computed byte back where the operand came from.
fn put_back(cpu: &mut Cpu, mode: AddressModeValues, res: u8) -> (r: Result<u8, CpuError>)
    requires
        old(cpu).wf(),
    ensures
        final(cpu).wf(),
        final(cpu).address_bus@.layout() == old(cpu).address_bus@.layout(),
        mode.result == AddressModeResult::Fetched ==> r == Ok::<u8, CpuError>(0)
            && final(cpu).is(*old(cpu), (CpuRegisters { a: res, ..old(cpu).r }), old(cpu).address_bus@),
        mode.result != AddressModeResult::Fetched ==> ({
            let (b, ok) = old(cpu).address_bus@.write(mode.absolute_address, res);
            &&& (r is Ok <==> ok)
            &&& ok ==> r == Ok::<u8, CpuError>(0) && final(cpu).is(*old(cpu), old(cpu).r, b)
        }),
{
    if mode.result == AddressModeResult::Fetched {
        cpu.r.a = res;
        Ok(0)
    } else {
        cpu.write(mode.absolute_address, res, "store")?;
        Ok(0)
    }
}

fn decimal_difference(a: u16, m: u16, c: u16) -> (r: u8)
    requires
        c <= 1,
    ensures
        r == sbc_decimal(a, m, c),
{
    let lo = (a & 0x0F).wrapping_sub(m & 0x0F).wrapping_sub(1 - c);
    let mut d = if lo & 0x10 != 0 {
        (((lo.wrapping_sub(6)) & 0x0F) | (a & 0xF0)).wrapping_sub(m & 0xF0).wrapping_sub(0x10)
    } else {
        ((lo & 0x0F) | (a & 0xF0)).wrapping_sub(m & 0xF0)
    };
    if d & 0x100 != 0 {
        d = d.wrapping_sub(0x60);
    }
    (d & 0xFF) as u8
}

pub(crate) fn push_byte(cpu: &mut Cpu, v: u8) -> (r: Result<(), CpuError>)
    requires
        old(cpu).wf(),
    ensures
        final(cpu).wf(),
        final(cpu).address_bus@.layout() == old(cpu).address_bus@.layout(),
        ({
            let (b, r1, ok) = push(old(cpu).address_bus@, old(cpu).r, v);
            (r is Ok <==> ok) && (ok ==> final(cpu).is(*old(cpu), r1, b))
        }),
{
    let sp = cpu.r.sp;
    cpu.write(0x100 + sp as u16, v, "push")?;
    cpu.r.sp = sp.wrapping_sub(1);
    Ok(())
}

pub(crate) fn pull_byte(cpu: &mut Cpu) -> (r: Result<u8, CpuError>)
    requires
        old(cpu).wf(),
    ensures
        final(cpu).wf(),
        final(cpu).address_bus@.layout() == old(cpu).address_bus@.layout(),
        ({
            let (b, r1, v) = pull(old(cpu).address_bus@, old(cpu).r);
            (r is Ok <==> v is Some) && (r is Ok ==> final(cpu).is(*old(cpu), r1, b) && v
                == Some(r->Ok_0))
        }),
{
    let sp = cpu.r.sp.wrapping_add(1);
    cpu.r.sp = sp;
    cpu.read(0x100 + sp as u16, "pull")
}

fn branch(cpu: &mut Cpu, mode: AddressModeValues, taken: bool) -> (r: Result<u8, CpuError>)
    requires
        old(cpu).wf(),
    ensures
        op_done(*final(cpu), *old(cpu), r, branching(old(cpu).address_bus@, mode, old(cpu).r, taken)),
{
    if taken {
        let pc = cpu.r.pc;
        let target = pc.wrapping_add(mode.relative_address);
        cpu.r.pc = target;
        Ok(
            if target / 256 != pc / 256 {
                2
            } else {
                1
            },
        )
    } else {
        Ok(0)
    }
}

/// What LDA does.
pub open spec fn lda_outcome(bus: BusModel, mode: AddressModeValues, r: CpuRegisters) -> OpOutcome {
    reading(bus, mode, r, |m: u8| load_a(r, m))
}

/// LDA: A = M.
pub fn lda(cpu: &mut Cpu, mode: AddressModeValues, _opcode: u8) -> (r: Result<u8, CpuError>)
    requires
        old(cpu).wf(),
    ensures
        op_done(*final(cpu), *old(cpu), r, lda_outcome(old(cpu).address_bus@, mode, old(cpu).r)),
{
    let m = fetch(cpu, mode)?;
    cpu.r.a = m;
    cpu.set_zn(m);
    Ok(0)
}

/// What LDX does.
pub open spec fn ldx_outcome(bus: BusModel, mode: AddressModeValues, r: CpuRegisters) -> OpOutcome {
    reading(bus, mode, r, |m: u8| load_x(r, m))
}

/// LDX: X = M.
pub fn ldx(cpu: &mut Cpu, mode: AddressModeValues, _opcode: u8) -> (r: Result<u8, CpuError>)
    requires
        old(cpu).wf(),
    ensures
        op_done(*final(cpu), *old(cpu), r, ldx_outcome(old(cpu).address_bus@, mode, old(cpu).r)),
{
    let m = fetch(cpu, mode)?;
    cpu.r.x = m;
    cpu.set_zn(m);
    Ok(0)
}

/// What LDY does.
pub open spec fn ldy_outcome(bus: BusModel, mode: AddressModeValues, r: CpuRegisters) -> OpOutcome {
    reading(bus, mode, r, |m: u8| load_y(r, m))
}

/// LDY: Y = M.
pub fn ldy(cpu: &mut Cpu, mode: AddressModeValues, _opcode: u8) -> (r: Result<u8, CpuError>)
    requires
        old(cpu).wf(),
    ensures
        op_done(*final(cpu), *old(cpu), r, ldy_outcome(old(cpu).address_bus@, mode, old(cpu).r)),
{
    let m = fetch(cpu, mode)?;
    cpu.r.y = m;
    cpu.set_zn(m);
    Ok(0)
}

/// What AND does.
pub open spec fn and_outcome(bus: BusModel, mode: AddressModeValues, r: CpuRegisters) -> OpOutcome {
    reading(bus, mode, r, |m: u8| load_a(r, (r.a & m) as u8))
}

/// AND: A = A & M.
pub fn and(cpu: &mut Cpu, mode: AddressModeValues, _opcode: u8) -> (r: Result<u8, CpuError>)
    requires
        old(cpu).wf(),
    ensures
        op_done(*final(cpu), *old(cpu), r, and_outcome(old(cpu).address_bus@, mode, old(cpu).r)),
{
    let m = fetch(cpu, mode)?;
    let v = cpu.r.a & m;
    cpu.r.a = v;
    cpu.set_zn(v);
    Ok(0)
}

/// What ORA does.
pub open spec fn ora_outcome(bus: BusModel, mode: AddressModeValues, r: CpuRegisters) -> OpOutcome {
    reading(bus, mode, r, |m: u8| load_a(r, (r.a | m) as u8))
}

/// ORA: A = A | M.
pub fn ora(cpu: &mut Cpu, mode: AddressModeValues, _opcode: u8) -> (r: Result<u8, CpuError>)
    requires
        old(cpu).wf(),
    ensures
        op_done(*final(cpu), *old(cpu), r, ora_outcome(old(cpu).address_bus@, mode, old(cpu).r)),
{
    let m = fetch(cpu, mode)?;
    let v = cpu.r.a | m;
    cpu.r.a = v;
    cpu.set_zn(v);
    Ok(0)
}

/// What EOR does.
pub open spec fn eor_outcome(bus: BusModel, mode: AddressModeValues, r: CpuRegisters) -> OpOutcome {
    reading(bus, mode, r, |m: u8| load_a(r, (r.a ^ m) as u8))
}

/// EOR: A = A ^ M.
pub fn eor(cpu: &mut Cpu, mode: AddressModeValues, _opcode: u8) -> (r: Result<u8, CpuError>)
    requires
        old(cpu).wf(),
    ensures
        op_done(*final(cpu), *old(cpu), r, eor_outcome(old(cpu).address_bus@, mode, old(cpu).r)),
{
    let m = fetch(cpu, mode)?;
    let v = cpu.r.a ^ m;
    cpu.r.a = v;
    cpu.set_zn(v);
    Ok(0)
}

/// What CMP does.
pub open spec fn cmp_outcome(bus: BusModel, mode: AddressModeValues, r: CpuRegisters) -> OpOutcome {
    reading(bus, mode, r, |m: u8| compare(r, r.a, m))
}

/// CMP: compares A with M.
pub fn cmp(cpu: &mut Cpu, mode: AddressModeValues, _opcode: u8) -> (r: Result<u8, CpuError>)
    requires
        old(cpu).wf(),
    ensures
        op_done(*final(cpu), *old(cpu), r, cmp_outcome(old(cpu).address_bus@, mode, old(cpu).r)),
{
    let m = fetch(cpu, mode)?;
    let reg = cpu.r.a;
    cpu.set_flag(StatusFlag::C, reg >= m);
    cpu.set_zn(reg.wrapping_sub(m));
    Ok(0)
}

/// What CPX does.
pub open spec fn cpx_outcome(bus: BusModel, mode: AddressModeValues, r: CpuRegisters) -> OpOutcome {
    reading(bus, mode, r, |m: u8| compare(r, r.x, m))
}

/// CPX: compares X with M.
pub fn cpx(cpu: &mut Cpu, mode: AddressModeValues, _opcode: u8) -> (r: Result<u8, CpuError>)
    requires
        old(cpu).wf(),
    ensures
        op_done(*final(cpu), *old(cpu), r, cpx_outcome(old(cpu).address_bus@, mode, old(cpu).r)),
{
    let m = fetch(cpu, mode)?;
    let reg = cpu.r.x;
    cpu.set_flag(StatusFlag::C, reg >= m);
    cpu.set_zn(reg.wrapping_sub(m));
    Ok(0)
}

/// What CPY does.
pub open spec fn cpy_outcome(bus: BusModel, mode: AddressModeValues, r: CpuRegisters) -> OpOutcome {
    reading(bus, mode, r, |m: u8| compare(r, r.y, m))
}

/// CPY: compares Y with M.
pub fn cpy(cpu: &mut Cpu, mode: AddressModeValues, _opcode: u8) -> (r: Result<u8, CpuError>)
    requires
        old(cpu).wf(),
    ensures
        op_done(*final(cpu), *old(cpu), r, cpy_outcome(old(cpu).address_bus@, mode, old(cpu).r)),
{
    let m = fetch(cpu, mode)?;
    let reg = cpu.r.y;
    cpu.set_flag(StatusFlag::C, reg >= m);
    cpu.set_zn(reg.wrapping_sub(m));
    Ok(0)
}

/// What BIT does.
pub open spec fn bit_outcome(bus: BusModel, mode: AddressModeValues, r: CpuRegisters) -> OpOutcome {
    reading(bus, mode, r, |m: u8| bit_test(r, m))
}

/// BIT: Z from A & M, N and V from bits 7 and 6 of M.
pub fn bit(cpu: &mut Cpu, mode: AddressModeValues, _opcode: u8) -> (r: Result<u8, CpuError>)
    requires
        old(cpu).wf(),
    ensures
        op_done(*final(cpu), *old(cpu), r, bit_outcome(old(cpu).address_bus@, mode, old(cpu).r)),
{
    let m = fetch(cpu, mode)?;
    let a = cpu.r.a;
    cpu.set_flag(StatusFlag::Z, a & m == 0);
    cpu.set_flag(StatusFlag::N, m & 0x80 != 0);
    cpu.set_flag(StatusFlag::V, m & 0x40 != 0);
    Ok(0)
}

/// What ADC does.
pub open spec fn adc_outcome(bus: BusModel, mode: AddressModeValues, r: CpuRegisters) -> OpOutcome {
    reading(bus, mode, r, |m: u8| adc_regs(r, m))
}

/// ADC: A = A + M + C, binary or decimal by the D flag.
pub fn adc(cpu: &mut Cpu, mode: AddressModeValues, _opcode: u8) -> (r: Result<u8, CpuError>)
    requires
        old(cpu).wf(),
    ensures
        op_done(*final(cpu), *old(cpu), r, adc_outcome(old(cpu).address_bus@, mode, old(cpu).r)),
{
    let m8 = fetch(cpu, mode)?;
    let a = cpu.r.a as u16;
    let m = m8 as u16;
    let c: u16 = if cpu.get_flag(StatusFlag::C) {
        1
    } else {
        0
    };
    let decimal = cpu.get_flag(StatusFlag::D);
    proof {
        lemma_masks(a);
        lemma_masks(m);
    }
    if decimal {
        let mut lo = (a & 0x0F) + (m & 0x0F) + c;
        if lo > 9 {
            lo = lo + 6;
        }
        proof {
            lemma_masks(lo);
        }
        let mut t = if lo < 0x0F {
            (lo & 0x0F) + (a & 0xF0) + (m & 0xF0)
        } else {
            (lo & 0x0F) + (a & 0xF0) + (m & 0xF0) + 0x10
        };
        cpu.set_flag(StatusFlag::Z, (a + m + c) & 0xFF == 0);
        cpu.set_flag(StatusFlag::N, t & 0x80 != 0);
        cpu.set_flag(StatusFlag::V, (a ^ t) & 0x80 != 0 && (a ^ m) & 0x80 == 0);
        if t & 0x1F0 > 0x90 {
            t = t + 0x60;
        }
        cpu.set_flag(StatusFlag::C, t > 0xF0);
        cpu.r.a = (t & 0xFF) as u8;
    } else {
        let t = a + m + c;
        cpu.set_flag(StatusFlag::N, t & 0x80 != 0);
        cpu.set_flag(StatusFlag::Z, t & 0xFF == 0);
        cpu.set_flag(StatusFlag::V, (!(a ^ m) & (a ^ t)) & 0x80 != 0);
        cpu.set_flag(StatusFlag::C, t > 0xFF);
        cpu.r.a = (t & 0xFF) as u8;
    }
    Ok(0)
}

/// What SBC does.
pub open spec fn sbc_outcome(bus: BusModel, mode: AddressModeValues, r: CpuRegisters) -> OpOutcome {
    reading(bus, mode, r, |m: u8| sbc_regs(r, m))
}

/// SBC: A = A - M - (1 - C), binary or decimal by the D flag.
pub fn sbc(cpu: &mut Cpu, mode: AddressModeValues, _opcode: u8) -> (r: Result<u8, CpuError>)
    requires
        old(cpu).wf(),
    ensures
        op_done(*final(cpu), *old(cpu), r, sbc_outcome(old(cpu).address_bus@, mode, old(cpu).r)),
{
    let m8 = fetch(cpu, mode)?;
    let a = cpu.r.a as u16;
    let m = m8 as u16;
    let c: u16 = if cpu.get_flag(StatusFlag::C) {
        1
    } else {
        0
    };
    let decimal = cpu.get_flag(StatusFlag::D);
    let t = a.wrapping_sub(m).wrapping_sub(1 - c);
    cpu.set_flag(StatusFlag::V, (a ^ m) & (a ^ t) & 0x80 != 0);
    if decimal {
        cpu.r.a = decimal_difference(a, m, c);
    } else {
        cpu.r.a = (t & 0xFF) as u8;
    }
    cpu.set_flag(StatusFlag::C, t < 0x100);
    cpu.set_flag(StatusFlag::Z, t & 0xFF == 0);
    cpu.set_flag(StatusFlag::N, t & 0x80 != 0);
    Ok(0)
}

/// What ASL does.
pub open spec fn asl_outcome(bus: BusModel, mode: AddressModeValues, r: CpuRegisters) -> OpOutcome {
    modifying(bus, mode, r, |v: u8| asl_of(r.status, v))
}

/// ASL: shifts left; C takes bit 7.
pub fn asl(cpu: &mut Cpu, mode: AddressModeValues, _opcode: u8) -> (r: Result<u8, CpuError>)
    requires
        old(cpu).wf(),
    ensures
        op_done(*final(cpu), *old(cpu), r, asl_outcome(old(cpu).address_bus@, mode, old(cpu).r)),
{
    let v = fetch(cpu, mode)?;
    let res = ((v as u16 * 2) % 256) as u8;
    cpu.set_flag(StatusFlag::C, v >= 0x80);
    cpu.set_zn(res);
    put_back(cpu, mode, res)
}

/// What LSR does.
pub open spec fn lsr_outcome(bus: BusModel, mode: AddressModeValues, r: CpuRegisters) -> OpOutcome {
    modifying(bus, mode, r, |v: u8| lsr_of(r.status, v))
}

/// LSR: shifts right; C takes bit 0.
pub fn lsr(cpu: &mut Cpu, mode: AddressModeValues, _opcode: u8) -> (r: Result<u8, CpuError>)
    requires
        old(cpu).wf(),
    ensures
        op_done(*final(cpu), *old(cpu), r, lsr_outcome(old(cpu).address_bus@, mode, old(cpu).r)),
{
    let v = fetch(cpu, mode)?;
    let res = v / 2;
    cpu.set_flag(StatusFlag::C, v % 2 == 1);
    cpu.set_zn(res);
    put_back(cpu, mode, res)
}

/// What ROL does.
pub open spec fn rol_outcome(bus: BusModel, mode: AddressModeValues, r: CpuRegisters) -> OpOutcome {
    modifying(bus, mode, r, |v: u8| rol_of(r.status, v))
}

/// ROL: rotates left through C.
pub fn rol(cpu: &mut Cpu, mode: AddressModeValues, _opcode: u8) -> (r: Result<u8, CpuError>)
    requires
        old(cpu).wf(),
    ensures
        op_done(*final(cpu), *old(cpu), r, rol_outcome(old(cpu).address_bus@, mode, old(cpu).r)),
{
    let v = fetch(cpu, mode)?;
    let c: u16 = if cpu.get_flag(StatusFlag::C) {
        1
    } else {
        0
    };
    let res = ((v as u16 * 2 + c) % 256) as u8;
    cpu.set_flag(StatusFlag::C, v >= 0x80);
    cpu.set_zn(res);
    put_back(cpu, mode, res)
}

/// What ROR does.
pub open spec fn ror_outcome(bus: BusModel, mode: AddressModeValues, r: CpuRegisters) -> OpOutcome {
    modifying(bus, mode, r, |v: u8| ror_of(r.status, v))
}

/// ROR: rotates right through C.
pub fn ror(cpu: &mut Cpu, mode: AddressModeValues, _opcode: u8) -> (r: Result<u8, CpuError>)
    requires
        old(cpu).wf(),
    ensures
        op_done(*final(cpu), *old(cpu), r, ror_outcome(old(cpu).address_bus@, mode, old(cpu).r)),
{
    let v = fetch(cpu, mode)?;
    let c: u16 = if cpu.get_flag(StatusFlag::C) {
        1
    } else {
        0
    };
    let res = (v as u16 / 2 + c * 128) as u8;
    cpu.set_flag(StatusFlag::C, v % 2 == 1);
    cpu.set_zn(res);
    put_back(cpu, mode, res)
}

/// What INC does.
pub open spec fn inc_outcome(bus: BusModel, mode: AddressModeValues, r: CpuRegisters) -> OpOutcome {
    modifying(bus, mode, r, |v: u8| inc_of(r.status, v))
}

/// INC: M = M + 1.
pub fn inc(cpu: &mut Cpu, mode: AddressModeValues, _opcode: u8) -> (r: Result<u8, CpuError>)
    requires
        old(cpu).wf(),
    ensures
        op_done(*final(cpu), *old(cpu), r, inc_outcome(old(cpu).address_bus@, mode, old(cpu).r)),
{
    let v = fetch(cpu, mode)?;
    let res = v.wrapping_add(1);
    cpu.set_zn(res);
    put_back(cpu, mode, res)
}

/// What DEC does.
pub open spec fn dec_outcome(bus: BusModel, mode: AddressModeValues, r: CpuRegisters) -> OpOutcome {
    modifying(bus, mode, r, |v: u8| dec_of(r.status, v))
}

/// DEC: M = M - 1.
pub fn dec(cpu: &mut Cpu, mode: AddressModeValues, _opcode: u8) -> (r: Result<u8, CpuError>)
    requires
        old(cpu).wf(),
    ensures
        op_done(*final(cpu), *old(cpu), r, dec_outcome(old(cpu).address_bus@, mode, old(cpu).r)),
{
    let v = fetch(cpu, mode)?;
    let res = v.wrapping_sub(1);
    cpu.set_zn(res);
    put_back(cpu, mode, res)
}

/// What BCC does.
pub open spec fn bcc_outcome(bus: BusModel, mode: AddressModeValues, r: CpuRegisters) -> OpOutcome {
    branching(bus, mode, r, !crate::mos6502::flag_of(r.status, StatusFlag::C))
}

/// BCC: branches when C is clear.
pub fn bcc(cpu: &mut Cpu, mode: AddressModeValues, _opcode: u8) -> (r: Result<u8, CpuError>)
    requires
        old(cpu).wf(),
    ensures
        op_done(*final(cpu), *old(cpu), r, bcc_outcome(old(cpu).address_bus@, mode, old(cpu).r)),
{
    let f = cpu.get_flag(StatusFlag::C);
    branch(cpu, mode, !f)
}

/// What BCS does.
pub open spec fn bcs_outcome(bus: BusModel, mode: AddressModeValues, r: CpuRegisters) -> OpOutcome {
    branching(bus, mode, r, crate::mos6502::flag_of(r.status, StatusFlag::C))
}

/// BCS: branches when C is set.
pub fn bcs(cpu: &mut Cpu, mode: AddressModeValues, _opcode: u8) -> (r: Result<u8, CpuError>)
    requires
        old(cpu).wf(),
    ensures
        op_done(*final(cpu), *old(cpu), r, bcs_outcome(old(cpu).address_bus@, mode, old(cpu).r)),
{
    let f = cpu.get_flag(StatusFlag::C);
    branch(cpu, mode, f)
}

/// What BEQ does.
pub open spec fn beq_outcome(bus: BusModel, mode: AddressModeValues, r: CpuRegisters) -> OpOutcome {
    branching(bus, mode, r, crate::mos6502::flag_of(r.status, StatusFlag::Z))
}

/// BEQ: branches when Z is set.
pub fn beq(cpu: &mut Cpu, mode: AddressModeValues, _opcode: u8) -> (r: Result<u8, CpuError>)
    requires
        old(cpu).wf(),
    ensures
        op_done(*final(cpu), *old(cpu), r, beq_outcome(old(cpu).address_bus@, mode, old(cpu).r)),
{
    let f = cpu.get_flag(StatusFlag::Z);
    branch(cpu, mode, f)
}

/// What BNE does.
pub open spec fn bne_outcome(bus: BusModel, mode: AddressModeValues, r: CpuRegisters) -> OpOutcome {
    branching(bus, mode, r, !crate::mos6502::flag_of(r.status, StatusFlag::Z))
}

/// BNE: branches when Z is clear.
pub fn bne(cpu: &mut Cpu, mode: AddressModeValues, _opcode: u8) -> (r: Result<u8, CpuError>)
    requires
        old(cpu).wf(),
    ensures
        op_done(*final(cpu), *old(cpu), r, bne_outcome(old(cpu).address_bus@, mode, old(cpu).r)),
{
    let f = cpu.get_flag(StatusFlag::Z);
    branch(cpu, mode, !f)
}

/// What BMI does.
pub open spec fn bmi_outcome(bus: BusModel, mode: AddressModeValues, r: CpuRegisters) -> OpOutcome {
    branching(bus, mode, r, crate::mos6502::flag_of(r.status, StatusFlag::N))
}

/// BMI: branches when N is set.
pub fn bmi(cpu: &mut Cpu, mode: AddressModeValues, _opcode: u8) -> (r: Result<u8, CpuError>)
    requires
        old(cpu).wf(),
    ensures
        op_done(*final(cpu), *old(cpu), r, bmi_outcome(old(cpu).address_bus@, mode, old(cpu).r)),
{
    let f = cpu.get_flag(StatusFlag::N);
    branch(cpu, mode, f)
}

/// What BPL does.
pub open spec fn bpl_outcome(bus: BusModel, mode: AddressModeValues, r: CpuRegisters) -> OpOutcome {
    branching(bus, mode, r, !crate::mos6502::flag_of(r.status, StatusFlag::N))
}

/// BPL: branches when N is clear.
pub fn bpl(cpu: &mut Cpu, mode: AddressModeValues, _opcode: u8) -> (r: Result<u8, CpuError>)
    requires
        old(cpu).wf(),
    ensures
        op_done(*final(cpu), *old(cpu), r, bpl_outcome(old(cpu).address_bus@, mode, old(cpu).r)),
{
    let f = cpu.get_flag(StatusFlag::N);
    branch(cpu, mode, !f)
}

/// What BVC does.
pub open spec fn bvc_outcome(bus: BusModel, mode: AddressModeValues, r: CpuRegisters) -> OpOutcome {
    branching(bus, mode, r, !crate::mos6502::flag_of(r.status, StatusFlag::V))
}

/// BVC: branches when V is clear.
pub fn bvc(cpu: &mut Cpu, mode: AddressModeValues, _opcode: u8) -> (r: Result<u8, CpuError>)
    requires
        old(cpu).wf(),
    ensures
        op_done(*final(cpu), *old(cpu), r, bvc_outcome(old(cpu).address_bus@, mode, old(cpu).r)),
{
    let f = cpu.get_flag(StatusFlag::V);
    branch(cpu, mode, !f)
}

/// What BVS does.
pub open spec fn bvs_outcome(bus: BusModel, mode: AddressModeValues, r: CpuRegisters) -> OpOutcome {
    branching(bus, mode, r, crate::mos6502::flag_of(r.status, StatusFlag::V))
}

/// BVS: branches when V is set.
pub fn bvs(cpu: &mut Cpu, mode: AddressModeValues, _opcode: u8) -> (r: Result<u8, CpuError>)
    requires
        old(cpu).wf(),
    ensures
        op_done(*final(cpu), *old(cpu), r, bvs_outcome(old(cpu).address_bus@, mode, old(cpu).r)),
{
    let f = cpu.get_flag(StatusFlag::V);
    branch(cpu, mode, f)
}

/// What CLC does.
pub open spec fn clc_outcome(bus: BusModel, mode: AddressModeValues, r: CpuRegisters) -> OpOutcome {
    regs_only(bus, (CpuRegisters { status: flag_set(r.status, StatusFlag::C, false), ..r }))
}

/// CLC: clears C.
pub fn clc(cpu: &mut Cpu, mode: AddressModeValues, _opcode: u8) -> (r: Result<u8, CpuError>)
    requires
        old(cpu).wf(),
    ensures
        op_done(*final(cpu), *old(cpu), r, clc_outcome(old(cpu).address_bus@, mode, old(cpu).r)),
{
    cpu.set_flag(StatusFlag::C, false);
    Ok(0)
}

/// What CLD does.
pub open spec fn cld_outcome(bus: BusModel, mode: AddressModeValues, r: CpuRegisters) -> OpOutcome {
    regs_only(bus, (CpuRegisters { status: flag_set(r.status, StatusFlag::D, false), ..r }))
}

/// CLD: clears D.
pub fn cld(cpu: &mut Cpu, mode: AddressModeValues, _opcode: u8) -> (r: Result<u8, CpuError>)
    requires
        old(cpu).wf(),
    ensures
        op_done(*final(cpu), *old(cpu), r, cld_outcome(old(cpu).address_bus@, mode, old(cpu).r)),
{
    cpu.set_flag(StatusFlag::D, false);
    Ok(0)
}

/// What CLI does.
pub open spec fn cli_outcome(bus: BusModel, mode: AddressModeValues, r: CpuRegisters) -> OpOutcome {
    regs_only(bus, (CpuRegisters { status: flag_set(r.status, StatusFlag::I, false), ..r }))
}

/// CLI: clears I.
pub fn cli(cpu: &mut Cpu, mode: AddressModeValues, _opcode: u8) -> (r: Result<u8, CpuError>)
    requires
        old(cpu).wf(),
    ensures
        op_done(*final(cpu), *old(cpu), r, cli_outcome(old(cpu).address_bus@, mode, old(cpu).r)),
{
    cpu.set_flag(StatusFlag::I, false);
    Ok(0)
}

/// What CLV does.
pub open spec fn clv_outcome(bus: BusModel, mode: AddressModeValues, r: CpuRegisters) -> OpOutcome {
    regs_only(bus, (CpuRegisters { status: flag_set(r.status, StatusFlag::V, false), ..r }))
}

/// CLV: clears V.
pub fn clv(cpu: &mut Cpu, mode: AddressModeValues, _opcode: u8) -> (r: Result<u8, CpuError>)
    requires
        old(cpu).wf(),
    ensures
        op_done(*final(cpu), *old(cpu), r, clv_outcome(old(cpu).address_bus@, mode, old(cpu).r)),
{
    cpu.set_flag(StatusFlag::V, false);
    Ok(0)
}

/// What SEC does.
pub open spec fn sec_outcome(bus: BusModel, mode: AddressModeValues, r: CpuRegisters) -> OpOutcome {
    regs_only(bus, (CpuRegisters { status: flag_set(r.status, StatusFlag::C, true), ..r }))
}

/// SEC: sets C.
pub fn sec(cpu: &mut Cpu, mode: AddressModeValues, _opcode: u8) -> (r: Result<u8, CpuError>)
    requires
        old(cpu).wf(),
    ensures
        op_done(*final(cpu), *old(cpu), r, sec_outcome(old(cpu).address_bus@, mode, old(cpu).r)),
{
    cpu.set_flag(StatusFlag::C, true);
    Ok(0)
}

/// What SED does.
pub open spec fn sed_outcome(bus: BusModel, mode: AddressModeValues, r: CpuRegisters) -> OpOutcome {
    regs_only(bus, (CpuRegisters { status: flag_set(r.status, StatusFlag::D, true), ..r }))
}

/// SED: sets D.
pub fn sed(cpu: &mut Cpu, mode: AddressModeValues, _opcode: u8) -> (r: Result<u8, CpuError>)
    requires
        old(cpu).wf(),
    ensures
        op_done(*final(cpu), *old(cpu), r, sed_outcome(old(cpu).address_bus@, mode, old(cpu).r)),
{
    cpu.set_flag(StatusFlag::D, true);
    Ok(0)
}

/// What SEI does.
pub open spec fn sei_outcome(bus: BusModel, mode: AddressModeValues, r: CpuRegisters) -> OpOutcome {
    regs_only(bus, (CpuRegisters { status: flag_set(r.status, StatusFlag::I, true), ..r }))
}

/// SEI: sets I.
pub fn sei(cpu: &mut Cpu, mode: AddressModeValues, _opcode: u8) -> (r: Result<u8, CpuError>)
    requires
        old(cpu).wf(),
    ensures
        op_done(*final(cpu), *old(cpu), r, sei_outcome(old(cpu).address_bus@, mode, old(cpu).r)),
{
    cpu.set_flag(StatusFlag::I, true);
    Ok(0)
}

/// What TAX does.
pub open spec fn tax_outcome(bus: BusModel, mode: AddressModeValues, r: CpuRegisters) -> OpOutcome {
    regs_only(bus, load_x(r, r.a))
}

/// TAX: X = A, with Z and N.
pub fn tax(cpu: &mut Cpu, mode: AddressModeValues, _opcode: u8) -> (r: Result<u8, CpuError>)
    requires
        old(cpu).wf(),
    ensures
        op_done(*final(cpu), *old(cpu), r, tax_outcome(old(cpu).address_bus@, mode, old(cpu).r)),
{
    let v = cpu.r.a;
    cpu.r.x = v;
    cpu.set_zn(v);
    Ok(0)
}

/// What TAY does.
pub open spec fn tay_outcome(bus: BusModel, mode: AddressModeValues, r: CpuRegisters) -> OpOutcome {
    regs_only(bus, load_y(r, r.a))
}

/// TAY: Y = A, with Z and N.
pub fn tay(cpu: &mut Cpu, mode: AddressModeValues, _opcode: u8) -> (r: Result<u8, CpuError>)
    requires
        old(cpu).wf(),
    ensures
        op_done(*final(cpu), *old(cpu), r, tay_outcome(old(cpu).address_bus@, mode, old(cpu).r)),
{
    let v = cpu.r.a;
    cpu.r.y = v;
    cpu.set_zn(v);
    Ok(0)
}

/// What TSX does.
pub open spec fn tsx_outcome(bus: BusModel, mode: AddressModeValues, r: CpuRegisters) -> OpOutcome {
    regs_only(bus, load_x(r, r.sp))
}

/// TSX: X = SP, with Z and N.
pub fn tsx(cpu: &mut Cpu, mode: AddressModeValues, _opcode: u8) -> (r: Result<u8, CpuError>)
    requires
        old(cpu).wf(),
    ensures
        op_done(*final(cpu), *old(cpu), r, tsx_outcome(old(cpu).address_bus@, mode, old(cpu).r)),
{
    let v = cpu.r.sp;
    cpu.r.x = v;
    cpu.set_zn(v);
    Ok(0)
}

/// What TXA does.
pub open spec fn txa_outcome(bus: BusModel, mode: AddressModeValues, r: CpuRegisters) -> OpOutcome {
    regs_only(bus, load_a(r, r.x))
}

/// TXA: A = X, with Z and N.
pub fn txa(cpu: &mut Cpu, mode: AddressModeValues, _opcode: u8) -> (r: Result<u8, CpuError>)
    requires
        old(cpu).wf(),
    ensures
        op_done(*final(cpu), *old(cpu), r, txa_outcome(old(cpu).address_bus@, mode, old(cpu).r)),
{
    let v = cpu.r.x;
    cpu.r.a = v;
    cpu.set_zn(v);
    Ok(0)
}

/// What TYA does.
pub open spec fn tya_outcome(bus: BusModel, mode: AddressModeValues, r: CpuRegisters) -> OpOutcome {
    regs_only(bus, load_a(r, r.y))
}

/// TYA: A = Y, with Z and N.
pub fn tya(cpu: &mut Cpu, mode: AddressModeValues, _opcode: u8) -> (r: Result<u8, CpuError>)
    requires
        old(cpu).wf(),
    ensures
        op_done(*final(cpu), *old(cpu), r, tya_outcome(old(cpu).address_bus@, mode, old(cpu).r)),
{
    let v = cpu.r.y;
    cpu.r.a = v;
    cpu.set_zn(v);
    Ok(0)
}

/// What INX does.
pub open spec fn inx_outcome(bus: BusModel, mode: AddressModeValues, r: CpuRegisters) -> OpOutcome {
    regs_only(bus, load_x(r, add8(r.x as int, 1)))
}

/// INX: X = X + 1.
pub fn inx(cpu: &mut Cpu, mode: AddressModeValues, _opcode: u8) -> (r: Result<u8, CpuError>)
    requires
        old(cpu).wf(),
    ensures
        op_done(*final(cpu), *old(cpu), r, inx_outcome(old(cpu).address_bus@, mode, old(cpu).r)),
{
    let v = cpu.r.x.wrapping_add(1);
    cpu.r.x = v;
    cpu.set_zn(v);
    Ok(0)
}

/// What INY does.
pub open spec fn iny_outcome(bus: BusModel, mode: AddressModeValues, r: CpuRegisters) -> OpOutcome {
    regs_only(bus, load_y(r, add8(r.y as int, 1)))
}

/// INY: Y = Y + 1.
pub fn iny(cpu: &mut Cpu, mode: AddressModeValues, _opcode: u8) -> (r: Result<u8, CpuError>)
    requires
        old(cpu).wf(),
    ensures
        op_done(*final(cpu), *old(cpu), r, iny_outcome(old(cpu).address_bus@, mode, old(cpu).r)),
{
    let v = cpu.r.y.wrapping_add(1);
    cpu.r.y = v;
    cpu.set_zn(v);
    Ok(0)
}

/// What DEX does.
pub open spec fn dex_outcome(bus: BusModel, mode: AddressModeValues, r: CpuRegisters) -> OpOutcome {
    regs_only(bus, load_x(r, sub8(r.x as int, 1)))
}

/// DEX: X = X - 1.
pub fn dex(cpu: &mut Cpu, mode: AddressModeValues, _opcode: u8) -> (r: Result<u8, CpuError>)
    requires
        old(cpu).wf(),
    ensures
        op_done(*final(cpu), *old(cpu), r, dex_outcome(old(cpu).address_bus@, mode, old(cpu).r)),
{
    let v = cpu.r.x.wrapping_sub(1);
    cpu.r.x = v;
    cpu.set_zn(v);
    Ok(0)
}

/// What DEY does.
pub open spec fn dey_outcome(bus: BusModel, mode: AddressModeValues, r: CpuRegisters) -> OpOutcome {
    regs_only(bus, load_y(r, sub8(r.y as int, 1)))
}

/// DEY: Y = Y - 1.
pub fn dey(cpu: &mut Cpu, mode: AddressModeValues, _opcode: u8) -> (r: Result<u8, CpuError>)
    requires
        old(cpu).wf(),
    ensures
        op_done(*final(cpu), *old(cpu), r, dey_outcome(old(cpu).address_bus@, mode, old(cpu).r)),
{
    let v = cpu.r.y.wrapping_sub(1);
    cpu.r.y = v;
    cpu.set_zn(v);
    Ok(0)
}

/// What TXS does.
pub open spec fn txs_outcome(bus: BusModel, mode: AddressModeValues, r: CpuRegisters) -> OpOutcome {
    regs_only(bus, (CpuRegisters { sp: r.x, ..r }))
}

/// TXS: SP = X; no flag changes.
pub fn txs(cpu: &mut Cpu, mode: AddressModeValues, _opcode: u8) -> (r: Result<u8, CpuError>)
    requires
        old(cpu).wf(),
    ensures
        op_done(*final(cpu), *old(cpu), r, txs_outcome(old(cpu).address_bus@, mode, old(cpu).r)),
{
    cpu.r.sp = cpu.r.x;
    Ok(0)
}

/// What STA does.
pub open spec fn sta_outcome(bus: BusModel, mode: AddressModeValues, r: CpuRegisters) -> OpOutcome {
    storing(bus, mode, r, r.a)
}

/// STA: M = A.
pub fn sta(cpu: &mut Cpu, mode: AddressModeValues, _opcode: u8) -> (r: Result<u8, CpuError>)
    requires
        old(cpu).wf(),
    ensures
        op_done(*final(cpu), *old(cpu), r, sta_outcome(old(cpu).address_bus@, mode, old(cpu).r)),
{
    let v = cpu.r.a;
    cpu.write(mode.absolute_address, v, "sta")?;
    Ok(0)
}

/// What STX does.
pub open spec fn stx_outcome(bus: BusModel, mode: AddressModeValues, r: CpuRegisters) -> OpOutcome {
    storing(bus, mode, r, r.x)
}

/// STX: M = X.
pub fn stx(cpu: &mut Cpu, mode: AddressModeValues, _opcode: u8) -> (r: Result<u8, CpuError>)
    requires
        old(cpu).wf(),
    ensures
        op_done(*final(cpu), *old(cpu), r, stx_outcome(old(cpu).address_bus@, mode, old(cpu).r)),
{
    let v = cpu.r.x;
    cpu.write(mode.absolute_address, v, "stx")?;
    Ok(0)
}

/// What STY does.
pub open spec fn sty_outcome(bus: BusModel, mode: AddressModeValues, r: CpuRegisters) -> OpOutcome {
    storing(bus, mode, r, r.y)
}

/// STY: M = Y.
pub fn sty(cpu: &mut Cpu, mode: AddressModeValues, _opcode: u8) -> (r: Result<u8, CpuError>)
    requires
        old(cpu).wf(),
    ensures
        op_done(*final(cpu), *old(cpu), r, sty_outcome(old(cpu).address_bus@, mode, old(cpu).r)),
{
    let v = cpu.r.y;
    cpu.write(mode.absolute_address, v, "sty")?;
    Ok(0)
}

/// What JMP does.
pub open spec fn jmp_outcome(bus: BusModel, mode: AddressModeValues, r: CpuRegisters) -> OpOutcome {
    regs_only(bus, (CpuRegisters { pc: mode.absolute_address, ..r }))
}

/// JMP: PC = the effective address.
pub fn jmp(cpu: &mut Cpu, mode: AddressModeValues, _opcode: u8) -> (r: Result<u8, CpuError>)
    requires
        old(cpu).wf(),
    ensures
        op_done(*final(cpu), *old(cpu), r, jmp_outcome(old(cpu).address_bus@, mode, old(cpu).r)),
{
    cpu.r.pc = mode.absolute_address;
    Ok(0)
}

/// What PHA does.
pub open spec fn pha_outcome(bus: BusModel, mode: AddressModeValues, r: CpuRegisters) -> OpOutcome {
    pha_spec(bus, r)
}

/// PHA: pushes A.
pub fn pha(cpu: &mut Cpu, mode: AddressModeValues, _opcode: u8) -> (r: Result<u8, CpuError>)
    requires
        old(cpu).wf(),
    ensures
        op_done(*final(cpu), *old(cpu), r, pha_outcome(old(cpu).address_bus@, mode, old(cpu).r)),
{
    let a = cpu.r.a;
    push_byte(cpu, a)?;
    Ok(0)
}

/// What PHP does.
pub open spec fn php_outcome(bus: BusModel, mode: AddressModeValues, r: CpuRegisters) -> OpOutcome {
    php_spec(bus, r)
}

/// PHP: pushes P with B and U set.
pub fn php(cpu: &mut Cpu, mode: AddressModeValues, _opcode: u8) -> (r: Result<u8, CpuError>)
    requires
        old(cpu).wf(),
    ensures
        op_done(*final(cpu), *old(cpu), r, php_outcome(old(cpu).address_bus@, mode, old(cpu).r)),
{
    let p = cpu.r.status | StatusFlag::B | StatusFlag::U;
    push_byte(cpu, p)?;
    cpu.set_flag(StatusFlag::B, false);
    Ok(0)
}

/// What PLA does.
pub open spec fn pla_outcome(bus: BusModel, mode: AddressModeValues, r: CpuRegisters) -> OpOutcome {
    pla_spec(bus, r)
}

/// PLA: pulls A.
pub fn pla(cpu: &mut Cpu, mode: AddressModeValues, _opcode: u8) -> (r: Result<u8, CpuError>)
    requires
        old(cpu).wf(),
    ensures
        op_done(*final(cpu), *old(cpu), r, pla_outcome(old(cpu).address_bus@, mode, old(cpu).r)),
{
    let v = pull_byte(cpu)?;
    cpu.r.a = v;
    cpu.set_zn(v);
    Ok(0)
}

/// What PLP does.
pub open spec fn plp_outcome(bus: BusModel, mode: AddressModeValues, r: CpuRegisters) -> OpOutcome {
    plp_spec(bus, r)
}

/// PLP: pulls P; U stays set.
pub fn plp(cpu: &mut Cpu, mode: AddressModeValues, _opcode: u8) -> (r: Result<u8, CpuError>)
    requires
        old(cpu).wf(),
    ensures
        op_done(*final(cpu), *old(cpu), r, plp_outcome(old(cpu).address_bus@, mode, old(cpu).r)),
{
    let v = pull_byte(cpu)?;
    cpu.r.status = v | StatusFlag::U;
    Ok(0)
}

/// What JSR does.
pub open spec fn jsr_outcome(bus: BusModel, mode: AddressModeValues, r: CpuRegisters) -> OpOutcome {
    jsr_spec(bus, mode, r)
}

/// JSR: pushes the return address less one and jumps.
pub fn jsr(cpu: &mut Cpu, mode: AddressModeValues, _opcode: u8) -> (r: Result<u8, CpuError>)
    requires
        old(cpu).wf(),
    ensures
        op_done(*final(cpu), *old(cpu), r, jsr_outcome(old(cpu).address_bus@, mode, old(cpu).r)),
{
    let ret = cpu.r.pc.wrapping_sub(1);
    push_byte(cpu, (ret / 256) as u8)?;
    push_byte(cpu, (ret % 256) as u8)?;
    cpu.r.pc = mode.absolute_address;
    Ok(0)
}

/// What RTS does.
pub open spec fn rts_outcome(bus: BusModel, mode: AddressModeValues, r: CpuRegisters) -> OpOutcome {
    rts_spec(bus, r)
}

/// RTS: returns to the pulled address plus one.
pub fn rts(cpu: &mut Cpu, mode: AddressModeValues, _opcode: u8) -> (r: Result<u8, CpuError>)
    requires
        old(cpu).wf(),
    ensures
        op_done(*final(cpu), *old(cpu), r, rts_outcome(old(cpu).address_bus@, mode, old(cpu).r)),
{
    let lo = pull_byte(cpu)?;
    let hi = pull_byte(cpu)?;
    cpu.r.pc = (hi as u16 * 256 + lo as u16).wrapping_add(1);
    Ok(0)
}

/// What RTI does.
pub open spec fn rti_outcome(bus: BusModel, mode: AddressModeValues, r: CpuRegisters) -> OpOutcome {
    rti_spec(bus, r)
}

/// RTI: pulls P, then PC.
pub fn rti(cpu: &mut Cpu, mode: AddressModeValues, _opcode: u8) -> (r: Result<u8, CpuError>)
    requires
        old(cpu).wf(),
    ensures
        op_done(*final(cpu), *old(cpu), r, rti_outcome(old(cpu).address_bus@, mode, old(cpu).r)),
{
    let p = pull_byte(cpu)?;
    let lo = pull_byte(cpu)?;
    let hi = pull_byte(cpu)?;
    cpu.r.status = p | StatusFlag::U;
    cpu.r.pc = hi as u16 * 256 + lo as u16;
    Ok(0)
}

/// What BRK does.
pub open spec fn brk_outcome(bus: BusModel, mode: AddressModeValues, r: CpuRegisters) -> OpOutcome {
    brk_spec(bus, r)
}

/// BRK: software interrupt through $FFFE/$FFFF.
pub fn brk(cpu: &mut Cpu, mode: AddressModeValues, _opcode: u8) -> (r: Result<u8, CpuError>)
    requires
        old(cpu).wf(),
    ensures
        op_done(*final(cpu), *old(cpu), r, brk_outcome(old(cpu).address_bus@, mode, old(cpu).r)),
{
    let pc = cpu.r.pc;
    let p = cpu.r.status | StatusFlag::B | StatusFlag::U;
    push_byte(cpu, (pc / 256) as u8)?;
    push_byte(cpu, (pc % 256) as u8)?;
    push_byte(cpu, p)?;
    cpu.set_flag(StatusFlag::I, true);
    cpu.set_flag(StatusFlag::B, false);
    let hi = cpu.read(0xFFFF, "brk")?;
    let lo = cpu.read(0xFFFE, "brk")?;
    cpu.r.pc = hi as u16 * 256 + lo as u16;
    Ok(0)
}

/// What NOP does: nothing, but the absolute,X forms cost a cycle more.
pub open spec fn nop_outcome(bus: BusModel, mode: AddressModeValues, r: CpuRegisters, opcode: u8) -> OpOutcome {
    let extra: u8 = if opcode == 0x1C || opcode == 0x3C || opcode == 0x5C || opcode == 0x7C
        || opcode == 0xDC || opcode == 0xFC {
        1
    } else {
        0
    };
    (bus, r, Some(extra))
}

/// NOP, also for most undocumented opcodes.
pub fn nop(cpu: &mut Cpu, mode: AddressModeValues, opcode: u8) -> (r: Result<u8, CpuError>)
    requires
        old(cpu).wf(),
    ensures
        op_done(*final(cpu), *old(cpu), r, nop_outcome(old(cpu).address_bus@, mode, old(cpu).r, opcode)),
{
    if opcode == 0x1C || opcode == 0x3C || opcode == 0x5C || opcode == 0x7C || opcode == 0xDC
        || opcode == 0xFC {
        Ok(1)
    } else {
        Ok(0)
    }
}

/// What an opcode without an instruction does: nothing.
pub open spec fn xxx_outcome(bus: BusModel, mode: AddressModeValues, r: CpuRegisters) -> OpOutcome {
    regs_only(bus, r)
}

/// An opcode with no instruction: does nothing.
pub fn xxx(cpu: &mut Cpu, mode: AddressModeValues, _opcode: u8) -> (r: Result<u8, CpuError>)
    requires
        old(cpu).wf(),
    ensures
        op_done(*final(cpu), *old(cpu), r, xxx_outcome(old(cpu).address_bus@, mode, old(cpu).r)),
{
    Ok(0)
}

} // verus!
