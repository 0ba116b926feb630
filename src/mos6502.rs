//! The 6502 core: registers and flags, the dispatch table, the per-cycle
//! step, reset and interrupts.
use vstd::prelude::*;

use crate::mc6821::InterruptSignal;
use crate::address_bus::{is_ram, lemma_write_then_read, AddressBus, BusModel};
use crate::addressmodes::{
    abs, abx, aby, imm, imp, ind, izx, izy, rel, zp0, zpx, zpy, imm_mode, imp_mode, ind_mode, izx_mode, izy_mode, mode_done, rel_mode, word_mode, zero_page_mode, ModeOutcome,
};
use crate::operations::{
    adc, and, asl, bcc, bcs, beq, bit, bmi, bne, bpl, brk, bvc, bvs, clc, cld, cli, clv, cmp, cpx, cpy, dec, dex, dey, eor, inc, inx, iny, jmp, jsr, lda, ldx, ldy, lsr, nop, ora, pha, php, pla, plp, rol, ror, rti, rts, sbc, sec, sed, sei, sta, stx, sty, tax, tay, tsx, txa, txs, tya, xxx, adc_regs, asl_of, bit_test, branching, brk_spec, compare, dec_of, inc_of, jsr_spec, load_a, load_x, load_y, lsr_of, modifying, op_done, pha_spec, php_spec, pla_spec, plp_spec, pull, lda_outcome, ldx_outcome, ldy_outcome, and_outcome, ora_outcome, eor_outcome, cmp_outcome, cpx_outcome, cpy_outcome, bit_outcome, adc_outcome, sbc_outcome, asl_outcome, lsr_outcome, rol_outcome, ror_outcome, inc_outcome, dec_outcome, bcc_outcome, bcs_outcome, beq_outcome, bne_outcome, bmi_outcome, bpl_outcome, bvc_outcome, bvs_outcome, clc_outcome, cld_outcome, cli_outcome, clv_outcome, sec_outcome, sed_outcome, sei_outcome, tax_outcome, tay_outcome, tsx_outcome, txa_outcome, tya_outcome, inx_outcome, iny_outcome, dex_outcome, dey_outcome, txs_outcome, sta_outcome, stx_outcome, sty_outcome, jmp_outcome, pha_outcome, php_outcome, pla_outcome, plp_outcome, jsr_outcome, rts_outcome, rti_outcome, brk_outcome, nop_outcome, xxx_outcome, push, push_byte, reading, regs_only, rol_of, ror_of, rti_spec, rts_spec, sbc_regs, storing, OpOutcome,
};

verus! {

/// Masks of the bits of the status register.
pub struct StatusFlag;

impl StatusFlag {
    /// carry
    pub const C: u8 = 0x01;
    /// zero
    pub const Z: u8 = 0x02;
    /// interrupt disable
    pub const I: u8 = 0x04;
    /// decimal mode
    pub const D: u8 = 0x08;
    /// break
    pub const B: u8 = 0x10;
    /// unused, reads as 1
    pub const U: u8 = 0x20;
    /// overflow
    pub const V: u8 = 0x40;
    /// negative
    pub const N: u8 = 0x80;
}

/// The programmer-visible registers of the 6502.
#[derive(Debug, Clone, Copy, Default, PartialEq, Eq)]
pub struct CpuRegisters {
    pub a: u8,
    pub x: u8,
    pub y: u8,
    pub pc: u16,
    pub sp: u8,
    pub status: u8,
}

/// What an addressing mode produced.
#[derive(Debug, PartialEq, Eq, Structural, Clone, Copy)]
pub enum AddressModeResult {
    /// an effective address in `absolute_address`
    Absolute,
    /// a sign-extended branch offset in `relative_address`
    Relative,
    /// an operand already at hand in `fetched_value`
    Fetched,
}

/// The result of an addressing mode, with the extra cycle a page crossing costs.
#[derive(Debug, Clone, Copy)]
pub struct AddressModeValues {
    pub result: AddressModeResult,
    pub absolute_address: u16,
    pub relative_address: u16,
    pub fetched_value: u8,
    pub add_cycles: u8,
}

/// A failed bus access during an instruction, with the operation and the
/// program counter at which it happened.
#[derive(Debug)]
pub struct CpuError {
    pub operation: String,
    pub pc: u16,
}

impl CpuError {
    pub fn new(operation: &str, pc: u16) -> (r: CpuError)
        ensures
            r.operation@ == operation@,
            r.pc == pc,
    {
        CpuError { operation: operation.to_owned(), pc }
    }
}

/// A 6502 that owns the bus it runs on. `remaining_cycles` counts the host
/// cycles still owed to the instruction being executed.
pub struct Cpu {
    pub r: CpuRegisters,
    pub remaining_cycles: u8,
    pub address_bus: AddressBus,
    /// address of the instruction executed last
    pub current_pc: u16,
}

/// `x + y` modulo 256.
pub open spec fn add8(x: int, y: int) -> u8 {
    ((x + y) % 256) as u8
}

/// `x - y` modulo 256.
pub open spec fn sub8(x: int, y: int) -> u8 {
    ((x - y) % 256) as u8
}

/// `x + y` modulo 65536.
pub open spec fn add16(x: int, y: int) -> u16 {
    ((x + y) % 0x10000) as u16
}

/// `x - y` modulo 65536.
pub open spec fn sub16(x: int, y: int) -> u16 {
    ((x - y) % 0x10000) as u16
}

/// The little-endian word of two bytes.
pub open spec fn word(lo: u8, hi: u8) -> u16 {
    (hi * 256 + lo) as u16
}

/// The high byte of a word.
pub open spec fn hi_byte(w: u16) -> u8 {
    (w / 256) as u8
}

/// The low byte of a word.
pub open spec fn lo_byte(w: u16) -> u8 {
    (w % 256) as u8
}

/// The stack address for stack pointer `sp`: page $01.
pub open spec fn stack_addr(sp: u8) -> u16 {
    (0x100 + sp) as u16
}

/// `status` with the bits of `flag` set or cleared.
pub open spec fn flag_set(status: u8, flag: u8, value: bool) -> u8 {
    if value {
        status | flag
    } else {
        status & !flag
    }
}

/// `status` with Z and N describing `v`.
pub open spec fn with_zn(status: u8, v: u8) -> u8 {
    flag_set(flag_set(status, StatusFlag::Z, v == 0), StatusFlag::N, v & 0x80 != 0)
}

/// Whether `flag` is set in `status`.
pub open spec fn flag_of(status: u8, flag: u8) -> bool {
    status & flag != 0
}

impl Cpu {
    pub open spec fn wf(&self) -> bool {
        self.address_bus.wf()
    }

    /// The cycle bookkeeping is the same in both states.
    pub open spec fn same_cycles(&self, other: Cpu) -> bool {
        self.remaining_cycles == other.remaining_cycles && self.current_pc == other.current_pc
    }

    /// The registers and the bus are as given, the rest is unchanged from `other`.
    pub open spec fn is(&self, other: Cpu, r: CpuRegisters, bus: BusModel) -> bool {
        &&& self.same_cycles(other)
        &&& self.r == r
        &&& self.address_bus@ == bus
    }

    /// A CPU with the given registers and bus, idle.
    pub fn new(r: CpuRegisters, address_bus: AddressBus) -> (c: Cpu)
        ensures
            c.r == r,
            c.address_bus == address_bus,
            c.remaining_cycles == 0,
            c.current_pc == 0,
    {
        Cpu { r, remaining_cycles: 0, address_bus, current_pc: 0 }
    }

    /// Sets (`value`) or clears the status bits of `flag`.
    pub fn set_flag(&mut self, flag: u8, value: bool)
        ensures
            final(self).r == (CpuRegisters {
                status: flag_set(old(self).r.status, flag, value),
                ..old(self).r
            }),
            final(self).address_bus == old(self).address_bus,
            final(self).same_cycles(*old(self)),
    {
        if value {
            self.r.status = self.r.status | flag;
        } else {
            self.r.status = self.r.status & !flag;
        }
    }

    /// Whether a status bit of `flag` is set.
    pub fn get_flag(&self, flag: u8) -> (r: bool)
        ensures
            r == flag_of(self.r.status, flag),
    {
        self.r.status & flag != 0
    }

    /// Sets Z and N from `v`.
    pub fn set_zn(&mut self, v: u8)
        ensures
            final(self).r == (CpuRegisters { status: with_zn(old(self).r.status, v), ..old(self).r }),
            final(self).address_bus == old(self).address_bus,
            final(self).same_cycles(*old(self)),
    {
        self.set_flag(StatusFlag::Z, v == 0);
        self.set_flag(StatusFlag::N, v & 0x80 != 0);
    }

    /// Reads a byte through the bus; a failed access becomes a `CpuError`
    /// carrying the address of the instruction.
    pub fn read(&mut self, addr: u16, operation: &str) -> (r: Result<u8, CpuError>)
        requires
            old(self).wf(),
        ensures
            final(self).wf(),
            final(self).r == old(self).r,
            final(self).same_cycles(*old(self)),
            final(self).address_bus@ == old(self).address_bus@.read(addr).0,
            final(self).address_bus@.layout() == old(self).address_bus@.layout(),
            r is Ok <==> old(self).address_bus@.read(addr).1 is Some,
            r matches Ok(v) ==> old(self).address_bus@.read(addr).1 == Some(v),
    {
        match self.address_bus.read(addr) {
            Ok(v) => Ok(v),
            Err(_) => Err(CpuError::new(operation, self.current_pc)),
        }
    }

    /// Writes a byte through the bus; a failed access becomes a `CpuError`
    /// carrying the address of the instruction.
    pub fn write(&mut self, addr: u16, data: u8, operation: &str) -> (r: Result<(), CpuError>)
        requires
            old(self).wf(),
        ensures
            final(self).wf(),
            final(self).r == old(self).r,
            final(self).same_cycles(*old(self)),
            final(self).address_bus@ == old(self).address_bus@.write(addr, data).0,
            final(self).address_bus@.layout() == old(self).address_bus@.layout(),
            r is Ok <==> old(self).address_bus@.write(addr, data).1,
    {
        match self.address_bus.write(addr, data) {
            Ok(()) => Ok(()),
            Err(_) => Err(CpuError::new(operation, self.current_pc)),
        }
    }

    /// Reset: status holds only U, A = X = Y = 0, SP = $FD, PC from the reset
    /// vector at $FFFC/$FFFD, and 7 cycles owed. An unreadable vector is an error.
    pub fn reset(&mut self) -> (r: Result<(), CpuError>)
        requires
            old(self).wf(),
        ensures
            final(self).wf(),
            final(self).address_bus@.layout() == old(self).address_bus@.layout(),
            ({
                let (b1, lo) = old(self).address_bus@.read(0xFFFC);
                let (b2, hi) = b1.read(0xFFFD);
                &&& (r is Ok <==> lo is Some && hi is Some)
                &&& r is Ok ==> {
                    &&& final(self).r == CpuRegisters {
                        a: 0,
                        x: 0,
                        y: 0,
                        pc: word(lo->Some_0, hi->Some_0),
                        sp: 0xFD,
                        status: StatusFlag::U,
                    }
                    &&& final(self).address_bus@ == b2
                    &&& final(self).remaining_cycles == 7
                    &&& final(self).current_pc == old(self).current_pc
                }
            }),
    {
        self.r.status = StatusFlag::U;
        self.r.a = 0;
        self.r.x = 0;
        self.r.y = 0;
        self.r.sp = 0xFD;
        let lo = self.read(0xFFFC, "reset")?;
        let hi = self.read(0xFFFD, "reset")?;
        self.r.pc = hi as u16 * 256 + lo as u16;
        self.remaining_cycles = 7;
        Ok(())
    }
}

/// The instructions of the dispatch table.
#[derive(PartialEq, Eq, Structural, Clone, Copy, Debug)]
pub enum Operation {
    Adc,
    And,
    Asl,
    Bcc,
    Bcs,
    Beq,
    Bit,
    Bmi,
    Bne,
    Bpl,
    Brk,
    Bvc,
    Bvs,
    Clc,
    Cld,
    Cli,
    Clv,
    Cmp,
    Cpx,
    Cpy,
    Dec,
    Dex,
    Dey,
    Eor,
    Inc,
    Inx,
    Iny,
    Jmp,
    Jsr,
    Lda,
    Ldx,
    Ldy,
    Lsr,
    Nop,
    Ora,
    Pha,
    Php,
    Pla,
    Plp,
    Rol,
    Ror,
    Rti,
    Rts,
    Sbc,
    Sec,
    Sed,
    Sei,
    Sta,
    Stx,
    Sty,
    Tax,
    Tay,
    Tsx,
    Txa,
    Txs,
    Tya,
    Xxx,
}

/// The addressing modes of the dispatch table.
#[derive(PartialEq, Eq, Structural, Clone, Copy, Debug)]
pub enum AddressMode {
    Abs,
    Abx,
    Aby,
    Imm,
    Imp,
    Ind,
    Izx,
    Izy,
    Rel,
    Zp0,
    Zpx,
    Zpy,
}

/// One entry of the dispatch table: instruction, addressing mode and base cycles.
#[derive(PartialEq, Eq, Structural, Clone, Copy, Debug)]
pub struct Instruction {
    pub operation: Operation,
    pub address_mode: AddressMode,
    pub cycles: u8,
}

/// The dispatch table. Opcodes without a documented instruction do nothing,
/// except $EB, which behaves as SBC.
#[verifier::opaque]
pub open spec fn instruction_table(opcode: u8) -> Instruction {
    match opcode {
        0x00 => Instruction { operation: Operation::Brk, address_mode: AddressMode::Imm, cycles: 7 },
        0x01 => Instruction { operation: Operation::Ora, address_mode: AddressMode::Izx, cycles: 6 },
        0x02 => Instruction { operation: Operation::Xxx, address_mode: AddressMode::Imp, cycles: 2 },
        0x03 => Instruction { operation: Operation::Xxx, address_mode: AddressMode::Imp, cycles: 8 },
        0x04 => Instruction { operation: Operation::Nop, address_mode: AddressMode::Imp, cycles: 3 },
        0x05 => Instruction { operation: Operation::Ora, address_mode: AddressMode::Zp0, cycles: 3 },
        0x06 => Instruction { operation: Operation::Asl, address_mode: AddressMode::Zp0, cycles: 5 },
        0x07 => Instruction { operation: Operation::Xxx, address_mode: AddressMode::Imp, cycles: 5 },
        0x08 => Instruction { operation: Operation::Php, address_mode: AddressMode::Imp, cycles: 3 },
        0x09 => Instruction { operation: Operation::Ora, address_mode: AddressMode::Imm, cycles: 2 },
        0x0A => Instruction { operation: Operation::Asl, address_mode: AddressMode::Imp, cycles: 2 },
        0x0B => Instruction { operation: Operation::Xxx, address_mode: AddressMode::Imp, cycles: 2 },
        0x0C => Instruction { operation: Operation::Nop, address_mode: AddressMode::Imp, cycles: 4 },
        0x0D => Instruction { operation: Operation::Ora, address_mode: AddressMode::Abs, cycles: 4 },
        0x0E => Instruction { operation: Operation::Asl, address_mode: AddressMode::Abs, cycles: 6 },
        0x0F => Instruction { operation: Operation::Xxx, address_mode: AddressMode::Imp, cycles: 6 },
        0x10 => Instruction { operation: Operation::Bpl, address_mode: AddressMode::Rel, cycles: 2 },
        0x11 => Instruction { operation: Operation::Ora, address_mode: AddressMode::Izy, cycles: 5 },
        0x12 => Instruction { operation: Operation::Xxx, address_mode: AddressMode::Imp, cycles: 2 },
        0x13 => Instruction { operation: Operation::Xxx, address_mode: AddressMode::Imp, cycles: 8 },
        0x14 => Instruction { operation: Operation::Nop, address_mode: AddressMode::Imp, cycles: 4 },
        0x15 => Instruction { operation: Operation::Ora, address_mode: AddressMode::Zpx, cycles: 4 },
        0x16 => Instruction { operation: Operation::Asl, address_mode: AddressMode::Zpx, cycles: 6 },
        0x17 => Instruction { operation: Operation::Xxx, address_mode: AddressMode::Imp, cycles: 6 },
        0x18 => Instruction { operation: Operation::Clc, address_mode: AddressMode::Imp, cycles: 2 },
        0x19 => Instruction { operation: Operation::Ora, address_mode: AddressMode::Aby, cycles: 4 },
        0x1A => Instruction { operation: Operation::Nop, address_mode: AddressMode::Imp, cycles: 2 },
        0x1B => Instruction { operation: Operation::Xxx, address_mode: AddressMode::Imp, cycles: 7 },
        0x1C => Instruction { operation: Operation::Nop, address_mode: AddressMode::Imp, cycles: 4 },
        0x1D => Instruction { operation: Operation::Ora, address_mode: AddressMode::Abx, cycles: 4 },
        0x1E => Instruction { operation: Operation::Asl, address_mode: AddressMode::Abx, cycles: 7 },
        0x1F => Instruction { operation: Operation::Xxx, address_mode: AddressMode::Imp, cycles: 7 },
        0x20 => Instruction { operation: Operation::Jsr, address_mode: AddressMode::Abs, cycles: 6 },
        0x21 => Instruction { operation: Operation::And, address_mode: AddressMode::Izx, cycles: 6 },
        0x22 => Instruction { operation: Operation::Xxx, address_mode: AddressMode::Imp, cycles: 2 },
        0x23 => Instruction { operation: Operation::Xxx, address_mode: AddressMode::Imp, cycles: 8 },
        0x24 => Instruction { operation: Operation::Bit, address_mode: AddressMode::Zp0, cycles: 3 },
        0x25 => Instruction { operation: Operation::And, address_mode: AddressMode::Zp0, cycles: 3 },
        0x26 => Instruction { operation: Operation::Rol, address_mode: AddressMode::Zp0, cycles: 5 },
        0x27 => Instruction { operation: Operation::Xxx, address_mode: AddressMode::Imp, cycles: 5 },
        0x28 => Instruction { operation: Operation::Plp, address_mode: AddressMode::Imp, cycles: 4 },
        0x29 => Instruction { operation: Operation::And, address_mode: AddressMode::Imm, cycles: 2 },
        0x2A => Instruction { operation: Operation::Rol, address_mode: AddressMode::Imp, cycles: 2 },
        0x2B => Instruction { operation: Operation::Xxx, address_mode: AddressMode::Imp, cycles: 2 },
        0x2C => Instruction { operation: Operation::Bit, address_mode: AddressMode::Abs, cycles: 4 },
        0x2D => Instruction { operation: Operation::And, address_mode: AddressMode::Abs, cycles: 4 },
        0x2E => Instruction { operation: Operation::Rol, address_mode: AddressMode::Abs, cycles: 6 },
        0x2F => Instruction { operation: Operation::Xxx, address_mode: AddressMode::Imp, cycles: 6 },
        0x30 => Instruction { operation: Operation::Bmi, address_mode: AddressMode::Rel, cycles: 2 },
        0x31 => Instruction { operation: Operation::And, address_mode: AddressMode::Izy, cycles: 5 },
        0x32 => Instruction { operation: Operation::Xxx, address_mode: AddressMode::Imp, cycles: 2 },
        0x33 => Instruction { operation: Operation::Xxx, address_mode: AddressMode::Imp, cycles: 8 },
        0x34 => Instruction { operation: Operation::Nop, address_mode: AddressMode::Imp, cycles: 4 },
        0x35 => Instruction { operation: Operation::And, address_mode: AddressMode::Zpx, cycles: 4 },
        0x36 => Instruction { operation: Operation::Rol, address_mode: AddressMode::Zpx, cycles: 6 },
        0x37 => Instruction { operation: Operation::Xxx, address_mode: AddressMode::Imp, cycles: 6 },
        0x38 => Instruction { operation: Operation::Sec, address_mode: AddressMode::Imp, cycles: 2 },
        0x39 => Instruction { operation: Operation::And, address_mode: AddressMode::Aby, cycles: 4 },
        0x3A => Instruction { operation: Operation::Nop, address_mode: AddressMode::Imp, cycles: 2 },
        0x3B => Instruction { operation: Operation::Xxx, address_mode: AddressMode::Imp, cycles: 7 },
        0x3C => Instruction { operation: Operation::Nop, address_mode: AddressMode::Imp, cycles: 4 },
        0x3D => Instruction { operation: Operation::And, address_mode: AddressMode::Abx, cycles: 4 },
        0x3E => Instruction { operation: Operation::Rol, address_mode: AddressMode::Abx, cycles: 7 },
        0x3F => Instruction { operation: Operation::Xxx, address_mode: AddressMode::Imp, cycles: 7 },
        0x40 => Instruction { operation: Operation::Rti, address_mode: AddressMode::Imp, cycles: 6 },
        0x41 => Instruction { operation: Operation::Eor, address_mode: AddressMode::Izx, cycles: 6 },
        0x42 => Instruction { operation: Operation::Xxx, address_mode: AddressMode::Imp, cycles: 2 },
        0x43 => Instruction { operation: Operation::Xxx, address_mode: AddressMode::Imp, cycles: 8 },
        0x44 => Instruction { operation: Operation::Nop, address_mode: AddressMode::Imp, cycles: 3 },
        0x45 => Instruction { operation: Operation::Eor, address_mode: AddressMode::Zp0, cycles: 3 },
        0x46 => Instruction { operation: Operation::Lsr, address_mode: AddressMode::Zp0, cycles: 5 },
        0x47 => Instruction { operation: Operation::Xxx, address_mode: AddressMode::Imp, cycles: 5 },
        0x48 => Instruction { operation: Operation::Pha, address_mode: AddressMode::Imp, cycles: 3 },
        0x49 => Instruction { operation: Operation::Eor, address_mode: AddressMode::Imm, cycles: 2 },
        0x4A => Instruction { operation: Operation::Lsr, address_mode: AddressMode::Imp, cycles: 2 },
        0x4B => Instruction { operation: Operation::Xxx, address_mode: AddressMode::Imp, cycles: 2 },
        0x4C => Instruction { operation: Operation::Jmp, address_mode: AddressMode::Abs, cycles: 3 },
        0x4D => Instruction { operation: Operation::Eor, address_mode: AddressMode::Abs, cycles: 4 },
        0x4E => Instruction { operation: Operation::Lsr, address_mode: AddressMode::Abs, cycles: 6 },
        0x4F => Instruction { operation: Operation::Xxx, address_mode: AddressMode::Imp, cycles: 6 },
        0x50 => Instruction { operation: Operation::Bvc, address_mode: AddressMode::Rel, cycles: 2 },
        0x51 => Instruction { operation: Operation::Eor, address_mode: AddressMode::Izy, cycles: 5 },
        0x52 => Instruction { operation: Operation::Xxx, address_mode: AddressMode::Imp, cycles: 2 },
        0x53 => Instruction { operation: Operation::Xxx, address_mode: AddressMode::Imp, cycles: 8 },
        0x54 => Instruction { operation: Operation::Nop, address_mode: AddressMode::Imp, cycles: 4 },
        0x55 => Instruction { operation: Operation::Eor, address_mode: AddressMode::Zpx, cycles: 4 },
        0x56 => Instruction { operation: Operation::Lsr, address_mode: AddressMode::Zpx, cycles: 6 },
        0x57 => Instruction { operation: Operation::Xxx, address_mode: AddressMode::Imp, cycles: 6 },
        0x58 => Instruction { operation: Operation::Cli, address_mode: AddressMode::Imp, cycles: 2 },
        0x59 => Instruction { operation: Operation::Eor, address_mode: AddressMode::Aby, cycles: 4 },
        0x5A => Instruction { operation: Operation::Nop, address_mode: AddressMode::Imp, cycles: 2 },
        0x5B => Instruction { operation: Operation::Xxx, address_mode: AddressMode::Imp, cycles: 7 },
        0x5C => Instruction { operation: Operation::Nop, address_mode: AddressMode::Imp, cycles: 4 },
        0x5D => Instruction { operation: Operation::Eor, address_mode: AddressMode::Abx, cycles: 4 },
        0x5E => Instruction { operation: Operation::Lsr, address_mode: AddressMode::Abx, cycles: 7 },
        0x5F => Instruction { operation: Operation::Xxx, address_mode: AddressMode::Imp, cycles: 7 },
        0x60 => Instruction { operation: Operation::Rts, address_mode: AddressMode::Imp, cycles: 6 },
        0x61 => Instruction { operation: Operation::Adc, address_mode: AddressMode::Izx, cycles: 6 },
        0x62 => Instruction { operation: Operation::Xxx, address_mode: AddressMode::Imp, cycles: 2 },
        0x63 => Instruction { operation: Operation::Xxx, address_mode: AddressMode::Imp, cycles: 8 },
        0x64 => Instruction { operation: Operation::Nop, address_mode: AddressMode::Imp, cycles: 3 },
        0x65 => Instruction { operation: Operation::Adc, address_mode: AddressMode::Zp0, cycles: 3 },
        0x66 => Instruction { operation: Operation::Ror, address_mode: AddressMode::Zp0, cycles: 5 },
        0x67 => Instruction { operation: Operation::Xxx, address_mode: AddressMode::Imp, cycles: 5 },
        0x68 => Instruction { operation: Operation::Pla, address_mode: AddressMode::Imp, cycles: 4 },
        0x69 => Instruction { operation: Operation::Adc, address_mode: AddressMode::Imm, cycles: 2 },
        0x6A => Instruction { operation: Operation::Ror, address_mode: AddressMode::Imp, cycles: 2 },
        0x6B => Instruction { operation: Operation::Xxx, address_mode: AddressMode::Imp, cycles: 2 },
        0x6C => Instruction { operation: Operation::Jmp, address_mode: AddressMode::Ind, cycles: 5 },
        0x6D => Instruction { operation: Operation::Adc, address_mode: AddressMode::Abs, cycles: 4 },
        0x6E => Instruction { operation: Operation::Ror, address_mode: AddressMode::Abs, cycles: 6 },
        0x6F => Instruction { operation: Operation::Xxx, address_mode: AddressMode::Imp, cycles: 6 },
        0x70 => Instruction { operation: Operation::Bvs, address_mode: AddressMode::Rel, cycles: 2 },
        0x71 => Instruction { operation: Operation::Adc, address_mode: AddressMode::Izy, cycles: 5 },
        0x72 => Instruction { operation: Operation::Xxx, address_mode: AddressMode::Imp, cycles: 2 },
        0x73 => Instruction { operation: Operation::Xxx, address_mode: AddressMode::Imp, cycles: 8 },
        0x74 => Instruction { operation: Operation::Nop, address_mode: AddressMode::Imp, cycles: 4 },
        0x75 => Instruction { operation: Operation::Adc, address_mode: AddressMode::Zpx, cycles: 4 },
        0x76 => Instruction { operation: Operation::Ror, address_mode: AddressMode::Zpx, cycles: 6 },
        0x77 => Instruction { operation: Operation::Xxx, address_mode: AddressMode::Imp, cycles: 6 },
        0x78 => Instruction { operation: Operation::Sei, address_mode: AddressMode::Imp, cycles: 2 },
        0x79 => Instruction { operation: Operation::Adc, address_mode: AddressMode::Aby, cycles: 4 },
        0x7A => Instruction { operation: Operation::Nop, address_mode: AddressMode::Imp, cycles: 2 },
        0x7B => Instruction { operation: Operation::Xxx, address_mode: AddressMode::Imp, cycles: 7 },
        0x7C => Instruction { operation: Operation::Nop, address_mode: AddressMode::Imp, cycles: 4 },
        0x7D => Instruction { operation: Operation::Adc, address_mode: AddressMode::Abx, cycles: 4 },
        0x7E => Instruction { operation: Operation::Ror, address_mode: AddressMode::Abx, cycles: 7 },
        0x7F => Instruction { operation: Operation::Xxx, address_mode: AddressMode::Imp, cycles: 7 },
        0x80 => Instruction { operation: Operation::Nop, address_mode: AddressMode::Imp, cycles: 2 },
        0x81 => Instruction { operation: Operation::Sta, address_mode: AddressMode::Izx, cycles: 6 },
        0x82 => Instruction { operation: Operation::Nop, address_mode: AddressMode::Imp, cycles: 2 },
        0x83 => Instruction { operation: Operation::Xxx, address_mode: AddressMode::Imp, cycles: 6 },
        0x84 => Instruction { operation: Operation::Sty, address_mode: AddressMode::Zp0, cycles: 3 },
        0x85 => Instruction { operation: Operation::Sta, address_mode: AddressMode::Zp0, cycles: 3 },
        0x86 => Instruction { operation: Operation::Stx, address_mode: AddressMode::Zp0, cycles: 3 },
        0x87 => Instruction { operation: Operation::Xxx, address_mode: AddressMode::Imp, cycles: 3 },
        0x88 => Instruction { operation: Operation::Dey, address_mode: AddressMode::Imp, cycles: 2 },
        0x89 => Instruction { operation: Operation::Nop, address_mode: AddressMode::Imp, cycles: 2 },
        0x8A => Instruction { operation: Operation::Txa, address_mode: AddressMode::Imp, cycles: 2 },
        0x8B => Instruction { operation: Operation::Xxx, address_mode: AddressMode::Imp, cycles: 2 },
        0x8C => Instruction { operation: Operation::Sty, address_mode: AddressMode::Abs, cycles: 4 },
        0x8D => Instruction { operation: Operation::Sta, address_mode: AddressMode::Abs, cycles: 4 },
        0x8E => Instruction { operation: Operation::Stx, address_mode: AddressMode::Abs, cycles: 4 },
        0x8F => Instruction { operation: Operation::Xxx, address_mode: AddressMode::Imp, cycles: 4 },
        0x90 => Instruction { operation: Operation::Bcc, address_mode: AddressMode::Rel, cycles: 2 },
        0x91 => Instruction { operation: Operation::Sta, address_mode: AddressMode::Izy, cycles: 6 },
        0x92 => Instruction { operation: Operation::Xxx, address_mode: AddressMode::Imp, cycles: 2 },
        0x93 => Instruction { operation: Operation::Xxx, address_mode: AddressMode::Imp, cycles: 6 },
        0x94 => Instruction { operation: Operation::Sty, address_mode: AddressMode::Zpx, cycles: 4 },
        0x95 => Instruction { operation: Operation::Sta, address_mode: AddressMode::Zpx, cycles: 4 },
        0x96 => Instruction { operation: Operation::Stx, address_mode: AddressMode::Zpy, cycles: 4 },
        0x97 => Instruction { operation: Operation::Xxx, address_mode: AddressMode::Imp, cycles: 4 },
        0x98 => Instruction { operation: Operation::Tya, address_mode: AddressMode::Imp, cycles: 2 },
        0x99 => Instruction { operation: Operation::Sta, address_mode: AddressMode::Aby, cycles: 5 },
        0x9A => Instruction { operation: Operation::Txs, address_mode: AddressMode::Imp, cycles: 2 },
        0x9B => Instruction { operation: Operation::Xxx, address_mode: AddressMode::Imp, cycles: 5 },
        0x9C => Instruction { operation: Operation::Nop, address_mode: AddressMode::Imp, cycles: 5 },
        0x9D => Instruction { operation: Operation::Sta, address_mode: AddressMode::Abx, cycles: 5 },
        0x9E => Instruction { operation: Operation::Xxx, address_mode: AddressMode::Imp, cycles: 5 },
        0x9F => Instruction { operation: Operation::Xxx, address_mode: AddressMode::Imp, cycles: 5 },
        0xA0 => Instruction { operation: Operation::Ldy, address_mode: AddressMode::Imm, cycles: 2 },
        0xA1 => Instruction { operation: Operation::Lda, address_mode: AddressMode::Izx, cycles: 6 },
        0xA2 => Instruction { operation: Operation::Ldx, address_mode: AddressMode::Imm, cycles: 2 },
        0xA3 => Instruction { operation: Operation::Xxx, address_mode: AddressMode::Imp, cycles: 6 },
        0xA4 => Instruction { operation: Operation::Ldy, address_mode: AddressMode::Zp0, cycles: 3 },
        0xA5 => Instruction { operation: Operation::Lda, address_mode: AddressMode::Zp0, cycles: 3 },
        0xA6 => Instruction { operation: Operation::Ldx, address_mode: AddressMode::Zp0, cycles: 3 },
        0xA7 => Instruction { operation: Operation::Xxx, address_mode: AddressMode::Imp, cycles: 3 },
        0xA8 => Instruction { operation: Operation::Tay, address_mode: AddressMode::Imp, cycles: 2 },
        0xA9 => Instruction { operation: Operation::Lda, address_mode: AddressMode::Imm, cycles: 2 },
        0xAA => Instruction { operation: Operation::Tax, address_mode: AddressMode::Imp, cycles: 2 },
        0xAB => Instruction { operation: Operation::Xxx, address_mode: AddressMode::Imp, cycles: 2 },
        0xAC => Instruction { operation: Operation::Ldy, address_mode: AddressMode::Abs, cycles: 4 },
        0xAD => Instruction { operation: Operation::Lda, address_mode: AddressMode::Abs, cycles: 4 },
        0xAE => Instruction { operation: Operation::Ldx, address_mode: AddressMode::Abs, cycles: 4 },
        0xAF => Instruction { operation: Operation::Xxx, address_mode: AddressMode::Imp, cycles: 4 },
        0xB0 => Instruction { operation: Operation::Bcs, address_mode: AddressMode::Rel, cycles: 2 },
        0xB1 => Instruction { operation: Operation::Lda, address_mode: AddressMode::Izy, cycles: 5 },
        0xB2 => Instruction { operation: Operation::Xxx, address_mode: AddressMode::Imp, cycles: 2 },
        0xB3 => Instruction { operation: Operation::Xxx, address_mode: AddressMode::Imp, cycles: 5 },
        0xB4 => Instruction { operation: Operation::Ldy, address_mode: AddressMode::Zpx, cycles: 4 },
        0xB5 => Instruction { operation: Operation::Lda, address_mode: AddressMode::Zpx, cycles: 4 },
        0xB6 => Instruction { operation: Operation::Ldx, address_mode: AddressMode::Zpy, cycles: 4 },
        0xB7 => Instruction { operation: Operation::Xxx, address_mode: AddressMode::Imp, cycles: 4 },
        0xB8 => Instruction { operation: Operation::Clv, address_mode: AddressMode::Imp, cycles: 2 },
        0xB9 => Instruction { operation: Operation::Lda, address_mode: AddressMode::Aby, cycles: 4 },
        0xBA => Instruction { operation: Operation::Tsx, address_mode: AddressMode::Imp, cycles: 2 },
        0xBB => Instruction { operation: Operation::Xxx, address_mode: AddressMode::Imp, cycles: 4 },
        0xBC => Instruction { operation: Operation::Ldy, address_mode: AddressMode::Abx, cycles: 4 },
        0xBD => Instruction { operation: Operation::Lda, address_mode: AddressMode::Abx, cycles: 4 },
        0xBE => Instruction { operation: Operation::Ldx, address_mode: AddressMode::Aby, cycles: 4 },
        0xBF => Instruction { operation: Operation::Xxx, address_mode: AddressMode::Imp, cycles: 4 },
        0xC0 => Instruction { operation: Operation::Cpy, address_mode: AddressMode::Imm, cycles: 2 },
        0xC1 => Instruction { operation: Operation::Cmp, address_mode: AddressMode::Izx, cycles: 6 },
        0xC2 => Instruction { operation: Operation::Nop, address_mode: AddressMode::Imp, cycles: 2 },
        0xC3 => Instruction { operation: Operation::Xxx, address_mode: AddressMode::Imp, cycles: 8 },
        0xC4 => Instruction { operation: Operation::Cpy, address_mode: AddressMode::Zp0, cycles: 3 },
        0xC5 => Instruction { operation: Operation::Cmp, address_mode: AddressMode::Zp0, cycles: 3 },
        0xC6 => Instruction { operation: Operation::Dec, address_mode: AddressMode::Zp0, cycles: 5 },
        0xC7 => Instruction { operation: Operation::Xxx, address_mode: AddressMode::Imp, cycles: 5 },
        0xC8 => Instruction { operation: Operation::Iny, address_mode: AddressMode::Imp, cycles: 2 },
        0xC9 => Instruction { operation: Operation::Cmp, address_mode: AddressMode::Imm, cycles: 2 },
        0xCA => Instruction { operation: Operation::Dex, address_mode: AddressMode::Imp, cycles: 2 },
        0xCB => Instruction { operation: Operation::Xxx, address_mode: AddressMode::Imp, cycles: 2 },
        0xCC => Instruction { operation: Operation::Cpy, address_mode: AddressMode::Abs, cycles: 4 },
        0xCD => Instruction { operation: Operation::Cmp, address_mode: AddressMode::Abs, cycles: 4 },
        0xCE => Instruction { operation: Operation::Dec, address_mode: AddressMode::Abs, cycles: 6 },
        0xCF => Instruction { operation: Operation::Xxx, address_mode: AddressMode::Imp, cycles: 6 },
        0xD0 => Instruction { operation: Operation::Bne, address_mode: AddressMode::Rel, cycles: 2 },
        0xD1 => Instruction { operation: Operation::Cmp, address_mode: AddressMode::Izy, cycles: 5 },
        0xD2 => Instruction { operation: Operation::Xxx, address_mode: AddressMode::Imp, cycles: 2 },
        0xD3 => Instruction { operation: Operation::Xxx, address_mode: AddressMode::Imp, cycles: 8 },
        0xD4 => Instruction { operation: Operation::Nop, address_mode: AddressMode::Imp, cycles: 4 },
        0xD5 => Instruction { operation: Operation::Cmp, address_mode: AddressMode::Zpx, cycles: 4 },
        0xD6 => Instruction { operation: Operation::Dec, address_mode: AddressMode::Zpx, cycles: 6 },
        0xD7 => Instruction { operation: Operation::Xxx, address_mode: AddressMode::Imp, cycles: 6 },
        0xD8 => Instruction { operation: Operation::Cld, address_mode: AddressMode::Imp, cycles: 2 },
        0xD9 => Instruction { operation: Operation::Cmp, address_mode: AddressMode::Aby, cycles: 4 },
        0xDA => Instruction { operation: Operation::Nop, address_mode: AddressMode::Imp, cycles: 2 },
        0xDB => Instruction { operation: Operation::Xxx, address_mode: AddressMode::Imp, cycles: 7 },
        0xDC => Instruction { operation: Operation::Nop, address_mode: AddressMode::Imp, cycles: 4 },
        0xDD => Instruction { operation: Operation::Cmp, address_mode: AddressMode::Abx, cycles: 4 },
        0xDE => Instruction { operation: Operation::Dec, address_mode: AddressMode::Abx, cycles: 7 },
        0xDF => Instruction { operation: Operation::Xxx, address_mode: AddressMode::Imp, cycles: 7 },
        0xE0 => Instruction { operation: Operation::Cpx, address_mode: AddressMode::Imm, cycles: 2 },
        0xE1 => Instruction { operation: Operation::Sbc, address_mode: AddressMode::Izx, cycles: 6 },
        0xE2 => Instruction { operation: Operation::Nop, address_mode: AddressMode::Imp, cycles: 2 },
        0xE3 => Instruction { operation: Operation::Xxx, address_mode: AddressMode::Imp, cycles: 8 },
        0xE4 => Instruction { operation: Operation::Cpx, address_mode: AddressMode::Zp0, cycles: 3 },
        0xE5 => Instruction { operation: Operation::Sbc, address_mode: AddressMode::Zp0, cycles: 3 },
        0xE6 => Instruction { operation: Operation::Inc, address_mode: AddressMode::Zp0, cycles: 5 },
        0xE7 => Instruction { operation: Operation::Xxx, address_mode: AddressMode::Imp, cycles: 5 },
        0xE8 => Instruction { operation: Operation::Inx, address_mode: AddressMode::Imp, cycles: 2 },
        0xE9 => Instruction { operation: Operation::Sbc, address_mode: AddressMode::Imm, cycles: 2 },
        0xEA => Instruction { operation: Operation::Nop, address_mode: AddressMode::Imp, cycles: 2 },
        0xEB => Instruction { operation: Operation::Sbc, address_mode: AddressMode::Imm, cycles: 2 },
        0xEC => Instruction { operation: Operation::Cpx, address_mode: AddressMode::Abs, cycles: 4 },
        0xED => Instruction { operation: Operation::Sbc, address_mode: AddressMode::Abs, cycles: 4 },
        0xEE => Instruction { operation: Operation::Inc, address_mode: AddressMode::Abs, cycles: 6 },
        0xEF => Instruction { operation: Operation::Xxx, address_mode: AddressMode::Imp, cycles: 6 },
        0xF0 => Instruction { operation: Operation::Beq, address_mode: AddressMode::Rel, cycles: 2 },
        0xF1 => Instruction { operation: Operation::Sbc, address_mode: AddressMode::Izy, cycles: 5 },
        0xF2 => Instruction { operation: Operation::Xxx, address_mode: AddressMode::Imp, cycles: 2 },
        0xF3 => Instruction { operation: Operation::Xxx, address_mode: AddressMode::Imp, cycles: 8 },
        0xF4 => Instruction { operation: Operation::Nop, address_mode: AddressMode::Imp, cycles: 4 },
        0xF5 => Instruction { operation: Operation::Sbc, address_mode: AddressMode::Zpx, cycles: 4 },
        0xF6 => Instruction { operation: Operation::Inc, address_mode: AddressMode::Zpx, cycles: 6 },
        0xF7 => Instruction { operation: Operation::Xxx, address_mode: AddressMode::Imp, cycles: 6 },
        0xF8 => Instruction { operation: Operation::Sed, address_mode: AddressMode::Imp, cycles: 2 },
        0xF9 => Instruction { operation: Operation::Sbc, address_mode: AddressMode::Aby, cycles: 4 },
        0xFA => Instruction { operation: Operation::Nop, address_mode: AddressMode::Imp, cycles: 2 },
        0xFB => Instruction { operation: Operation::Xxx, address_mode: AddressMode::Imp, cycles: 7 },
        0xFC => Instruction { operation: Operation::Nop, address_mode: AddressMode::Imp, cycles: 4 },
        0xFD => Instruction { operation: Operation::Sbc, address_mode: AddressMode::Abx, cycles: 4 },
        0xFE => Instruction { operation: Operation::Inc, address_mode: AddressMode::Abx, cycles: 7 },
        0xFF => Instruction { operation: Operation::Xxx, address_mode: AddressMode::Imp, cycles: 7 },
    }
}

/// Looks an opcode up in the dispatch table.
pub fn decode(opcode: u8) -> (r: Instruction)
    ensures
        r == instruction_table(opcode),
        2 <= r.cycles <= 8,
{
    proof {
        reveal(instruction_table);
    }
    match opcode {
        0x00 => Instruction { operation: Operation::Brk, address_mode: AddressMode::Imm, cycles: 7 },
        0x01 => Instruction { operation: Operation::Ora, address_mode: AddressMode::Izx, cycles: 6 },
        0x02 => Instruction { operation: Operation::Xxx, address_mode: AddressMode::Imp, cycles: 2 },
        0x03 => Instruction { operation: Operation::Xxx, address_mode: AddressMode::Imp, cycles: 8 },
        0x04 => Instruction { operation: Operation::Nop, address_mode: AddressMode::Imp, cycles: 3 },
        0x05 => Instruction { operation: Operation::Ora, address_mode: AddressMode::Zp0, cycles: 3 },
        0x06 => Instruction { operation: Operation::Asl, address_mode: AddressMode::Zp0, cycles: 5 },
        0x07 => Instruction { operation: Operation::Xxx, address_mode: AddressMode::Imp, cycles: 5 },
        0x08 => Instruction { operation: Operation::Php, address_mode: AddressMode::Imp, cycles: 3 },
        0x09 => Instruction { operation: Operation::Ora, address_mode: AddressMode::Imm, cycles: 2 },
        0x0A => Instruction { operation: Operation::Asl, address_mode: AddressMode::Imp, cycles: 2 },
        0x0B => Instruction { operation: Operation::Xxx, address_mode: AddressMode::Imp, cycles: 2 },
        0x0C => Instruction { operation: Operation::Nop, address_mode: AddressMode::Imp, cycles: 4 },
        0x0D => Instruction { operation: Operation::Ora, address_mode: AddressMode::Abs, cycles: 4 },
        0x0E => Instruction { operation: Operation::Asl, address_mode: AddressMode::Abs, cycles: 6 },
        0x0F => Instruction { operation: Operation::Xxx, address_mode: AddressMode::Imp, cycles: 6 },
        0x10 => Instruction { operation: Operation::Bpl, address_mode: AddressMode::Rel, cycles: 2 },
        0x11 => Instruction { operation: Operation::Ora, address_mode: AddressMode::Izy, cycles: 5 },
        0x12 => Instruction { operation: Operation::Xxx, address_mode: AddressMode::Imp, cycles: 2 },
        0x13 => Instruction { operation: Operation::Xxx, address_mode: AddressMode::Imp, cycles: 8 },
        0x14 => Instruction { operation: Operation::Nop, address_mode: AddressMode::Imp, cycles: 4 },
        0x15 => Instruction { operation: Operation::Ora, address_mode: AddressMode::Zpx, cycles: 4 },
        0x16 => Instruction { operation: Operation::Asl, address_mode: AddressMode::Zpx, cycles: 6 },
        0x17 => Instruction { operation: Operation::Xxx, address_mode: AddressMode::Imp, cycles: 6 },
        0x18 => Instruction { operation: Operation::Clc, address_mode: AddressMode::Imp, cycles: 2 },
        0x19 => Instruction { operation: Operation::Ora, address_mode: AddressMode::Aby, cycles: 4 },
        0x1A => Instruction { operation: Operation::Nop, address_mode: AddressMode::Imp, cycles: 2 },
        0x1B => Instruction { operation: Operation::Xxx, address_mode: AddressMode::Imp, cycles: 7 },
        0x1C => Instruction { operation: Operation::Nop, address_mode: AddressMode::Imp, cycles: 4 },
        0x1D => Instruction { operation: Operation::Ora, address_mode: AddressMode::Abx, cycles: 4 },
        0x1E => Instruction { operation: Operation::Asl, address_mode: AddressMode::Abx, cycles: 7 },
        0x1F => Instruction { operation: Operation::Xxx, address_mode: AddressMode::Imp, cycles: 7 },
        0x20 => Instruction { operation: Operation::Jsr, address_mode: AddressMode::Abs, cycles: 6 },
        0x21 => Instruction { operation: Operation::And, address_mode: AddressMode::Izx, cycles: 6 },
        0x22 => Instruction { operation: Operation::Xxx, address_mode: AddressMode::Imp, cycles: 2 },
        0x23 => Instruction { operation: Operation::Xxx, address_mode: AddressMode::Imp, cycles: 8 },
        0x24 => Instruction { operation: Operation::Bit, address_mode: AddressMode::Zp0, cycles: 3 },
        0x25 => Instruction { operation: Operation::And, address_mode: AddressMode::Zp0, cycles: 3 },
        0x26 => Instruction { operation: Operation::Rol, address_mode: AddressMode::Zp0, cycles: 5 },
        0x27 => Instruction { operation: Operation::Xxx, address_mode: AddressMode::Imp, cycles: 5 },
        0x28 => Instruction { operation: Operation::Plp, address_mode: AddressMode::Imp, cycles: 4 },
        0x29 => Instruction { operation: Operation::And, address_mode: AddressMode::Imm, cycles: 2 },
        0x2A => Instruction { operation: Operation::Rol, address_mode: AddressMode::Imp, cycles: 2 },
        0x2B => Instruction { operation: Operation::Xxx, address_mode: AddressMode::Imp, cycles: 2 },
        0x2C => Instruction { operation: Operation::Bit, address_mode: AddressMode::Abs, cycles: 4 },
        0x2D => Instruction { operation: Operation::And, address_mode: AddressMode::Abs, cycles: 4 },
        0x2E => Instruction { operation: Operation::Rol, address_mode: AddressMode::Abs, cycles: 6 },
        0x2F => Instruction { operation: Operation::Xxx, address_mode: AddressMode::Imp, cycles: 6 },
        0x30 => Instruction { operation: Operation::Bmi, address_mode: AddressMode::Rel, cycles: 2 },
        0x31 => Instruction { operation: Operation::And, address_mode: AddressMode::Izy, cycles: 5 },
        0x32 => Instruction { operation: Operation::Xxx, address_mode: AddressMode::Imp, cycles: 2 },
        0x33 => Instruction { operation: Operation::Xxx, address_mode: AddressMode::Imp, cycles: 8 },
        0x34 => Instruction { operation: Operation::Nop, address_mode: AddressMode::Imp, cycles: 4 },
        0x35 => Instruction { operation: Operation::And, address_mode: AddressMode::Zpx, cycles: 4 },
        0x36 => Instruction { operation: Operation::Rol, address_mode: AddressMode::Zpx, cycles: 6 },
        0x37 => Instruction { operation: Operation::Xxx, address_mode: AddressMode::Imp, cycles: 6 },
        0x38 => Instruction { operation: Operation::Sec, address_mode: AddressMode::Imp, cycles: 2 },
        0x39 => Instruction { operation: Operation::And, address_mode: AddressMode::Aby, cycles: 4 },
        0x3A => Instruction { operation: Operation::Nop, address_mode: AddressMode::Imp, cycles: 2 },
        0x3B => Instruction { operation: Operation::Xxx, address_mode: AddressMode::Imp, cycles: 7 },
        0x3C => Instruction { operation: Operation::Nop, address_mode: AddressMode::Imp, cycles: 4 },
        0x3D => Instruction { operation: Operation::And, address_mode: AddressMode::Abx, cycles: 4 },
        0x3E => Instruction { operation: Operation::Rol, address_mode: AddressMode::Abx, cycles: 7 },
        0x3F => Instruction { operation: Operation::Xxx, address_mode: AddressMode::Imp, cycles: 7 },
        0x40 => Instruction { operation: Operation::Rti, address_mode: AddressMode::Imp, cycles: 6 },
        0x41 => Instruction { operation: Operation::Eor, address_mode: AddressMode::Izx, cycles: 6 },
        0x42 => Instruction { operation: Operation::Xxx, address_mode: AddressMode::Imp, cycles: 2 },
        0x43 => Instruction { operation: Operation::Xxx, address_mode: AddressMode::Imp, cycles: 8 },
        0x44 => Instruction { operation: Operation::Nop, address_mode: AddressMode::Imp, cycles: 3 },
        0x45 => Instruction { operation: Operation::Eor, address_mode: AddressMode::Zp0, cycles: 3 },
        0x46 => Instruction { operation: Operation::Lsr, address_mode: AddressMode::Zp0, cycles: 5 },
        0x47 => Instruction { operation: Operation::Xxx, address_mode: AddressMode::Imp, cycles: 5 },
        0x48 => Instruction { operation: Operation::Pha, address_mode: AddressMode::Imp, cycles: 3 },
        0x49 => Instruction { operation: Operation::Eor, address_mode: AddressMode::Imm, cycles: 2 },
        0x4A => Instruction { operation: Operation::Lsr, address_mode: AddressMode::Imp, cycles: 2 },
        0x4B => Instruction { operation: Operation::Xxx, address_mode: AddressMode::Imp, cycles: 2 },
        0x4C => Instruction { operation: Operation::Jmp, address_mode: AddressMode::Abs, cycles: 3 },
        0x4D => Instruction { operation: Operation::Eor, address_mode: AddressMode::Abs, cycles: 4 },
        0x4E => Instruction { operation: Operation::Lsr, address_mode: AddressMode::Abs, cycles: 6 },
        0x4F => Instruction { operation: Operation::Xxx, address_mode: AddressMode::Imp, cycles: 6 },
        0x50 => Instruction { operation: Operation::Bvc, address_mode: AddressMode::Rel, cycles: 2 },
        0x51 => Instruction { operation: Operation::Eor, address_mode: AddressMode::Izy, cycles: 5 },
        0x52 => Instruction { operation: Operation::Xxx, address_mode: AddressMode::Imp, cycles: 2 },
        0x53 => Instruction { operation: Operation::Xxx, address_mode: AddressMode::Imp, cycles: 8 },
        0x54 => Instruction { operation: Operation::Nop, address_mode: AddressMode::Imp, cycles: 4 },
        0x55 => Instruction { operation: Operation::Eor, address_mode: AddressMode::Zpx, cycles: 4 },
        0x56 => Instruction { operation: Operation::Lsr, address_mode: AddressMode::Zpx, cycles: 6 },
        0x57 => Instruction { operation: Operation::Xxx, address_mode: AddressMode::Imp, cycles: 6 },
        0x58 => Instruction { operation: Operation::Cli, address_mode: AddressMode::Imp, cycles: 2 },
        0x59 => Instruction { operation: Operation::Eor, address_mode: AddressMode::Aby, cycles: 4 },
        0x5A => Instruction { operation: Operation::Nop, address_mode: AddressMode::Imp, cycles: 2 },
        0x5B => Instruction { operation: Operation::Xxx, address_mode: AddressMode::Imp, cycles: 7 },
        0x5C => Instruction { operation: Operation::Nop, address_mode: AddressMode::Imp, cycles: 4 },
        0x5D => Instruction { operation: Operation::Eor, address_mode: AddressMode::Abx, cycles: 4 },
        0x5E => Instruction { operation: Operation::Lsr, address_mode: AddressMode::Abx, cycles: 7 },
        0x5F => Instruction { operation: Operation::Xxx, address_mode: AddressMode::Imp, cycles: 7 },
        0x60 => Instruction { operation: Operation::Rts, address_mode: AddressMode::Imp, cycles: 6 },
        0x61 => Instruction { operation: Operation::Adc, address_mode: AddressMode::Izx, cycles: 6 },
        0x62 => Instruction { operation: Operation::Xxx, address_mode: AddressMode::Imp, cycles: 2 },
        0x63 => Instruction { operation: Operation::Xxx, address_mode: AddressMode::Imp, cycles: 8 },
        0x64 => Instruction { operation: Operation::Nop, address_mode: AddressMode::Imp, cycles: 3 },
        0x65 => Instruction { operation: Operation::Adc, address_mode: AddressMode::Zp0, cycles: 3 },
        0x66 => Instruction { operation: Operation::Ror, address_mode: AddressMode::Zp0, cycles: 5 },
        0x67 => Instruction { operation: Operation::Xxx, address_mode: AddressMode::Imp, cycles: 5 },
        0x68 => Instruction { operation: Operation::Pla, address_mode: AddressMode::Imp, cycles: 4 },
        0x69 => Instruction { operation: Operation::Adc, address_mode: AddressMode::Imm, cycles: 2 },
        0x6A => Instruction { operation: Operation::Ror, address_mode: AddressMode::Imp, cycles: 2 },
        0x6B => Instruction { operation: Operation::Xxx, address_mode: AddressMode::Imp, cycles: 2 },
        0x6C => Instruction { operation: Operation::Jmp, address_mode: AddressMode::Ind, cycles: 5 },
        0x6D => Instruction { operation: Operation::Adc, address_mode: AddressMode::Abs, cycles: 4 },
        0x6E => Instruction { operation: Operation::Ror, address_mode: AddressMode::Abs, cycles: 6 },
        0x6F => Instruction { operation: Operation::Xxx, address_mode: AddressMode::Imp, cycles: 6 },
        0x70 => Instruction { operation: Operation::Bvs, address_mode: AddressMode::Rel, cycles: 2 },
        0x71 => Instruction { operation: Operation::Adc, address_mode: AddressMode::Izy, cycles: 5 },
        0x72 => Instruction { operation: Operation::Xxx, address_mode: AddressMode::Imp, cycles: 2 },
        0x73 => Instruction { operation: Operation::Xxx, address_mode: AddressMode::Imp, cycles: 8 },
        0x74 => Instruction { operation: Operation::Nop, address_mode: AddressMode::Imp, cycles: 4 },
        0x75 => Instruction { operation: Operation::Adc, address_mode: AddressMode::Zpx, cycles: 4 },
        0x76 => Instruction { operation: Operation::Ror, address_mode: AddressMode::Zpx, cycles: 6 },
        0x77 => Instruction { operation: Operation::Xxx, address_mode: AddressMode::Imp, cycles: 6 },
        0x78 => Instruction { operation: Operation::Sei, address_mode: AddressMode::Imp, cycles: 2 },
        0x79 => Instruction { operation: Operation::Adc, address_mode: AddressMode::Aby, cycles: 4 },
        0x7A => Instruction { operation: Operation::Nop, address_mode: AddressMode::Imp, cycles: 2 },
        0x7B => Instruction { operation: Operation::Xxx, address_mode: AddressMode::Imp, cycles: 7 },
        0x7C => Instruction { operation: Operation::Nop, address_mode: AddressMode::Imp, cycles: 4 },
        0x7D => Instruction { operation: Operation::Adc, address_mode: AddressMode::Abx, cycles: 4 },
        0x7E => Instruction { operation: Operation::Ror, address_mode: AddressMode::Abx, cycles: 7 },
        0x7F => Instruction { operation: Operation::Xxx, address_mode: AddressMode::Imp, cycles: 7 },
        0x80 => Instruction { operation: Operation::Nop, address_mode: AddressMode::Imp, cycles: 2 },
        0x81 => Instruction { operation: Operation::Sta, address_mode: AddressMode::Izx, cycles: 6 },
        0x82 => Instruction { operation: Operation::Nop, address_mode: AddressMode::Imp, cycles: 2 },
        0x83 => Instruction { operation: Operation::Xxx, address_mode: AddressMode::Imp, cycles: 6 },
        0x84 => Instruction { operation: Operation::Sty, address_mode: AddressMode::Zp0, cycles: 3 },
        0x85 => Instruction { operation: Operation::Sta, address_mode: AddressMode::Zp0, cycles: 3 },
        0x86 => Instruction { operation: Operation::Stx, address_mode: AddressMode::Zp0, cycles: 3 },
        0x87 => Instruction { operation: Operation::Xxx, address_mode: AddressMode::Imp, cycles: 3 },
        0x88 => Instruction { operation: Operation::Dey, address_mode: AddressMode::Imp, cycles: 2 },
        0x89 => Instruction { operation: Operation::Nop, address_mode: AddressMode::Imp, cycles: 2 },
        0x8A => Instruction { operation: Operation::Txa, address_mode: AddressMode::Imp, cycles: 2 },
        0x8B => Instruction { operation: Operation::Xxx, address_mode: AddressMode::Imp, cycles: 2 },
        0x8C => Instruction { operation: Operation::Sty, address_mode: AddressMode::Abs, cycles: 4 },
        0x8D => Instruction { operation: Operation::Sta, address_mode: AddressMode::Abs, cycles: 4 },
        0x8E => Instruction { operation: Operation::Stx, address_mode: AddressMode::Abs, cycles: 4 },
        0x8F => Instruction { operation: Operation::Xxx, address_mode: AddressMode::Imp, cycles: 4 },
        0x90 => Instruction { operation: Operation::Bcc, address_mode: AddressMode::Rel, cycles: 2 },
        0x91 => Instruction { operation: Operation::Sta, address_mode: AddressMode::Izy, cycles: 6 },
        0x92 => Instruction { operation: Operation::Xxx, address_mode: AddressMode::Imp, cycles: 2 },
        0x93 => Instruction { operation: Operation::Xxx, address_mode: AddressMode::Imp, cycles: 6 },
        0x94 => Instruction { operation: Operation::Sty, address_mode: AddressMode::Zpx, cycles: 4 },
        0x95 => Instruction { operation: Operation::Sta, address_mode: AddressMode::Zpx, cycles: 4 },
        0x96 => Instruction { operation: Operation::Stx, address_mode: AddressMode::Zpy, cycles: 4 },
        0x97 => Instruction { operation: Operation::Xxx, address_mode: AddressMode::Imp, cycles: 4 },
        0x98 => Instruction { operation: Operation::Tya, address_mode: AddressMode::Imp, cycles: 2 },
        0x99 => Instruction { operation: Operation::Sta, address_mode: AddressMode::Aby, cycles: 5 },
        0x9A => Instruction { operation: Operation::Txs, address_mode: AddressMode::Imp, cycles: 2 },
        0x9B => Instruction { operation: Operation::Xxx, address_mode: AddressMode::Imp, cycles: 5 },
        0x9C => Instruction { operation: Operation::Nop, address_mode: AddressMode::Imp, cycles: 5 },
        0x9D => Instruction { operation: Operation::Sta, address_mode: AddressMode::Abx, cycles: 5 },
        0x9E => Instruction { operation: Operation::Xxx, address_mode: AddressMode::Imp, cycles: 5 },
        0x9F => Instruction { operation: Operation::Xxx, address_mode: AddressMode::Imp, cycles: 5 },
        0xA0 => Instruction { operation: Operation::Ldy, address_mode: AddressMode::Imm, cycles: 2 },
        0xA1 => Instruction { operation: Operation::Lda, address_mode: AddressMode::Izx, cycles: 6 },
        0xA2 => Instruction { operation: Operation::Ldx, address_mode: AddressMode::Imm, cycles: 2 },
        0xA3 => Instruction { operation: Operation::Xxx, address_mode: AddressMode::Imp, cycles: 6 },
        0xA4 => Instruction { operation: Operation::Ldy, address_mode: AddressMode::Zp0, cycles: 3 },
        0xA5 => Instruction { operation: Operation::Lda, address_mode: AddressMode::Zp0, cycles: 3 },
        0xA6 => Instruction { operation: Operation::Ldx, address_mode: AddressMode::Zp0, cycles: 3 },
        0xA7 => Instruction { operation: Operation::Xxx, address_mode: AddressMode::Imp, cycles: 3 },
        0xA8 => Instruction { operation: Operation::Tay, address_mode: AddressMode::Imp, cycles: 2 },
        0xA9 => Instruction { operation: Operation::Lda, address_mode: AddressMode::Imm, cycles: 2 },
        0xAA => Instruction { operation: Operation::Tax, address_mode: AddressMode::Imp, cycles: 2 },
        0xAB => Instruction { operation: Operation::Xxx, address_mode: AddressMode::Imp, cycles: 2 },
        0xAC => Instruction { operation: Operation::Ldy, address_mode: AddressMode::Abs, cycles: 4 },
        0xAD => Instruction { operation: Operation::Lda, address_mode: AddressMode::Abs, cycles: 4 },
        0xAE => Instruction { operation: Operation::Ldx, address_mode: AddressMode::Abs, cycles: 4 },
        0xAF => Instruction { operation: Operation::Xxx, address_mode: AddressMode::Imp, cycles: 4 },
        0xB0 => Instruction { operation: Operation::Bcs, address_mode: AddressMode::Rel, cycles: 2 },
        0xB1 => Instruction { operation: Operation::Lda, address_mode: AddressMode::Izy, cycles: 5 },
        0xB2 => Instruction { operation: Operation::Xxx, address_mode: AddressMode::Imp, cycles: 2 },
        0xB3 => Instruction { operation: Operation::Xxx, address_mode: AddressMode::Imp, cycles: 5 },
        0xB4 => Instruction { operation: Operation::Ldy, address_mode: AddressMode::Zpx, cycles: 4 },
        0xB5 => Instruction { operation: Operation::Lda, address_mode: AddressMode::Zpx, cycles: 4 },
        0xB6 => Instruction { operation: Operation::Ldx, address_mode: AddressMode::Zpy, cycles: 4 },
        0xB7 => Instruction { operation: Operation::Xxx, address_mode: AddressMode::Imp, cycles: 4 },
        0xB8 => Instruction { operation: Operation::Clv, address_mode: AddressMode::Imp, cycles: 2 },
        0xB9 => Instruction { operation: Operation::Lda, address_mode: AddressMode::Aby, cycles: 4 },
        0xBA => Instruction { operation: Operation::Tsx, address_mode: AddressMode::Imp, cycles: 2 },
        0xBB => Instruction { operation: Operation::Xxx, address_mode: AddressMode::Imp, cycles: 4 },
        0xBC => Instruction { operation: Operation::Ldy, address_mode: AddressMode::Abx, cycles: 4 },
        0xBD => Instruction { operation: Operation::Lda, address_mode: AddressMode::Abx, cycles: 4 },
        0xBE => Instruction { operation: Operation::Ldx, address_mode: AddressMode::Aby, cycles: 4 },
        0xBF => Instruction { operation: Operation::Xxx, address_mode: AddressMode::Imp, cycles: 4 },
        0xC0 => Instruction { operation: Operation::Cpy, address_mode: AddressMode::Imm, cycles: 2 },
        0xC1 => Instruction { operation: Operation::Cmp, address_mode: AddressMode::Izx, cycles: 6 },
        0xC2 => Instruction { operation: Operation::Nop, address_mode: AddressMode::Imp, cycles: 2 },
        0xC3 => Instruction { operation: Operation::Xxx, address_mode: AddressMode::Imp, cycles: 8 },
        0xC4 => Instruction { operation: Operation::Cpy, address_mode: AddressMode::Zp0, cycles: 3 },
        0xC5 => Instruction { operation: Operation::Cmp, address_mode: AddressMode::Zp0, cycles: 3 },
        0xC6 => Instruction { operation: Operation::Dec, address_mode: AddressMode::Zp0, cycles: 5 },
        0xC7 => Instruction { operation: Operation::Xxx, address_mode: AddressMode::Imp, cycles: 5 },
        0xC8 => Instruction { operation: Operation::Iny, address_mode: AddressMode::Imp, cycles: 2 },
        0xC9 => Instruction { operation: Operation::Cmp, address_mode: AddressMode::Imm, cycles: 2 },
        0xCA => Instruction { operation: Operation::Dex, address_mode: AddressMode::Imp, cycles: 2 },
        0xCB => Instruction { operation: Operation::Xxx, address_mode: AddressMode::Imp, cycles: 2 },
        0xCC => Instruction { operation: Operation::Cpy, address_mode: AddressMode::Abs, cycles: 4 },
        0xCD => Instruction { operation: Operation::Cmp, address_mode: AddressMode::Abs, cycles: 4 },
        0xCE => Instruction { operation: Operation::Dec, address_mode: AddressMode::Abs, cycles: 6 },
        0xCF => Instruction { operation: Operation::Xxx, address_mode: AddressMode::Imp, cycles: 6 },
        0xD0 => Instruction { operation: Operation::Bne, address_mode: AddressMode::Rel, cycles: 2 },
        0xD1 => Instruction { operation: Operation::Cmp, address_mode: AddressMode::Izy, cycles: 5 },
        0xD2 => Instruction { operation: Operation::Xxx, address_mode: AddressMode::Imp, cycles: 2 },
        0xD3 => Instruction { operation: Operation::Xxx, address_mode: AddressMode::Imp, cycles: 8 },
        0xD4 => Instruction { operation: Operation::Nop, address_mode: AddressMode::Imp, cycles: 4 },
        0xD5 => Instruction { operation: Operation::Cmp, address_mode: AddressMode::Zpx, cycles: 4 },
        0xD6 => Instruction { operation: Operation::Dec, address_mode: AddressMode::Zpx, cycles: 6 },
        0xD7 => Instruction { operation: Operation::Xxx, address_mode: AddressMode::Imp, cycles: 6 },
        0xD8 => Instruction { operation: Operation::Cld, address_mode: AddressMode::Imp, cycles: 2 },
        0xD9 => Instruction { operation: Operation::Cmp, address_mode: AddressMode::Aby, cycles: 4 },
        0xDA => Instruction { operation: Operation::Nop, address_mode: AddressMode::Imp, cycles: 2 },
        0xDB => Instruction { operation: Operation::Xxx, address_mode: AddressMode::Imp, cycles: 7 },
        0xDC => Instruction { operation: Operation::Nop, address_mode: AddressMode::Imp, cycles: 4 },
        0xDD => Instruction { operation: Operation::Cmp, address_mode: AddressMode::Abx, cycles: 4 },
        0xDE => Instruction { operation: Operation::Dec, address_mode: AddressMode::Abx, cycles: 7 },
        0xDF => Instruction { operation: Operation::Xxx, address_mode: AddressMode::Imp, cycles: 7 },
        0xE0 => Instruction { operation: Operation::Cpx, address_mode: AddressMode::Imm, cycles: 2 },
        0xE1 => Instruction { operation: Operation::Sbc, address_mode: AddressMode::Izx, cycles: 6 },
        0xE2 => Instruction { operation: Operation::Nop, address_mode: AddressMode::Imp, cycles: 2 },
        0xE3 => Instruction { operation: Operation::Xxx, address_mode: AddressMode::Imp, cycles: 8 },
        0xE4 => Instruction { operation: Operation::Cpx, address_mode: AddressMode::Zp0, cycles: 3 },
        0xE5 => Instruction { operation: Operation::Sbc, address_mode: AddressMode::Zp0, cycles: 3 },
        0xE6 => Instruction { operation: Operation::Inc, address_mode: AddressMode::Zp0, cycles: 5 },
        0xE7 => Instruction { operation: Operation::Xxx, address_mode: AddressMode::Imp, cycles: 5 },
        0xE8 => Instruction { operation: Operation::Inx, address_mode: AddressMode::Imp, cycles: 2 },
        0xE9 => Instruction { operation: Operation::Sbc, address_mode: AddressMode::Imm, cycles: 2 },
        0xEA => Instruction { operation: Operation::Nop, address_mode: AddressMode::Imp, cycles: 2 },
        0xEB => Instruction { operation: Operation::Sbc, address_mode: AddressMode::Imm, cycles: 2 },
        0xEC => Instruction { operation: Operation::Cpx, address_mode: AddressMode::Abs, cycles: 4 },
        0xED => Instruction { operation: Operation::Sbc, address_mode: AddressMode::Abs, cycles: 4 },
        0xEE => Instruction { operation: Operation::Inc, address_mode: AddressMode::Abs, cycles: 6 },
        0xEF => Instruction { operation: Operation::Xxx, address_mode: AddressMode::Imp, cycles: 6 },
        0xF0 => Instruction { operation: Operation::Beq, address_mode: AddressMode::Rel, cycles: 2 },
        0xF1 => Instruction { operation: Operation::Sbc, address_mode: AddressMode::Izy, cycles: 5 },
        0xF2 => Instruction { operation: Operation::Xxx, address_mode: AddressMode::Imp, cycles: 2 },
        0xF3 => Instruction { operation: Operation::Xxx, address_mode: AddressMode::Imp, cycles: 8 },
        0xF4 => Instruction { operation: Operation::Nop, address_mode: AddressMode::Imp, cycles: 4 },
        0xF5 => Instruction { operation: Operation::Sbc, address_mode: AddressMode::Zpx, cycles: 4 },
        0xF6 => Instruction { operation: Operation::Inc, address_mode: AddressMode::Zpx, cycles: 6 },
        0xF7 => Instruction { operation: Operation::Xxx, address_mode: AddressMode::Imp, cycles: 6 },
        0xF8 => Instruction { operation: Operation::Sed, address_mode: AddressMode::Imp, cycles: 2 },
        0xF9 => Instruction { operation: Operation::Sbc, address_mode: AddressMode::Aby, cycles: 4 },
        0xFA => Instruction { operation: Operation::Nop, address_mode: AddressMode::Imp, cycles: 2 },
        0xFB => Instruction { operation: Operation::Xxx, address_mode: AddressMode::Imp, cycles: 7 },
        0xFC => Instruction { operation: Operation::Nop, address_mode: AddressMode::Imp, cycles: 4 },
        0xFD => Instruction { operation: Operation::Sbc, address_mode: AddressMode::Abx, cycles: 4 },
        0xFE => Instruction { operation: Operation::Inc, address_mode: AddressMode::Abx, cycles: 7 },
        0xFF => Instruction { operation: Operation::Xxx, address_mode: AddressMode::Imp, cycles: 7 },
    }
}

/// The instructions that pay the page-crossing cycle of their addressing
/// mode: those that only read their operand.
pub open spec fn pays_page_cross(op: Operation) -> bool {
    match op {
        Operation::Adc | Operation::And | Operation::Cmp | Operation::Eor | Operation::Lda
        | Operation::Ldx | Operation::Ldy | Operation::Ora | Operation::Sbc => true,
        _ => false,
    }
}

fn page_cross_counts(op: Operation) -> (r: bool)
    ensures
        r == pays_page_cross(op),
{
    match op {
        Operation::Adc | Operation::And | Operation::Cmp | Operation::Eor | Operation::Lda
        | Operation::Ldx | Operation::Ldy | Operation::Ora | Operation::Sbc => true,
        _ => false,
    }
}

/// What an addressing mode does, by mode.
#[verifier::opaque]
pub open spec fn mode_outcome(mode: AddressMode, bus: BusModel, r: CpuRegisters) -> ModeOutcome {
    match mode {
        AddressMode::Abs => word_mode(bus, r, 0),
        AddressMode::Abx => word_mode(bus, r, r.x),
        AddressMode::Aby => word_mode(bus, r, r.y),
        AddressMode::Imm => imm_mode(bus, r),
        AddressMode::Imp => imp_mode(bus, r),
        AddressMode::Ind => ind_mode(bus, r),
        AddressMode::Izx => izx_mode(bus, r),
        AddressMode::Izy => izy_mode(bus, r),
        AddressMode::Rel => rel_mode(bus, r),
        AddressMode::Zp0 => zero_page_mode(bus, r, 0),
        AddressMode::Zpx => zero_page_mode(bus, r, r.x),
        AddressMode::Zpy => zero_page_mode(bus, r, r.y),
    }
}

fn address(cpu: &mut Cpu, mode: AddressMode) -> (r: Result<AddressModeValues, CpuError>)
    requires
        old(cpu).wf(),
    ensures
        mode_done(*final(cpu), *old(cpu), r, mode_outcome(mode, old(cpu).address_bus@, old(cpu).r)),
{
    proof {
        reveal(mode_outcome);
    }
    match mode {
        AddressMode::Abs => abs(cpu),
        AddressMode::Abx => abx(cpu),
        AddressMode::Aby => aby(cpu),
        AddressMode::Imm => imm(cpu),
        AddressMode::Imp => imp(cpu),
        AddressMode::Ind => ind(cpu),
        AddressMode::Izx => izx(cpu),
        AddressMode::Izy => izy(cpu),
        AddressMode::Rel => rel(cpu),
        AddressMode::Zp0 => zp0(cpu),
        AddressMode::Zpx => zpx(cpu),
        AddressMode::Zpy => zpy(cpu),
    }
}

/// What an instruction does, by instruction.
#[verifier::opaque]
pub open spec fn op_outcome(
    op: Operation,
    bus: BusModel,
    mode: AddressModeValues,
    r: CpuRegisters,
    opcode: u8,
) -> OpOutcome {
    match op {
        Operation::Adc => adc_outcome(bus, mode, r),
        Operation::And => and_outcome(bus, mode, r),
        Operation::Asl => asl_outcome(bus, mode, r),
        Operation::Bcc => bcc_outcome(bus, mode, r),
        Operation::Bcs => bcs_outcome(bus, mode, r),
        Operation::Beq => beq_outcome(bus, mode, r),
        Operation::Bit => bit_outcome(bus, mode, r),
        Operation::Bmi => bmi_outcome(bus, mode, r),
        Operation::Bne => bne_outcome(bus, mode, r),
        Operation::Bpl => bpl_outcome(bus, mode, r),
        Operation::Brk => brk_outcome(bus, mode, r),
        Operation::Bvc => bvc_outcome(bus, mode, r),
        Operation::Bvs => bvs_outcome(bus, mode, r),
        Operation::Clc => clc_outcome(bus, mode, r),
        Operation::Cld => cld_outcome(bus, mode, r),
        Operation::Cli => cli_outcome(bus, mode, r),
        Operation::Clv => clv_outcome(bus, mode, r),
        Operation::Cmp => cmp_outcome(bus, mode, r),
        Operation::Cpx => cpx_outcome(bus, mode, r),
        Operation::Cpy => cpy_outcome(bus, mode, r),
        Operation::Dec => dec_outcome(bus, mode, r),
        Operation::Dex => dex_outcome(bus, mode, r),
        Operation::Dey => dey_outcome(bus, mode, r),
        Operation::Eor => eor_outcome(bus, mode, r),
        Operation::Inc => inc_outcome(bus, mode, r),
        Operation::Inx => inx_outcome(bus, mode, r),
        Operation::Iny => iny_outcome(bus, mode, r),
        Operation::Jmp => jmp_outcome(bus, mode, r),
        Operation::Jsr => jsr_outcome(bus, mode, r),
        Operation::Lda => lda_outcome(bus, mode, r),
        Operation::Ldx => ldx_outcome(bus, mode, r),
        Operation::Ldy => ldy_outcome(bus, mode, r),
        Operation::Lsr => lsr_outcome(bus, mode, r),
        Operation::Nop => nop_outcome(bus, mode, r, opcode),
        Operation::Ora => ora_outcome(bus, mode, r),
        Operation::Pha => pha_outcome(bus, mode, r),
        Operation::Php => php_outcome(bus, mode, r),
        Operation::Pla => pla_outcome(bus, mode, r),
        Operation::Plp => plp_outcome(bus, mode, r),
        Operation::Rol => rol_outcome(bus, mode, r),
        Operation::Ror => ror_outcome(bus, mode, r),
        Operation::Rti => rti_outcome(bus, mode, r),
        Operation::Rts => rts_outcome(bus, mode, r),
        Operation::Sbc => sbc_outcome(bus, mode, r),
        Operation::Sec => sec_outcome(bus, mode, r),
        Operation::Sed => sed_outcome(bus, mode, r),
        Operation::Sei => sei_outcome(bus, mode, r),
        Operation::Sta => sta_outcome(bus, mode, r),
        Operation::Stx => stx_outcome(bus, mode, r),
        Operation::Sty => sty_outcome(bus, mode, r),
        Operation::Tax => tax_outcome(bus, mode, r),
        Operation::Tay => tay_outcome(bus, mode, r),
        Operation::Tsx => tsx_outcome(bus, mode, r),
        Operation::Txa => txa_outcome(bus, mode, r),
        Operation::Txs => txs_outcome(bus, mode, r),
        Operation::Tya => tya_outcome(bus, mode, r),
        Operation::Xxx => xxx_outcome(bus, mode, r),
    }
}

fn execute(cpu: &mut Cpu, op: Operation, mode: AddressModeValues, opcode: u8) -> (r: Result<u8, CpuError>)
    requires
        old(cpu).wf(),
    ensures
        op_done(*final(cpu), *old(cpu), r, op_outcome(op, old(cpu).address_bus@, mode, old(cpu).r, opcode)),
{
    proof {
        reveal(op_outcome);
    }
    match op {
        Operation::Adc => adc(cpu, mode, opcode),
        Operation::And => and(cpu, mode, opcode),
        Operation::Asl => asl(cpu, mode, opcode),
        Operation::Bcc => bcc(cpu, mode, opcode),
        Operation::Bcs => bcs(cpu, mode, opcode),
        Operation::Beq => beq(cpu, mode, opcode),
        Operation::Bit => bit(cpu, mode, opcode),
        Operation::Bmi => bmi(cpu, mode, opcode),
        Operation::Bne => bne(cpu, mode, opcode),
        Operation::Bpl => bpl(cpu, mode, opcode),
        Operation::Brk => brk(cpu, mode, opcode),
        Operation::Bvc => bvc(cpu, mode, opcode),
        Operation::Bvs => bvs(cpu, mode, opcode),
        Operation::Clc => clc(cpu, mode, opcode),
        Operation::Cld => cld(cpu, mode, opcode),
        Operation::Cli => cli(cpu, mode, opcode),
        Operation::Clv => clv(cpu, mode, opcode),
        Operation::Cmp => cmp(cpu, mode, opcode),
        Operation::Cpx => cpx(cpu, mode, opcode),
        Operation::Cpy => cpy(cpu, mode, opcode),
        Operation::Dec => dec(cpu, mode, opcode),
        Operation::Dex => dex(cpu, mode, opcode),
        Operation::Dey => dey(cpu, mode, opcode),
        Operation::Eor => eor(cpu, mode, opcode),
        Operation::Inc => inc(cpu, mode, opcode),
        Operation::Inx => inx(cpu, mode, opcode),
        Operation::Iny => iny(cpu, mode, opcode),
        Operation::Jmp => jmp(cpu, mode, opcode),
        Operation::Jsr => jsr(cpu, mode, opcode),
        Operation::Lda => lda(cpu, mode, opcode),
        Operation::Ldx => ldx(cpu, mode, opcode),
        Operation::Ldy => ldy(cpu, mode, opcode),
        Operation::Lsr => lsr(cpu, mode, opcode),
        Operation::Nop => nop(cpu, mode, opcode),
        Operation::Ora => ora(cpu, mode, opcode),
        Operation::Pha => pha(cpu, mode, opcode),
        Operation::Php => php(cpu, mode, opcode),
        Operation::Pla => pla(cpu, mode, opcode),
        Operation::Plp => plp(cpu, mode, opcode),
        Operation::Rol => rol(cpu, mode, opcode),
        Operation::Ror => ror(cpu, mode, opcode),
        Operation::Rti => rti(cpu, mode, opcode),
        Operation::Rts => rts(cpu, mode, opcode),
        Operation::Sbc => sbc(cpu, mode, opcode),
        Operation::Sec => sec(cpu, mode, opcode),
        Operation::Sed => sed(cpu, mode, opcode),
        Operation::Sei => sei(cpu, mode, opcode),
        Operation::Sta => sta(cpu, mode, opcode),
        Operation::Stx => stx(cpu, mode, opcode),
        Operation::Sty => sty(cpu, mode, opcode),
        Operation::Tax => tax(cpu, mode, opcode),
        Operation::Tay => tay(cpu, mode, opcode),
        Operation::Tsx => tsx(cpu, mode, opcode),
        Operation::Txa => txa(cpu, mode, opcode),
        Operation::Txs => txs(cpu, mode, opcode),
        Operation::Tya => tya(cpu, mode, opcode),
        Operation::Xxx => xxx(cpu, mode, opcode),
    }
}

proof fn lemma_mode_cycles(mode: AddressMode, bus: BusModel, r: CpuRegisters)
    ensures
        mode_outcome(mode, bus, r).2 matches Some(v) ==> v.add_cycles <= 1,
{
    reveal(mode_outcome);
    match mode {
        AddressMode::Abs => {},
        AddressMode::Abx => {},
        AddressMode::Aby => {},
        AddressMode::Imm => {},
        AddressMode::Imp => {},
        AddressMode::Ind => {},
        AddressMode::Izx => {},
        AddressMode::Izy => {},
        AddressMode::Rel => {},
        AddressMode::Zp0 => {},
        AddressMode::Zpx => {},
        AddressMode::Zpy => {},
    }
}

proof fn lemma_op_cycles(op: Operation, bus: BusModel, mode: AddressModeValues, r: CpuRegisters, opcode: u8)
    ensures
        op_outcome(op, bus, mode, r, opcode).2 matches Some(c) ==> c <= 2,
{
    reveal(op_outcome);
    match op {
        Operation::Adc => {},
        Operation::And => {},
        Operation::Asl => {},
        Operation::Bcc => {},
        Operation::Bcs => {},
        Operation::Beq => {},
        Operation::Bit => {},
        Operation::Bmi => {},
        Operation::Bne => {},
        Operation::Bpl => {},
        Operation::Brk => {},
        Operation::Bvc => {},
        Operation::Bvs => {},
        Operation::Clc => {},
        Operation::Cld => {},
        Operation::Cli => {},
        Operation::Clv => {},
        Operation::Cmp => {},
        Operation::Cpx => {},
        Operation::Cpy => {},
        Operation::Dec => {},
        Operation::Dex => {},
        Operation::Dey => {},
        Operation::Eor => {},
        Operation::Inc => {},
        Operation::Inx => {},
        Operation::Iny => {},
        Operation::Jmp => {},
        Operation::Jsr => {},
        Operation::Lda => {},
        Operation::Ldx => {},
        Operation::Ldy => {},
        Operation::Lsr => {},
        Operation::Nop => {},
        Operation::Ora => {},
        Operation::Pha => {},
        Operation::Php => {},
        Operation::Pla => {},
        Operation::Plp => {},
        Operation::Rol => {},
        Operation::Ror => {},
        Operation::Rti => {},
        Operation::Rts => {},
        Operation::Sbc => {},
        Operation::Sec => {},
        Operation::Sed => {},
        Operation::Sei => {},
        Operation::Sta => {},
        Operation::Stx => {},
        Operation::Sty => {},
        Operation::Tax => {},
        Operation::Tay => {},
        Operation::Tsx => {},
        Operation::Txa => {},
        Operation::Txs => {},
        Operation::Tya => {},
        Operation::Xxx => {},
    }
}

/// What running the instruction at PC does: the bus, the registers and the
/// cycles it takes, or `None` when one of its bus accesses fails.
pub open spec fn instruction_outcome(bus: BusModel, r: CpuRegisters) -> (BusModel, CpuRegisters, Option<u8>) {
    let (b1, op) = bus.read(r.pc);
    if op is None {
        (b1, r, None)
    } else {
        let opcode = op->Some_0;
        let ins = instruction_table(opcode);
        let r1 = CpuRegisters { pc: add16(r.pc as int, 1), ..r };
        let mo = mode_outcome(ins.address_mode, b1, r1);
        if mo.2 is None {
            (mo.0, r1, None)
        } else {
            let mode = mo.2->Some_0;
            let r2 = CpuRegisters { pc: mo.1, ..r1 };
            let oo = op_outcome(ins.operation, mo.0, mode, r2, opcode);
            if oo.2 is None {
                (oo.0, r2, None)
            } else {
                let page = if pays_page_cross(ins.operation) { mode.add_cycles } else { 0 };
                (oo.0, oo.1, Some((ins.cycles + page + oo.2->Some_0) as u8))
            }
        }
    }
}

/// One host cycle from `before` to `after` with result `r`: with cycles owed,
/// one is paid; otherwise the instruction at PC runs and its cycles, less
/// the one paid, become owed.
pub open spec fn cycle_done(before: Cpu, after: Cpu, r: Result<(), CpuError>) -> bool {
    &&& before.remaining_cycles > 0 ==> r is Ok && after.r == before.r
        && after.address_bus@ == before.address_bus@
        && after.remaining_cycles == before.remaining_cycles - 1
        && after.current_pc == before.current_pc
    &&& before.remaining_cycles == 0 ==> ({
        let o = instruction_outcome(before.address_bus@, before.r);
        &&& (r is Ok <==> o.2 is Some)
        &&& r is Ok ==> {
            &&& after.r == o.1
            &&& after.address_bus@ == o.0
            &&& after.remaining_cycles == o.2->Some_0 - 1
            &&& after.current_pc == before.r.pc
        }
    })
}

/// Up to `n` instructions from the state `(bus, r)`, stopping after the one
/// at `to` has run (`true`), or when an instruction leaves PC where it was or
/// `n` instructions have run (`false`); with the state reached. `None` when a
/// bus access fails.
pub open spec fn run_steps(bus: BusModel, r: CpuRegisters, to: u16, n: nat) -> Option<(bool, BusModel, CpuRegisters)>
    decreases n,
{
    if n == 0 {
        Some((false, bus, r))
    } else {
        let o = instruction_outcome(bus, r);
        if o.2 is None {
            None
        } else if r.pc == to {
            Some((true, o.0, o.1))
        } else if o.1.pc == r.pc {
            Some((false, o.0, o.1))
        } else {
            run_steps(o.0, o.1, to, (n - 1) as nat)
        }
    }
}

/// A run from `from` to `to` of at most `n` instructions, after a reset.
pub open spec fn run_outcome(bus: BusModel, from: u16, to: u16, n: nat) -> Option<(bool, BusModel, CpuRegisters)> {
    let (b1, lo) = bus.read(0xFFFC);
    let (b2, hi) = b1.read(0xFFFD);
    if lo is Some && hi is Some {
        run_steps(b2, CpuRegisters { a: 0, x: 0, y: 0, pc: from, sp: 0xFD, status: StatusFlag::U }, to, n)
    } else {
        None
    }
}

/// The byte pushed for P by an interrupt: B clear, U set.
pub open spec fn interrupt_status(status: u8) -> u8 {
    flag_set(flag_set(status, StatusFlag::B, false), StatusFlag::U, true)
}

/// An interrupt through `vector`: PC (high, low) and P are pushed, I is set
/// and PC is loaded from the vector.
pub open spec fn interrupt_outcome(bus: BusModel, r: CpuRegisters, vector: u16) -> (BusModel, CpuRegisters, bool) {
    let (b1, r1, ok1) = push(bus, r, hi_byte(r.pc));
    let (b2, r2, ok2) = push(b1, r1, lo_byte(r.pc));
    let (b3, r3, ok3) = push(b2, r2, interrupt_status(r.status));
    let (b4, lo) = b3.read(vector);
    let (b5, hi) = b4.read(add16(vector as int, 1));
    (
        b5,
        CpuRegisters {
            status: flag_set(r.status, StatusFlag::I, true),
            pc: if lo is Some && hi is Some { word(lo->Some_0, hi->Some_0) } else { r.pc },
            ..r3
        },
        ok1 && ok2 && ok3 && lo is Some && hi is Some,
    )
}

impl Cpu {
    /// One host cycle. With no cycles owed, the instruction at PC is fetched,
    /// decoded and executed, and its cycles become owed; then one owed cycle
    /// is paid.
    pub fn cycle(&mut self) -> (r: Result<(), CpuError>)
        requires
            old(self).wf(),
        ensures
            final(self).wf(),
            final(self).address_bus@.layout() == old(self).address_bus@.layout(),
            cycle_done(*old(self), *final(self), r),
    {
        if self.remaining_cycles == 0 {
            let pc = self.r.pc;
            let opcode = self.read(pc, "fetch")?;
            self.current_pc = pc;
            self.r.pc = pc.wrapping_add(1);
            let ins = decode(opcode);
            let ghost before_mode = *self;
            let mode = address(self, ins.address_mode)?;
            proof {
                lemma_mode_cycles(ins.address_mode, before_mode.address_bus@, before_mode.r);
            }
            let ghost before_op = *self;
            let extra = execute(self, ins.operation, mode, opcode)?;
            proof {
                lemma_op_cycles(ins.operation, before_op.address_bus@, mode, before_op.r, opcode);
            }
            let page = if page_cross_counts(ins.operation) {
                mode.add_cycles
            } else {
                0
            };
            self.remaining_cycles = ins.cycles + page + extra;
        }
        self.remaining_cycles = self.remaining_cycles - 1;
        Ok(())
    }

    /// Pays the cycles still owed, executing nothing new.
    pub fn wait_for_system_reset_cycles(&mut self)
        requires
            old(self).wf(),
        ensures
            final(self).wf(),
            final(self).address_bus@.layout() == old(self).address_bus@.layout(),
            final(self).r == old(self).r,
            final(self).address_bus@ == old(self).address_bus@,
            final(self).current_pc == old(self).current_pc,
            final(self).remaining_cycles == 0,
    {
        while self.remaining_cycles > 0
            invariant
                self.wf(),
                self.r == old(self).r,
                self.address_bus@ == old(self).address_bus@,
                self.current_pc == old(self).current_pc,
            decreases self.remaining_cycles,
        {
            let _ = self.cycle();
        }
    }

    /// Whether the current instruction has been paid for.
    pub fn completed_operation_cycles(&self) -> (r: bool)
        ensures
            r == (self.remaining_cycles == 0),
    {
        self.remaining_cycles == 0
    }

    /// Runs one whole instruction: with no cycles owed, the instruction at PC
    /// is executed and all its cycles paid; otherwise only the owed cycles are paid.
    pub fn step_instruction(&mut self) -> (r: Result<(), CpuError>)
        requires
            old(self).wf(),
        ensures
            final(self).wf(),
            final(self).address_bus@.layout() == old(self).address_bus@.layout(),
            r is Ok ==> final(self).remaining_cycles == 0,
            old(self).remaining_cycles > 0 ==> r is Ok && final(self).r == old(self).r
                && final(self).address_bus@ == old(self).address_bus@
                && final(self).current_pc == old(self).current_pc,
            old(self).remaining_cycles == 0 ==> ({
                let o = instruction_outcome(old(self).address_bus@, old(self).r);
                &&& (r is Ok <==> o.2 is Some)
                &&& r is Ok ==> {
                    &&& final(self).r == o.1
                    &&& final(self).address_bus@ == o.0
                    &&& final(self).current_pc == old(self).r.pc
                }
            }),
    {
        self.cycle()?;
        self.wait_for_system_reset_cycles();
        Ok(())
    }

    /// Resets, sets PC to `from_addr`, and executes instructions until the one
    /// at `to_addr` has run. Stops with an error when an instruction leaves PC
    /// where it was (an endless loop), when a bus access fails, or after
    /// `max_instructions` instructions.
    pub fn run(&mut self, from_addr: u16, to_addr: u16, max_instructions: u64) -> (r: Result<(), CpuError>)
        requires
            old(self).wf(),
        ensures
            final(self).wf(),
            final(self).address_bus@.layout() == old(self).address_bus@.layout(),
            ({
                let o = run_outcome(old(self).address_bus@, from_addr, to_addr, max_instructions as nat);
                &&& (r is Ok <==> (o is Some && o->Some_0.0))
                &&& r is Ok ==> {
                    &&& final(self).r == o->Some_0.2
                    &&& final(self).address_bus@ == o->Some_0.1
                    &&& final(self).current_pc == to_addr
                    &&& final(self).remaining_cycles == 0
                }
            }),
    {
        let ghost start = self.address_bus@;
        self.reset()?;
        self.r.pc = from_addr;
        self.wait_for_system_reset_cycles();
        let mut n: u64 = 0;
        while n < max_instructions
            invariant
                self.wf(),
                self.remaining_cycles == 0,
                n <= max_instructions,
                start == old(self).address_bus@,
                self.address_bus@.layout() == old(self).address_bus@.layout(),
                run_outcome(start, from_addr, to_addr, max_instructions as nat) == run_steps(
                    self.address_bus@,
                    self.r,
                    to_addr,
                    (max_instructions - n) as nat,
                ),
            decreases max_instructions - n,
        {
            let pc = self.r.pc;
            let ghost b = self.address_bus@;
            let ghost regs = self.r;
            let ghost k = (max_instructions - n) as nat;
            assert(run_steps(b, regs, to_addr, k) == ({
                let o = instruction_outcome(b, regs);
                if o.2 is None {
                    None
                } else if regs.pc == to_addr {
                    Some((true, o.0, o.1))
                } else if o.1.pc == regs.pc {
                    Some((false, o.0, o.1))
                } else {
                    run_steps(o.0, o.1, to_addr, (k - 1) as nat)
                }
            }));
            match self.step_instruction() {
                Ok(()) => {},
                Err(e) => {
                    assert(run_outcome(start, from_addr, to_addr, max_instructions as nat) is None);
                    return Err(e);
                },
            }
            if self.current_pc == to_addr {
                assert(run_outcome(start, from_addr, to_addr, max_instructions as nat) == Some((true, self.address_bus@, self.r)));
                return Ok(());
            }
            if self.r.pc == pc {
                return Err(CpuError::new("infinite loop", pc));
            }
            n = n + 1;
        }
        Err(CpuError::new("instruction limit", self.r.pc))
    }

    fn interrupt(&mut self, vector: u16) -> (r: Result<(), CpuError>)
        requires
            old(self).wf(),
            vector < 0xFFFF,
        ensures
            final(self).wf(),
            final(self).address_bus@.layout() == old(self).address_bus@.layout(),
            ({
                let (b, regs, ok) = interrupt_outcome(old(self).address_bus@, old(self).r, vector);
                &&& (r is Ok <==> ok)
                &&& ok ==> final(self).r == regs && final(self).address_bus@ == b
                    && final(self).remaining_cycles == 7
                    && final(self).current_pc == old(self).current_pc
            }),
    {
        let pc = self.r.pc;
        let p = (self.r.status & !StatusFlag::B) | StatusFlag::U;
        push_byte(self, (pc / 256) as u8)?;
        push_byte(self, (pc % 256) as u8)?;
        push_byte(self, p)?;
        self.set_flag(StatusFlag::I, true);
        let lo = self.read(vector, "interrupt")?;
        let hi = self.read(vector + 1, "interrupt")?;
        self.r.pc = hi as u16 * 256 + lo as u16;
        self.remaining_cycles = 7;
        Ok(())
    }

    /// A maskable interrupt request through $FFFE/$FFFF, taken between
    /// instructions when I is clear. Returns whether it was taken.
    pub fn irq(&mut self) -> (r: Result<bool, CpuError>)
        requires
            old(self).wf(),
            old(self).remaining_cycles == 0,
        ensures
            final(self).wf(),
            final(self).address_bus@.layout() == old(self).address_bus@.layout(),
            flag_of(old(self).r.status, StatusFlag::I) ==> r == Ok::<bool, CpuError>(false)
                && final(self).r == old(self).r && final(self).address_bus@ == old(self).address_bus@
                && final(self).remaining_cycles == old(self).remaining_cycles,
            !flag_of(old(self).r.status, StatusFlag::I) ==> ({
                let (b, regs, ok) = interrupt_outcome(old(self).address_bus@, old(self).r, 0xFFFE);
                &&& (r is Ok <==> ok)
                &&& ok ==> r == Ok::<bool, CpuError>(true) && final(self).r == regs
                    && final(self).address_bus@ == b && final(self).remaining_cycles == 7
            }),
    {
        if self.get_flag(StatusFlag::I) {
            return Ok(false);
        }
        self.interrupt(0xFFFE)?;
        Ok(true)
    }

    /// Services a signal taken from a device's interrupt queue between
    /// instructions: `IRQ` is a maskable request, `NMI` a non-maskable one,
    /// anything else is ignored. Returns whether an interrupt was taken.
    pub fn poll_interrupt(&mut self, signal: InterruptSignal) -> (r: Result<bool, CpuError>)
        requires
            old(self).wf(),
            old(self).remaining_cycles == 0,
        ensures
            final(self).wf(),
            final(self).address_bus@.layout() == old(self).address_bus@.layout(),
            (signal == InterruptSignal::IRQ && !flag_of(old(self).r.status, StatusFlag::I))
                || signal == InterruptSignal::NMI ==> ({
                let vector: u16 = if signal == InterruptSignal::NMI { 0xFFFA } else { 0xFFFE };
                let (b, regs, ok) = interrupt_outcome(old(self).address_bus@, old(self).r, vector);
                &&& (r is Ok <==> ok)
                &&& ok ==> r == Ok::<bool, CpuError>(true) && final(self).r == regs
                    && final(self).address_bus@ == b && final(self).remaining_cycles == 7
            }),
            !((signal == InterruptSignal::IRQ && !flag_of(old(self).r.status, StatusFlag::I))
                || signal == InterruptSignal::NMI) ==> r == Ok::<bool, CpuError>(false)
                && final(self).r == old(self).r && final(self).address_bus@
                == old(self).address_bus@ && final(self).remaining_cycles == 0,
    {
        match signal {
            InterruptSignal::IRQ => self.irq(),
            InterruptSignal::NMI => {
                self.nmi()?;
                Ok(true)
            },
            _ => Ok(false),
        }
    }

    /// A non-maskable interrupt through $FFFA/$FFFB, taken between instructions.
    pub fn nmi(&mut self) -> (r: Result<(), CpuError>)
        requires
            old(self).wf(),
            old(self).remaining_cycles == 0,
        ensures
            final(self).wf(),
            final(self).address_bus@.layout() == old(self).address_bus@.layout(),
            ({
                let (b, regs, ok) = interrupt_outcome(old(self).address_bus@, old(self).r, 0xFFFA);
                &&& (r is Ok <==> ok)
                &&& ok ==> final(self).r == regs && final(self).address_bus@ == b
                    && final(self).remaining_cycles == 7
            }),
    {
        self.interrupt(0xFFFA)
    }
}

/// Every stack pointer addresses a byte of page $01.
pub proof fn lemma_stack_in_page_one(sp: u8)
    ensures
        0x100 <= stack_addr(sp) <= 0x1FF,
{
}

/// The status byte that PHP and BRK push, and the one an interrupt pushes,
/// have the unused bit U set.
pub proof fn lemma_pushed_status_has_unused(status: u8)
    ensures
        (status | StatusFlag::B | StatusFlag::U) & StatusFlag::U != 0,
        interrupt_status(status) & StatusFlag::U != 0,
{
    assert((status | 0x10u8 | 0x20u8) & 0x20u8 != 0) by (bit_vector);
    assert(((status & !0x10u8) | 0x20u8) & 0x20u8 != 0) by (bit_vector);
}

/// The stack byte for `sp` is RAM.
pub open spec fn stack_is_ram(bus: BusModel, sp: u8) -> bool {
    is_ram(bus, stack_addr(sp))
}

proof fn lemma_push_pull(bus: BusModel, r: CpuRegisters, v: u8)
    requires
        stack_is_ram(bus, r.sp),
    ensures
        push(bus, r, v).2,
        pull(push(bus, r, v).0, push(bus, r, v).1).2 == Some(v),
        pull(push(bus, r, v).0, push(bus, r, v).1).1.sp == r.sp,
{
    lemma_write_then_read(bus, stack_addr(r.sp), v);
    assert(add8(sub8(r.sp as int, 1) as int, 1) == r.sp);
}

/// PHA then PLA: A holds the pushed byte again and SP is back where it was.
pub proof fn lemma_pha_pla(bus: BusModel, mode: AddressModeValues, r: CpuRegisters)
    requires
        stack_is_ram(bus, r.sp),
    ensures
        ({
            let o1 = pha_outcome(bus, mode, r);
            let o2 = pla_outcome(o1.0, mode, o1.1);
            &&& o1.2 is Some && o2.2 is Some
            &&& o2.1.a == r.a
            &&& o2.1.sp == r.sp
        }),
{
    lemma_push_pull(bus, r, r.a);
}

/// PHP, then any change of P, then PLP: every flag but B and U is restored,
/// U is set, and SP is back where it was.
pub proof fn lemma_php_plp(bus: BusModel, mode: AddressModeValues, r: CpuRegisters, changed: u8)
    requires
        stack_is_ram(bus, r.sp),
    ensures
        ({
            let o1 = php_outcome(bus, mode, r);
            let o2 = plp_outcome(o1.0, mode, CpuRegisters { status: changed, ..o1.1 });
            &&& o1.2 is Some && o2.2 is Some
            &&& o2.1.status & !(StatusFlag::B | StatusFlag::U) == r.status & !(StatusFlag::B
                | StatusFlag::U)
            &&& o2.1.status & StatusFlag::U != 0
            &&& o2.1.sp == r.sp
        }),
{
    let v = r.status | StatusFlag::B | StatusFlag::U;
    lemma_push_pull(bus, r, v);
    let s = r.status;
    assert(((s | 0x10u8 | 0x20u8) | 0x20u8) & !(0x10u8 | 0x20u8) == s & !(0x10u8 | 0x20u8)
        && ((s | 0x10u8 | 0x20u8) | 0x20u8) & 0x20u8 != 0) by (bit_vector);
}

} // verus!
