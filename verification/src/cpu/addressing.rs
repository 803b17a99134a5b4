//! Addressing modes: how the bytes after an opcode name its operand.

use vstd::prelude::*;
use crate::bus::{Bus, Byte, Transfer, Word};
use crate::cpu::CPU;
use crate::cpu::memory::{
    crosses_page, make_word, mem16, mem16_in_page, mem16_zp, mem8, offset, offset_zp, reads16,
    reads16_in_page, reads16_zp, reads8, signed, split_word,
};

verus! {

/// The ways in which an instruction names its operand.
#[derive(Debug, Copy, Clone, PartialEq, Eq, Structural)]
pub enum AddrMode {
    /// Implied: no operand bytes; the operand, if any, is the accumulator.
    IMP,
    /// Immediate: the operand is the byte after the opcode.
    IMM,
    /// Zero page: one byte gives an address in page zero.
    ZPG,
    /// Zero page indexed by X, wrapping within page zero.
    ZPX,
    /// Zero page indexed by Y, wrapping within page zero.
    ZPY,
    /// Absolute: two bytes give the address.
    ABS,
    /// Absolute indexed by X.
    ABX,
    /// Absolute indexed by Y.
    ABY,
    /// Indirect: two bytes give the address of the address.
    IND,
    /// Indexed indirect: the pointer is in page zero at the operand byte plus X.
    IDX,
    /// Indirect indexed: the pointer in page zero, then plus Y.
    IDY,
    /// Relative: one signed byte, counted from the next instruction.
    REL,
    /// The mode of a byte that is no opcode.
    XXX,
}

/// What an instruction works on.
#[derive(Debug, Copy, Clone, PartialEq, Eq, Structural)]
pub enum Operand {
    /// The accumulator.
    Accumulator,
    /// The byte at this address.
    Address(Word),
}

/// An operand, and whether finding it took an index across a page boundary.
#[derive(Debug, Copy, Clone, PartialEq, Eq, Structural)]
pub struct Resolved {
    pub operand: Operand,
    pub page_crossed: bool,
}

impl AddrMode {
    /// How many bytes follow the opcode.
    pub open spec fn operand_len(self) -> int {
        match self {
            AddrMode::IMP | AddrMode::XXX => 0,
            AddrMode::IMM | AddrMode::ZPG | AddrMode::ZPX | AddrMode::ZPY | AddrMode::IDX
            | AddrMode::IDY | AddrMode::REL => 1,
            AddrMode::ABS | AddrMode::ABX | AddrMode::ABY | AddrMode::IND => 2,
        }
    }

    /// [`AddrMode::operand_len`], computed.
    pub fn operand_bytes(self) -> (n: u8)
        ensures
            n == self.operand_len(),
    {
        match self {
            AddrMode::IMP | AddrMode::XXX => 0,
            AddrMode::IMM | AddrMode::ZPG | AddrMode::ZPX | AddrMode::ZPY | AddrMode::IDX
            | AddrMode::IDY | AddrMode::REL => 1,
            AddrMode::ABS | AddrMode::ABX | AddrMode::ABY | AddrMode::IND => 2,
        }
    }

    /// The operand that the bytes at `pc` name in this mode.
    ///
    /// For `REL` the address is the branch target: the signed offset counted
    /// from the address after the offset byte.
    pub open spec fn operand(self, cpu: CPU, mem: Seq<u8>) -> Operand {
        let pc = cpu.pc;
        match self {
            AddrMode::IMP | AddrMode::XXX => Operand::Accumulator,
            AddrMode::IMM => Operand::Address(pc),
            AddrMode::ZPG => Operand::Address(mem8(mem, pc) as u16),
            AddrMode::ZPX => Operand::Address(offset_zp(mem8(mem, pc), cpu.x as int) as u16),
            AddrMode::ZPY => Operand::Address(offset_zp(mem8(mem, pc), cpu.y as int) as u16),
            AddrMode::ABS => Operand::Address(mem16(mem, pc)),
            AddrMode::ABX => Operand::Address(offset(mem16(mem, pc), cpu.x as int)),
            AddrMode::ABY => Operand::Address(offset(mem16(mem, pc), cpu.y as int)),
            AddrMode::IND => Operand::Address(mem16_in_page(mem, mem16(mem, pc))),
            AddrMode::IDX => Operand::Address(
                mem16_zp(mem, offset_zp(mem8(mem, pc), cpu.x as int)),
            ),
            AddrMode::IDY => Operand::Address(
                offset(mem16_zp(mem, mem8(mem, pc)), cpu.y as int),
            ),
            AddrMode::REL => Operand::Address(offset(offset(pc, 1), signed(mem8(mem, pc)))),
        }
    }

    /// Whether the index of this mode carries out of the low byte of the
    /// address it is added to.  Only the three indexed modes that can leave
    /// the page of their base ever say yes.
    pub open spec fn page_crossed(self, cpu: CPU, mem: Seq<u8>) -> bool {
        match self {
            AddrMode::ABX => crosses_page(mem16(mem, cpu.pc), cpu.x),
            AddrMode::ABY => crosses_page(mem16(mem, cpu.pc), cpu.y),
            AddrMode::IDY => crosses_page(mem16_zp(mem, mem8(mem, cpu.pc)), cpu.y),
            _ => false,
        }
    }

    /// The reads that the resolver makes in this mode, in their order: the
    /// operand bytes first, then the bytes of a pointer.  The byte of an
    /// immediate operand is not among them: the operation reads it.
    pub open spec fn accesses(self, cpu: CPU, mem: Seq<u8>) -> Seq<Transfer> {
        let pc = cpu.pc;
        match self {
            AddrMode::IMP | AddrMode::IMM | AddrMode::XXX => Seq::empty(),
            AddrMode::ZPG | AddrMode::ZPX | AddrMode::ZPY | AddrMode::REL => reads8(mem, pc),
            AddrMode::ABS | AddrMode::ABX | AddrMode::ABY => reads16(mem, pc),
            AddrMode::IND => reads16(mem, pc) + reads16_in_page(mem, mem16(mem, pc)),
            AddrMode::IDX => reads8(mem, pc) + reads16_zp(
                mem,
                offset_zp(mem8(mem, pc), cpu.x as int),
            ),
            AddrMode::IDY => reads8(mem, pc) + reads16_zp(mem, mem8(mem, pc)),
        }
    }

    /// The answer of the resolver in this mode.
    pub open spec fn resolved(self, cpu: CPU, mem: Seq<u8>) -> Resolved {
        Resolved { operand: self.operand(cpu, mem), page_crossed: self.page_crossed(cpu, mem) }
    }

    /// The registers after the resolver has read the operand bytes: only the
    /// program counter moves.
    pub open spec fn after(self, cpu: CPU) -> CPU {
        CPU { pc: offset(cpu.pc, self.operand_len()), ..cpu }
    }
}

impl CPU {
    /// Finds the operand of an instruction in mode `mode` whose operand bytes
    /// start at the program counter, and steps past them.  `None` for `XXX`,
    /// which names no operand; nothing changes then.
    pub fn resolve_addr<B: Bus>(&mut self, mode: AddrMode, bus: &mut B) -> (r: Option<Resolved>)
        ensures
            r == (if mode == AddrMode::XXX {
                None
            } else {
                Some(mode.resolved(*old(self), old(bus).mem()))
            }),
            *final(self) == mode.after(*old(self)),
            final(bus).mem() == old(bus).mem(),
            final(bus).accesses() == old(bus).accesses() + mode.accesses(
                *old(self),
                old(bus).mem(),
            ),
    {
        match mode {
            AddrMode::IMP => Some(self.imp()),
            AddrMode::IMM => Some(self.imm()),
            AddrMode::ZPG => Some(self.zpg(bus)),
            AddrMode::ZPX => Some(self.zpx(bus)),
            AddrMode::ZPY => Some(self.zpy(bus)),
            AddrMode::ABS => Some(self.abs(bus)),
            AddrMode::ABX => Some(self.abx(bus)),
            AddrMode::ABY => Some(self.aby(bus)),
            AddrMode::IND => Some(self.ind(bus)),
            AddrMode::IDX => Some(self.idx(bus)),
            AddrMode::IDY => Some(self.idy(bus)),
            AddrMode::REL => Some(self.rel(bus)),
            AddrMode::XXX => None,
        }
    }

    /// Implied.
    pub fn imp(&mut self) -> (r: Resolved)
        ensures
            r == (Resolved { operand: Operand::Accumulator, page_crossed: false }),
            *final(self) == *old(self),
    {
        Resolved { operand: Operand::Accumulator, page_crossed: false }
    }

    /// Immediate.
    pub fn imm(&mut self) -> (r: Resolved)
        ensures
            r == (Resolved { operand: Operand::Address(old(self).pc), page_crossed: false }),
            *final(self) == AddrMode::IMM.after(*old(self)),
    {
        let addr = self.pc;
        self.pc = self.pc.wrapping_add(1);
        Resolved { operand: Operand::Address(addr), page_crossed: false }
    }

    /// Zero page.
    pub fn zpg<B: Bus>(&mut self, bus: &mut B) -> (r: Resolved)
        ensures
            r == AddrMode::ZPG.resolved(*old(self), old(bus).mem()),
            *final(self) == AddrMode::ZPG.after(*old(self)),
            final(bus).mem() == old(bus).mem(),
            final(bus).accesses() == old(bus).accesses() + AddrMode::ZPG.accesses(
                *old(self),
                old(bus).mem(),
            ),
    {
        let addr = self.fetch_byte(bus);
        Resolved { operand: Operand::Address(addr as Word), page_crossed: false }
    }

    /// Zero page with X offset.
    pub fn zpx<B: Bus>(&mut self, bus: &mut B) -> (r: Resolved)
        ensures
            r == AddrMode::ZPX.resolved(*old(self), old(bus).mem()),
            *final(self) == AddrMode::ZPX.after(*old(self)),
            final(bus).mem() == old(bus).mem(),
            final(bus).accesses() == old(bus).accesses() + AddrMode::ZPX.accesses(
                *old(self),
                old(bus).mem(),
            ),
    {
        let addr: Byte = self.fetch_byte(bus).wrapping_add(self.x);
        Resolved { operand: Operand::Address(addr as Word), page_crossed: false }
    }

    /// Zero page with Y offset.
    pub fn zpy<B: Bus>(&mut self, bus: &mut B) -> (r: Resolved)
        ensures
            r == AddrMode::ZPY.resolved(*old(self), old(bus).mem()),
            *final(self) == AddrMode::ZPY.after(*old(self)),
            final(bus).mem() == old(bus).mem(),
            final(bus).accesses() == old(bus).accesses() + AddrMode::ZPY.accesses(
                *old(self),
                old(bus).mem(),
            ),
    {
        let addr: Byte = self.fetch_byte(bus).wrapping_add(self.y);
        Resolved { operand: Operand::Address(addr as Word), page_crossed: false }
    }

    /// Absolute.
    pub fn abs<B: Bus>(&mut self, bus: &mut B) -> (r: Resolved)
        ensures
            r == AddrMode::ABS.resolved(*old(self), old(bus).mem()),
            *final(self) == AddrMode::ABS.after(*old(self)),
            final(bus).mem() == old(bus).mem(),
            final(bus).accesses() == old(bus).accesses() + AddrMode::ABS.accesses(
                *old(self),
                old(bus).mem(),
            ),
    {
        let addr = self.fetch_word(bus);
        Resolved { operand: Operand::Address(addr), page_crossed: false }
    }

    /// Absolute with X offset.
    pub fn abx<B: Bus>(&mut self, bus: &mut B) -> (r: Resolved)
        ensures
            r == AddrMode::ABX.resolved(*old(self), old(bus).mem()),
            *final(self) == AddrMode::ABX.after(*old(self)),
            final(bus).mem() == old(bus).mem(),
            final(bus).accesses() == old(bus).accesses() + AddrMode::ABX.accesses(
                *old(self),
                old(bus).mem(),
            ),
    {
        let base = self.fetch_word(bus);
        Resolved {
            operand: Operand::Address(base.wrapping_add(self.x as Word)),
            page_crossed: Self::page_crossed(base, self.x),
        }
    }

    /// Absolute with Y offset.
    pub fn aby<B: Bus>(&mut self, bus: &mut B) -> (r: Resolved)
        ensures
            r == AddrMode::ABY.resolved(*old(self), old(bus).mem()),
            *final(self) == AddrMode::ABY.after(*old(self)),
            final(bus).mem() == old(bus).mem(),
            final(bus).accesses() == old(bus).accesses() + AddrMode::ABY.accesses(
                *old(self),
                old(bus).mem(),
            ),
    {
        let base = self.fetch_word(bus);
        Resolved {
            operand: Operand::Address(base.wrapping_add(self.y as Word)),
            page_crossed: Self::page_crossed(base, self.y),
        }
    }

    /// Indirect, as `JMP` has it: the pointer's high byte is read from the
    /// pointer's own page, even where the pointer is the last byte of it.
    pub fn ind<B: Bus>(&mut self, bus: &mut B) -> (r: Resolved)
        ensures
            r == AddrMode::IND.resolved(*old(self), old(bus).mem()),
            *final(self) == AddrMode::IND.after(*old(self)),
            final(bus).mem() == old(bus).mem(),
            final(bus).accesses() == old(bus).accesses() + AddrMode::IND.accesses(
                *old(self),
                old(bus).mem(),
            ),
    {
        let ptr = self.fetch_word(bus);
        let (ptr_lo, ptr_hi) = split_word(ptr);
        let lo = self.read_byte(ptr, bus);
        let hi = self.read_byte(make_word(ptr_lo.wrapping_add(1), ptr_hi), bus);
        Resolved {
            operand: Operand::Address(make_word(lo, hi)),
            page_crossed: false,
        }
    }

    /// Indexed indirect (X).
    pub fn idx<B: Bus>(&mut self, bus: &mut B) -> (r: Resolved)
        ensures
            r == AddrMode::IDX.resolved(*old(self), old(bus).mem()),
            *final(self) == AddrMode::IDX.after(*old(self)),
            final(bus).mem() == old(bus).mem(),
            final(bus).accesses() == old(bus).accesses() + AddrMode::IDX.accesses(
                *old(self),
                old(bus).mem(),
            ),
    {
        let ptr = self.fetch_byte(bus).wrapping_add(self.x);
        let addr = self.read_word_zp(ptr, bus);
        Resolved { operand: Operand::Address(addr), page_crossed: false }
    }

    /// Indirect indexed (Y).
    pub fn idy<B: Bus>(&mut self, bus: &mut B) -> (r: Resolved)
        ensures
            r == AddrMode::IDY.resolved(*old(self), old(bus).mem()),
            *final(self) == AddrMode::IDY.after(*old(self)),
            final(bus).mem() == old(bus).mem(),
            final(bus).accesses() == old(bus).accesses() + AddrMode::IDY.accesses(
                *old(self),
                old(bus).mem(),
            ),
    {
        let ptr = self.fetch_byte(bus);
        let base = self.read_word_zp(ptr, bus);
        Resolved {
            operand: Operand::Address(base.wrapping_add(self.y as Word)),
            page_crossed: Self::page_crossed(base, self.y),
        }
    }

    /// Relative: the operand is the address a taken branch goes to.
    pub fn rel<B: Bus>(&mut self, bus: &mut B) -> (r: Resolved)
        ensures
            r == AddrMode::REL.resolved(*old(self), old(bus).mem()),
            *final(self) == AddrMode::REL.after(*old(self)),
            final(bus).mem() == old(bus).mem(),
            final(bus).accesses() == old(bus).accesses() + AddrMode::REL.accesses(
                *old(self),
                old(bus).mem(),
            ),
    {
        let byte = self.fetch_byte(bus);
        Resolved { operand: Operand::Address(Self::branch_target(self.pc, byte)), page_crossed: false }
    }

    /// The address `byte`, read as a signed offset, away from `from`.
    pub fn branch_target(from: Word, byte: Byte) -> (target: Word)
        ensures
            target == offset(from, signed(byte)),
    {
        if byte < 0x80 {
            from.wrapping_add(byte as Word)
        } else {
            from.wrapping_sub(0x100 - byte as Word)
        }
    }
}

} // verus!
