//! Bytes and words in memory, and the processor's ways of reading them.

use vstd::prelude::*;
use crate::bus::{read_of, write_of, Bus, Byte, Transfer, Word};
use crate::cpu::CPU;

verus! {

/// The word with low byte `lo` and high byte `hi`.
pub open spec fn word(lo: u8, hi: u8) -> u16 {
    (lo + 256 * hi) as u16
}

/// The low byte of `w`.
pub open spec fn lo_byte(w: u16) -> u8 {
    (w % 256) as u8
}

/// The high byte of `w`.
pub open spec fn hi_byte(w: u16) -> u8 {
    (w / 256) as u8
}

/// The number a byte stands for in two's complement.
pub open spec fn signed(byte: u8) -> int {
    if byte < 0x80 {
        byte as int
    } else {
        byte - 0x100
    }
}

/// The address `n` past `addr`; addresses wrap at 2^16.
pub open spec fn offset(addr: u16, n: int) -> u16 {
    ((addr + n) % 0x10000) as u16
}

/// The zero-page address `n` past `z`; the zero page wraps at 2^8.
pub open spec fn offset_zp(z: u8, n: int) -> u8 {
    ((z + n) % 0x100) as u8
}

/// The byte at `addr`.
pub open spec fn mem8(mem: Seq<u8>, addr: u16) -> u8 {
    mem[addr as int]
}

/// The little-endian word at `addr` and the address after it.
pub open spec fn mem16(mem: Seq<u8>, addr: u16) -> u16 {
    word(mem8(mem, addr), mem8(mem, offset(addr, 1)))
}

/// The little-endian word in the zero page at `z` and at the zero-page
/// address after it: a pointer at `0xFF` has its high byte at `0x00`.
pub open spec fn mem16_zp(mem: Seq<u8>, z: u8) -> u16 {
    word(mem[z as int], mem[offset_zp(z, 1) as int])
}

/// The next address in the page of `addr`: the last address of a page is
/// followed by the first of the same page.
pub open spec fn next_in_page(addr: u16) -> u16 {
    ((addr / 256) * 256 + (addr % 256 + 1) % 256) as u16
}

/// The word that an indirect jump reads through the pointer at `ptr`: the
/// high byte comes from the next address in the page of `ptr`.
pub open spec fn mem16_in_page(mem: Seq<u8>, ptr: u16) -> u16 {
    word(mem8(mem, ptr), mem8(mem, next_in_page(ptr)))
}

/// The read of the byte at `addr`.
pub open spec fn reads8(mem: Seq<u8>, addr: u16) -> Seq<Transfer> {
    seq![read_of(addr, mem8(mem, addr))]
}

/// The reads of the word at `addr`: low byte first.
pub open spec fn reads16(mem: Seq<u8>, addr: u16) -> Seq<Transfer> {
    seq![read_of(addr, mem8(mem, addr)), read_of(offset(addr, 1), mem8(mem, offset(addr, 1)))]
}

/// The reads of the word in the zero page at `z`: low byte first.
pub open spec fn reads16_zp(mem: Seq<u8>, z: u8) -> Seq<Transfer> {
    seq![
        read_of(z as u16, mem[z as int]),
        read_of(offset_zp(z, 1) as u16, mem[offset_zp(z, 1) as int]),
    ]
}

/// The reads of the word that an indirect jump reads through `ptr`.
pub open spec fn reads16_in_page(mem: Seq<u8>, ptr: u16) -> Seq<Transfer> {
    seq![
        read_of(ptr, mem8(mem, ptr)),
        read_of(next_in_page(ptr), mem8(mem, next_in_page(ptr))),
    ]
}

/// The write of `value` at `addr`.
pub open spec fn writes8(addr: u16, value: u8) -> Seq<Transfer> {
    seq![write_of(addr, value)]
}

/// Whether adding `index` to `base` carries out of the low byte, so that the
/// sum lies in another page than `base`.
pub open spec fn crosses_page(base: u16, index: u8) -> bool {
    base % 256 + index >= 0x100
}

/// The page an address lies in.
pub open spec fn page(addr: u16) -> u16 {
    addr / 256
}

/// Two steps within the zero page are one step of their sum.
pub proof fn lemma_offset_zp_sum(z: u8, a: int, b: int)
    requires
        -0x100 <= a <= 0x100,
        -0x100 <= b <= 0x100,
    ensures
        offset_zp(offset_zp(z, a), b) == offset_zp(z, a + b),
{
}

/// `memory::word`, computed.
pub fn make_word(lo: Byte, hi: Byte) -> (w: Word)
    ensures
        w == word(lo, hi),
        lo_byte(w) == lo,
        hi_byte(w) == hi,
{
    (hi as Word) * 256 + (lo as Word)
}

/// The low and the high byte of `w`.
pub fn split_word(w: Word) -> (bytes: (Byte, Byte))
    ensures
        bytes.0 == lo_byte(w),
        bytes.1 == hi_byte(w),
        word(bytes.0, bytes.1) == w,
{
    ((w % 256) as Byte, (w / 256) as Byte)
}

impl CPU {
    /// Reads the byte at the program counter and steps past it.
    pub fn fetch_byte<B: Bus>(&mut self, bus: &mut B) -> (value: Byte)
        ensures
            value == mem8(old(bus).mem(), old(self).pc),
            *final(self) == (CPU { pc: offset(old(self).pc, 1), ..*old(self) }),
            final(bus).mem() == old(bus).mem(),
            final(bus).accesses() == old(bus).accesses() + reads8(old(bus).mem(), old(self).pc),
    {
        let value = bus.read(self.pc, false);
        self.pc = self.pc.wrapping_add(1);
        value
    }

    /// Reads the little-endian word at the program counter and steps past it.
    pub fn fetch_word<B: Bus>(&mut self, bus: &mut B) -> (value: Word)
        ensures
            value == mem16(old(bus).mem(), old(self).pc),
            *final(self) == (CPU { pc: offset(old(self).pc, 2), ..*old(self) }),
            final(bus).mem() == old(bus).mem(),
            final(bus).accesses() == old(bus).accesses() + reads16(old(bus).mem(), old(self).pc),
    {
        let lo = self.fetch_byte(bus);
        let hi = self.fetch_byte(bus);
        make_word(lo, hi)
    }

    /// Reads the byte at `addr`.
    pub fn read_byte<B: Bus>(&self, addr: Word, bus: &mut B) -> (value: Byte)
        ensures
            value == mem8(old(bus).mem(), addr),
            final(bus).mem() == old(bus).mem(),
            final(bus).accesses() == old(bus).accesses() + reads8(old(bus).mem(), addr),
    {
        bus.read(addr, false)
    }

    /// Reads the byte at `addr` in the zero page.
    pub fn read_byte_zp<B: Bus>(&self, addr: Byte, bus: &mut B) -> (value: Byte)
        ensures
            value == old(bus).mem()[addr as int],
            final(bus).mem() == old(bus).mem(),
            final(bus).accesses() == old(bus).accesses() + reads8(old(bus).mem(), addr as u16),
    {
        bus.read(addr as Word, false)
    }

    /// Reads the little-endian word at `addr`.
    pub fn read_word<B: Bus>(&self, addr: Word, bus: &mut B) -> (value: Word)
        ensures
            value == mem16(old(bus).mem(), addr),
            final(bus).mem() == old(bus).mem(),
            final(bus).accesses() == old(bus).accesses() + reads16(old(bus).mem(), addr),
    {
        let lo = bus.read(addr, false);
        let hi = bus.read(addr.wrapping_add(1), false);
        make_word(lo, hi)
    }

    /// Reads the little-endian word at `addr` in the zero page, wrapping within it.
    pub fn read_word_zp<B: Bus>(&self, addr: Byte, bus: &mut B) -> (value: Word)
        ensures
            value == mem16_zp(old(bus).mem(), addr),
            final(bus).mem() == old(bus).mem(),
            final(bus).accesses() == old(bus).accesses() + reads16_zp(old(bus).mem(), addr),
    {
        let lo = bus.read(addr as Word, false);
        let hi = bus.read(addr.wrapping_add(1) as Word, false);
        make_word(lo, hi)
    }

    /// Stores `byte` at `addr`.
    pub fn write_byte<B: Bus>(&self, addr: Word, byte: Byte, bus: &mut B)
        ensures
            final(bus).mem() == old(bus).mem().update(addr as int, byte),
            final(bus).accesses() == old(bus).accesses() + writes8(addr, byte),
    {
        bus.write(addr, byte);
    }

    /// Stores `word` at `addr`, low byte first.
    pub fn write_word<B: Bus>(&self, addr: Word, word: Word, bus: &mut B)
        ensures
            final(bus).mem() == old(bus).mem().update(addr as int, lo_byte(word)).update(
                offset(addr, 1) as int,
                hi_byte(word),
            ),
            final(bus).accesses() == old(bus).accesses() + writes8(addr, lo_byte(word)) + writes8(
                offset(addr, 1),
                hi_byte(word),
            ),
    {
        let (lo, hi) = split_word(word);
        bus.write(addr, lo);
        bus.write(addr.wrapping_add(1), hi);
    }

    /// [`crosses_page`], computed.
    pub fn page_crossed(base: Word, index: Byte) -> (crossed: bool)
        ensures
            crossed == crosses_page(base, index),
    {
        (base % 256) + index as Word >= 0x100
    }
}

} // verus!
