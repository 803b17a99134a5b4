//! The stack: page one, addressed by the stack pointer, growing downwards.

use vstd::prelude::*;
use crate::bus::{read_of, write_of, Bus, Byte, Transfer, Word, MEMORY_SIZE};
use crate::cpu::CPU;
use crate::cpu::memory::{
    hi_byte, lo_byte, make_word, mem8, offset_zp, page, split_word, word,
};

verus! {

/// The address in page one that stack pointer `sp` stands for.
pub open spec fn stack_address(sp: u8) -> u16 {
    (0x0100 + sp) as u16
}

/// Memory after a push of `byte` at stack pointer `sp`.
pub open spec fn pushed(mem: Seq<u8>, sp: u8, byte: u8) -> Seq<u8> {
    mem.update(stack_address(sp) as int, byte)
}

/// Memory after a push of `w` at stack pointer `sp`: high byte first.
pub open spec fn pushed_word(mem: Seq<u8>, sp: u8, w: u16) -> Seq<u8> {
    pushed(pushed(mem, sp, hi_byte(w)), offset_zp(sp, -1), lo_byte(w))
}

/// The byte that a pull at stack pointer `sp` returns.
pub open spec fn pulled(mem: Seq<u8>, sp: u8) -> u8 {
    mem[stack_address(offset_zp(sp, 1)) as int]
}

/// The word that a pull at stack pointer `sp` returns: low byte first.
pub open spec fn pulled_word(mem: Seq<u8>, sp: u8) -> u16 {
    word(pulled(mem, sp), pulled(mem, offset_zp(sp, 1)))
}

/// The write that a push of `byte` at stack pointer `sp` makes.
pub open spec fn push_access(sp: u8, byte: u8) -> Seq<Transfer> {
    seq![write_of(stack_address(sp), byte)]
}

/// The writes that a push of `w` at stack pointer `sp` makes.
pub open spec fn push_word_accesses(sp: u8, w: u16) -> Seq<Transfer> {
    seq![
        write_of(stack_address(sp), hi_byte(w)),
        write_of(stack_address(offset_zp(sp, -1)), lo_byte(w)),
    ]
}

/// The read that a pull at stack pointer `sp` makes.
pub open spec fn pull_access(mem: Seq<u8>, sp: u8) -> Seq<Transfer> {
    seq![read_of(stack_address(offset_zp(sp, 1)), pulled(mem, sp))]
}

/// The reads that a pull of a word at stack pointer `sp` makes.
pub open spec fn pull_word_accesses(mem: Seq<u8>, sp: u8) -> Seq<Transfer> {
    seq![
        read_of(stack_address(offset_zp(sp, 1)), pulled(mem, sp)),
        read_of(stack_address(offset_zp(sp, 2)), pulled(mem, offset_zp(sp, 1))),
    ]
}

/// A push writes in page one and nowhere else.
pub proof fn lemma_push_stays_in_page_one(mem: Seq<u8>, sp: u8, byte: u8, addr: u16)
    requires
        mem.len() == MEMORY_SIZE,
        page(addr) != 1,
    ensures
        pushed(mem, sp, byte).len() == MEMORY_SIZE,
        mem8(pushed(mem, sp, byte), addr) == mem8(mem, addr),
{
}

impl CPU {
    /// The address the next push writes to.
    pub fn stack_addr(&self) -> (addr: Word)
        ensures
            addr == stack_address(self.sp),
    {
        0x0100 + self.sp as Word
    }

    /// Stores `byte` at the stack address, then moves the stack pointer down.
    pub fn push_byte<B: Bus>(&mut self, byte: Byte, bus: &mut B)
        ensures
            *final(self) == (CPU { sp: offset_zp(old(self).sp, -1), ..*old(self) }),
            final(bus).mem() == pushed(old(bus).mem(), old(self).sp, byte),
            final(bus).accesses() == old(bus).accesses() + push_access(old(self).sp, byte),
    {
        bus.write(self.stack_addr(), byte);
        self.sp = self.sp.wrapping_sub(1);
    }

    /// Pushes the high byte of `word`, then the low byte.
    pub fn push_word<B: Bus>(&mut self, word: Word, bus: &mut B)
        ensures
            *final(self) == (CPU { sp: offset_zp(old(self).sp, -2), ..*old(self) }),
            final(bus).mem() == pushed_word(old(bus).mem(), old(self).sp, word),
            final(bus).accesses() == old(bus).accesses() + push_word_accesses(old(self).sp, word),
    {
        let (lo, hi) = split_word(word);
        self.push_byte(hi, bus);
        self.push_byte(lo, bus);
    }

    /// Moves the stack pointer up, then reads the byte at the stack address.
    pub fn pull_byte<B: Bus>(&mut self, bus: &mut B) -> (byte: Byte)
        ensures
            byte == pulled(old(bus).mem(), old(self).sp),
            *final(self) == (CPU { sp: offset_zp(old(self).sp, 1), ..*old(self) }),
            final(bus).mem() == old(bus).mem(),
            final(bus).accesses() == old(bus).accesses() + pull_access(
                old(bus).mem(),
                old(self).sp,
            ),
    {
        self.sp = self.sp.wrapping_add(1);
        bus.read(self.stack_addr(), false)
    }

    /// Pulls the low byte of a word, then the high byte.
    pub fn pull_word<B: Bus>(&mut self, bus: &mut B) -> (w: Word)
        ensures
            w == pulled_word(old(bus).mem(), old(self).sp),
            *final(self) == (CPU { sp: offset_zp(old(self).sp, 2), ..*old(self) }),
            final(bus).mem() == old(bus).mem(),
            final(bus).accesses() == old(bus).accesses() + pull_word_accesses(
                old(bus).mem(),
                old(self).sp,
            ),
    {
        let lo = self.pull_byte(bus);
        let hi = self.pull_byte(bus);
        make_word(lo, hi)
    }
}

} // verus!
