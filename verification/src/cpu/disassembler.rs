//! A listing of memory as instructions.

use std::collections::BTreeMap;
use vstd::prelude::*;
use vstd::string::StringExecFns;
use crate::bus::{Bus, Byte, Word};
use crate::cpu::addressing::AddrMode;
use crate::cpu::instructions::Instruction;
use crate::cpu::memory::{hi_byte, lo_byte, make_word, mem16, mem8, offset, signed, split_word};
use crate::cpu::CPU;

verus! {

/// The hexadecimal digit of `n`, for `n` below sixteen.
pub open spec fn hex_digit(n: u8) -> Seq<char> {
    match n {
        0 => "0"@,
        1 => "1"@,
        2 => "2"@,
        3 => "3"@,
        4 => "4"@,
        5 => "5"@,
        6 => "6"@,
        7 => "7"@,
        8 => "8"@,
        9 => "9"@,
        10 => "A"@,
        11 => "B"@,
        12 => "C"@,
        13 => "D"@,
        14 => "E"@,
        _ => "F"@,
    }
}

/// The two hexadecimal digits of a byte.
#[verifier::opaque]
pub open spec fn hex_byte(byte: u8) -> Seq<char> {
    hex_digit(byte / 16) + hex_digit(byte % 16)
}

/// The four hexadecimal digits of a word.
#[verifier::opaque]
pub open spec fn hex_word(w: u16) -> Seq<char> {
    hex_byte(hi_byte(w)) + hex_byte(lo_byte(w))
}

impl AddrMode {
    /// The name of the mode, as a listing shows it between braces.
    pub open spec fn tag(self) -> Seq<char> {
        match self {
            AddrMode::IMP => "IMP"@,
            AddrMode::IMM => "IMM"@,
            AddrMode::ZPG => "ZPG"@,
            AddrMode::ZPX => "ZPX"@,
            AddrMode::ZPY => "ZPY"@,
            AddrMode::ABS => "ABS"@,
            AddrMode::ABX => "ABX"@,
            AddrMode::ABY => "ABY"@,
            AddrMode::IND => "IND"@,
            AddrMode::IDX => "IDX"@,
            AddrMode::IDY => "IDY"@,
            AddrMode::REL => "REL"@,
            AddrMode::XXX => "XXX"@,
        }
    }

    /// The operand of an instruction in this mode as a listing shows it,
    /// followed by a space; nothing at all where the mode has no operand.
    /// `byte` is the first and `w` the first two of the operand bytes, and
    /// `next` the address of the instruction that follows.  A branch shows
    /// the address it goes to.
    #[verifier::opaque]
    pub open spec fn operand_text(self, byte: u8, w: u16, next: u16) -> Seq<char> {
        match self {
            AddrMode::IMP | AddrMode::XXX => Seq::empty(),
            AddrMode::IMM => "#$"@ + hex_byte(byte) + " "@,
            AddrMode::ZPG => "$"@ + hex_byte(byte) + " "@,
            AddrMode::ZPX => "$"@ + hex_byte(byte) + ",X "@,
            AddrMode::ZPY => "$"@ + hex_byte(byte) + ",Y "@,
            AddrMode::ABS => "$"@ + hex_word(w) + " "@,
            AddrMode::ABX => "$"@ + hex_word(w) + ",X "@,
            AddrMode::ABY => "$"@ + hex_word(w) + ",Y "@,
            AddrMode::IND => "($"@ + hex_word(w) + ") "@,
            AddrMode::IDX => "($"@ + hex_byte(byte) + ",X) "@,
            AddrMode::IDY => "($"@ + hex_byte(byte) + "),Y "@,
            AddrMode::REL => "$"@ + hex_word(offset(next, signed(byte))) + " "@,
        }
    }
}

/// The address of the instruction after the one at `addr`, as a walk through
/// memory sees it: a byte that is no opcode counts as an instruction of one
/// byte.  The result is not wrapped, so that a walk can see it pass the end
/// of memory.
pub open spec fn next_line(mem: Seq<u8>, addr: int) -> int {
    addr + 1 + Instruction::table(mem[addr]).addr_mode.operand_len()
}

/// The line of the listing for an instruction at `addr` whose entry in the
/// decode table is `entry` and whose operand bytes start with `byte` and, as
/// a word, are `w`: `$AAAA: MNEMONIC operand {MODE}`.
pub open spec fn line_text(addr: u16, entry: Instruction, byte: u8, w: u16) -> Seq<char> {
    let next = offset(addr, 1 + entry.addr_mode.operand_len());
    line_start(addr) + entry.name@ + " "@ + entry.addr_mode.operand_text(byte, w, next) + line_end(
        entry.addr_mode,
    )
}

/// The line of the listing for the instruction at `addr`.
pub open spec fn line(mem: Seq<u8>, addr: u16) -> Seq<char> {
    line_text(
        addr,
        Instruction::table(mem8(mem, addr)),
        mem8(mem, offset(addr, 1)),
        mem16(mem, offset(addr, 1)),
    )
}

/// How a line starts: with the address of its instruction.
pub open spec fn line_start(addr: u16) -> Seq<char> {
    "$"@ + hex_word(addr) + ": "@
}

/// How a line ends: with the addressing mode between braces.
pub open spec fn line_end(mode: AddrMode) -> Seq<char> {
    "{"@ + mode.tag() + "}"@
}

/// Whether a walk from `from` to `hi` has a line that starts at `addr`.  The
/// walk starts a line at `from` and goes on at the instruction after it until
/// it has passed `hi`.
pub open spec fn listed(mem: Seq<u8>, from: int, hi: int, addr: int) -> bool
    decreases
        (if from <= hi {
            hi - from + 1
        } else {
            0
        }),
{
    if from > hi {
        false
    } else {
        addr == from || listed(mem, next_line(mem, from), hi, addr)
    }
}

/// [`hex_digit`], as text.
fn digit(n: Byte) -> (text: &'static str)
    requires
        n < 16,
    ensures
        text@ == hex_digit(n),
{
    match n {
        0 => "0",
        1 => "1",
        2 => "2",
        3 => "3",
        4 => "4",
        5 => "5",
        6 => "6",
        7 => "7",
        8 => "8",
        9 => "9",
        10 => "A",
        11 => "B",
        12 => "C",
        13 => "D",
        14 => "E",
        _ => "F",
    }
}

/// A byte in hexadecimal, two digits.
pub fn format_byte(byte: Byte) -> (text: String)
    ensures
        text@ == hex_byte(byte),
{
    reveal(hex_byte);
    let mut text = String::from_str(digit(byte / 16));
    text.append(digit(byte % 16));
    text
}

/// A word in hexadecimal, four digits.
pub fn format_word(w: Word) -> (text: String)
    ensures
        text@ == hex_word(w),
{
    reveal(hex_word);
    let (lo, hi) = split_word(w);
    let mut text = format_byte(hi);
    text.append(format_byte(lo).as_str());
    text
}

impl AddrMode {
    /// [`AddrMode::tag`], as text.
    pub fn name(self) -> (text: &'static str)
        ensures
            text@ == self.tag(),
    {
        match self {
            AddrMode::IMP => "IMP",
            AddrMode::IMM => "IMM",
            AddrMode::ZPG => "ZPG",
            AddrMode::ZPX => "ZPX",
            AddrMode::ZPY => "ZPY",
            AddrMode::ABS => "ABS",
            AddrMode::ABX => "ABX",
            AddrMode::ABY => "ABY",
            AddrMode::IND => "IND",
            AddrMode::IDX => "IDX",
            AddrMode::IDY => "IDY",
            AddrMode::REL => "REL",
            AddrMode::XXX => "XXX",
        }
    }

    /// A piece of text between an opening and a closing one.
    pub fn wrap(open: &str, inner: &str, close: &str) -> (text: String)
        ensures
            text@ == open@ + inner@ + close@,
    {
        let mut text = String::from_str(open);
        text.append(inner);
        text.append(close);
        text
    }

    /// [`AddrMode::operand_text`], as text.
    pub fn format_operand(self, byte: Byte, w: Word, next: Word) -> (text: String)
        ensures
            text@ == self.operand_text(byte, w, next),
    {
        reveal(AddrMode::operand_text);
        match self {
            AddrMode::IMP | AddrMode::XXX => String::new(),
            AddrMode::IMM => Self::wrap("#$", format_byte(byte).as_str(), " "),
            AddrMode::ZPG => Self::wrap("$", format_byte(byte).as_str(), " "),
            AddrMode::ZPX => Self::wrap("$", format_byte(byte).as_str(), ",X "),
            AddrMode::ZPY => Self::wrap("$", format_byte(byte).as_str(), ",Y "),
            AddrMode::ABS => Self::wrap("$", format_word(w).as_str(), " "),
            AddrMode::ABX => Self::wrap("$", format_word(w).as_str(), ",X "),
            AddrMode::ABY => Self::wrap("$", format_word(w).as_str(), ",Y "),
            AddrMode::IND => Self::wrap("($", format_word(w).as_str(), ") "),
            AddrMode::IDX => Self::wrap("($", format_byte(byte).as_str(), ",X) "),
            AddrMode::IDY => Self::wrap("($", format_byte(byte).as_str(), "),Y "),
            AddrMode::REL => Self::wrap("$", format_word(CPU::branch_target(next, byte)).as_str(), " "),
        }
    }
}

/// [`line_text`], as text.
pub fn format_line(addr: Word, entry: Instruction, byte: Byte, w: Word) -> (text: String)
    ensures
        text@ == line_text(addr, entry, byte, w),
{
    let len = 1 + entry.addr_mode.operand_bytes();
    let next = addr.wrapping_add(len as Word);
    let operand = entry.addr_mode.format_operand(byte, w, next);
    let start = AddrMode::wrap("$", format_word(addr).as_str(), ": ");
    let end = AddrMode::wrap("{", entry.addr_mode.name(), "}");
    let mut text = start;
    text.append(entry.name);
    text.append(" ");
    text.append(operand.as_str());
    text.append(end.as_str());
    assert(text@ == start@ + entry.name@ + " "@ + operand@ + end@);
    text
}

impl CPU {
    /// The word at `addr`, looked at without being read.
    fn peek_word<B: Bus>(addr: Word, bus: &mut B) -> (w: Word)
        ensures
            w == mem16(old(bus).mem(), addr),
            final(bus).mem() == old(bus).mem(),
            final(bus).accesses() == old(bus).accesses(),
    {
        let lo = bus.read(addr, true);
        let hi = bus.read(addr.wrapping_add(1), true);
        make_word(lo, hi)
    }

    /// The line of the listing for the instruction at `addr`, and the number
    /// of bytes the instruction takes: one for the opcode and those of its
    /// operand.  Memory is only looked at.
    pub fn disassemble_at<B: Bus>(&self, addr: Word, bus: &mut B) -> (r: (String, Byte))
        ensures
            r.0@ == line(old(bus).mem(), addr),
            r.1 == 1 + Instruction::table(mem8(old(bus).mem(), addr)).addr_mode.operand_len(),
            final(bus).mem() == old(bus).mem(),
            final(bus).accesses() == old(bus).accesses(),
    {
        let opcode = bus.read(addr, true);
        let entry = Instruction::decode(opcode);
        let w = Self::peek_word(addr.wrapping_add(1), bus);
        let (byte, _) = split_word(w);
        (format_line(addr, entry, byte, w), 1 + entry.addr_mode.operand_bytes())
    }

    /// The listing of memory from `lo` to `hi`: a line for the instruction at
    /// `lo`, one for the instruction after it, and so on until `hi` is passed.
    /// Each line is filed under the address of its instruction.  Memory is
    /// only looked at.
    pub fn disassemble<B: Bus>(&self, lo: Word, hi: Word, bus: &mut B) -> (listing: BTreeMap<
        Word,
        String,
    >)
        ensures
            final(bus).mem() == old(bus).mem(),
            final(bus).accesses() == old(bus).accesses(),
            forall|addr: u16|
                listing@.contains_key(addr) <==> listed(
                    old(bus).mem(),
                    lo as int,
                    hi as int,
                    addr as int,
                ),
            forall|addr: u16|
                listing@.contains_key(addr) ==> (#[trigger] listing@[addr])@ == line(
                    old(bus).mem(),
                    addr,
                ),
    {
        let mut listing: BTreeMap<Word, String> = BTreeMap::new();
        let end = hi as u32;
        let mut at = lo as u32;
        while at <= end
            invariant
                lo <= at,
                at <= end + 3 || at == lo,
                end == hi,
                bus.mem() == old(bus).mem(),
                bus.accesses() == old(bus).accesses(),
                forall|addr: u16|
                    #[trigger] listed(old(bus).mem(), lo as int, hi as int, addr as int) <==> (
                    listing@.contains_key(addr) || listed(
                        old(bus).mem(),
                        at as int,
                        hi as int,
                        addr as int,
                    )),
                forall|addr: u16|
                    listing@.contains_key(addr) ==> (#[trigger] listing@[addr])@ == line(
                        old(bus).mem(),
                        addr,
                    ),
            decreases end + 3 - at,
        {
            let addr = at as Word;
            let (text, len) = self.disassemble_at(addr, bus);
            let ghost listed_before = listing@;
            listing.insert(addr, text);
            proof {
                let mem = old(bus).mem();
                assert(next_line(mem, at as int) == at + len);
                assert forall|k: u16|
                    listed(mem, lo as int, hi as int, k as int) <==> (listing@.contains_key(k)
                        || listed(mem, at + len, hi as int, k as int)) by {
                    assert(listed(mem, at as int, hi as int, k as int) <==> (k == addr || listed(
                        mem,
                        next_line(mem, at as int),
                        hi as int,
                        k as int,
                    )));
                    assert(listing@.contains_key(k) <==> (k == addr
                        || listed_before.contains_key(k)));
                }
            }
            at = at + len as u32;
        }
        listing
    }
}

} // verus!
