//! What holds of the processor whatever the program: statements that tie the
//! contracts of several functions together, each with its proof.

use vstd::prelude::*;
use crate::bus::{Transfer, MEMORY_SIZE};
use crate::cpu::addressing::AddrMode;
use crate::cpu::disassembler::{listed, next_line};
use crate::cpu::flag::{lemma_with_other, lemma_with_same, Flag};
use crate::cpu::instructions::alu::{carry_value, difference};
use crate::cpu::instructions::opcode::Opcode;
use crate::cpu::instructions::operations::lemma_operation_keeps_count;
use crate::cpu::instructions::table::lemma_table_entries;
use crate::cpu::instructions::Instruction;
use crate::cpu::memory::{
    crosses_page, mem16, mem16_zp, mem8, offset, offset_zp, page, signed, word,
};
use crate::cpu::stack::{pulled, pulled_word, pushed, pushed_word};
use crate::cpu::{loaded, written, CPU};

verus! {

/// After a result `value` is recorded, Zero says whether `value` is zero and
/// Negative whether `value` is `0x80` or more; the six other flags are as
/// they were.
pub proof fn law_set_nz(flags: Flag, value: u8)
    ensures
        flags.with_nz(value).contains(Flag::zero()) <==> value == 0,
        flags.with_nz(value).contains(Flag::negative()) <==> value >= 0x80,
        flags.with_nz(value).bits & 0x7D == flags.bits & 0x7D,
{
    let z = flags.with(Flag::zero(), value == 0);
    lemma_with_same(flags, Flag::zero(), value == 0);
    lemma_with_same(z, Flag::negative(), value >= 0x80);
    assert(0x80u8 & 0x02u8 == 0) by (bit_vector);
    lemma_with_other(z, Flag::negative(), value >= 0x80, Flag::zero());
    let p = flags.bits;
    assert((p | 0x02) & 0x7D == p & 0x7D && (p & !0x02u8) & 0x7D == p & 0x7D) by (bit_vector);
    let q = z.bits;
    assert((q | 0x80) & 0x7D == q & 0x7D && (q & !0x80u8) & 0x7D == q & 0x7D) by (bit_vector);
}

/// Subtraction, which the processor computes as the sum of the accumulator,
/// the complement of the operand and the carry, is subtraction: with `borrow`
/// one when the carry is clear, the value is `a - m - borrow` modulo 256, the
/// carry says that no borrow out was needed, and the overflow says that the
/// difference of the operands as signed bytes is no signed byte.
pub proof fn law_difference(a: u8, m: u8, carry: bool)
    ensures
        difference(a, m, carry).value == (a - m - (1 - carry_value(carry))) % 0x100,
        difference(a, m, carry).carry == (a - m - (1 - carry_value(carry)) >= 0),
        difference(a, m, carry).overflow == ({
            let d = signed(a) - signed(m) - (1 - carry_value(carry));
            d < -128 || d > 127
        }),
{
}

/// The cycles of a legal instruction are the base cost of its opcode, and
///
/// * one more where the mode is `ABX`, `ABY` or `IDY`, the index carries out
///   of the low byte of the address it is added to, and the operation only
///   reads its operand;
/// * one more where the instruction is a branch whose condition holds, and
///   another one where the branch leaves the page of the instruction after it.
pub proof fn law_step_cycles(cpu: CPU, mem: Seq<u8>)
    requires
        cpu.instruction(mem).is_legal(),
    ensures
        cpu.step_cycles(mem) == cpu.instruction(mem).cycles + ({
            let entry = cpu.instruction(mem);
            let operand = offset(cpu.pc, 1);
            let crossed = match entry.addr_mode {
                AddrMode::ABX => crosses_page(mem16(mem, operand), cpu.x),
                AddrMode::ABY => crosses_page(mem16(mem, operand), cpu.y),
                AddrMode::IDY => crosses_page(mem16_zp(mem, mem8(mem, operand)), cpu.y),
                _ => false,
            };
            if crossed && entry.operate.reads_memory() {
                1int
            } else {
                0int
            }
        }) + ({
            let entry = cpu.instruction(mem);
            let next = offset(cpu.pc, 2);
            let target = offset(next, signed(mem8(mem, offset(cpu.pc, 1))));
            if !entry.operate.branch_taken(cpu.flag) {
                0int
            } else if page(target) != page(next) {
                2int
            } else {
                1int
            }
        }),
{
    lemma_table_entries(mem8(mem, cpu.pc));
}

/// In the modes `ABX`, `ABY` and `IDY` an instruction takes exactly one cycle
/// over its base cost when the low byte of the address plus the index reaches
/// `0x100` and the operation only reads its operand, and exactly its base
/// cost otherwise.
pub proof fn law_page_cross_penalty(cpu: CPU, mem: Seq<u8>)
    requires
        cpu.instruction(mem).is_legal(),
        cpu.instruction(mem).addr_mode == AddrMode::ABX || cpu.instruction(mem).addr_mode
            == AddrMode::ABY || cpu.instruction(mem).addr_mode == AddrMode::IDY,
    ensures
        ({
            let entry = cpu.instruction(mem);
            let operand = mem8(mem, offset(cpu.pc, 1));
            let sum = match entry.addr_mode {
                AddrMode::ABX => operand + cpu.x,
                AddrMode::ABY => operand + cpu.y,
                _ => mem[operand as int] + cpu.y,
            };
            cpu.step_cycles(mem) == entry.cycles + (if sum >= 0x100
                && entry.operate.reads_memory() {
                1int
            } else {
                0int
            })
        }),
{
    lemma_table_entries(mem8(mem, cpu.pc));
}

/// A word that was pushed is the word that is pulled, and the stack pointer,
/// two lower in between, is back where it was.
pub proof fn law_push_pull_word(mem: Seq<u8>, sp: u8, w: u16)
    requires
        mem.len() == MEMORY_SIZE,
    ensures
        pulled_word(pushed_word(mem, sp, w), offset_zp(sp, -2)) == w,
        offset_zp(offset_zp(sp, -2), 2) == sp,
{
}

/// A byte that was pushed is the byte that is pulled, and the stack pointer,
/// one lower in between, is back where it was.
pub proof fn law_push_pull_byte(mem: Seq<u8>, sp: u8, byte: u8)
    requires
        mem.len() == MEMORY_SIZE,
    ensures
        pulled(pushed(mem, sp, byte), offset_zp(sp, -1)) == byte,
        offset_zp(offset_zp(sp, -1), 1) == sp,
{
}

/// The stack pointer wraps within page one: a push at stack pointer zero
/// writes at `0x0100` and leaves the stack pointer at `0xFF`, so that the
/// push after it writes at `0x01FF`.
pub proof fn law_stack_pointer_wraps(mem: Seq<u8>, first: u8, second: u8)
    requires
        mem.len() == MEMORY_SIZE,
    ensures
        pushed(mem, 0, first) == mem.update(0x0100, first),
        offset_zp(0, -1) == 0xFF,
        pushed(pushed(mem, 0, first), offset_zp(0, -1), second) == mem.update(
            0x0100,
            first,
        ).update(0x01FF, second),
{
}

/// A listing goes from an instruction to the one after it: where a line
/// starts at `addr`, the bytes of that instruction start no line, and the
/// next line starts `1 + operand_len` after `addr`, unless that is past `hi`.
pub proof fn law_listing_advances(mem: Seq<u8>, lo: int, hi: int, addr: int)
    requires
        listed(mem, lo, hi, addr),
    ensures
        lo <= addr <= hi,
        next_line(mem, addr) == addr + 1 + Instruction::table(mem[addr]).addr_mode.operand_len(),
        next_line(mem, addr) <= hi ==> listed(mem, lo, hi, next_line(mem, addr)),
        forall|between: int|
            addr < between < next_line(mem, addr) ==> !listed(mem, lo, hi, between),
    decreases hi - lo,
{
    reveal_with_fuel(listed, 2);
    if addr != lo {
        law_listing_advances(mem, next_line(mem, lo), hi, addr);
        assert forall|between: int| addr < between < next_line(mem, addr) implies !listed(
            mem,
            lo,
            hi,
            between,
        ) by {
            assert(!listed(mem, next_line(mem, lo), hi, between));
        }
    } else {
        assert forall|between: int| addr < between < next_line(mem, addr) implies !listed(
            mem,
            lo,
            hi,
            between,
        ) by {
            lemma_listed_from(mem, next_line(mem, lo), hi, between);
        }
    }
}

/// A walk lists no address before the one it starts from.
pub proof fn lemma_listed_from(mem: Seq<u8>, from: int, hi: int, addr: int)
    requires
        addr < from,
    ensures
        !listed(mem, from, hi, addr),
    decreases
        (if from <= hi {
            hi - from + 1
        } else {
            0
        }),
{
    if from <= hi {
        lemma_listed_from(mem, next_line(mem, from), hi, addr);
    }
}

/// Decoding undoes encoding: no two opcodes share a byte.
pub proof fn law_decode_encode(opcode: Opcode)
    ensures
        Opcode::of_byte(opcode.byte()) == Some(opcode),
{
}

/// Encoding undoes decoding: a byte decodes to the opcode it encodes and to
/// no other.
pub proof fn law_encode_decode(byte: u8)
    ensures
        Opcode::of_byte(byte) matches Some(opcode) ==> opcode.byte() == byte,
{
}

/// The opcodes are the bytes that the decode table has an instruction for.
pub proof fn law_opcodes_are_legal(byte: u8)
    ensures
        Instruction::table(byte).is_legal() <==> Opcode::of_byte(byte) is Some,
{
    reveal(Instruction::table);
}

/// The machine and the history of its bus after `n` ticks of the clock, none
/// of which traps.
pub open spec fn ticks(cpu: CPU, mem: Seq<u8>, log: Seq<Transfer>, n: nat) -> (
    CPU,
    Seq<u8>,
    Seq<Transfer>,
)
    decreases n,
{
    if n == 0 {
        (cpu, mem, log)
    } else {
        ticks(
            cpu.after_tick(mem),
            cpu.after_tick_mem(mem),
            log + cpu.tick_accesses(mem),
            (n - 1) as nat,
        )
    }
}

/// Ticks of the clock that only count leave everything but the count alone.
pub proof fn lemma_counting_ticks(cpu: CPU, mem: Seq<u8>, log: Seq<Transfer>, n: nat)
    requires
        n <= cpu.cycles,
    ensures
        ticks(cpu, mem, log, n) == (CPU { cycles: (cpu.cycles - n) as u8, ..cpu }, mem, log),
    decreases n,
{
    if n > 0 {
        assert(log + cpu.tick_accesses(mem) == log);
        lemma_counting_ticks(cpu.after_tick(mem), cpu.after_tick_mem(mem), log, (n - 1) as nat);
    }
}

/// The clock and the step agree: between two instructions, as many ticks as
/// the next instruction takes cycles leave the registers, memory and the
/// history of the bus as one step does.
pub proof fn law_clock_is_step(cpu: CPU, mem: Seq<u8>, log: Seq<Transfer>)
    requires
        cpu.cycles == 0,
        cpu.instruction(mem).is_legal(),
    ensures
        ticks(cpu, mem, log, cpu.step_cycles(mem) as nat) == (
            cpu.after_step(mem),
            cpu.after_step_mem(mem),
            log + cpu.step_accesses(mem),
        ),
        cpu.after_step(mem).cycles == 0,
{
    cpu.lemma_step_cycles(mem);
    lemma_operation_keeps_count(
        cpu.instruction(mem).operate,
        cpu.decoded(mem),
        mem,
        cpu.operand(mem).operand,
    );
    let n = cpu.step_cycles(mem) as nat;
    lemma_counting_ticks(
        cpu.after_tick(mem),
        cpu.after_tick_mem(mem),
        log + cpu.tick_accesses(mem),
        (n - 1) as nat,
    );
}

/// What a load leaves in memory, address by address, for a program that fits
/// the address space: byte `i` after the two address bytes lies `i` past the
/// load address, and every other byte of memory is as it was.
pub proof fn law_loaded(mem: Seq<u8>, program: Seq<u8>, addr: u16)
    requires
        mem.len() == MEMORY_SIZE,
        2 <= program.len() <= MEMORY_SIZE + 2,
    ensures
        loaded(mem, program).len() == MEMORY_SIZE,
        mem8(loaded(mem, program), addr) == ({
            let distance = (addr - word(program[0], program[1])) % 0x10000;
            if distance < program.len() - 2 {
                program[distance + 2]
            } else {
                mem8(mem, addr)
            }
        }),
{
    lemma_written(mem, word(program[0], program[1]), program.skip(2), addr);
}

/// What [`written`] leaves at each address.
pub proof fn lemma_written(mem: Seq<u8>, start: u16, bytes: Seq<u8>, addr: u16)
    requires
        mem.len() == MEMORY_SIZE,
        bytes.len() <= MEMORY_SIZE,
    ensures
        written(mem, start, bytes).len() == MEMORY_SIZE,
        mem8(written(mem, start, bytes), addr) == ({
            let distance = (addr - start) % 0x10000;
            if distance < bytes.len() {
                bytes[distance]
            } else {
                mem8(mem, addr)
            }
        }),
    decreases bytes.len(),
{
    if bytes.len() > 0 {
        lemma_written(mem.update(start as int, bytes[0]), offset(start, 1), bytes.drop_first(), addr);
    }
}

} // verus!
