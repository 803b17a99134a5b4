//! What each operation does to the registers and to memory.

use vstd::prelude::*;
use crate::bus::{Bus, Byte, Transfer};
use crate::cpu::addressing::Operand;
use crate::cpu::flag::Flag;
use crate::cpu::instructions::alu::{
    add_with_carry, compare, compared, difference, rotate_left, rotate_right, rotated_left,
    rotated_right, shift_left, shift_right, shifted_left, shifted_right, subtract_with_carry, sum,
    Shifted, Sum,
};
use crate::cpu::instructions::Operation;
use crate::cpu::memory::{
    hi_byte, lemma_offset_zp_sum, lo_byte, mem16, mem8, offset, offset_zp, page, reads16, reads8,
    writes8,
};
use crate::cpu::stack::{
    lemma_push_stays_in_page_one, pull_access, pull_word_accesses, pulled, pulled_word,
    push_access, push_word_accesses, pushed, pushed_word,
};
use crate::cpu::{CPU, IRQ_VECTOR};

verus! {

impl Operand {
    /// The byte this operand stands for.
    pub open spec fn value(self, cpu: CPU, mem: Seq<u8>) -> u8 {
        match self {
            Operand::Accumulator => cpu.a,
            Operand::Address(ea) => mem8(mem, ea),
        }
    }

    /// The registers after `value` has been written to this operand.
    pub open spec fn stored_cpu(self, cpu: CPU, value: u8) -> CPU {
        match self {
            Operand::Accumulator => CPU { a: value, ..cpu },
            Operand::Address(_) => cpu,
        }
    }

    /// Memory after `value` has been written to this operand.
    pub open spec fn stored_mem(self, mem: Seq<u8>, value: u8) -> Seq<u8> {
        match self {
            Operand::Accumulator => mem,
            Operand::Address(ea) => mem.update(ea as int, value),
        }
    }

    /// The read of this operand, if it is in memory.
    pub open spec fn reads(self, mem: Seq<u8>) -> Seq<Transfer> {
        match self {
            Operand::Accumulator => Seq::empty(),
            Operand::Address(ea) => reads8(mem, ea),
        }
    }

    /// The write of `value` to this operand, if it is in memory.
    pub open spec fn writes(self, value: u8) -> Seq<Transfer> {
        match self {
            Operand::Accumulator => Seq::empty(),
            Operand::Address(ea) => writes8(ea, value),
        }
    }

    /// Where a jump to this operand goes from `pc`: to the address, if the
    /// operand has one.
    pub open spec fn target(self, pc: u16) -> u16 {
        match self {
            Operand::Accumulator => pc,
            Operand::Address(ea) => ea,
        }
    }
}

/// The status register as `BRK` and `PHP` push it: Break and Unused both read
/// as set.
pub open spec fn pushed_status(flags: Flag) -> u8 {
    flags.union(Flag::break_command()).union(Flag::unused()).bits
}

/// The status register as `PLP` and `RTI` take it from a pulled byte: Break
/// and Unused are not kept.
pub open spec fn pulled_status(byte: u8) -> Flag {
    Flag::from_bits_truncate(byte).difference(Flag::break_command().union(Flag::unused()))
}

/// The flags after an addition or subtraction.
pub open spec fn with_sum(flags: Flag, r: Sum) -> Flag {
    flags.with(Flag::carry(), r.carry).with(Flag::overflow(), r.overflow).with_nz(r.value)
}

/// The flags after a shift, a rotation or a comparison.
pub open spec fn with_shifted(flags: Flag, r: Shifted) -> Flag {
    flags.with(Flag::carry(), r.carry).with_nz(r.value)
}

/// The flags after `BIT` has tested `m` against accumulator `a`.
pub open spec fn with_bit_test(flags: Flag, a: u8, m: u8) -> Flag {
    flags.with(Flag::zero(), a & m == 0).with(Flag::overflow(), m & 0x40 != 0).with(
        Flag::negative(),
        m & 0x80 != 0,
    )
}

impl Operation {
    /// Whether the operation only reads its operand.  Such an operation takes
    /// one cycle more when its addressing mode crossed a page; one that
    /// writes has that cycle in its base cost already.
    pub open spec fn reads_memory(self) -> bool {
        match self {
            Operation::Lda | Operation::Ldx | Operation::Ldy | Operation::And | Operation::Eor
            | Operation::Ora | Operation::Bit | Operation::Adc | Operation::Sbc | Operation::Cmp
            | Operation::Cpx | Operation::Cpy => true,
            _ => false,
        }
    }

    /// Whether this is one of the eight conditional branches.
    pub open spec fn is_branch(self) -> bool {
        match self {
            Operation::Bcc | Operation::Bcs | Operation::Beq | Operation::Bmi | Operation::Bne
            | Operation::Bpl | Operation::Bvc | Operation::Bvs => true,
            _ => false,
        }
    }

    /// Whether this is a branch that status `flags` lets go.
    pub open spec fn branch_taken(self, flags: Flag) -> bool {
        match self {
            Operation::Bcc => !flags.contains(Flag::carry()),
            Operation::Bcs => flags.contains(Flag::carry()),
            Operation::Beq => flags.contains(Flag::zero()),
            Operation::Bne => !flags.contains(Flag::zero()),
            Operation::Bmi => flags.contains(Flag::negative()),
            Operation::Bpl => !flags.contains(Flag::negative()),
            Operation::Bvc => !flags.contains(Flag::overflow()),
            Operation::Bvs => flags.contains(Flag::overflow()),
            _ => false,
        }
    }

    /// The cycles a branch adds to its base cost: none when it is not taken,
    /// one when it is, and one more when its target is in another page than
    /// the instruction after it.
    pub open spec fn branch_cycles(self, cpu: CPU, operand: Operand) -> int {
        if !self.branch_taken(cpu.flag) {
            0
        } else if page(operand.target(cpu.pc)) != page(cpu.pc) {
            2
        } else {
            1
        }
    }

    /// The registers after this operation on `operand`, where `cpu.pc` is the
    /// address of the next instruction.  Each group of operations has a
    /// function of its own below; this one only sends each operation to its
    /// group.
    pub open spec fn after_cpu(self, cpu: CPU, mem: Seq<u8>, operand: Operand) -> CPU {
        match self {
            Operation::Lda | Operation::Ldx | Operation::Ldy | Operation::Sta | Operation::Stx
            | Operation::Sty | Operation::Tax | Operation::Tay | Operation::Txa | Operation::Tya
            | Operation::Tsx | Operation::Txs => self.after_move(cpu, mem, operand),
            Operation::Pha | Operation::Php | Operation::Pla | Operation::Plp => self.after_stack(
                cpu,
                mem,
            ),
            Operation::And | Operation::Eor | Operation::Ora | Operation::Bit => self.after_logic(
                cpu,
                mem,
                operand,
            ),
            Operation::Adc | Operation::Sbc | Operation::Cmp | Operation::Cpx
            | Operation::Cpy => self.after_arithmetic(cpu, mem, operand),
            Operation::Inc | Operation::Inx | Operation::Iny | Operation::Dec | Operation::Dex
            | Operation::Dey => self.after_count(cpu, mem, operand),
            Operation::Asl | Operation::Lsr | Operation::Rol | Operation::Ror => self.after_shift(
                cpu,
                mem,
                operand,
            ),
            Operation::Jmp | Operation::Jsr | Operation::Rts | Operation::Bcc | Operation::Bcs
            | Operation::Beq | Operation::Bmi | Operation::Bne | Operation::Bpl | Operation::Bvc
            | Operation::Bvs => self.after_jump(cpu, mem, operand),
            Operation::Clc | Operation::Cld | Operation::Cli | Operation::Clv | Operation::Sec
            | Operation::Sed | Operation::Sei => self.after_flag(cpu),
            Operation::Brk | Operation::Rti => self.after_interrupt(cpu, mem),
            Operation::Nop | Operation::Illegal => cpu,
        }
    }

    /// Loads, stores and transfers.  A load or a transfer into a register
    /// other than the stack pointer records the value in Zero and Negative.
    #[verifier::opaque]
    pub open spec fn after_move(self, cpu: CPU, mem: Seq<u8>, operand: Operand) -> CPU {
        let m = operand.value(cpu, mem);
        let p = cpu.flag;
        match self {
            Operation::Lda => CPU { a: m, flag: p.with_nz(m), ..cpu },
            Operation::Ldx => CPU { x: m, flag: p.with_nz(m), ..cpu },
            Operation::Ldy => CPU { y: m, flag: p.with_nz(m), ..cpu },
            Operation::Tax => CPU { x: cpu.a, flag: p.with_nz(cpu.a), ..cpu },
            Operation::Tay => CPU { y: cpu.a, flag: p.with_nz(cpu.a), ..cpu },
            Operation::Txa => CPU { a: cpu.x, flag: p.with_nz(cpu.x), ..cpu },
            Operation::Tya => CPU { a: cpu.y, flag: p.with_nz(cpu.y), ..cpu },
            Operation::Tsx => CPU { x: cpu.sp, flag: p.with_nz(cpu.sp), ..cpu },
            Operation::Txs => CPU { sp: cpu.x, ..cpu },
            _ => cpu,
        }
    }

    /// Pushes and pulls of the accumulator and of the status.
    #[verifier::opaque]
    pub open spec fn after_stack(self, cpu: CPU, mem: Seq<u8>) -> CPU {
        match self {
            Operation::Pha | Operation::Php => CPU { sp: offset_zp(cpu.sp, -1), ..cpu },
            Operation::Pla => CPU {
                a: pulled(mem, cpu.sp),
                sp: offset_zp(cpu.sp, 1),
                flag: cpu.flag.with_nz(pulled(mem, cpu.sp)),
                ..cpu
            },
            Operation::Plp => CPU {
                sp: offset_zp(cpu.sp, 1),
                flag: pulled_status(pulled(mem, cpu.sp)),
                ..cpu
            },
            _ => cpu,
        }
    }

    /// The bitwise operations on the accumulator, and the bit test.
    #[verifier::opaque]
    pub open spec fn after_logic(self, cpu: CPU, mem: Seq<u8>, operand: Operand) -> CPU {
        let m = operand.value(cpu, mem);
        let p = cpu.flag;
        match self {
            Operation::And => CPU { a: cpu.a & m, flag: p.with_nz(cpu.a & m), ..cpu },
            Operation::Eor => CPU { a: cpu.a ^ m, flag: p.with_nz(cpu.a ^ m), ..cpu },
            Operation::Ora => CPU { a: cpu.a | m, flag: p.with_nz(cpu.a | m), ..cpu },
            Operation::Bit => CPU { flag: with_bit_test(p, cpu.a, m), ..cpu },
            _ => cpu,
        }
    }

    /// Addition, subtraction and the comparisons.  Arithmetic is binary
    /// whatever the Decimal flag says.
    #[verifier::opaque]
    pub open spec fn after_arithmetic(self, cpu: CPU, mem: Seq<u8>, operand: Operand) -> CPU {
        let m = operand.value(cpu, mem);
        let p = cpu.flag;
        let carry = p.contains(Flag::carry());
        match self {
            Operation::Adc => CPU {
                a: sum(cpu.a, m, carry).value,
                flag: with_sum(p, sum(cpu.a, m, carry)),
                ..cpu
            },
            Operation::Sbc => CPU {
                a: difference(cpu.a, m, carry).value,
                flag: with_sum(p, difference(cpu.a, m, carry)),
                ..cpu
            },
            Operation::Cmp => CPU { flag: with_shifted(p, compared(cpu.a, m)), ..cpu },
            Operation::Cpx => CPU { flag: with_shifted(p, compared(cpu.x, m)), ..cpu },
            Operation::Cpy => CPU { flag: with_shifted(p, compared(cpu.y, m)), ..cpu },
            _ => cpu,
        }
    }

    /// Increments and decrements, of memory and of the index registers.
    #[verifier::opaque]
    pub open spec fn after_count(self, cpu: CPU, mem: Seq<u8>, operand: Operand) -> CPU {
        let m = operand.value(cpu, mem);
        let p = cpu.flag;
        match self {
            Operation::Inc => CPU { flag: p.with_nz(offset_zp(m, 1)), ..cpu },
            Operation::Inx => CPU {
                x: offset_zp(cpu.x, 1),
                flag: p.with_nz(offset_zp(cpu.x, 1)),
                ..cpu
            },
            Operation::Iny => CPU {
                y: offset_zp(cpu.y, 1),
                flag: p.with_nz(offset_zp(cpu.y, 1)),
                ..cpu
            },
            Operation::Dec => CPU { flag: p.with_nz(offset_zp(m, -1)), ..cpu },
            Operation::Dex => CPU {
                x: offset_zp(cpu.x, -1),
                flag: p.with_nz(offset_zp(cpu.x, -1)),
                ..cpu
            },
            Operation::Dey => CPU {
                y: offset_zp(cpu.y, -1),
                flag: p.with_nz(offset_zp(cpu.y, -1)),
                ..cpu
            },
            _ => cpu,
        }
    }

    /// Shifts and rotations, of the accumulator or of memory.
    #[verifier::opaque]
    pub open spec fn after_shift(self, cpu: CPU, mem: Seq<u8>, operand: Operand) -> CPU {
        let m = operand.value(cpu, mem);
        let p = cpu.flag;
        let carry = p.contains(Flag::carry());
        match self {
            Operation::Asl => CPU {
                flag: with_shifted(p, shifted_left(m)),
                ..operand.stored_cpu(cpu, shifted_left(m).value)
            },
            Operation::Lsr => CPU {
                flag: with_shifted(p, shifted_right(m)),
                ..operand.stored_cpu(cpu, shifted_right(m).value)
            },
            Operation::Rol => CPU {
                flag: with_shifted(p, rotated_left(m, carry)),
                ..operand.stored_cpu(cpu, rotated_left(m, carry).value)
            },
            Operation::Ror => CPU {
                flag: with_shifted(p, rotated_right(m, carry)),
                ..operand.stored_cpu(cpu, rotated_right(m, carry).value)
            },
            _ => cpu,
        }
    }

    /// Jumps, calls, returns and branches.  A call pushes the address of its
    /// own last byte, and a return continues one past the address it pulls.
    #[verifier::opaque]
    pub open spec fn after_jump(self, cpu: CPU, mem: Seq<u8>, operand: Operand) -> CPU {
        match self {
            Operation::Jmp => CPU { pc: operand.target(cpu.pc), ..cpu },
            Operation::Jsr => CPU { pc: operand.target(cpu.pc), sp: offset_zp(cpu.sp, -2), ..cpu },
            Operation::Rts => CPU {
                pc: offset(pulled_word(mem, cpu.sp), 1),
                sp: offset_zp(cpu.sp, 2),
                ..cpu
            },
            _ => CPU {
                pc: if self.branch_taken(cpu.flag) {
                    operand.target(cpu.pc)
                } else {
                    cpu.pc
                },
                ..cpu
            },
        }
    }

    /// The instructions that set or clear one flag.
    #[verifier::opaque]
    pub open spec fn after_flag(self, cpu: CPU) -> CPU {
        let p = cpu.flag;
        match self {
            Operation::Clc => CPU { flag: p.with(Flag::carry(), false), ..cpu },
            Operation::Cld => CPU { flag: p.with(Flag::decimal_mode(), false), ..cpu },
            Operation::Cli => CPU { flag: p.with(Flag::interrupt_disable(), false), ..cpu },
            Operation::Clv => CPU { flag: p.with(Flag::overflow(), false), ..cpu },
            Operation::Sec => CPU { flag: p.with(Flag::carry(), true), ..cpu },
            Operation::Sed => CPU { flag: p.with(Flag::decimal_mode(), true), ..cpu },
            Operation::Sei => CPU { flag: p.with(Flag::interrupt_disable(), true), ..cpu },
            _ => cpu,
        }
    }

    /// The software interrupt and the return from an interrupt.
    #[verifier::opaque]
    pub open spec fn after_interrupt(self, cpu: CPU, mem: Seq<u8>) -> CPU {
        match self {
            Operation::Brk => CPU {
                pc: mem16(mem, IRQ_VECTOR),
                sp: offset_zp(cpu.sp, -3),
                flag: cpu.flag.with(Flag::interrupt_disable(), true),
                ..cpu
            },
            Operation::Rti => CPU {
                pc: pulled_word(mem, offset_zp(cpu.sp, 1)),
                sp: offset_zp(cpu.sp, 3),
                flag: pulled_status(pulled(mem, cpu.sp)),
                ..cpu
            },
            _ => cpu,
        }
    }

    /// The accesses this operation makes to the bus, in their order: it reads
    /// before it writes, pushes a word high byte first and pulls it low byte
    /// first, and `BRK` reads its vector after it has pushed.
    #[verifier::opaque]
    pub open spec fn accesses(self, cpu: CPU, mem: Seq<u8>, operand: Operand) -> Seq<Transfer> {
        let m = operand.value(cpu, mem);
        let carry = cpu.flag.contains(Flag::carry());
        match self {
            Operation::Lda | Operation::Ldx | Operation::Ldy | Operation::And | Operation::Eor
            | Operation::Ora | Operation::Bit | Operation::Adc | Operation::Sbc | Operation::Cmp
            | Operation::Cpx | Operation::Cpy => operand.reads(mem),
            Operation::Sta => operand.writes(cpu.a),
            Operation::Stx => operand.writes(cpu.x),
            Operation::Sty => operand.writes(cpu.y),
            Operation::Pha => push_access(cpu.sp, cpu.a),
            Operation::Php => push_access(cpu.sp, pushed_status(cpu.flag)),
            Operation::Pla | Operation::Plp => pull_access(mem, cpu.sp),
            Operation::Inc => operand.reads(mem) + operand.writes(offset_zp(m, 1)),
            Operation::Dec => operand.reads(mem) + operand.writes(offset_zp(m, -1)),
            Operation::Asl => operand.reads(mem) + operand.writes(shifted_left(m).value),
            Operation::Lsr => operand.reads(mem) + operand.writes(shifted_right(m).value),
            Operation::Rol => operand.reads(mem) + operand.writes(rotated_left(m, carry).value),
            Operation::Ror => operand.reads(mem) + operand.writes(rotated_right(m, carry).value),
            Operation::Jsr => push_word_accesses(cpu.sp, offset(cpu.pc, -1)),
            Operation::Rts => pull_word_accesses(mem, cpu.sp),
            Operation::Brk => push_word_accesses(cpu.sp, offset(cpu.pc, 1)) + push_access(
                offset_zp(cpu.sp, -2),
                pushed_status(cpu.flag),
            ) + reads16(mem, IRQ_VECTOR),
            Operation::Rti => pull_access(mem, cpu.sp) + pull_word_accesses(
                mem,
                offset_zp(cpu.sp, 1),
            ),
            _ => Seq::empty(),
        }
    }

    /// Memory after this operation on `operand`.
    #[verifier::opaque]
    pub open spec fn after_mem(self, cpu: CPU, mem: Seq<u8>, operand: Operand) -> Seq<u8> {
        let m = operand.value(cpu, mem);
        let carry = cpu.flag.contains(Flag::carry());
        match self {
            Operation::Sta => operand.stored_mem(mem, cpu.a),
            Operation::Stx => operand.stored_mem(mem, cpu.x),
            Operation::Sty => operand.stored_mem(mem, cpu.y),
            Operation::Pha => pushed(mem, cpu.sp, cpu.a),
            Operation::Php => pushed(mem, cpu.sp, pushed_status(cpu.flag)),
            Operation::Inc => operand.stored_mem(mem, offset_zp(m, 1)),
            Operation::Dec => operand.stored_mem(mem, offset_zp(m, -1)),
            Operation::Asl => operand.stored_mem(mem, shifted_left(m).value),
            Operation::Lsr => operand.stored_mem(mem, shifted_right(m).value),
            Operation::Rol => operand.stored_mem(mem, rotated_left(m, carry).value),
            Operation::Ror => operand.stored_mem(mem, rotated_right(m, carry).value),
            Operation::Jsr => pushed_word(mem, cpu.sp, offset(cpu.pc, -1)),
            Operation::Brk => pushed(
                pushed_word(mem, cpu.sp, offset(cpu.pc, 1)),
                offset_zp(cpu.sp, -2),
                pushed_status(cpu.flag),
            ),
            _ => mem,
        }
    }
}

impl CPU {
    /// The byte that `operand` stands for.
    pub fn fetch<B: Bus>(&self, operand: Operand, bus: &mut B) -> (value: Byte)
        ensures
            value == operand.value(*self, old(bus).mem()),
            final(bus).mem() == old(bus).mem(),
            final(bus).accesses() == old(bus).accesses() + operand.reads(old(bus).mem()),
    {
        match operand {
            Operand::Accumulator => self.a,
            Operand::Address(ea) => bus.read(ea, false),
        }
    }

    /// Writes `value` where `operand` says: to the accumulator or to memory.
    pub fn store<B: Bus>(&mut self, operand: Operand, value: Byte, bus: &mut B)
        ensures
            *final(self) == operand.stored_cpu(*old(self), value),
            final(bus).mem() == operand.stored_mem(old(bus).mem(), value),
            final(bus).accesses() == old(bus).accesses() + operand.writes(value),
    {
        match operand {
            Operand::Accumulator => {
                self.a = value;
            },
            Operand::Address(ea) => {
                bus.write(ea, value);
            },
        }
    }

    /// Writes a register to memory at `operand`.
    fn store_register<B: Bus>(&self, operand: Operand, value: Byte, bus: &mut B)
        ensures
            final(bus).mem() == operand.stored_mem(old(bus).mem(), value),
            final(bus).accesses() == old(bus).accesses() + operand.writes(value),
    {
        match operand {
            Operand::Accumulator => {},
            Operand::Address(ea) => {
                bus.write(ea, value);
            },
        }
    }

    /// Records a result in the accumulator's flags.
    pub fn set_a_flags(&mut self)
        ensures
            *final(self) == (CPU { flag: old(self).flag.with_nz(old(self).a), ..*old(self) }),
    {
        self.flag.set_nz(self.a);
    }

    /// Records a result in X's flags.
    pub fn set_x_flags(&mut self)
        ensures
            *final(self) == (CPU { flag: old(self).flag.with_nz(old(self).x), ..*old(self) }),
    {
        self.flag.set_nz(self.x);
    }

    /// Records a result in Y's flags.
    pub fn set_y_flags(&mut self)
        ensures
            *final(self) == (CPU { flag: old(self).flag.with_nz(old(self).y), ..*old(self) }),
    {
        self.flag.set_nz(self.y);
    }

    /// Records the result of an addition or subtraction in the flags.
    fn set_sum_flags(&mut self, r: Sum)
        ensures
            *final(self) == (CPU { flag: with_sum(old(self).flag, r), ..*old(self) }),
    {
        self.flag.set(Flag::carry(), r.carry);
        self.flag.set(Flag::overflow(), r.overflow);
        self.flag.set_nz(r.value);
    }

    /// Records the result of a shift, a rotation or a comparison in the flags.
    fn set_shifted_flags(&mut self, r: Shifted)
        ensures
            *final(self) == (CPU { flag: with_shifted(old(self).flag, r), ..*old(self) }),
    {
        self.flag.set(Flag::carry(), r.carry);
        self.flag.set_nz(r.value);
    }

    /// `LDA`: loads the operand into A.
    pub fn lda<B: Bus>(&mut self, operand: Operand, bus: &mut B)
        ensures
            *final(self) == Operation::Lda.after_cpu(*old(self), old(bus).mem(), operand),
            final(bus).mem() == Operation::Lda.after_mem(*old(self), old(bus).mem(), operand),
            final(bus).accesses() == old(bus).accesses() + Operation::Lda.accesses(
                *old(self),
                old(bus).mem(),
                operand,
            ),
    {
        reveal(Operation::after_move);
        reveal(Operation::after_mem);
        reveal(Operation::accesses);
        self.a = self.fetch(operand, bus);
        self.set_a_flags();
    }

    /// `LDX`: loads the operand into X.
    pub fn ldx<B: Bus>(&mut self, operand: Operand, bus: &mut B)
        ensures
            *final(self) == Operation::Ldx.after_cpu(*old(self), old(bus).mem(), operand),
            final(bus).mem() == Operation::Ldx.after_mem(*old(self), old(bus).mem(), operand),
            final(bus).accesses() == old(bus).accesses() + Operation::Ldx.accesses(
                *old(self),
                old(bus).mem(),
                operand,
            ),
    {
        reveal(Operation::after_move);
        reveal(Operation::after_mem);
        reveal(Operation::accesses);
        self.x = self.fetch(operand, bus);
        self.set_x_flags();
    }

    /// `LDY`: loads the operand into Y.
    pub fn ldy<B: Bus>(&mut self, operand: Operand, bus: &mut B)
        ensures
            *final(self) == Operation::Ldy.after_cpu(*old(self), old(bus).mem(), operand),
            final(bus).mem() == Operation::Ldy.after_mem(*old(self), old(bus).mem(), operand),
            final(bus).accesses() == old(bus).accesses() + Operation::Ldy.accesses(
                *old(self),
                old(bus).mem(),
                operand,
            ),
    {
        reveal(Operation::after_move);
        reveal(Operation::after_mem);
        reveal(Operation::accesses);
        self.y = self.fetch(operand, bus);
        self.set_y_flags();
    }

    /// `STA`: stores A at the operand.
    pub fn sta<B: Bus>(&mut self, operand: Operand, bus: &mut B)
        ensures
            *final(self) == Operation::Sta.after_cpu(*old(self), old(bus).mem(), operand),
            final(bus).mem() == Operation::Sta.after_mem(*old(self), old(bus).mem(), operand),
            final(bus).accesses() == old(bus).accesses() + Operation::Sta.accesses(
                *old(self),
                old(bus).mem(),
                operand,
            ),
    {
        reveal(Operation::after_move);
        reveal(Operation::after_mem);
        reveal(Operation::accesses);
        self.store_register(operand, self.a, bus);
    }

    /// `STX`: stores X at the operand.
    pub fn stx<B: Bus>(&mut self, operand: Operand, bus: &mut B)
        ensures
            *final(self) == Operation::Stx.after_cpu(*old(self), old(bus).mem(), operand),
            final(bus).mem() == Operation::Stx.after_mem(*old(self), old(bus).mem(), operand),
            final(bus).accesses() == old(bus).accesses() + Operation::Stx.accesses(
                *old(self),
                old(bus).mem(),
                operand,
            ),
    {
        reveal(Operation::after_move);
        reveal(Operation::after_mem);
        reveal(Operation::accesses);
        self.store_register(operand, self.x, bus);
    }

    /// `STY`: stores Y at the operand.
    pub fn sty<B: Bus>(&mut self, operand: Operand, bus: &mut B)
        ensures
            *final(self) == Operation::Sty.after_cpu(*old(self), old(bus).mem(), operand),
            final(bus).mem() == Operation::Sty.after_mem(*old(self), old(bus).mem(), operand),
            final(bus).accesses() == old(bus).accesses() + Operation::Sty.accesses(
                *old(self),
                old(bus).mem(),
                operand,
            ),
    {
        reveal(Operation::after_move);
        reveal(Operation::after_mem);
        reveal(Operation::accesses);
        self.store_register(operand, self.y, bus);
    }

    /// `TAX`: copies A to X.
    pub fn tax(&mut self)
        ensures
            *final(self) == (CPU { x: old(self).a, flag: old(self).flag.with_nz(old(self).a), ..*old(self) }),
    {
        self.x = self.a;
        self.set_x_flags();
    }

    /// `TAY`: copies A to Y.
    pub fn tay(&mut self)
        ensures
            *final(self) == (CPU { y: old(self).a, flag: old(self).flag.with_nz(old(self).a), ..*old(self) }),
    {
        self.y = self.a;
        self.set_y_flags();
    }

    /// `TXA`: copies X to A.
    pub fn txa(&mut self)
        ensures
            *final(self) == (CPU { a: old(self).x, flag: old(self).flag.with_nz(old(self).x), ..*old(self) }),
    {
        self.a = self.x;
        self.set_a_flags();
    }

    /// `TYA`: copies Y to A.
    pub fn tya(&mut self)
        ensures
            *final(self) == (CPU { a: old(self).y, flag: old(self).flag.with_nz(old(self).y), ..*old(self) }),
    {
        self.a = self.y;
        self.set_a_flags();
    }

    /// `TSX`: copies SP to X.
    pub fn tsx(&mut self)
        ensures
            *final(self) == (CPU { x: old(self).sp, flag: old(self).flag.with_nz(old(self).sp), ..*old(self) }),
    {
        self.x = self.sp;
        self.set_x_flags();
    }

    /// `TXS`: copies X to the stack pointer; no flag changes.
    pub fn txs(&mut self)
        ensures
            *final(self) == (CPU { sp: old(self).x, ..*old(self) }),
    {
        self.sp = self.x;
    }

    /// `PHA`: pushes the accumulator.
    pub fn pha<B: Bus>(&mut self, bus: &mut B)
        ensures
            *final(self) == Operation::Pha.after_cpu(*old(self), old(bus).mem(), Operand::Accumulator),
            final(bus).mem() == Operation::Pha.after_mem(*old(self), old(bus).mem(), Operand::Accumulator),
            final(bus).accesses() == old(bus).accesses() + Operation::Pha.accesses(
                *old(self),
                old(bus).mem(),
                Operand::Accumulator,
            ),
    {
        reveal(Operation::after_stack);
        reveal(Operation::after_mem);
        reveal(Operation::accesses);
        self.push_byte(self.a, bus);
    }

    /// `PHP`: pushes the status register, with Break and Unused set in the copy.
    pub fn php<B: Bus>(&mut self, bus: &mut B)
        ensures
            *final(self) == Operation::Php.after_cpu(*old(self), old(bus).mem(), Operand::Accumulator),
            final(bus).mem() == Operation::Php.after_mem(*old(self), old(bus).mem(), Operand::Accumulator),
            final(bus).accesses() == old(bus).accesses() + Operation::Php.accesses(
                *old(self),
                old(bus).mem(),
                Operand::Accumulator,
            ),
    {
        reveal(Operation::after_stack);
        reveal(Operation::after_mem);
        reveal(Operation::accesses);
        let status = self.flag.union(Flag::break_command()).union(Flag::unused());
        self.push_byte(status.bits(), bus);
    }

    /// `PLA`: pulls the accumulator.
    pub fn pla<B: Bus>(&mut self, bus: &mut B)
        ensures
            *final(self) == Operation::Pla.after_cpu(*old(self), old(bus).mem(), Operand::Accumulator),
            final(bus).mem() == Operation::Pla.after_mem(*old(self), old(bus).mem(), Operand::Accumulator),
            final(bus).accesses() == old(bus).accesses() + Operation::Pla.accesses(
                *old(self),
                old(bus).mem(),
                Operand::Accumulator,
            ),
    {
        reveal(Operation::after_stack);
        reveal(Operation::after_mem);
        reveal(Operation::accesses);
        self.a = self.pull_byte(bus);
        self.set_a_flags();
    }

    /// `PLP`: pulls the status register; Break and Unused are not kept.
    pub fn plp<B: Bus>(&mut self, bus: &mut B)
        ensures
            *final(self) == Operation::Plp.after_cpu(*old(self), old(bus).mem(), Operand::Accumulator),
            final(bus).mem() == Operation::Plp.after_mem(*old(self), old(bus).mem(), Operand::Accumulator),
            final(bus).accesses() == old(bus).accesses() + Operation::Plp.accesses(
                *old(self),
                old(bus).mem(),
                Operand::Accumulator,
            ),
    {
        reveal(Operation::after_stack);
        reveal(Operation::after_mem);
        reveal(Operation::accesses);
        let bits = self.pull_byte(bus);
        self.flag = Flag::from_bits_truncate(bits).difference(
            Flag::break_command().union(Flag::unused()),
        );
    }

    /// `AND`: combines the operand into the accumulator.
    pub fn and<B: Bus>(&mut self, operand: Operand, bus: &mut B)
        ensures
            *final(self) == Operation::And.after_cpu(*old(self), old(bus).mem(), operand),
            final(bus).mem() == Operation::And.after_mem(*old(self), old(bus).mem(), operand),
            final(bus).accesses() == old(bus).accesses() + Operation::And.accesses(
                *old(self),
                old(bus).mem(),
                operand,
            ),
    {
        reveal(Operation::after_logic);
        reveal(Operation::after_mem);
        reveal(Operation::accesses);
        let m = self.fetch(operand, bus);
        self.a = self.a & m;
        self.set_a_flags();
    }

    /// `EOR`: combines the operand into the accumulator.
    pub fn eor<B: Bus>(&mut self, operand: Operand, bus: &mut B)
        ensures
            *final(self) == Operation::Eor.after_cpu(*old(self), old(bus).mem(), operand),
            final(bus).mem() == Operation::Eor.after_mem(*old(self), old(bus).mem(), operand),
            final(bus).accesses() == old(bus).accesses() + Operation::Eor.accesses(
                *old(self),
                old(bus).mem(),
                operand,
            ),
    {
        reveal(Operation::after_logic);
        reveal(Operation::after_mem);
        reveal(Operation::accesses);
        let m = self.fetch(operand, bus);
        self.a = self.a ^ m;
        self.set_a_flags();
    }

    /// `ORA`: combines the operand into the accumulator.
    pub fn ora<B: Bus>(&mut self, operand: Operand, bus: &mut B)
        ensures
            *final(self) == Operation::Ora.after_cpu(*old(self), old(bus).mem(), operand),
            final(bus).mem() == Operation::Ora.after_mem(*old(self), old(bus).mem(), operand),
            final(bus).accesses() == old(bus).accesses() + Operation::Ora.accesses(
                *old(self),
                old(bus).mem(),
                operand,
            ),
    {
        reveal(Operation::after_logic);
        reveal(Operation::after_mem);
        reveal(Operation::accesses);
        let m = self.fetch(operand, bus);
        self.a = self.a | m;
        self.set_a_flags();
    }

    /// `BIT`: tests the operand against the accumulator.
    pub fn bit<B: Bus>(&mut self, operand: Operand, bus: &mut B)
        ensures
            *final(self) == Operation::Bit.after_cpu(*old(self), old(bus).mem(), operand),
            final(bus).mem() == Operation::Bit.after_mem(*old(self), old(bus).mem(), operand),
            final(bus).accesses() == old(bus).accesses() + Operation::Bit.accesses(
                *old(self),
                old(bus).mem(),
                operand,
            ),
    {
        reveal(Operation::after_logic);
        reveal(Operation::after_mem);
        reveal(Operation::accesses);
        let m = self.fetch(operand, bus);
        self.flag.set(Flag::zero(), (self.a & m) == 0);
        self.flag.set(Flag::overflow(), (m & 0x40) != 0);
        self.flag.set(Flag::negative(), (m & 0x80) != 0);
    }

    /// `ADC`: adds the operand and the carry to the accumulator, in binary.
    pub fn adc<B: Bus>(&mut self, operand: Operand, bus: &mut B)
        ensures
            *final(self) == Operation::Adc.after_cpu(*old(self), old(bus).mem(), operand),
            final(bus).mem() == Operation::Adc.after_mem(*old(self), old(bus).mem(), operand),
            final(bus).accesses() == old(bus).accesses() + Operation::Adc.accesses(
                *old(self),
                old(bus).mem(),
                operand,
            ),
    {
        reveal(Operation::after_arithmetic);
        reveal(Operation::after_mem);
        reveal(Operation::accesses);
        let m = self.fetch(operand, bus);
        let r = add_with_carry(self.a, m, self.flag.contains(Flag::carry()));
        self.a = r.value;
        self.set_sum_flags(r);
    }

    /// `SBC`: subtracts the operand and the borrow from the accumulator, in binary.
    pub fn sbc<B: Bus>(&mut self, operand: Operand, bus: &mut B)
        ensures
            *final(self) == Operation::Sbc.after_cpu(*old(self), old(bus).mem(), operand),
            final(bus).mem() == Operation::Sbc.after_mem(*old(self), old(bus).mem(), operand),
            final(bus).accesses() == old(bus).accesses() + Operation::Sbc.accesses(
                *old(self),
                old(bus).mem(),
                operand,
            ),
    {
        reveal(Operation::after_arithmetic);
        reveal(Operation::after_mem);
        reveal(Operation::accesses);
        let m = self.fetch(operand, bus);
        let r = subtract_with_carry(self.a, m, self.flag.contains(Flag::carry()));
        self.a = r.value;
        self.set_sum_flags(r);
    }

    /// `CMP`: compares A with the operand.
    pub fn cmp<B: Bus>(&mut self, operand: Operand, bus: &mut B)
        ensures
            *final(self) == Operation::Cmp.after_cpu(*old(self), old(bus).mem(), operand),
            final(bus).mem() == Operation::Cmp.after_mem(*old(self), old(bus).mem(), operand),
            final(bus).accesses() == old(bus).accesses() + Operation::Cmp.accesses(
                *old(self),
                old(bus).mem(),
                operand,
            ),
    {
        reveal(Operation::after_arithmetic);
        reveal(Operation::after_mem);
        reveal(Operation::accesses);
        let m = self.fetch(operand, bus);
        self.set_shifted_flags(compare(self.a, m));
    }

    /// `CPX`: compares X with the operand.
    pub fn cpx<B: Bus>(&mut self, operand: Operand, bus: &mut B)
        ensures
            *final(self) == Operation::Cpx.after_cpu(*old(self), old(bus).mem(), operand),
            final(bus).mem() == Operation::Cpx.after_mem(*old(self), old(bus).mem(), operand),
            final(bus).accesses() == old(bus).accesses() + Operation::Cpx.accesses(
                *old(self),
                old(bus).mem(),
                operand,
            ),
    {
        reveal(Operation::after_arithmetic);
        reveal(Operation::after_mem);
        reveal(Operation::accesses);
        let m = self.fetch(operand, bus);
        self.set_shifted_flags(compare(self.x, m));
    }

    /// `CPY`: compares Y with the operand.
    pub fn cpy<B: Bus>(&mut self, operand: Operand, bus: &mut B)
        ensures
            *final(self) == Operation::Cpy.after_cpu(*old(self), old(bus).mem(), operand),
            final(bus).mem() == Operation::Cpy.after_mem(*old(self), old(bus).mem(), operand),
            final(bus).accesses() == old(bus).accesses() + Operation::Cpy.accesses(
                *old(self),
                old(bus).mem(),
                operand,
            ),
    {
        reveal(Operation::after_arithmetic);
        reveal(Operation::after_mem);
        reveal(Operation::accesses);
        let m = self.fetch(operand, bus);
        self.set_shifted_flags(compare(self.y, m));
    }

    /// `INC`: adds one to the byte in memory.
    pub fn inc<B: Bus>(&mut self, operand: Operand, bus: &mut B)
        ensures
            *final(self) == Operation::Inc.after_cpu(*old(self), old(bus).mem(), operand),
            final(bus).mem() == Operation::Inc.after_mem(*old(self), old(bus).mem(), operand),
            final(bus).accesses() == old(bus).accesses() + Operation::Inc.accesses(
                *old(self),
                old(bus).mem(),
                operand,
            ),
    {
        reveal(Operation::after_count);
        reveal(Operation::after_mem);
        reveal(Operation::accesses);
        let value = self.fetch(operand, bus).wrapping_add(1);
        self.store_register(operand, value, bus);
        self.flag.set_nz(value);
    }

    /// `DEC`: takes one from the byte in memory.
    pub fn dec<B: Bus>(&mut self, operand: Operand, bus: &mut B)
        ensures
            *final(self) == Operation::Dec.after_cpu(*old(self), old(bus).mem(), operand),
            final(bus).mem() == Operation::Dec.after_mem(*old(self), old(bus).mem(), operand),
            final(bus).accesses() == old(bus).accesses() + Operation::Dec.accesses(
                *old(self),
                old(bus).mem(),
                operand,
            ),
    {
        reveal(Operation::after_count);
        reveal(Operation::after_mem);
        reveal(Operation::accesses);
        let value = self.fetch(operand, bus).wrapping_sub(1);
        self.store_register(operand, value, bus);
        self.flag.set_nz(value);
    }

    /// `INX`.
    pub fn inx(&mut self)
        ensures
            *final(self) == (CPU { x: offset_zp(old(self).x, 1), flag: old(self).flag.with_nz(offset_zp(old(self).x, 1)), ..*old(self) }),
    {
        self.x = self.x.wrapping_add(1);
        self.set_x_flags();
    }

    /// `INY`.
    pub fn iny(&mut self)
        ensures
            *final(self) == (CPU { y: offset_zp(old(self).y, 1), flag: old(self).flag.with_nz(offset_zp(old(self).y, 1)), ..*old(self) }),
    {
        self.y = self.y.wrapping_add(1);
        self.set_y_flags();
    }

    /// `DEX`.
    pub fn dex(&mut self)
        ensures
            *final(self) == (CPU { x: offset_zp(old(self).x, -1), flag: old(self).flag.with_nz(offset_zp(old(self).x, -1)), ..*old(self) }),
    {
        self.x = self.x.wrapping_sub(1);
        self.set_x_flags();
    }

    /// `DEY`.
    pub fn dey(&mut self)
        ensures
            *final(self) == (CPU { y: offset_zp(old(self).y, -1), flag: old(self).flag.with_nz(offset_zp(old(self).y, -1)), ..*old(self) }),
    {
        self.y = self.y.wrapping_sub(1);
        self.set_y_flags();
    }

    /// `ASL`: shifts the operand left.
    pub fn asl<B: Bus>(&mut self, operand: Operand, bus: &mut B)
        ensures
            *final(self) == Operation::Asl.after_cpu(*old(self), old(bus).mem(), operand),
            final(bus).mem() == Operation::Asl.after_mem(*old(self), old(bus).mem(), operand),
            final(bus).accesses() == old(bus).accesses() + Operation::Asl.accesses(
                *old(self),
                old(bus).mem(),
                operand,
            ),
    {
        reveal(Operation::after_shift);
        reveal(Operation::after_mem);
        reveal(Operation::accesses);
        let m = self.fetch(operand, bus);
        let r = shift_left(m);
        self.store(operand, r.value, bus);
        self.set_shifted_flags(r);
    }

    /// `LSR`: shifts the operand right.
    pub fn lsr<B: Bus>(&mut self, operand: Operand, bus: &mut B)
        ensures
            *final(self) == Operation::Lsr.after_cpu(*old(self), old(bus).mem(), operand),
            final(bus).mem() == Operation::Lsr.after_mem(*old(self), old(bus).mem(), operand),
            final(bus).accesses() == old(bus).accesses() + Operation::Lsr.accesses(
                *old(self),
                old(bus).mem(),
                operand,
            ),
    {
        reveal(Operation::after_shift);
        reveal(Operation::after_mem);
        reveal(Operation::accesses);
        let m = self.fetch(operand, bus);
        let r = shift_right(m);
        self.store(operand, r.value, bus);
        self.set_shifted_flags(r);
    }

    /// `ROL`: rotates the operand left through the carry.
    pub fn rol<B: Bus>(&mut self, operand: Operand, bus: &mut B)
        ensures
            *final(self) == Operation::Rol.after_cpu(*old(self), old(bus).mem(), operand),
            final(bus).mem() == Operation::Rol.after_mem(*old(self), old(bus).mem(), operand),
            final(bus).accesses() == old(bus).accesses() + Operation::Rol.accesses(
                *old(self),
                old(bus).mem(),
                operand,
            ),
    {
        reveal(Operation::after_shift);
        reveal(Operation::after_mem);
        reveal(Operation::accesses);
        let m = self.fetch(operand, bus);
        let r = rotate_left(m, self.flag.contains(Flag::carry()));
        self.store(operand, r.value, bus);
        self.set_shifted_flags(r);
    }

    /// `ROR`: rotates the operand right through the carry.
    pub fn ror<B: Bus>(&mut self, operand: Operand, bus: &mut B)
        ensures
            *final(self) == Operation::Ror.after_cpu(*old(self), old(bus).mem(), operand),
            final(bus).mem() == Operation::Ror.after_mem(*old(self), old(bus).mem(), operand),
            final(bus).accesses() == old(bus).accesses() + Operation::Ror.accesses(
                *old(self),
                old(bus).mem(),
                operand,
            ),
    {
        reveal(Operation::after_shift);
        reveal(Operation::after_mem);
        reveal(Operation::accesses);
        let m = self.fetch(operand, bus);
        let r = rotate_right(m, self.flag.contains(Flag::carry()));
        self.store(operand, r.value, bus);
        self.set_shifted_flags(r);
    }

    /// `JMP`: continues at the operand's address.
    pub fn jmp(&mut self, operand: Operand)
        ensures
            *final(self) == (CPU { pc: operand.target(old(self).pc), ..*old(self) }),
    {
        match operand {
            Operand::Accumulator => {},
            Operand::Address(ea) => {
                self.pc = ea;
            },
        }
    }

    /// `JSR`: pushes the address of the last byte of this instruction, then jumps.
    pub fn jsr<B: Bus>(&mut self, operand: Operand, bus: &mut B)
        ensures
            *final(self) == Operation::Jsr.after_cpu(*old(self), old(bus).mem(), operand),
            final(bus).mem() == Operation::Jsr.after_mem(*old(self), old(bus).mem(), operand),
            final(bus).accesses() == old(bus).accesses() + Operation::Jsr.accesses(
                *old(self),
                old(bus).mem(),
                operand,
            ),
    {
        reveal(Operation::after_jump);
        reveal(Operation::after_mem);
        reveal(Operation::accesses);
        self.push_word(self.pc.wrapping_sub(1), bus);
        self.jmp(operand);
    }

    /// `RTS`: continues after the `JSR` whose address is on the stack.
    pub fn rts<B: Bus>(&mut self, bus: &mut B)
        ensures
            *final(self) == Operation::Rts.after_cpu(*old(self), old(bus).mem(), Operand::Accumulator),
            final(bus).mem() == Operation::Rts.after_mem(*old(self), old(bus).mem(), Operand::Accumulator),
            final(bus).accesses() == old(bus).accesses() + Operation::Rts.accesses(
                *old(self),
                old(bus).mem(),
                Operand::Accumulator,
            ),
    {
        reveal(Operation::after_jump);
        reveal(Operation::after_mem);
        reveal(Operation::accesses);
        let addr = self.pull_word(bus);
        self.pc = addr.wrapping_add(1);
    }

    /// A branch: goes to the operand's address when `taken`.  Returns the
    /// cycles this adds to the base cost.
    fn branch(&mut self, taken: bool, operand: Operand) -> (extra: Byte)
        ensures
            *final(self) == (if taken {
                CPU { pc: operand.target(old(self).pc), ..*old(self) }
            } else {
                *old(self)
            }),
            extra == (if !taken {
                0int
            } else if page(operand.target(old(self).pc)) != page(old(self).pc) {
                2int
            } else {
                1int
            }),
    {
        if taken {
            let from = self.pc;
            self.jmp(operand);
            if self.pc / 256 != from / 256 {
                2
            } else {
                1
            }
        } else {
            0
        }
    }

    /// `BCC`: branches on carry clear.
    pub fn bcc(&mut self, operand: Operand) -> (extra: Byte)
        ensures
            *final(self) == (CPU {
                pc: if Operation::Bcc.branch_taken(old(self).flag) {
                    operand.target(old(self).pc)
                } else {
                    old(self).pc
                },
                ..*old(self)
            }),
            extra == Operation::Bcc.branch_cycles(*old(self), operand),
    {
        self.branch(!self.flag.contains(Flag::carry()), operand)
    }

    /// `BCS`: branches on carry set.
    pub fn bcs(&mut self, operand: Operand) -> (extra: Byte)
        ensures
            *final(self) == (CPU {
                pc: if Operation::Bcs.branch_taken(old(self).flag) {
                    operand.target(old(self).pc)
                } else {
                    old(self).pc
                },
                ..*old(self)
            }),
            extra == Operation::Bcs.branch_cycles(*old(self), operand),
    {
        self.branch(self.flag.contains(Flag::carry()), operand)
    }

    /// `BEQ`: branches on zero set.
    pub fn beq(&mut self, operand: Operand) -> (extra: Byte)
        ensures
            *final(self) == (CPU {
                pc: if Operation::Beq.branch_taken(old(self).flag) {
                    operand.target(old(self).pc)
                } else {
                    old(self).pc
                },
                ..*old(self)
            }),
            extra == Operation::Beq.branch_cycles(*old(self), operand),
    {
        self.branch(self.flag.contains(Flag::zero()), operand)
    }

    /// `BNE`: branches on zero clear.
    pub fn bne(&mut self, operand: Operand) -> (extra: Byte)
        ensures
            *final(self) == (CPU {
                pc: if Operation::Bne.branch_taken(old(self).flag) {
                    operand.target(old(self).pc)
                } else {
                    old(self).pc
                },
                ..*old(self)
            }),
            extra == Operation::Bne.branch_cycles(*old(self), operand),
    {
        self.branch(!self.flag.contains(Flag::zero()), operand)
    }

    /// `BMI`: branches on negative set.
    pub fn bmi(&mut self, operand: Operand) -> (extra: Byte)
        ensures
            *final(self) == (CPU {
                pc: if Operation::Bmi.branch_taken(old(self).flag) {
                    operand.target(old(self).pc)
                } else {
                    old(self).pc
                },
                ..*old(self)
            }),
            extra == Operation::Bmi.branch_cycles(*old(self), operand),
    {
        self.branch(self.flag.contains(Flag::negative()), operand)
    }

    /// `BPL`: branches on negative clear.
    pub fn bpl(&mut self, operand: Operand) -> (extra: Byte)
        ensures
            *final(self) == (CPU {
                pc: if Operation::Bpl.branch_taken(old(self).flag) {
                    operand.target(old(self).pc)
                } else {
                    old(self).pc
                },
                ..*old(self)
            }),
            extra == Operation::Bpl.branch_cycles(*old(self), operand),
    {
        self.branch(!self.flag.contains(Flag::negative()), operand)
    }

    /// `BVC`: branches on overflow clear.
    pub fn bvc(&mut self, operand: Operand) -> (extra: Byte)
        ensures
            *final(self) == (CPU {
                pc: if Operation::Bvc.branch_taken(old(self).flag) {
                    operand.target(old(self).pc)
                } else {
                    old(self).pc
                },
                ..*old(self)
            }),
            extra == Operation::Bvc.branch_cycles(*old(self), operand),
    {
        self.branch(!self.flag.contains(Flag::overflow()), operand)
    }

    /// `BVS`: branches on overflow set.
    pub fn bvs(&mut self, operand: Operand) -> (extra: Byte)
        ensures
            *final(self) == (CPU {
                pc: if Operation::Bvs.branch_taken(old(self).flag) {
                    operand.target(old(self).pc)
                } else {
                    old(self).pc
                },
                ..*old(self)
            }),
            extra == Operation::Bvs.branch_cycles(*old(self), operand),
    {
        self.branch(self.flag.contains(Flag::overflow()), operand)
    }

    /// `CLC`: clears carry.
    pub fn clc(&mut self)
        ensures
            *final(self) == (CPU { flag: old(self).flag.with(Flag::carry(), false), ..*old(self) }),
    {
        self.flag.set(Flag::carry(), false);
    }

    /// `CLD`: clears decimal mode.
    pub fn cld(&mut self)
        ensures
            *final(self) == (CPU { flag: old(self).flag.with(Flag::decimal_mode(), false), ..*old(self) }),
    {
        self.flag.set(Flag::decimal_mode(), false);
    }

    /// `CLI`: clears interrupt disable.
    pub fn cli(&mut self)
        ensures
            *final(self) == (CPU { flag: old(self).flag.with(Flag::interrupt_disable(), false), ..*old(self) }),
    {
        self.flag.set(Flag::interrupt_disable(), false);
    }

    /// `CLV`: clears overflow.
    pub fn clv(&mut self)
        ensures
            *final(self) == (CPU { flag: old(self).flag.with(Flag::overflow(), false), ..*old(self) }),
    {
        self.flag.set(Flag::overflow(), false);
    }

    /// `SEC`: sets carry.
    pub fn sec(&mut self)
        ensures
            *final(self) == (CPU { flag: old(self).flag.with(Flag::carry(), true), ..*old(self) }),
    {
        self.flag.set(Flag::carry(), true);
    }

    /// `SED`: sets decimal mode.
    pub fn sed(&mut self)
        ensures
            *final(self) == (CPU { flag: old(self).flag.with(Flag::decimal_mode(), true), ..*old(self) }),
    {
        self.flag.set(Flag::decimal_mode(), true);
    }

    /// `SEI`: sets interrupt disable.
    pub fn sei(&mut self)
        ensures
            *final(self) == (CPU { flag: old(self).flag.with(Flag::interrupt_disable(), true), ..*old(self) }),
    {
        self.flag.set(Flag::interrupt_disable(), true);
    }

    /// `BRK`: pushes the address after the padding byte and the status, with Break
    /// and Unused set in the copy; masks interrupts and continues at the IRQ vector.
    pub fn brk<B: Bus>(&mut self, bus: &mut B)
        ensures
            *final(self) == Operation::Brk.after_cpu(*old(self), old(bus).mem(), Operand::Accumulator),
            final(bus).mem() == Operation::Brk.after_mem(*old(self), old(bus).mem(), Operand::Accumulator),
            final(bus).accesses() == old(bus).accesses() + Operation::Brk.accesses(
                *old(self),
                old(bus).mem(),
                Operand::Accumulator,
            ),
    {
        reveal(Operation::after_interrupt);
        reveal(Operation::after_mem);
        reveal(Operation::accesses);
        let ghost mem = bus.mem();
        let ghost sp = self.sp;
        proof {
            bus.spans_address_space();
        }
        let return_addr = self.pc.wrapping_add(1);
        self.push_word(return_addr, bus);
        let status = self.flag.union(Flag::break_command()).union(Flag::unused());
        self.push_byte(status.bits(), bus);
        self.flag.set(Flag::interrupt_disable(), true);
        proof {
            lemma_offset_zp_sum(sp, -2, -1);
            let hi = pushed(mem, sp, hi_byte(return_addr));
            let lo = pushed(hi, offset_zp(sp, -1), lo_byte(return_addr));
            let vector_hi = offset(IRQ_VECTOR, 1);
            lemma_push_stays_in_page_one(mem, sp, hi_byte(return_addr), IRQ_VECTOR);
            lemma_push_stays_in_page_one(mem, sp, hi_byte(return_addr), vector_hi);
            lemma_push_stays_in_page_one(hi, offset_zp(sp, -1), lo_byte(return_addr), IRQ_VECTOR);
            lemma_push_stays_in_page_one(hi, offset_zp(sp, -1), lo_byte(return_addr), vector_hi);
            lemma_push_stays_in_page_one(lo, offset_zp(sp, -2), status.bits, IRQ_VECTOR);
            lemma_push_stays_in_page_one(lo, offset_zp(sp, -2), status.bits, vector_hi);
            assert(mem16(bus.mem(), IRQ_VECTOR) == mem16(mem, IRQ_VECTOR));
            assert(reads16(bus.mem(), IRQ_VECTOR) == reads16(mem, IRQ_VECTOR));
        }
        self.pc = self.read_word(IRQ_VECTOR, bus);
    }

    /// `RTI`: pulls the status, Break and Unused not kept, then the program counter.
    pub fn rti<B: Bus>(&mut self, bus: &mut B)
        ensures
            *final(self) == Operation::Rti.after_cpu(*old(self), old(bus).mem(), Operand::Accumulator),
            final(bus).mem() == Operation::Rti.after_mem(*old(self), old(bus).mem(), Operand::Accumulator),
            final(bus).accesses() == old(bus).accesses() + Operation::Rti.accesses(
                *old(self),
                old(bus).mem(),
                Operand::Accumulator,
            ),
    {
        reveal(Operation::after_interrupt);
        reveal(Operation::after_mem);
        reveal(Operation::accesses);
        proof {
            lemma_offset_zp_sum(self.sp, 1, 2);
        }
        let bits = self.pull_byte(bus);
        self.flag = Flag::from_bits_truncate(bits).difference(
            Flag::break_command().union(Flag::unused()),
        );
        self.pc = self.pull_word(bus);
    }

    /// `NOP`.
    pub fn nop(&mut self)
        ensures
            *final(self) == (*old(self)),
    {

    }

    /// Carries out `operation` on `operand`.  Returns the cycles the
    /// operation adds to its base cost by itself: those of a taken branch.
    pub fn operate<B: Bus>(&mut self, operation: Operation, operand: Operand, bus: &mut B) -> (extra: Byte)
        ensures
            *final(self) == operation.after_cpu(*old(self), old(bus).mem(), operand),
            final(bus).mem() == operation.after_mem(*old(self), old(bus).mem(), operand),
            final(bus).accesses() == old(bus).accesses() + operation.accesses(
                *old(self),
                old(bus).mem(),
                operand,
            ),
            extra == operation.branch_cycles(*old(self), operand),
    {
        match operation {
            Operation::Lda => {
                self.lda(operand, bus);
                0
            },
            Operation::Ldx => {
                self.ldx(operand, bus);
                0
            },
            Operation::Ldy => {
                self.ldy(operand, bus);
                0
            },
            Operation::Sta => {
                self.sta(operand, bus);
                0
            },
            Operation::Stx => {
                self.stx(operand, bus);
                0
            },
            Operation::Sty => {
                self.sty(operand, bus);
                0
            },
            Operation::Tax => {
                self.tax();
                assert(*self == operation.after_cpu(*old(self), old(bus).mem(), operand)
                    && bus.mem() == operation.after_mem(*old(self), old(bus).mem(), operand)
                    && bus.accesses() == old(bus).accesses() + operation.accesses(
                    *old(self),
                    old(bus).mem(),
                    operand,
                )) by {
                    reveal(Operation::after_move);
                    reveal(Operation::after_mem);
        reveal(Operation::accesses);
                }
                0
            },
            Operation::Tay => {
                self.tay();
                assert(*self == operation.after_cpu(*old(self), old(bus).mem(), operand)
                    && bus.mem() == operation.after_mem(*old(self), old(bus).mem(), operand)
                    && bus.accesses() == old(bus).accesses() + operation.accesses(
                    *old(self),
                    old(bus).mem(),
                    operand,
                )) by {
                    reveal(Operation::after_move);
                    reveal(Operation::after_mem);
        reveal(Operation::accesses);
                }
                0
            },
            Operation::Txa => {
                self.txa();
                assert(*self == operation.after_cpu(*old(self), old(bus).mem(), operand)
                    && bus.mem() == operation.after_mem(*old(self), old(bus).mem(), operand)
                    && bus.accesses() == old(bus).accesses() + operation.accesses(
                    *old(self),
                    old(bus).mem(),
                    operand,
                )) by {
                    reveal(Operation::after_move);
                    reveal(Operation::after_mem);
        reveal(Operation::accesses);
                }
                0
            },
            Operation::Tya => {
                self.tya();
                assert(*self == operation.after_cpu(*old(self), old(bus).mem(), operand)
                    && bus.mem() == operation.after_mem(*old(self), old(bus).mem(), operand)
                    && bus.accesses() == old(bus).accesses() + operation.accesses(
                    *old(self),
                    old(bus).mem(),
                    operand,
                )) by {
                    reveal(Operation::after_move);
                    reveal(Operation::after_mem);
        reveal(Operation::accesses);
                }
                0
            },
            Operation::Tsx => {
                self.tsx();
                assert(*self == operation.after_cpu(*old(self), old(bus).mem(), operand)
                    && bus.mem() == operation.after_mem(*old(self), old(bus).mem(), operand)
                    && bus.accesses() == old(bus).accesses() + operation.accesses(
                    *old(self),
                    old(bus).mem(),
                    operand,
                )) by {
                    reveal(Operation::after_move);
                    reveal(Operation::after_mem);
        reveal(Operation::accesses);
                }
                0
            },
            Operation::Txs => {
                self.txs();
                assert(*self == operation.after_cpu(*old(self), old(bus).mem(), operand)
                    && bus.mem() == operation.after_mem(*old(self), old(bus).mem(), operand)
                    && bus.accesses() == old(bus).accesses() + operation.accesses(
                    *old(self),
                    old(bus).mem(),
                    operand,
                )) by {
                    reveal(Operation::after_move);
                    reveal(Operation::after_mem);
        reveal(Operation::accesses);
                }
                0
            },
            Operation::Pha => {
                self.pha(bus);
                assert(*self == operation.after_cpu(*old(self), old(bus).mem(), operand)
                    && bus.mem() == operation.after_mem(*old(self), old(bus).mem(), operand)
                    && bus.accesses() == old(bus).accesses() + operation.accesses(
                    *old(self),
                    old(bus).mem(),
                    operand,
                )) by {
                    reveal(Operation::after_stack);
                    reveal(Operation::after_mem);
        reveal(Operation::accesses);
                }
                0
            },
            Operation::Php => {
                self.php(bus);
                assert(*self == operation.after_cpu(*old(self), old(bus).mem(), operand)
                    && bus.mem() == operation.after_mem(*old(self), old(bus).mem(), operand)
                    && bus.accesses() == old(bus).accesses() + operation.accesses(
                    *old(self),
                    old(bus).mem(),
                    operand,
                )) by {
                    reveal(Operation::after_stack);
                    reveal(Operation::after_mem);
        reveal(Operation::accesses);
                }
                0
            },
            Operation::Pla => {
                self.pla(bus);
                assert(*self == operation.after_cpu(*old(self), old(bus).mem(), operand)
                    && bus.mem() == operation.after_mem(*old(self), old(bus).mem(), operand)
                    && bus.accesses() == old(bus).accesses() + operation.accesses(
                    *old(self),
                    old(bus).mem(),
                    operand,
                )) by {
                    reveal(Operation::after_stack);
                    reveal(Operation::after_mem);
        reveal(Operation::accesses);
                }
                0
            },
            Operation::Plp => {
                self.plp(bus);
                assert(*self == operation.after_cpu(*old(self), old(bus).mem(), operand)
                    && bus.mem() == operation.after_mem(*old(self), old(bus).mem(), operand)
                    && bus.accesses() == old(bus).accesses() + operation.accesses(
                    *old(self),
                    old(bus).mem(),
                    operand,
                )) by {
                    reveal(Operation::after_stack);
                    reveal(Operation::after_mem);
        reveal(Operation::accesses);
                }
                0
            },
            Operation::And => {
                self.and(operand, bus);
                0
            },
            Operation::Eor => {
                self.eor(operand, bus);
                0
            },
            Operation::Ora => {
                self.ora(operand, bus);
                0
            },
            Operation::Bit => {
                self.bit(operand, bus);
                0
            },
            Operation::Adc => {
                self.adc(operand, bus);
                0
            },
            Operation::Sbc => {
                self.sbc(operand, bus);
                0
            },
            Operation::Cmp => {
                self.cmp(operand, bus);
                0
            },
            Operation::Cpx => {
                self.cpx(operand, bus);
                0
            },
            Operation::Cpy => {
                self.cpy(operand, bus);
                0
            },
            Operation::Inc => {
                self.inc(operand, bus);
                0
            },
            Operation::Inx => {
                self.inx();
                assert(*self == operation.after_cpu(*old(self), old(bus).mem(), operand)
                    && bus.mem() == operation.after_mem(*old(self), old(bus).mem(), operand)
                    && bus.accesses() == old(bus).accesses() + operation.accesses(
                    *old(self),
                    old(bus).mem(),
                    operand,
                )) by {
                    reveal(Operation::after_count);
                    reveal(Operation::after_mem);
        reveal(Operation::accesses);
                }
                0
            },
            Operation::Iny => {
                self.iny();
                assert(*self == operation.after_cpu(*old(self), old(bus).mem(), operand)
                    && bus.mem() == operation.after_mem(*old(self), old(bus).mem(), operand)
                    && bus.accesses() == old(bus).accesses() + operation.accesses(
                    *old(self),
                    old(bus).mem(),
                    operand,
                )) by {
                    reveal(Operation::after_count);
                    reveal(Operation::after_mem);
        reveal(Operation::accesses);
                }
                0
            },
            Operation::Dec => {
                self.dec(operand, bus);
                0
            },
            Operation::Dex => {
                self.dex();
                assert(*self == operation.after_cpu(*old(self), old(bus).mem(), operand)
                    && bus.mem() == operation.after_mem(*old(self), old(bus).mem(), operand)
                    && bus.accesses() == old(bus).accesses() + operation.accesses(
                    *old(self),
                    old(bus).mem(),
                    operand,
                )) by {
                    reveal(Operation::after_count);
                    reveal(Operation::after_mem);
        reveal(Operation::accesses);
                }
                0
            },
            Operation::Dey => {
                self.dey();
                assert(*self == operation.after_cpu(*old(self), old(bus).mem(), operand)
                    && bus.mem() == operation.after_mem(*old(self), old(bus).mem(), operand)
                    && bus.accesses() == old(bus).accesses() + operation.accesses(
                    *old(self),
                    old(bus).mem(),
                    operand,
                )) by {
                    reveal(Operation::after_count);
                    reveal(Operation::after_mem);
        reveal(Operation::accesses);
                }
                0
            },
            Operation::Asl => {
                self.asl(operand, bus);
                0
            },
            Operation::Lsr => {
                self.lsr(operand, bus);
                0
            },
            Operation::Rol => {
                self.rol(operand, bus);
                0
            },
            Operation::Ror => {
                self.ror(operand, bus);
                0
            },
            Operation::Jmp => {
                self.jmp(operand);
                assert(*self == operation.after_cpu(*old(self), old(bus).mem(), operand)
                    && bus.mem() == operation.after_mem(*old(self), old(bus).mem(), operand)
                    && bus.accesses() == old(bus).accesses() + operation.accesses(
                    *old(self),
                    old(bus).mem(),
                    operand,
                )) by {
                    reveal(Operation::after_jump);
                    reveal(Operation::after_mem);
        reveal(Operation::accesses);
                }
                0
            },
            Operation::Jsr => {
                self.jsr(operand, bus);
                0
            },
            Operation::Rts => {
                self.rts(bus);
                assert(*self == operation.after_cpu(*old(self), old(bus).mem(), operand)
                    && bus.mem() == operation.after_mem(*old(self), old(bus).mem(), operand)
                    && bus.accesses() == old(bus).accesses() + operation.accesses(
                    *old(self),
                    old(bus).mem(),
                    operand,
                )) by {
                    reveal(Operation::after_jump);
                    reveal(Operation::after_mem);
        reveal(Operation::accesses);
                }
                0
            },
            Operation::Bcc => {
                let extra = self.bcc(operand);
                assert(*self == operation.after_cpu(*old(self), old(bus).mem(), operand)
                    && bus.mem() == operation.after_mem(*old(self), old(bus).mem(), operand)
                    && bus.accesses() == old(bus).accesses() + operation.accesses(
                    *old(self),
                    old(bus).mem(),
                    operand,
                )) by {
                    reveal(Operation::after_jump);
                    reveal(Operation::after_mem);
        reveal(Operation::accesses);
                }
                extra
            },
            Operation::Bcs => {
                let extra = self.bcs(operand);
                assert(*self == operation.after_cpu(*old(self), old(bus).mem(), operand)
                    && bus.mem() == operation.after_mem(*old(self), old(bus).mem(), operand)
                    && bus.accesses() == old(bus).accesses() + operation.accesses(
                    *old(self),
                    old(bus).mem(),
                    operand,
                )) by {
                    reveal(Operation::after_jump);
                    reveal(Operation::after_mem);
        reveal(Operation::accesses);
                }
                extra
            },
            Operation::Beq => {
                let extra = self.beq(operand);
                assert(*self == operation.after_cpu(*old(self), old(bus).mem(), operand)
                    && bus.mem() == operation.after_mem(*old(self), old(bus).mem(), operand)
                    && bus.accesses() == old(bus).accesses() + operation.accesses(
                    *old(self),
                    old(bus).mem(),
                    operand,
                )) by {
                    reveal(Operation::after_jump);
                    reveal(Operation::after_mem);
        reveal(Operation::accesses);
                }
                extra
            },
            Operation::Bmi => {
                let extra = self.bmi(operand);
                assert(*self == operation.after_cpu(*old(self), old(bus).mem(), operand)
                    && bus.mem() == operation.after_mem(*old(self), old(bus).mem(), operand)
                    && bus.accesses() == old(bus).accesses() + operation.accesses(
                    *old(self),
                    old(bus).mem(),
                    operand,
                )) by {
                    reveal(Operation::after_jump);
                    reveal(Operation::after_mem);
        reveal(Operation::accesses);
                }
                extra
            },
            Operation::Bne => {
                let extra = self.bne(operand);
                assert(*self == operation.after_cpu(*old(self), old(bus).mem(), operand)
                    && bus.mem() == operation.after_mem(*old(self), old(bus).mem(), operand)
                    && bus.accesses() == old(bus).accesses() + operation.accesses(
                    *old(self),
                    old(bus).mem(),
                    operand,
                )) by {
                    reveal(Operation::after_jump);
                    reveal(Operation::after_mem);
        reveal(Operation::accesses);
                }
                extra
            },
            Operation::Bpl => {
                let extra = self.bpl(operand);
                assert(*self == operation.after_cpu(*old(self), old(bus).mem(), operand)
                    && bus.mem() == operation.after_mem(*old(self), old(bus).mem(), operand)
                    && bus.accesses() == old(bus).accesses() + operation.accesses(
                    *old(self),
                    old(bus).mem(),
                    operand,
                )) by {
                    reveal(Operation::after_jump);
                    reveal(Operation::after_mem);
        reveal(Operation::accesses);
                }
                extra
            },
            Operation::Bvc => {
                let extra = self.bvc(operand);
                assert(*self == operation.after_cpu(*old(self), old(bus).mem(), operand)
                    && bus.mem() == operation.after_mem(*old(self), old(bus).mem(), operand)
                    && bus.accesses() == old(bus).accesses() + operation.accesses(
                    *old(self),
                    old(bus).mem(),
                    operand,
                )) by {
                    reveal(Operation::after_jump);
                    reveal(Operation::after_mem);
        reveal(Operation::accesses);
                }
                extra
            },
            Operation::Bvs => {
                let extra = self.bvs(operand);
                assert(*self == operation.after_cpu(*old(self), old(bus).mem(), operand)
                    && bus.mem() == operation.after_mem(*old(self), old(bus).mem(), operand)
                    && bus.accesses() == old(bus).accesses() + operation.accesses(
                    *old(self),
                    old(bus).mem(),
                    operand,
                )) by {
                    reveal(Operation::after_jump);
                    reveal(Operation::after_mem);
        reveal(Operation::accesses);
                }
                extra
            },
            Operation::Clc => {
                self.clc();
                assert(*self == operation.after_cpu(*old(self), old(bus).mem(), operand)
                    && bus.mem() == operation.after_mem(*old(self), old(bus).mem(), operand)
                    && bus.accesses() == old(bus).accesses() + operation.accesses(
                    *old(self),
                    old(bus).mem(),
                    operand,
                )) by {
                    reveal(Operation::after_flag);
                    reveal(Operation::after_mem);
        reveal(Operation::accesses);
                }
                0
            },
            Operation::Cld => {
                self.cld();
                assert(*self == operation.after_cpu(*old(self), old(bus).mem(), operand)
                    && bus.mem() == operation.after_mem(*old(self), old(bus).mem(), operand)
                    && bus.accesses() == old(bus).accesses() + operation.accesses(
                    *old(self),
                    old(bus).mem(),
                    operand,
                )) by {
                    reveal(Operation::after_flag);
                    reveal(Operation::after_mem);
        reveal(Operation::accesses);
                }
                0
            },
            Operation::Cli => {
                self.cli();
                assert(*self == operation.after_cpu(*old(self), old(bus).mem(), operand)
                    && bus.mem() == operation.after_mem(*old(self), old(bus).mem(), operand)
                    && bus.accesses() == old(bus).accesses() + operation.accesses(
                    *old(self),
                    old(bus).mem(),
                    operand,
                )) by {
                    reveal(Operation::after_flag);
                    reveal(Operation::after_mem);
        reveal(Operation::accesses);
                }
                0
            },
            Operation::Clv => {
                self.clv();
                assert(*self == operation.after_cpu(*old(self), old(bus).mem(), operand)
                    && bus.mem() == operation.after_mem(*old(self), old(bus).mem(), operand)
                    && bus.accesses() == old(bus).accesses() + operation.accesses(
                    *old(self),
                    old(bus).mem(),
                    operand,
                )) by {
                    reveal(Operation::after_flag);
                    reveal(Operation::after_mem);
        reveal(Operation::accesses);
                }
                0
            },
            Operation::Sec => {
                self.sec();
                assert(*self == operation.after_cpu(*old(self), old(bus).mem(), operand)
                    && bus.mem() == operation.after_mem(*old(self), old(bus).mem(), operand)
                    && bus.accesses() == old(bus).accesses() + operation.accesses(
                    *old(self),
                    old(bus).mem(),
                    operand,
                )) by {
                    reveal(Operation::after_flag);
                    reveal(Operation::after_mem);
        reveal(Operation::accesses);
                }
                0
            },
            Operation::Sed => {
                self.sed();
                assert(*self == operation.after_cpu(*old(self), old(bus).mem(), operand)
                    && bus.mem() == operation.after_mem(*old(self), old(bus).mem(), operand)
                    && bus.accesses() == old(bus).accesses() + operation.accesses(
                    *old(self),
                    old(bus).mem(),
                    operand,
                )) by {
                    reveal(Operation::after_flag);
                    reveal(Operation::after_mem);
        reveal(Operation::accesses);
                }
                0
            },
            Operation::Sei => {
                self.sei();
                assert(*self == operation.after_cpu(*old(self), old(bus).mem(), operand)
                    && bus.mem() == operation.after_mem(*old(self), old(bus).mem(), operand)
                    && bus.accesses() == old(bus).accesses() + operation.accesses(
                    *old(self),
                    old(bus).mem(),
                    operand,
                )) by {
                    reveal(Operation::after_flag);
                    reveal(Operation::after_mem);
        reveal(Operation::accesses);
                }
                0
            },
            Operation::Brk => {
                self.brk(bus);
                assert(*self == operation.after_cpu(*old(self), old(bus).mem(), operand)
                    && bus.mem() == operation.after_mem(*old(self), old(bus).mem(), operand)
                    && bus.accesses() == old(bus).accesses() + operation.accesses(
                    *old(self),
                    old(bus).mem(),
                    operand,
                )) by {
                    reveal(Operation::after_interrupt);
                    reveal(Operation::after_mem);
        reveal(Operation::accesses);
                }
                0
            },
            Operation::Rti => {
                self.rti(bus);
                assert(*self == operation.after_cpu(*old(self), old(bus).mem(), operand)
                    && bus.mem() == operation.after_mem(*old(self), old(bus).mem(), operand)
                    && bus.accesses() == old(bus).accesses() + operation.accesses(
                    *old(self),
                    old(bus).mem(),
                    operand,
                )) by {
                    reveal(Operation::after_interrupt);
                    reveal(Operation::after_mem);
        reveal(Operation::accesses);
                }
                0
            },
            Operation::Nop => {
                self.nop();
                assert(*self == operation.after_cpu(*old(self), old(bus).mem(), operand)
                    && bus.mem() == operation.after_mem(*old(self), old(bus).mem(), operand)
                    && bus.accesses() == old(bus).accesses() + operation.accesses(
                    *old(self),
                    old(bus).mem(),
                    operand,
                )) by {
                    reveal(Operation::after_mem);
        reveal(Operation::accesses);
                }
                0
            },
            Operation::Illegal => {
                assert(*self == operation.after_cpu(*old(self), old(bus).mem(), operand)
                    && bus.mem() == operation.after_mem(*old(self), old(bus).mem(), operand)
                    && bus.accesses() == old(bus).accesses() + operation.accesses(
                    *old(self),
                    old(bus).mem(),
                    operand,
                )) by {
                    reveal(Operation::after_mem);
        reveal(Operation::accesses);
                }
                0
            },
        }
    }
}

/// No operation touches the count of cycles that the clock keeps.
pub proof fn lemma_operation_keeps_count(
    operation: Operation,
    cpu: CPU,
    mem: Seq<u8>,
    operand: Operand,
)
    ensures
        operation.after_cpu(cpu, mem, operand).cycles == cpu.cycles,
{
    reveal(Operation::after_move);
    reveal(Operation::after_stack);
    reveal(Operation::after_logic);
    reveal(Operation::after_arithmetic);
    reveal(Operation::after_count);
    reveal(Operation::after_shift);
    reveal(Operation::after_jump);
    reveal(Operation::after_flag);
    reveal(Operation::after_interrupt);
}

impl Operation {
    /// [`Operation::reads_memory`], computed.
    pub fn honours_page_cross(self) -> (reads: bool)
        ensures
            reads == self.reads_memory(),
    {
        match self {
            Operation::Lda | Operation::Ldx | Operation::Ldy | Operation::And | Operation::Eor
            | Operation::Ora | Operation::Bit | Operation::Adc | Operation::Sbc | Operation::Cmp
            | Operation::Cpx | Operation::Cpy => true,
            _ => false,
        }
    }
}

} // verus!
