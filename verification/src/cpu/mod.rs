//! The processor: registers, status flags and the instruction interpreter.

use vstd::prelude::*;
use crate::bus::{write_of, Bus, Byte, Transfer, Word};
use crate::cpu::addressing::Resolved;
use crate::cpu::instructions::table::lemma_table_entries;
use crate::cpu::instructions::Instruction;
use crate::cpu::memory::{
    hi_byte, lemma_offset_zp_sum, lo_byte, make_word, mem16, mem8, offset, offset_zp, reads16,
    reads8,
};
use crate::cpu::stack::{
    lemma_push_stays_in_page_one, push_access, push_word_accesses, pushed, pushed_word,
};

pub mod addressing;
pub mod disassembler;
pub mod flag;
pub mod instructions;
pub mod laws;
pub mod memory;
pub mod stack;

pub use flag::Flag;

verus! {

/// Where the processor finds its start address.
pub const RESET_VECTOR: Word = 0xFFFC;

/// Where it finds the handler of `BRK` and of a maskable interrupt.
pub const IRQ_VECTOR: Word = 0xFFFE;

/// Where it finds the handler of a non-maskable interrupt.
pub const NMI_VECTOR: Word = 0xFFFA;

/// The stack pointer after a reset.
pub const STACK_RESET: Byte = 0xFD;

/// The cycles an interrupt takes to enter its handler.
pub const INTERRUPT_CYCLES: Byte = 7;

/// Why the processor stopped.
#[derive(Clone, Copy, Debug, PartialEq, Eq, Structural)]
pub enum CpuError {
    /// The byte `opcode`, fetched at `addr`, is no opcode.
    IllegalOpcode { opcode: Byte, addr: Word },
}

/// How a run on a budget of cycles ended.
pub struct Run {
    /// The registers at the end.
    pub cpu: CPU,
    /// Memory at the end.
    pub mem: Seq<u8>,
    /// The history of the bus at the end.
    pub accesses: Seq<Transfer>,
    /// The cycles of the instructions that were completed.
    pub cycles: int,
    /// The trap that ended the run, if one did.
    pub trap: Option<CpuError>,
}

/// The register file of a 6502.
///
/// A value of this type is its own model: contracts speak of the fields.
#[derive(Clone, Copy, Debug, PartialEq, Eq, Structural)]
pub struct CPU {
    /// Program counter: the address of the next byte of the instruction stream.
    pub pc: Word,
    /// Stack pointer: the low byte of the next free address in page one.
    pub sp: Byte,
    /// Accumulator.
    pub a: Byte,
    /// Index register X.
    pub x: Byte,
    /// Index register Y.
    pub y: Byte,
    /// Processor status.
    pub flag: Flag,
    /// Ticks of [`CPU::clock`] that the instruction in progress still takes.
    pub cycles: Byte,
}

impl CPU {
    /// The registers after a reset over memory `mem`: the program counter
    /// comes from the reset vector, the stack pointer is `STACK_RESET`, and
    /// everything else is zero.
    pub open spec fn after_reset(mem: Seq<u8>) -> CPU {
        CPU {
            pc: memory::mem16(mem, RESET_VECTOR),
            sp: STACK_RESET,
            a: 0,
            x: 0,
            y: 0,
            flag: Flag::empty(),
            cycles: 0,
        }
    }

    /// A processor with every register zero.
    pub fn new() -> (cpu: CPU)
        ensures
            cpu == (CPU { pc: 0, sp: 0, a: 0, x: 0, y: 0, flag: Flag::empty(), cycles: 0 }),
    {
        CPU { pc: 0, sp: 0, a: 0, x: 0, y: 0, flag: Flag::empty(), cycles: 0 }
    }

    /// Puts the processor in its start state.
    pub fn reset<B: Bus>(&mut self, bus: &mut B)
        ensures
            *final(self) == CPU::after_reset(old(bus).mem()),
            final(bus).mem() == old(bus).mem(),
            final(bus).accesses() == old(bus).accesses() + reads16(old(bus).mem(), RESET_VECTOR),
    {
        self.pc = self.read_word(RESET_VECTOR, bus);
        self.sp = STACK_RESET;
        self.flag.clear();
        self.a = 0;
        self.x = 0;
        self.y = 0;
        self.cycles = 0;
    }

    /// Sets index register X.
    pub fn set_x(&mut self, x: Byte)
        ensures
            *final(self) == (CPU { x, ..*old(self) }),
    {
        self.x = x;
    }
}

impl Default for CPU {
    fn default() -> (cpu: CPU)
        ensures
            cpu == (CPU { pc: 0, sp: 0, a: 0, x: 0, y: 0, flag: Flag::empty(), cycles: 0 }),
    {
        CPU::new()
    }
}

impl CPU {
    /// The entry of the decode table for the byte at the program counter.
    pub open spec fn instruction(self, mem: Seq<u8>) -> Instruction {
        Instruction::table(mem8(mem, self.pc))
    }

    /// The trap that a byte at the program counter that is no opcode raises.
    pub open spec fn trap(self, mem: Seq<u8>) -> CpuError {
        CpuError::IllegalOpcode { opcode: mem8(mem, self.pc), addr: self.pc }
    }

    /// The registers once the opcode at the program counter has been read.
    pub open spec fn fetched(self) -> CPU {
        CPU { pc: offset(self.pc, 1), ..self }
    }

    /// The operand of the instruction at the program counter.
    pub open spec fn operand(self, mem: Seq<u8>) -> Resolved {
        self.instruction(mem).addr_mode.resolved(self.fetched(), mem)
    }

    /// The registers once the instruction at the program counter has been
    /// read whole: the program counter is at the next instruction.
    pub open spec fn decoded(self, mem: Seq<u8>) -> CPU {
        self.instruction(mem).addr_mode.after(self.fetched())
    }

    /// The registers after the instruction at the program counter.
    pub open spec fn after_step(self, mem: Seq<u8>) -> CPU {
        self.instruction(mem).operate.after_cpu(self.decoded(mem), mem, self.operand(mem).operand)
    }

    /// Memory after the instruction at the program counter.
    pub open spec fn after_step_mem(self, mem: Seq<u8>) -> Seq<u8> {
        self.instruction(mem).operate.after_mem(self.decoded(mem), mem, self.operand(mem).operand)
    }

    /// The accesses that the instruction at the program counter makes to the
    /// bus, in their order: the read of the opcode, the reads of the
    /// addressing mode, then what the operation reads and writes.  A byte
    /// that is no opcode is read and nothing else.
    pub open spec fn step_accesses(self, mem: Seq<u8>) -> Seq<Transfer> {
        if self.instruction(mem).is_legal() {
            reads8(mem, self.pc) + self.instruction(mem).addr_mode.accesses(self.fetched(), mem)
                + self.instruction(mem).operate.accesses(
                self.decoded(mem),
                mem,
                self.operand(mem).operand,
            )
        } else {
            reads8(mem, self.pc)
        }
    }

    /// The cycle an indexed read pays for crossing a page: one when the
    /// addressing mode crossed and the operation is a read, none otherwise.
    pub open spec fn page_penalty(self, mem: Seq<u8>) -> int {
        if self.operand(mem).page_crossed && self.instruction(mem).operate.reads_memory() {
            1
        } else {
            0
        }
    }

    /// The cycles a branch pays for being taken.
    pub open spec fn branch_penalty(self, mem: Seq<u8>) -> int {
        self.instruction(mem).operate.branch_cycles(self.decoded(mem), self.operand(mem).operand)
    }

    /// The cycles the instruction at the program counter takes.
    pub open spec fn step_cycles(self, mem: Seq<u8>) -> int {
        self.instruction(mem).cycles + self.page_penalty(mem) + self.branch_penalty(mem)
    }

    /// Executes the instruction at the program counter and returns the cycles
    /// it took.
    ///
    /// A byte that is no opcode stops the processor: the error names the byte
    /// and where it was fetched, the program counter stays behind the byte,
    /// and nothing else has changed.
    pub fn step<B: Bus>(&mut self, bus: &mut B) -> (r: Result<Byte, CpuError>)
        ensures
            r is Ok <==> old(self).instruction(old(bus).mem()).is_legal(),
            final(bus).accesses() == old(bus).accesses() + old(self).step_accesses(old(bus).mem()),
            match r {
                Ok(cycles) => {
                    &&& *final(self) == old(self).after_step(old(bus).mem())
                    &&& final(bus).mem() == old(self).after_step_mem(old(bus).mem())
                    &&& cycles == old(self).step_cycles(old(bus).mem())
                },
                Err(e) => {
                    &&& e == old(self).trap(old(bus).mem())
                    &&& *final(self) == old(self).fetched()
                    &&& final(bus).mem() == old(bus).mem()
                },
            },
    {
        let addr = self.pc;
        let opcode = self.fetch_byte(bus);
        let entry = Instruction::decode(opcode);
        proof {
            lemma_table_entries(opcode);
        }
        match self.resolve_addr(entry.addr_mode, bus) {
            None => Err(CpuError::IllegalOpcode { opcode, addr }),
            Some(resolved) => {
                let extra = self.operate(entry.operate, resolved.operand, bus);
                let penalty: Byte = if resolved.page_crossed && entry.operate.honours_page_cross() {
                    1
                } else {
                    0
                };
                Ok(entry.cycles + penalty + extra)
            },
        }
    }

    /// The run that spends a budget of `budget` cycles, of which `used` are
    /// spent already, on a bus with history `log`: instructions are executed
    /// until the cycles they took reach the budget, or until a byte that is
    /// no opcode traps.  The last instruction is always completed, so a run
    /// may end over its budget.
    pub open spec fn run(self, mem: Seq<u8>, log: Seq<Transfer>, budget: int, used: int) -> Run
        decreases
            (if used < budget {
                budget - used
            } else {
                0
            }),
    {
        if used >= budget {
            Run { cpu: self, mem, accesses: log, cycles: used, trap: None }
        } else if !self.instruction(mem).is_legal() {
            Run {
                cpu: self.fetched(),
                mem,
                accesses: log + self.step_accesses(mem),
                cycles: used,
                trap: Some(self.trap(mem)),
            }
        } else {
            proof {
                self.lemma_step_cycles(mem);
            }
            self.after_step(mem).run(
                self.after_step_mem(mem),
                log + self.step_accesses(mem),
                budget,
                used + self.step_cycles(mem),
            )
        }
    }

    /// Executes instructions until they have taken `cycles` cycles or more,
    /// and returns the cycles they took.  A byte that is no opcode ends the
    /// run with the error of [`CPU::step`].
    pub fn execute<B: Bus>(&mut self, cycles: u32, bus: &mut B) -> (r: Result<u64, CpuError>)
        ensures
            ({
                let run = old(self).run(old(bus).mem(), old(bus).accesses(), cycles as int, 0);
                &&& *final(self) == run.cpu
                &&& final(bus).mem() == run.mem
                &&& final(bus).accesses() == run.accesses
                &&& r == (match run.trap {
                    Some(e) => Err(e),
                    None => Ok(run.cycles as u64),
                })
            }),
    {
        let requested_cycles = cycles as u64;
        let mut used: u64 = 0;
        while used < requested_cycles
            invariant
                used <= requested_cycles + 7,
                requested_cycles == cycles,
                self.run(bus.mem(), bus.accesses(), cycles as int, used as int) == old(self).run(
                    old(bus).mem(),
                    old(bus).accesses(),
                    cycles as int,
                    0,
                ),
            decreases requested_cycles + 7 - used,
        {
            proof {
                lemma_table_entries(mem8(bus.mem(), self.pc));
                self.lemma_step_cycles(bus.mem());
            }
            match self.step(bus) {
                Ok(cycles_used) => {
                    used = used + cycles_used as u64;
                },
                Err(e) => {
                    return Err(e);
                },
            }
        }
        Ok(used)
    }

    /// A legal instruction takes between two and seven cycles.
    pub proof fn lemma_step_cycles(self, mem: Seq<u8>)
        ensures
            self.instruction(mem).is_legal() ==> 2 <= self.step_cycles(mem) <= 7,
            0 <= self.page_penalty(mem) <= 1,
            0 <= self.branch_penalty(mem) <= 2,
    {
        lemma_table_entries(mem8(mem, self.pc));
    }

    /// The registers after one tick of the clock: a tick that finds no
    /// instruction in progress executes the next one whole and keeps its
    /// remaining cycles to count down; any other tick only counts.
    pub open spec fn after_tick(self, mem: Seq<u8>) -> CPU {
        if self.cycles > 0 {
            CPU { cycles: (self.cycles - 1) as u8, ..self }
        } else if self.instruction(mem).is_legal() {
            CPU { cycles: (self.step_cycles(mem) - 1) as u8, ..self.after_step(mem) }
        } else {
            self.fetched()
        }
    }

    /// Memory after one tick of the clock.
    pub open spec fn after_tick_mem(self, mem: Seq<u8>) -> Seq<u8> {
        if self.cycles == 0 && self.instruction(mem).is_legal() {
            self.after_step_mem(mem)
        } else {
            mem
        }
    }

    /// The accesses that one tick of the clock makes to the bus.
    pub open spec fn tick_accesses(self, mem: Seq<u8>) -> Seq<Transfer> {
        if self.cycles == 0 {
            self.step_accesses(mem)
        } else {
            Seq::empty()
        }
    }

    /// Advances the processor by one cycle.  An instruction is executed at
    /// its first cycle; the error of [`CPU::step`] comes at the tick that
    /// would have started an instruction at a byte that is no opcode.
    pub fn clock<B: Bus>(&mut self, bus: &mut B) -> (r: Result<(), CpuError>)
        ensures
            *final(self) == old(self).after_tick(old(bus).mem()),
            final(bus).mem() == old(self).after_tick_mem(old(bus).mem()),
            final(bus).accesses() == old(bus).accesses() + old(self).tick_accesses(old(bus).mem()),
            r == (if old(self).cycles == 0 && !old(self).instruction(old(bus).mem()).is_legal() {
                Err(old(self).trap(old(bus).mem()))
            } else {
                Ok(())
            }),
    {
        if self.cycles == 0 {
            proof {
                lemma_table_entries(mem8(bus.mem(), self.pc));
                self.lemma_step_cycles(bus.mem());
            }
            match self.step(bus) {
                Ok(cycles) => {
                    self.cycles = cycles;
                },
                Err(e) => {
                    return Err(e);
                },
            }
        }
        self.cycles = self.cycles - 1;
        Ok(())
    }

    /// The status register as an interrupt pushes it: Break clear, Unused set.
    pub open spec fn interrupt_status(self) -> u8 {
        self.flag.difference(Flag::break_command()).union(Flag::unused()).bits
    }

    /// The registers once an interrupt has entered the handler that `vector`
    /// points to.
    pub open spec fn interrupted(self, mem: Seq<u8>, vector: u16) -> CPU {
        CPU {
            pc: mem16(mem, vector),
            sp: offset_zp(self.sp, -3),
            flag: self.flag.with(Flag::interrupt_disable(), true),
            ..self
        }
    }

    /// Memory once an interrupt has pushed the program counter and the status.
    pub open spec fn interrupted_mem(self, mem: Seq<u8>) -> Seq<u8> {
        pushed(pushed_word(mem, self.sp, self.pc), offset_zp(self.sp, -2), self.interrupt_status())
    }

    /// The accesses an interrupt makes to the bus: it pushes the program
    /// counter, then the status, and reads the vector last.
    pub open spec fn interrupt_accesses(self, mem: Seq<u8>, vector: u16) -> Seq<Transfer> {
        push_word_accesses(self.sp, self.pc) + push_access(
            offset_zp(self.sp, -2),
            self.interrupt_status(),
        ) + reads16(mem, vector)
    }

    /// Enters the handler that `vector` points to.
    fn interrupt<B: Bus>(&mut self, vector: Word, bus: &mut B)
        requires
            vector == IRQ_VECTOR || vector == NMI_VECTOR,
        ensures
            *final(self) == old(self).interrupted(old(bus).mem(), vector),
            final(bus).mem() == old(self).interrupted_mem(old(bus).mem()),
            final(bus).accesses() == old(bus).accesses() + old(self).interrupt_accesses(
                old(bus).mem(),
                vector,
            ),
    {
        let ghost mem = bus.mem();
        let ghost sp = self.sp;
        proof {
            bus.spans_address_space();
        }
        let return_addr = self.pc;
        self.push_word(return_addr, bus);
        let status = self.flag.difference(Flag::break_command()).union(Flag::unused());
        self.push_byte(status.bits(), bus);
        self.flag.set(Flag::interrupt_disable(), true);
        proof {
            lemma_offset_zp_sum(sp, -2, -1);
            let hi = pushed(mem, sp, hi_byte(return_addr));
            let lo = pushed(hi, offset_zp(sp, -1), lo_byte(return_addr));
            let vector_hi = offset(vector, 1);
            lemma_push_stays_in_page_one(mem, sp, hi_byte(return_addr), vector);
            lemma_push_stays_in_page_one(mem, sp, hi_byte(return_addr), vector_hi);
            lemma_push_stays_in_page_one(hi, offset_zp(sp, -1), lo_byte(return_addr), vector);
            lemma_push_stays_in_page_one(hi, offset_zp(sp, -1), lo_byte(return_addr), vector_hi);
            lemma_push_stays_in_page_one(lo, offset_zp(sp, -2), status.bits, vector);
            lemma_push_stays_in_page_one(lo, offset_zp(sp, -2), status.bits, vector_hi);
            assert(mem16(bus.mem(), vector) == mem16(mem, vector));
            assert(reads16(bus.mem(), vector) == reads16(mem, vector));
        }
        self.pc = self.read_word(vector, bus);
    }

    /// A maskable interrupt request.  While interrupts are disabled nothing
    /// happens and no cycle passes; otherwise the processor pushes the
    /// program counter and the status, disables interrupts and continues at
    /// the IRQ vector, which takes `INTERRUPT_CYCLES` cycles.
    pub fn irq<B: Bus>(&mut self, bus: &mut B) -> (cycles: Byte)
        ensures
            old(self).flag.contains(Flag::interrupt_disable()) ==> {
                &&& cycles == 0
                &&& *final(self) == *old(self)
                &&& final(bus).mem() == old(bus).mem()
                &&& final(bus).accesses() == old(bus).accesses()
            },
            !old(self).flag.contains(Flag::interrupt_disable()) ==> {
                &&& cycles == INTERRUPT_CYCLES
                &&& *final(self) == old(self).interrupted(old(bus).mem(), IRQ_VECTOR)
                &&& final(bus).mem() == old(self).interrupted_mem(old(bus).mem())
                &&& final(bus).accesses() == old(bus).accesses() + old(self).interrupt_accesses(
                    old(bus).mem(),
                    IRQ_VECTOR,
                )
            },
    {
        if self.flag.contains(Flag::interrupt_disable()) {
            0
        } else {
            self.interrupt(IRQ_VECTOR, bus);
            INTERRUPT_CYCLES
        }
    }

    /// A non-maskable interrupt: as [`CPU::irq`] with interrupts enabled, but
    /// through the NMI vector and whatever the status says.
    pub fn nmi<B: Bus>(&mut self, bus: &mut B) -> (cycles: Byte)
        ensures
            cycles == INTERRUPT_CYCLES,
            *final(self) == old(self).interrupted(old(bus).mem(), NMI_VECTOR),
            final(bus).mem() == old(self).interrupted_mem(old(bus).mem()),
            final(bus).accesses() == old(bus).accesses() + old(self).interrupt_accesses(
                old(bus).mem(),
                NMI_VECTOR,
            ),
    {
        self.interrupt(NMI_VECTOR, bus);
        INTERRUPT_CYCLES
    }

    /// Copies a program into memory.  The first two bytes of `program` are
    /// the address, low byte first, at which the rest is stored byte after
    /// byte.  A program of fewer than two bytes names no address and is
    /// ignored.
    pub fn load_program<B: Bus>(&self, program: &[Byte], bus: &mut B)
        ensures
            final(bus).mem() == loaded(old(bus).mem(), program@),
            final(bus).accesses() == old(bus).accesses() + loaded_accesses(program@),
    {
        if program.len() < 2 {
            return ;
        }
        let mut addr = make_word(program[0], program[1]);
        let mut i: usize = 2;
        while i < program.len()
            invariant
                2 <= i <= program.len(),
                written(bus.mem(), addr, program@.skip(i as int)) == loaded(
                    old(bus).mem(),
                    program@,
                ),
                addr == offset(memory::word(program[0], program[1]), i - 2),
                bus.accesses() == old(bus).accesses() + loading_accesses(
                    program@,
                    (i - 2) as nat,
                ),
            decreases program.len() - i,
        {
            assert(program@.skip(i as int).drop_first() == program@.skip(i + 1));
            bus.write(addr, program[i]);
            addr = addr.wrapping_add(1);
            i = i + 1;
        }
    }
}

/// Memory after `bytes` have been stored one after the other from `addr` on.
pub open spec fn written(mem: Seq<u8>, addr: u16, bytes: Seq<u8>) -> Seq<u8>
    decreases bytes.len(),
{
    if bytes.len() == 0 {
        mem
    } else {
        written(mem.update(addr as int, bytes[0]), offset(addr, 1), bytes.drop_first())
    }
}

/// The first `n` of the writes that load `program`: byte `i` after the two
/// address bytes goes to the address `i` past the load address.
pub open spec fn loading_accesses(program: Seq<u8>, n: nat) -> Seq<Transfer> {
    Seq::new(
        n,
        |i: int| write_of(offset(memory::word(program[0], program[1]), i), program[i + 2]),
    )
}

/// The writes that load `program`: see [`CPU::load_program`].
pub open spec fn loaded_accesses(program: Seq<u8>) -> Seq<Transfer> {
    if program.len() < 2 {
        Seq::empty()
    } else {
        loading_accesses(program, (program.len() - 2) as nat)
    }
}

/// Memory after `program` has been loaded: see [`CPU::load_program`].
pub open spec fn loaded(mem: Seq<u8>, program: Seq<u8>) -> Seq<u8> {
    if program.len() < 2 {
        mem
    } else {
        written(mem, memory::word(program[0], program[1]), program.skip(2))
    }
}

} // verus!
