//! The instruction set: opcodes, the decode table and what each operation does.

use vstd::prelude::*;

pub mod alu;
pub mod opcode;
pub mod operations;
pub mod table;

pub use opcode::Opcode;
pub use table::Instruction;

verus! {

/// The 56 operations of the 6502, and the trap that stands for the rest.
#[derive(Debug, Clone, Copy, PartialEq, Eq, Structural)]
pub enum Operation {
    /// `LDA`: load accumulator.
    Lda,
    /// `LDX`: load X.
    Ldx,
    /// `LDY`: load Y.
    Ldy,
    /// `STA`: store accumulator.
    Sta,
    /// `STX`: store X.
    Stx,
    /// `STY`: store Y.
    Sty,
    /// `TAX`: transfer accumulator to X.
    Tax,
    /// `TAY`: transfer accumulator to Y.
    Tay,
    /// `TXA`: transfer X to accumulator.
    Txa,
    /// `TYA`: transfer Y to accumulator.
    Tya,
    /// `TSX`: transfer stack pointer to X.
    Tsx,
    /// `TXS`: transfer X to stack pointer.
    Txs,
    /// `PHA`: push accumulator.
    Pha,
    /// `PHP`: push processor status.
    Php,
    /// `PLA`: pull accumulator.
    Pla,
    /// `PLP`: pull processor status.
    Plp,
    /// `AND`: logical and.
    And,
    /// `EOR`: exclusive or.
    Eor,
    /// `ORA`: logical inclusive or.
    Ora,
    /// `BIT`: bit test.
    Bit,
    /// `ADC`: add with carry.
    Adc,
    /// `SBC`: subtract with carry.
    Sbc,
    /// `CMP`: compare accumulator.
    Cmp,
    /// `CPX`: compare X.
    Cpx,
    /// `CPY`: compare Y.
    Cpy,
    /// `INC`: increment memory.
    Inc,
    /// `INX`: increment X.
    Inx,
    /// `INY`: increment Y.
    Iny,
    /// `DEC`: decrement memory.
    Dec,
    /// `DEX`: decrement X.
    Dex,
    /// `DEY`: decrement Y.
    Dey,
    /// `ASL`: arithmetic shift left.
    Asl,
    /// `LSR`: logical shift right.
    Lsr,
    /// `ROL`: rotate left.
    Rol,
    /// `ROR`: rotate right.
    Ror,
    /// `JMP`: jump.
    Jmp,
    /// `JSR`: jump to subroutine.
    Jsr,
    /// `RTS`: return from subroutine.
    Rts,
    /// `BCC`: branch if carry clear.
    Bcc,
    /// `BCS`: branch if carry set.
    Bcs,
    /// `BEQ`: branch if equal.
    Beq,
    /// `BMI`: branch if minus.
    Bmi,
    /// `BNE`: branch if not equal.
    Bne,
    /// `BPL`: branch if plus.
    Bpl,
    /// `BVC`: branch if overflow clear.
    Bvc,
    /// `BVS`: branch if overflow set.
    Bvs,
    /// `CLC`: clear carry.
    Clc,
    /// `CLD`: clear decimal mode.
    Cld,
    /// `CLI`: clear interrupt disable.
    Cli,
    /// `CLV`: clear overflow.
    Clv,
    /// `SEC`: set carry.
    Sec,
    /// `SED`: set decimal mode.
    Sed,
    /// `SEI`: set interrupt disable.
    Sei,
    /// `BRK`: force interrupt.
    Brk,
    /// `RTI`: return from interrupt.
    Rti,
    /// `NOP`: no operation.
    Nop,
    /// What a byte that is no opcode decodes to.
    Illegal,
}

} // verus!
