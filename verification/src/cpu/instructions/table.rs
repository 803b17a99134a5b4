//! The decode table: what each of the 256 opcode bytes stands for.

use vstd::prelude::*;
use crate::bus::Byte;
use crate::cpu::addressing::AddrMode;
use crate::cpu::instructions::Operation;

verus! {

/// An entry of the decode table.
#[derive(Debug, Clone, Copy)]
pub struct Instruction {
    /// The mnemonic, as a listing shows it.
    pub name: &'static str,
    /// What the instruction does to its operand.
    pub operate: Operation,
    /// How the bytes after the opcode name the operand.
    pub addr_mode: AddrMode,
    /// The cycles the instruction takes before any penalty.
    pub cycles: Byte,
}

impl Instruction {
    /// An entry made of its four parts.
    #[verifier::allow_in_spec]
    pub fn new(name: &'static str, operate: Operation, addr_mode: AddrMode, cycles: Byte) -> Instruction
        returns
            (Instruction { name, operate, addr_mode, cycles }),
    {
        Instruction { name, operate, addr_mode, cycles }
    }

    /// The entry of every byte that is no opcode.
    #[verifier::allow_in_spec]
    pub fn illegal() -> Instruction
        returns
            (Instruction { name: "???", operate: Operation::Illegal, addr_mode: AddrMode::XXX, cycles: 0 }),
    {
        Instruction { name: "???", operate: Operation::Illegal, addr_mode: AddrMode::XXX, cycles: 0 }
    }

    /// Whether this is the entry of an opcode.
    #[verifier::allow_in_spec]
    pub fn is_legal(&self) -> bool
        returns
            self.operate != Operation::Illegal,
    {
        self.operate != Operation::Illegal
    }

    /// The decode table.
    #[verifier::opaque]
    pub open spec fn table(opcode: u8) -> Instruction {
        match opcode {
            // * LDA
            0xA9 => Instruction { name: "LDA", operate: Operation::Lda, addr_mode: AddrMode::IMM, cycles: 2 },
            0xA5 => Instruction { name: "LDA", operate: Operation::Lda, addr_mode: AddrMode::ZPG, cycles: 3 },
            0xB5 => Instruction { name: "LDA", operate: Operation::Lda, addr_mode: AddrMode::ZPX, cycles: 4 },
            0xAD => Instruction { name: "LDA", operate: Operation::Lda, addr_mode: AddrMode::ABS, cycles: 4 },
            0xBD => Instruction { name: "LDA", operate: Operation::Lda, addr_mode: AddrMode::ABX, cycles: 4 },
            0xB9 => Instruction { name: "LDA", operate: Operation::Lda, addr_mode: AddrMode::ABY, cycles: 4 },
            0xA1 => Instruction { name: "LDA", operate: Operation::Lda, addr_mode: AddrMode::IDX, cycles: 6 },
            0xB1 => Instruction { name: "LDA", operate: Operation::Lda, addr_mode: AddrMode::IDY, cycles: 5 },
            // * LDX
            0xA2 => Instruction { name: "LDX", operate: Operation::Ldx, addr_mode: AddrMode::IMM, cycles: 2 },
            0xA6 => Instruction { name: "LDX", operate: Operation::Ldx, addr_mode: AddrMode::ZPG, cycles: 3 },
            0xB6 => Instruction { name: "LDX", operate: Operation::Ldx, addr_mode: AddrMode::ZPY, cycles: 4 },
            0xAE => Instruction { name: "LDX", operate: Operation::Ldx, addr_mode: AddrMode::ABS, cycles: 4 },
            0xBE => Instruction { name: "LDX", operate: Operation::Ldx, addr_mode: AddrMode::ABY, cycles: 4 },
            // * LDY
            0xA0 => Instruction { name: "LDY", operate: Operation::Ldy, addr_mode: AddrMode::IMM, cycles: 2 },
            0xA4 => Instruction { name: "LDY", operate: Operation::Ldy, addr_mode: AddrMode::ZPG, cycles: 3 },
            0xB4 => Instruction { name: "LDY", operate: Operation::Ldy, addr_mode: AddrMode::ZPX, cycles: 4 },
            0xAC => Instruction { name: "LDY", operate: Operation::Ldy, addr_mode: AddrMode::ABS, cycles: 4 },
            0xBC => Instruction { name: "LDY", operate: Operation::Ldy, addr_mode: AddrMode::ABX, cycles: 4 },
            // * STA
            0x85 => Instruction { name: "STA", operate: Operation::Sta, addr_mode: AddrMode::ZPG, cycles: 3 },
            0x95 => Instruction { name: "STA", operate: Operation::Sta, addr_mode: AddrMode::ZPX, cycles: 4 },
            0x8D => Instruction { name: "STA", operate: Operation::Sta, addr_mode: AddrMode::ABS, cycles: 4 },
            0x9D => Instruction { name: "STA", operate: Operation::Sta, addr_mode: AddrMode::ABX, cycles: 5 },
            0x99 => Instruction { name: "STA", operate: Operation::Sta, addr_mode: AddrMode::ABY, cycles: 5 },
            0x81 => Instruction { name: "STA", operate: Operation::Sta, addr_mode: AddrMode::IDX, cycles: 6 },
            0x91 => Instruction { name: "STA", operate: Operation::Sta, addr_mode: AddrMode::IDY, cycles: 6 },
            // * STX
            0x86 => Instruction { name: "STX", operate: Operation::Stx, addr_mode: AddrMode::ZPG, cycles: 3 },
            0x96 => Instruction { name: "STX", operate: Operation::Stx, addr_mode: AddrMode::ZPY, cycles: 4 },
            0x8E => Instruction { name: "STX", operate: Operation::Stx, addr_mode: AddrMode::ABS, cycles: 4 },
            // * STY
            0x84 => Instruction { name: "STY", operate: Operation::Sty, addr_mode: AddrMode::ZPG, cycles: 3 },
            0x94 => Instruction { name: "STY", operate: Operation::Sty, addr_mode: AddrMode::ZPX, cycles: 4 },
            0x8C => Instruction { name: "STY", operate: Operation::Sty, addr_mode: AddrMode::ABS, cycles: 4 },
            // * TAX
            0xAA => Instruction { name: "TAX", operate: Operation::Tax, addr_mode: AddrMode::IMP, cycles: 2 },
            // * TAY
            0xA8 => Instruction { name: "TAY", operate: Operation::Tay, addr_mode: AddrMode::IMP, cycles: 2 },
            // * TXA
            0x8A => Instruction { name: "TXA", operate: Operation::Txa, addr_mode: AddrMode::IMP, cycles: 2 },
            // * TYA
            0x98 => Instruction { name: "TYA", operate: Operation::Tya, addr_mode: AddrMode::IMP, cycles: 2 },
            // * TSX
            0xBA => Instruction { name: "TSX", operate: Operation::Tsx, addr_mode: AddrMode::IMP, cycles: 2 },
            // * TXS
            0x9A => Instruction { name: "TXS", operate: Operation::Txs, addr_mode: AddrMode::IMP, cycles: 2 },
            // * PHA
            0x48 => Instruction { name: "PHA", operate: Operation::Pha, addr_mode: AddrMode::IMP, cycles: 3 },
            // * PHP
            0x08 => Instruction { name: "PHP", operate: Operation::Php, addr_mode: AddrMode::IMP, cycles: 3 },
            // * PLA
            0x68 => Instruction { name: "PLA", operate: Operation::Pla, addr_mode: AddrMode::IMP, cycles: 4 },
            // * PLP
            0x28 => Instruction { name: "PLP", operate: Operation::Plp, addr_mode: AddrMode::IMP, cycles: 4 },
            // * AND
            0x29 => Instruction { name: "AND", operate: Operation::And, addr_mode: AddrMode::IMM, cycles: 2 },
            0x25 => Instruction { name: "AND", operate: Operation::And, addr_mode: AddrMode::ZPG, cycles: 3 },
            0x35 => Instruction { name: "AND", operate: Operation::And, addr_mode: AddrMode::ZPX, cycles: 4 },
            0x2D => Instruction { name: "AND", operate: Operation::And, addr_mode: AddrMode::ABS, cycles: 4 },
            0x3D => Instruction { name: "AND", operate: Operation::And, addr_mode: AddrMode::ABX, cycles: 4 },
            0x39 => Instruction { name: "AND", operate: Operation::And, addr_mode: AddrMode::ABY, cycles: 4 },
            0x21 => Instruction { name: "AND", operate: Operation::And, addr_mode: AddrMode::IDX, cycles: 6 },
            0x31 => Instruction { name: "AND", operate: Operation::And, addr_mode: AddrMode::IDY, cycles: 5 },
            // * EOR
            0x49 => Instruction { name: "EOR", operate: Operation::Eor, addr_mode: AddrMode::IMM, cycles: 2 },
            0x45 => Instruction { name: "EOR", operate: Operation::Eor, addr_mode: AddrMode::ZPG, cycles: 3 },
            0x55 => Instruction { name: "EOR", operate: Operation::Eor, addr_mode: AddrMode::ZPX, cycles: 4 },
            0x4D => Instruction { name: "EOR", operate: Operation::Eor, addr_mode: AddrMode::ABS, cycles: 4 },
            0x5D => Instruction { name: "EOR", operate: Operation::Eor, addr_mode: AddrMode::ABX, cycles: 4 },
            0x59 => Instruction { name: "EOR", operate: Operation::Eor, addr_mode: AddrMode::ABY, cycles: 4 },
            0x41 => Instruction { name: "EOR", operate: Operation::Eor, addr_mode: AddrMode::IDX, cycles: 6 },
            0x51 => Instruction { name: "EOR", operate: Operation::Eor, addr_mode: AddrMode::IDY, cycles: 5 },
            // * ORA
            0x09 => Instruction { name: "ORA", operate: Operation::Ora, addr_mode: AddrMode::IMM, cycles: 2 },
            0x05 => Instruction { name: "ORA", operate: Operation::Ora, addr_mode: AddrMode::ZPG, cycles: 3 },
            0x15 => Instruction { name: "ORA", operate: Operation::Ora, addr_mode: AddrMode::ZPX, cycles: 4 },
            0x0D => Instruction { name: "ORA", operate: Operation::Ora, addr_mode: AddrMode::ABS, cycles: 4 },
            0x1D => Instruction { name: "ORA", operate: Operation::Ora, addr_mode: AddrMode::ABX, cycles: 4 },
            0x19 => Instruction { name: "ORA", operate: Operation::Ora, addr_mode: AddrMode::ABY, cycles: 4 },
            0x01 => Instruction { name: "ORA", operate: Operation::Ora, addr_mode: AddrMode::IDX, cycles: 6 },
            0x11 => Instruction { name: "ORA", operate: Operation::Ora, addr_mode: AddrMode::IDY, cycles: 5 },
            // * BIT
            0x24 => Instruction { name: "BIT", operate: Operation::Bit, addr_mode: AddrMode::ZPG, cycles: 3 },
            0x2C => Instruction { name: "BIT", operate: Operation::Bit, addr_mode: AddrMode::ABS, cycles: 4 },
            // * ADC
            0x69 => Instruction { name: "ADC", operate: Operation::Adc, addr_mode: AddrMode::IMM, cycles: 2 },
            0x65 => Instruction { name: "ADC", operate: Operation::Adc, addr_mode: AddrMode::ZPG, cycles: 3 },
            0x75 => Instruction { name: "ADC", operate: Operation::Adc, addr_mode: AddrMode::ZPX, cycles: 4 },
            0x6D => Instruction { name: "ADC", operate: Operation::Adc, addr_mode: AddrMode::ABS, cycles: 4 },
            0x7D => Instruction { name: "ADC", operate: Operation::Adc, addr_mode: AddrMode::ABX, cycles: 4 },
            0x79 => Instruction { name: "ADC", operate: Operation::Adc, addr_mode: AddrMode::ABY, cycles: 4 },
            0x61 => Instruction { name: "ADC", operate: Operation::Adc, addr_mode: AddrMode::IDX, cycles: 6 },
            0x71 => Instruction { name: "ADC", operate: Operation::Adc, addr_mode: AddrMode::IDY, cycles: 5 },
            // * SBC
            0xE9 => Instruction { name: "SBC", operate: Operation::Sbc, addr_mode: AddrMode::IMM, cycles: 2 },
            0xE5 => Instruction { name: "SBC", operate: Operation::Sbc, addr_mode: AddrMode::ZPG, cycles: 3 },
            0xF5 => Instruction { name: "SBC", operate: Operation::Sbc, addr_mode: AddrMode::ZPX, cycles: 4 },
            0xED => Instruction { name: "SBC", operate: Operation::Sbc, addr_mode: AddrMode::ABS, cycles: 4 },
            0xFD => Instruction { name: "SBC", operate: Operation::Sbc, addr_mode: AddrMode::ABX, cycles: 4 },
            0xF9 => Instruction { name: "SBC", operate: Operation::Sbc, addr_mode: AddrMode::ABY, cycles: 4 },
            0xE1 => Instruction { name: "SBC", operate: Operation::Sbc, addr_mode: AddrMode::IDX, cycles: 6 },
            0xF1 => Instruction { name: "SBC", operate: Operation::Sbc, addr_mode: AddrMode::IDY, cycles: 5 },
            // * CMP
            0xC9 => Instruction { name: "CMP", operate: Operation::Cmp, addr_mode: AddrMode::IMM, cycles: 2 },
            0xC5 => Instruction { name: "CMP", operate: Operation::Cmp, addr_mode: AddrMode::ZPG, cycles: 3 },
            0xD5 => Instruction { name: "CMP", operate: Operation::Cmp, addr_mode: AddrMode::ZPX, cycles: 4 },
            0xCD => Instruction { name: "CMP", operate: Operation::Cmp, addr_mode: AddrMode::ABS, cycles: 4 },
            0xDD => Instruction { name: "CMP", operate: Operation::Cmp, addr_mode: AddrMode::ABX, cycles: 4 },
            0xD9 => Instruction { name: "CMP", operate: Operation::Cmp, addr_mode: AddrMode::ABY, cycles: 4 },
            0xC1 => Instruction { name: "CMP", operate: Operation::Cmp, addr_mode: AddrMode::IDX, cycles: 6 },
            0xD1 => Instruction { name: "CMP", operate: Operation::Cmp, addr_mode: AddrMode::IDY, cycles: 5 },
            // * CPX
            0xE0 => Instruction { name: "CPX", operate: Operation::Cpx, addr_mode: AddrMode::IMM, cycles: 2 },
            0xE4 => Instruction { name: "CPX", operate: Operation::Cpx, addr_mode: AddrMode::ZPG, cycles: 3 },
            0xEC => Instruction { name: "CPX", operate: Operation::Cpx, addr_mode: AddrMode::ABS, cycles: 4 },
            // * CPY
            0xC0 => Instruction { name: "CPY", operate: Operation::Cpy, addr_mode: AddrMode::IMM, cycles: 2 },
            0xC4 => Instruction { name: "CPY", operate: Operation::Cpy, addr_mode: AddrMode::ZPG, cycles: 3 },
            0xCC => Instruction { name: "CPY", operate: Operation::Cpy, addr_mode: AddrMode::ABS, cycles: 4 },
            // * INC
            0xE6 => Instruction { name: "INC", operate: Operation::Inc, addr_mode: AddrMode::ZPG, cycles: 5 },
            0xF6 => Instruction { name: "INC", operate: Operation::Inc, addr_mode: AddrMode::ZPX, cycles: 6 },
            0xEE => Instruction { name: "INC", operate: Operation::Inc, addr_mode: AddrMode::ABS, cycles: 6 },
            0xFE => Instruction { name: "INC", operate: Operation::Inc, addr_mode: AddrMode::ABX, cycles: 7 },
            // * INX
            0xE8 => Instruction { name: "INX", operate: Operation::Inx, addr_mode: AddrMode::IMP, cycles: 2 },
            // * INY
            0xC8 => Instruction { name: "INY", operate: Operation::Iny, addr_mode: AddrMode::IMP, cycles: 2 },
            // * DEC
            0xC6 => Instruction { name: "DEC", operate: Operation::Dec, addr_mode: AddrMode::ZPG, cycles: 5 },
            0xD6 => Instruction { name: "DEC", operate: Operation::Dec, addr_mode: AddrMode::ZPX, cycles: 6 },
            0xCE => Instruction { name: "DEC", operate: Operation::Dec, addr_mode: AddrMode::ABS, cycles: 6 },
            0xDE => Instruction { name: "DEC", operate: Operation::Dec, addr_mode: AddrMode::ABX, cycles: 7 },
            // * DEX
            0xCA => Instruction { name: "DEX", operate: Operation::Dex, addr_mode: AddrMode::IMP, cycles: 2 },
            // * DEY
            0x88 => Instruction { name: "DEY", operate: Operation::Dey, addr_mode: AddrMode::IMP, cycles: 2 },
            // * ASL
            0x0A => Instruction { name: "ASL", operate: Operation::Asl, addr_mode: AddrMode::IMP, cycles: 2 },
            0x06 => Instruction { name: "ASL", operate: Operation::Asl, addr_mode: AddrMode::ZPG, cycles: 5 },
            0x16 => Instruction { name: "ASL", operate: Operation::Asl, addr_mode: AddrMode::ZPX, cycles: 6 },
            0x0E => Instruction { name: "ASL", operate: Operation::Asl, addr_mode: AddrMode::ABS, cycles: 6 },
            0x1E => Instruction { name: "ASL", operate: Operation::Asl, addr_mode: AddrMode::ABX, cycles: 7 },
            // * LSR
            0x4A => Instruction { name: "LSR", operate: Operation::Lsr, addr_mode: AddrMode::IMP, cycles: 2 },
            0x46 => Instruction { name: "LSR", operate: Operation::Lsr, addr_mode: AddrMode::ZPG, cycles: 5 },
            0x56 => Instruction { name: "LSR", operate: Operation::Lsr, addr_mode: AddrMode::ZPX, cycles: 6 },
            0x4E => Instruction { name: "LSR", operate: Operation::Lsr, addr_mode: AddrMode::ABS, cycles: 6 },
            0x5E => Instruction { name: "LSR", operate: Operation::Lsr, addr_mode: AddrMode::ABX, cycles: 7 },
            // * ROL
            0x2A => Instruction { name: "ROL", operate: Operation::Rol, addr_mode: AddrMode::IMP, cycles: 2 },
            0x26 => Instruction { name: "ROL", operate: Operation::Rol, addr_mode: AddrMode::ZPG, cycles: 5 },
            0x36 => Instruction { name: "ROL", operate: Operation::Rol, addr_mode: AddrMode::ZPX, cycles: 6 },
            0x2E => Instruction { name: "ROL", operate: Operation::Rol, addr_mode: AddrMode::ABS, cycles: 6 },
            0x3E => Instruction { name: "ROL", operate: Operation::Rol, addr_mode: AddrMode::ABX, cycles: 7 },
            // * ROR
            0x6A => Instruction { name: "ROR", operate: Operation::Ror, addr_mode: AddrMode::IMP, cycles: 2 },
            0x66 => Instruction { name: "ROR", operate: Operation::Ror, addr_mode: AddrMode::ZPG, cycles: 5 },
            0x76 => Instruction { name: "ROR", operate: Operation::Ror, addr_mode: AddrMode::ZPX, cycles: 6 },
            0x6E => Instruction { name: "ROR", operate: Operation::Ror, addr_mode: AddrMode::ABS, cycles: 6 },
            0x7E => Instruction { name: "ROR", operate: Operation::Ror, addr_mode: AddrMode::ABX, cycles: 7 },
            // * JMP
            0x4C => Instruction { name: "JMP", operate: Operation::Jmp, addr_mode: AddrMode::ABS, cycles: 3 },
            0x6C => Instruction { name: "JMP", operate: Operation::Jmp, addr_mode: AddrMode::IND, cycles: 5 },
            // * JSR
            0x20 => Instruction { name: "JSR", operate: Operation::Jsr, addr_mode: AddrMode::ABS, cycles: 6 },
            // * RTS
            0x60 => Instruction { name: "RTS", operate: Operation::Rts, addr_mode: AddrMode::IMP, cycles: 6 },
            // * BCC
            0x90 => Instruction { name: "BCC", operate: Operation::Bcc, addr_mode: AddrMode::REL, cycles: 2 },
            // * BCS
            0xB0 => Instruction { name: "BCS", operate: Operation::Bcs, addr_mode: AddrMode::REL, cycles: 2 },
            // * BEQ
            0xF0 => Instruction { name: "BEQ", operate: Operation::Beq, addr_mode: AddrMode::REL, cycles: 2 },
            // * BMI
            0x30 => Instruction { name: "BMI", operate: Operation::Bmi, addr_mode: AddrMode::REL, cycles: 2 },
            // * BNE
            0xD0 => Instruction { name: "BNE", operate: Operation::Bne, addr_mode: AddrMode::REL, cycles: 2 },
            // * BPL
            0x10 => Instruction { name: "BPL", operate: Operation::Bpl, addr_mode: AddrMode::REL, cycles: 2 },
            // * BVC
            0x50 => Instruction { name: "BVC", operate: Operation::Bvc, addr_mode: AddrMode::REL, cycles: 2 },
            // * BVS
            0x70 => Instruction { name: "BVS", operate: Operation::Bvs, addr_mode: AddrMode::REL, cycles: 2 },
            // * CLC
            0x18 => Instruction { name: "CLC", operate: Operation::Clc, addr_mode: AddrMode::IMP, cycles: 2 },
            // * CLD
            0xD8 => Instruction { name: "CLD", operate: Operation::Cld, addr_mode: AddrMode::IMP, cycles: 2 },
            // * CLI
            0x58 => Instruction { name: "CLI", operate: Operation::Cli, addr_mode: AddrMode::IMP, cycles: 2 },
            // * CLV
            0xB8 => Instruction { name: "CLV", operate: Operation::Clv, addr_mode: AddrMode::IMP, cycles: 2 },
            // * SEC
            0x38 => Instruction { name: "SEC", operate: Operation::Sec, addr_mode: AddrMode::IMP, cycles: 2 },
            // * SED
            0xF8 => Instruction { name: "SED", operate: Operation::Sed, addr_mode: AddrMode::IMP, cycles: 2 },
            // * SEI
            0x78 => Instruction { name: "SEI", operate: Operation::Sei, addr_mode: AddrMode::IMP, cycles: 2 },
            // * BRK
            0x00 => Instruction { name: "BRK", operate: Operation::Brk, addr_mode: AddrMode::IMP, cycles: 7 },
            // * RTI
            0x40 => Instruction { name: "RTI", operate: Operation::Rti, addr_mode: AddrMode::IMP, cycles: 6 },
            // * NOP
            0xEA => Instruction { name: "NOP", operate: Operation::Nop, addr_mode: AddrMode::IMP, cycles: 2 },
            _ => Instruction::illegal(),
        }
    }

    /// Looks `opcode` up in the decode table.
    pub fn decode(opcode: Byte) -> (entry: Instruction)
        ensures
            entry == Instruction::table(opcode),
    {
        reveal(Instruction::table);
        match opcode {
            // * LDA
            0xA9 => Instruction { name: "LDA", operate: Operation::Lda, addr_mode: AddrMode::IMM, cycles: 2 },
            0xA5 => Instruction { name: "LDA", operate: Operation::Lda, addr_mode: AddrMode::ZPG, cycles: 3 },
            0xB5 => Instruction { name: "LDA", operate: Operation::Lda, addr_mode: AddrMode::ZPX, cycles: 4 },
            0xAD => Instruction { name: "LDA", operate: Operation::Lda, addr_mode: AddrMode::ABS, cycles: 4 },
            0xBD => Instruction { name: "LDA", operate: Operation::Lda, addr_mode: AddrMode::ABX, cycles: 4 },
            0xB9 => Instruction { name: "LDA", operate: Operation::Lda, addr_mode: AddrMode::ABY, cycles: 4 },
            0xA1 => Instruction { name: "LDA", operate: Operation::Lda, addr_mode: AddrMode::IDX, cycles: 6 },
            0xB1 => Instruction { name: "LDA", operate: Operation::Lda, addr_mode: AddrMode::IDY, cycles: 5 },
            // * LDX
            0xA2 => Instruction { name: "LDX", operate: Operation::Ldx, addr_mode: AddrMode::IMM, cycles: 2 },
            0xA6 => Instruction { name: "LDX", operate: Operation::Ldx, addr_mode: AddrMode::ZPG, cycles: 3 },
            0xB6 => Instruction { name: "LDX", operate: Operation::Ldx, addr_mode: AddrMode::ZPY, cycles: 4 },
            0xAE => Instruction { name: "LDX", operate: Operation::Ldx, addr_mode: AddrMode::ABS, cycles: 4 },
            0xBE => Instruction { name: "LDX", operate: Operation::Ldx, addr_mode: AddrMode::ABY, cycles: 4 },
            // * LDY
            0xA0 => Instruction { name: "LDY", operate: Operation::Ldy, addr_mode: AddrMode::IMM, cycles: 2 },
            0xA4 => Instruction { name: "LDY", operate: Operation::Ldy, addr_mode: AddrMode::ZPG, cycles: 3 },
            0xB4 => Instruction { name: "LDY", operate: Operation::Ldy, addr_mode: AddrMode::ZPX, cycles: 4 },
            0xAC => Instruction { name: "LDY", operate: Operation::Ldy, addr_mode: AddrMode::ABS, cycles: 4 },
            0xBC => Instruction { name: "LDY", operate: Operation::Ldy, addr_mode: AddrMode::ABX, cycles: 4 },
            // * STA
            0x85 => Instruction { name: "STA", operate: Operation::Sta, addr_mode: AddrMode::ZPG, cycles: 3 },
            0x95 => Instruction { name: "STA", operate: Operation::Sta, addr_mode: AddrMode::ZPX, cycles: 4 },
            0x8D => Instruction { name: "STA", operate: Operation::Sta, addr_mode: AddrMode::ABS, cycles: 4 },
            0x9D => Instruction { name: "STA", operate: Operation::Sta, addr_mode: AddrMode::ABX, cycles: 5 },
            0x99 => Instruction { name: "STA", operate: Operation::Sta, addr_mode: AddrMode::ABY, cycles: 5 },
            0x81 => Instruction { name: "STA", operate: Operation::Sta, addr_mode: AddrMode::IDX, cycles: 6 },
            0x91 => Instruction { name: "STA", operate: Operation::Sta, addr_mode: AddrMode::IDY, cycles: 6 },
            // * STX
            0x86 => Instruction { name: "STX", operate: Operation::Stx, addr_mode: AddrMode::ZPG, cycles: 3 },
            0x96 => Instruction { name: "STX", operate: Operation::Stx, addr_mode: AddrMode::ZPY, cycles: 4 },
            0x8E => Instruction { name: "STX", operate: Operation::Stx, addr_mode: AddrMode::ABS, cycles: 4 },
            // * STY
            0x84 => Instruction { name: "STY", operate: Operation::Sty, addr_mode: AddrMode::ZPG, cycles: 3 },
            0x94 => Instruction { name: "STY", operate: Operation::Sty, addr_mode: AddrMode::ZPX, cycles: 4 },
            0x8C => Instruction { name: "STY", operate: Operation::Sty, addr_mode: AddrMode::ABS, cycles: 4 },
            // * TAX
            0xAA => Instruction { name: "TAX", operate: Operation::Tax, addr_mode: AddrMode::IMP, cycles: 2 },
            // * TAY
            0xA8 => Instruction { name: "TAY", operate: Operation::Tay, addr_mode: AddrMode::IMP, cycles: 2 },
            // * TXA
            0x8A => Instruction { name: "TXA", operate: Operation::Txa, addr_mode: AddrMode::IMP, cycles: 2 },
            // * TYA
            0x98 => Instruction { name: "TYA", operate: Operation::Tya, addr_mode: AddrMode::IMP, cycles: 2 },
            // * TSX
            0xBA => Instruction { name: "TSX", operate: Operation::Tsx, addr_mode: AddrMode::IMP, cycles: 2 },
            // * TXS
            0x9A => Instruction { name: "TXS", operate: Operation::Txs, addr_mode: AddrMode::IMP, cycles: 2 },
            // * PHA
            0x48 => Instruction { name: "PHA", operate: Operation::Pha, addr_mode: AddrMode::IMP, cycles: 3 },
            // * PHP
            0x08 => Instruction { name: "PHP", operate: Operation::Php, addr_mode: AddrMode::IMP, cycles: 3 },
            // * PLA
            0x68 => Instruction { name: "PLA", operate: Operation::Pla, addr_mode: AddrMode::IMP, cycles: 4 },
            // * PLP
            0x28 => Instruction { name: "PLP", operate: Operation::Plp, addr_mode: AddrMode::IMP, cycles: 4 },
            // * AND
            0x29 => Instruction { name: "AND", operate: Operation::And, addr_mode: AddrMode::IMM, cycles: 2 },
            0x25 => Instruction { name: "AND", operate: Operation::And, addr_mode: AddrMode::ZPG, cycles: 3 },
            0x35 => Instruction { name: "AND", operate: Operation::And, addr_mode: AddrMode::ZPX, cycles: 4 },
            0x2D => Instruction { name: "AND", operate: Operation::And, addr_mode: AddrMode::ABS, cycles: 4 },
            0x3D => Instruction { name: "AND", operate: Operation::And, addr_mode: AddrMode::ABX, cycles: 4 },
            0x39 => Instruction { name: "AND", operate: Operation::And, addr_mode: AddrMode::ABY, cycles: 4 },
            0x21 => Instruction { name: "AND", operate: Operation::And, addr_mode: AddrMode::IDX, cycles: 6 },
            0x31 => Instruction { name: "AND", operate: Operation::And, addr_mode: AddrMode::IDY, cycles: 5 },
            // * EOR
            0x49 => Instruction { name: "EOR", operate: Operation::Eor, addr_mode: AddrMode::IMM, cycles: 2 },
            0x45 => Instruction { name: "EOR", operate: Operation::Eor, addr_mode: AddrMode::ZPG, cycles: 3 },
            0x55 => Instruction { name: "EOR", operate: Operation::Eor, addr_mode: AddrMode::ZPX, cycles: 4 },
            0x4D => Instruction { name: "EOR", operate: Operation::Eor, addr_mode: AddrMode::ABS, cycles: 4 },
            0x5D => Instruction { name: "EOR", operate: Operation::Eor, addr_mode: AddrMode::ABX, cycles: 4 },
            0x59 => Instruction { name: "EOR", operate: Operation::Eor, addr_mode: AddrMode::ABY, cycles: 4 },
            0x41 => Instruction { name: "EOR", operate: Operation::Eor, addr_mode: AddrMode::IDX, cycles: 6 },
            0x51 => Instruction { name: "EOR", operate: Operation::Eor, addr_mode: AddrMode::IDY, cycles: 5 },
            // * ORA
            0x09 => Instruction { name: "ORA", operate: Operation::Ora, addr_mode: AddrMode::IMM, cycles: 2 },
            0x05 => Instruction { name: "ORA", operate: Operation::Ora, addr_mode: AddrMode::ZPG, cycles: 3 },
            0x15 => Instruction { name: "ORA", operate: Operation::Ora, addr_mode: AddrMode::ZPX, cycles: 4 },
            0x0D => Instruction { name: "ORA", operate: Operation::Ora, addr_mode: AddrMode::ABS, cycles: 4 },
            0x1D => Instruction { name: "ORA", operate: Operation::Ora, addr_mode: AddrMode::ABX, cycles: 4 },
            0x19 => Instruction { name: "ORA", operate: Operation::Ora, addr_mode: AddrMode::ABY, cycles: 4 },
            0x01 => Instruction { name: "ORA", operate: Operation::Ora, addr_mode: AddrMode::IDX, cycles: 6 },
            0x11 => Instruction { name: "ORA", operate: Operation::Ora, addr_mode: AddrMode::IDY, cycles: 5 },
            // * BIT
            0x24 => Instruction { name: "BIT", operate: Operation::Bit, addr_mode: AddrMode::ZPG, cycles: 3 },
            0x2C => Instruction { name: "BIT", operate: Operation::Bit, addr_mode: AddrMode::ABS, cycles: 4 },
            // * ADC
            0x69 => Instruction { name: "ADC", operate: Operation::Adc, addr_mode: AddrMode::IMM, cycles: 2 },
            0x65 => Instruction { name: "ADC", operate: Operation::Adc, addr_mode: AddrMode::ZPG, cycles: 3 },
            0x75 => Instruction { name: "ADC", operate: Operation::Adc, addr_mode: AddrMode::ZPX, cycles: 4 },
            0x6D => Instruction { name: "ADC", operate: Operation::Adc, addr_mode: AddrMode::ABS, cycles: 4 },
            0x7D => Instruction { name: "ADC", operate: Operation::Adc, addr_mode: AddrMode::ABX, cycles: 4 },
            0x79 => Instruction { name: "ADC", operate: Operation::Adc, addr_mode: AddrMode::ABY, cycles: 4 },
            0x61 => Instruction { name: "ADC", operate: Operation::Adc, addr_mode: AddrMode::IDX, cycles: 6 },
            0x71 => Instruction { name: "ADC", operate: Operation::Adc, addr_mode: AddrMode::IDY, cycles: 5 },
            // * SBC
            0xE9 => Instruction { name: "SBC", operate: Operation::Sbc, addr_mode: AddrMode::IMM, cycles: 2 },
            0xE5 => Instruction { name: "SBC", operate: Operation::Sbc, addr_mode: AddrMode::ZPG, cycles: 3 },
            0xF5 => Instruction { name: "SBC", operate: Operation::Sbc, addr_mode: AddrMode::ZPX, cycles: 4 },
            0xED => Instruction { name: "SBC", operate: Operation::Sbc, addr_mode: AddrMode::ABS, cycles: 4 },
            0xFD => Instruction { name: "SBC", operate: Operation::Sbc, addr_mode: AddrMode::ABX, cycles: 4 },
            0xF9 => Instruction { name: "SBC", operate: Operation::Sbc, addr_mode: AddrMode::ABY, cycles: 4 },
            0xE1 => Instruction { name: "SBC", operate: Operation::Sbc, addr_mode: AddrMode::IDX, cycles: 6 },
            0xF1 => Instruction { name: "SBC", operate: Operation::Sbc, addr_mode: AddrMode::IDY, cycles: 5 },
            // * CMP
            0xC9 => Instruction { name: "CMP", operate: Operation::Cmp, addr_mode: AddrMode::IMM, cycles: 2 },
            0xC5 => Instruction { name: "CMP", operate: Operation::Cmp, addr_mode: AddrMode::ZPG, cycles: 3 },
            0xD5 => Instruction { name: "CMP", operate: Operation::Cmp, addr_mode: AddrMode::ZPX, cycles: 4 },
            0xCD => Instruction { name: "CMP", operate: Operation::Cmp, addr_mode: AddrMode::ABS, cycles: 4 },
            0xDD => Instruction { name: "CMP", operate: Operation::Cmp, addr_mode: AddrMode::ABX, cycles: 4 },
            0xD9 => Instruction { name: "CMP", operate: Operation::Cmp, addr_mode: AddrMode::ABY, cycles: 4 },
            0xC1 => Instruction { name: "CMP", operate: Operation::Cmp, addr_mode: AddrMode::IDX, cycles: 6 },
            0xD1 => Instruction { name: "CMP", operate: Operation::Cmp, addr_mode: AddrMode::IDY, cycles: 5 },
            // * CPX
            0xE0 => Instruction { name: "CPX", operate: Operation::Cpx, addr_mode: AddrMode::IMM, cycles: 2 },
            0xE4 => Instruction { name: "CPX", operate: Operation::Cpx, addr_mode: AddrMode::ZPG, cycles: 3 },
            0xEC => Instruction { name: "CPX", operate: Operation::Cpx, addr_mode: AddrMode::ABS, cycles: 4 },
            // * CPY
            0xC0 => Instruction { name: "CPY", operate: Operation::Cpy, addr_mode: AddrMode::IMM, cycles: 2 },
            0xC4 => Instruction { name: "CPY", operate: Operation::Cpy, addr_mode: AddrMode::ZPG, cycles: 3 },
            0xCC => Instruction { name: "CPY", operate: Operation::Cpy, addr_mode: AddrMode::ABS, cycles: 4 },
            // * INC
            0xE6 => Instruction { name: "INC", operate: Operation::Inc, addr_mode: AddrMode::ZPG, cycles: 5 },
            0xF6 => Instruction { name: "INC", operate: Operation::Inc, addr_mode: AddrMode::ZPX, cycles: 6 },
            0xEE => Instruction { name: "INC", operate: Operation::Inc, addr_mode: AddrMode::ABS, cycles: 6 },
            0xFE => Instruction { name: "INC", operate: Operation::Inc, addr_mode: AddrMode::ABX, cycles: 7 },
            // * INX
            0xE8 => Instruction { name: "INX", operate: Operation::Inx, addr_mode: AddrMode::IMP, cycles: 2 },
            // * INY
            0xC8 => Instruction { name: "INY", operate: Operation::Iny, addr_mode: AddrMode::IMP, cycles: 2 },
            // * DEC
            0xC6 => Instruction { name: "DEC", operate: Operation::Dec, addr_mode: AddrMode::ZPG, cycles: 5 },
            0xD6 => Instruction { name: "DEC", operate: Operation::Dec, addr_mode: AddrMode::ZPX, cycles: 6 },
            0xCE => Instruction { name: "DEC", operate: Operation::Dec, addr_mode: AddrMode::ABS, cycles: 6 },
            0xDE => Instruction { name: "DEC", operate: Operation::Dec, addr_mode: AddrMode::ABX, cycles: 7 },
            // * DEX
            0xCA => Instruction { name: "DEX", operate: Operation::Dex, addr_mode: AddrMode::IMP, cycles: 2 },
            // * DEY
            0x88 => Instruction { name: "DEY", operate: Operation::Dey, addr_mode: AddrMode::IMP, cycles: 2 },
            // * ASL
            0x0A => Instruction { name: "ASL", operate: Operation::Asl, addr_mode: AddrMode::IMP, cycles: 2 },
            0x06 => Instruction { name: "ASL", operate: Operation::Asl, addr_mode: AddrMode::ZPG, cycles: 5 },
            0x16 => Instruction { name: "ASL", operate: Operation::Asl, addr_mode: AddrMode::ZPX, cycles: 6 },
            0x0E => Instruction { name: "ASL", operate: Operation::Asl, addr_mode: AddrMode::ABS, cycles: 6 },
            0x1E => Instruction { name: "ASL", operate: Operation::Asl, addr_mode: AddrMode::ABX, cycles: 7 },
            // * LSR
            0x4A => Instruction { name: "LSR", operate: Operation::Lsr, addr_mode: AddrMode::IMP, cycles: 2 },
            0x46 => Instruction { name: "LSR", operate: Operation::Lsr, addr_mode: AddrMode::ZPG, cycles: 5 },
            0x56 => Instruction { name: "LSR", operate: Operation::Lsr, addr_mode: AddrMode::ZPX, cycles: 6 },
            0x4E => Instruction { name: "LSR", operate: Operation::Lsr, addr_mode: AddrMode::ABS, cycles: 6 },
            0x5E => Instruction { name: "LSR", operate: Operation::Lsr, addr_mode: AddrMode::ABX, cycles: 7 },
            // * ROL
            0x2A => Instruction { name: "ROL", operate: Operation::Rol, addr_mode: AddrMode::IMP, cycles: 2 },
            0x26 => Instruction { name: "ROL", operate: Operation::Rol, addr_mode: AddrMode::ZPG, cycles: 5 },
            0x36 => Instruction { name: "ROL", operate: Operation::Rol, addr_mode: AddrMode::ZPX, cycles: 6 },
            0x2E => Instruction { name: "ROL", operate: Operation::Rol, addr_mode: AddrMode::ABS, cycles: 6 },
            0x3E => Instruction { name: "ROL", operate: Operation::Rol, addr_mode: AddrMode::ABX, cycles: 7 },
            // * ROR
            0x6A => Instruction { name: "ROR", operate: Operation::Ror, addr_mode: AddrMode::IMP, cycles: 2 },
            0x66 => Instruction { name: "ROR", operate: Operation::Ror, addr_mode: AddrMode::ZPG, cycles: 5 },
            0x76 => Instruction { name: "ROR", operate: Operation::Ror, addr_mode: AddrMode::ZPX, cycles: 6 },
            0x6E => Instruction { name: "ROR", operate: Operation::Ror, addr_mode: AddrMode::ABS, cycles: 6 },
            0x7E => Instruction { name: "ROR", operate: Operation::Ror, addr_mode: AddrMode::ABX, cycles: 7 },
            // * JMP
            0x4C => Instruction { name: "JMP", operate: Operation::Jmp, addr_mode: AddrMode::ABS, cycles: 3 },
            0x6C => Instruction { name: "JMP", operate: Operation::Jmp, addr_mode: AddrMode::IND, cycles: 5 },
            // * JSR
            0x20 => Instruction { name: "JSR", operate: Operation::Jsr, addr_mode: AddrMode::ABS, cycles: 6 },
            // * RTS
            0x60 => Instruction { name: "RTS", operate: Operation::Rts, addr_mode: AddrMode::IMP, cycles: 6 },
            // * BCC
            0x90 => Instruction { name: "BCC", operate: Operation::Bcc, addr_mode: AddrMode::REL, cycles: 2 },
            // * BCS
            0xB0 => Instruction { name: "BCS", operate: Operation::Bcs, addr_mode: AddrMode::REL, cycles: 2 },
            // * BEQ
            0xF0 => Instruction { name: "BEQ", operate: Operation::Beq, addr_mode: AddrMode::REL, cycles: 2 },
            // * BMI
            0x30 => Instruction { name: "BMI", operate: Operation::Bmi, addr_mode: AddrMode::REL, cycles: 2 },
            // * BNE
            0xD0 => Instruction { name: "BNE", operate: Operation::Bne, addr_mode: AddrMode::REL, cycles: 2 },
            // * BPL
            0x10 => Instruction { name: "BPL", operate: Operation::Bpl, addr_mode: AddrMode::REL, cycles: 2 },
            // * BVC
            0x50 => Instruction { name: "BVC", operate: Operation::Bvc, addr_mode: AddrMode::REL, cycles: 2 },
            // * BVS
            0x70 => Instruction { name: "BVS", operate: Operation::Bvs, addr_mode: AddrMode::REL, cycles: 2 },
            // * CLC
            0x18 => Instruction { name: "CLC", operate: Operation::Clc, addr_mode: AddrMode::IMP, cycles: 2 },
            // * CLD
            0xD8 => Instruction { name: "CLD", operate: Operation::Cld, addr_mode: AddrMode::IMP, cycles: 2 },
            // * CLI
            0x58 => Instruction { name: "CLI", operate: Operation::Cli, addr_mode: AddrMode::IMP, cycles: 2 },
            // * CLV
            0xB8 => Instruction { name: "CLV", operate: Operation::Clv, addr_mode: AddrMode::IMP, cycles: 2 },
            // * SEC
            0x38 => Instruction { name: "SEC", operate: Operation::Sec, addr_mode: AddrMode::IMP, cycles: 2 },
            // * SED
            0xF8 => Instruction { name: "SED", operate: Operation::Sed, addr_mode: AddrMode::IMP, cycles: 2 },
            // * SEI
            0x78 => Instruction { name: "SEI", operate: Operation::Sei, addr_mode: AddrMode::IMP, cycles: 2 },
            // * BRK
            0x00 => Instruction { name: "BRK", operate: Operation::Brk, addr_mode: AddrMode::IMP, cycles: 7 },
            // * RTI
            0x40 => Instruction { name: "RTI", operate: Operation::Rti, addr_mode: AddrMode::IMP, cycles: 6 },
            // * NOP
            0xEA => Instruction { name: "NOP", operate: Operation::Nop, addr_mode: AddrMode::IMP, cycles: 2 },
            _ => Instruction::illegal(),
        }
    }
}

/// What the table holds for every byte: a legal entry has an operation, an
/// addressing mode and between two and seven cycles; any other is the trap.
/// The branches, and only they, take their operand in relative mode; they
/// cost two cycles, and an operation that only reads its operand at most six.
pub proof fn lemma_table_entries(opcode: u8)
    ensures
        Instruction::table(opcode).is_legal() <==> Instruction::table(opcode).addr_mode
            != AddrMode::XXX,
        Instruction::table(opcode).is_legal() ==> 2 <= Instruction::table(opcode).cycles <= 7,
        !Instruction::table(opcode).is_legal() ==> Instruction::table(opcode)
            == Instruction::illegal(),
        Instruction::table(opcode).operate.is_branch() <==> Instruction::table(opcode).addr_mode
            == AddrMode::REL,
        Instruction::table(opcode).operate.is_branch() ==> Instruction::table(opcode).cycles == 2,
        Instruction::table(opcode).operate.reads_memory() ==> Instruction::table(opcode).cycles
            <= 6,
{
    reveal(Instruction::table);
}

} // verus!
