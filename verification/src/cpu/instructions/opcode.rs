//! The opcodes: a name for each byte that starts an instruction.

use vstd::prelude::*;
use crate::bus::Byte;

verus! {

/// The 151 opcodes.  A name is the mnemonic of the operation followed by the
/// addressing mode.
#[derive(Clone, Copy, Debug, PartialEq, Eq, Structural)]
pub enum Opcode {
    // * [LDA] Load accumulator
    /// `0xA9`: load accumulator, immediate.
    LdaIMM,
    /// `0xA5`: load accumulator, zero page.
    LdaZPG,
    /// `0xB5`: load accumulator, zero page,X.
    LdaZPX,
    /// `0xAD`: load accumulator, absolute.
    LdaABS,
    /// `0xBD`: load accumulator, absolute,X.
    LdaABX,
    /// `0xB9`: load accumulator, absolute,Y.
    LdaABY,
    /// `0xA1`: load accumulator, (indirect,X).
    LdaIDX,
    /// `0xB1`: load accumulator, (indirect),Y.
    LdaIDY,
    // * [LDX] Load X
    /// `0xA2`: load X, immediate.
    LdxIMM,
    /// `0xA6`: load X, zero page.
    LdxZPG,
    /// `0xB6`: load X, zero page,Y.
    LdxZPY,
    /// `0xAE`: load X, absolute.
    LdxABS,
    /// `0xBE`: load X, absolute,Y.
    LdxABY,
    // * [LDY] Load Y
    /// `0xA0`: load Y, immediate.
    LdyIMM,
    /// `0xA4`: load Y, zero page.
    LdyZPG,
    /// `0xB4`: load Y, zero page,X.
    LdyZPX,
    /// `0xAC`: load Y, absolute.
    LdyABS,
    /// `0xBC`: load Y, absolute,X.
    LdyABX,
    // * [STA] Store accumulator
    /// `0x85`: store accumulator, zero page.
    StaZPG,
    /// `0x95`: store accumulator, zero page,X.
    StaZPX,
    /// `0x8D`: store accumulator, absolute.
    StaABS,
    /// `0x9D`: store accumulator, absolute,X.
    StaABX,
    /// `0x99`: store accumulator, absolute,Y.
    StaABY,
    /// `0x81`: store accumulator, (indirect,X).
    StaIDX,
    /// `0x91`: store accumulator, (indirect),Y.
    StaIDY,
    // * [STX] Store X
    /// `0x86`: store X, zero page.
    StxZPG,
    /// `0x96`: store X, zero page,Y.
    StxZPY,
    /// `0x8E`: store X, absolute.
    StxABS,
    // * [STY] Store Y
    /// `0x84`: store Y, zero page.
    StyZPG,
    /// `0x94`: store Y, zero page,X.
    StyZPX,
    /// `0x8C`: store Y, absolute.
    StyABS,
    // * [TAX] Transfer accumulator to X
    /// `0xAA`: transfer accumulator to X, implied.
    TaxIMP,
    // * [TAY] Transfer accumulator to Y
    /// `0xA8`: transfer accumulator to Y, implied.
    TayIMP,
    // * [TXA] Transfer X to accumulator
    /// `0x8A`: transfer X to accumulator, implied.
    TxaIMP,
    // * [TYA] Transfer Y to accumulator
    /// `0x98`: transfer Y to accumulator, implied.
    TyaIMP,
    // * [TSX] Transfer stack pointer to X
    /// `0xBA`: transfer stack pointer to X, implied.
    TsxIMP,
    // * [TXS] Transfer X to stack pointer
    /// `0x9A`: transfer X to stack pointer, implied.
    TxsIMP,
    // * [PHA] Push accumulator
    /// `0x48`: push accumulator, implied.
    PhaIMP,
    // * [PHP] Push processor status
    /// `0x08`: push processor status, implied.
    PhpIMP,
    // * [PLA] Pull accumulator
    /// `0x68`: pull accumulator, implied.
    PlaIMP,
    // * [PLP] Pull processor status
    /// `0x28`: pull processor status, implied.
    PlpIMP,
    // * [AND] Logical and
    /// `0x29`: logical and, immediate.
    AndIMM,
    /// `0x25`: logical and, zero page.
    AndZPG,
    /// `0x35`: logical and, zero page,X.
    AndZPX,
    /// `0x2D`: logical and, absolute.
    AndABS,
    /// `0x3D`: logical and, absolute,X.
    AndABX,
    /// `0x39`: logical and, absolute,Y.
    AndABY,
    /// `0x21`: logical and, (indirect,X).
    AndIDX,
    /// `0x31`: logical and, (indirect),Y.
    AndIDY,
    // * [EOR] Exclusive or
    /// `0x49`: exclusive or, immediate.
    EorIMM,
    /// `0x45`: exclusive or, zero page.
    EorZPG,
    /// `0x55`: exclusive or, zero page,X.
    EorZPX,
    /// `0x4D`: exclusive or, absolute.
    EorABS,
    /// `0x5D`: exclusive or, absolute,X.
    EorABX,
    /// `0x59`: exclusive or, absolute,Y.
    EorABY,
    /// `0x41`: exclusive or, (indirect,X).
    EorIDX,
    /// `0x51`: exclusive or, (indirect),Y.
    EorIDY,
    // * [ORA] Logical inclusive or
    /// `0x09`: logical inclusive or, immediate.
    OraIMM,
    /// `0x05`: logical inclusive or, zero page.
    OraZPG,
    /// `0x15`: logical inclusive or, zero page,X.
    OraZPX,
    /// `0x0D`: logical inclusive or, absolute.
    OraABS,
    /// `0x1D`: logical inclusive or, absolute,X.
    OraABX,
    /// `0x19`: logical inclusive or, absolute,Y.
    OraABY,
    /// `0x01`: logical inclusive or, (indirect,X).
    OraIDX,
    /// `0x11`: logical inclusive or, (indirect),Y.
    OraIDY,
    // * [BIT] Bit test
    /// `0x24`: bit test, zero page.
    BitZPG,
    /// `0x2C`: bit test, absolute.
    BitABS,
    // * [ADC] Add with carry
    /// `0x69`: add with carry, immediate.
    AdcIMM,
    /// `0x65`: add with carry, zero page.
    AdcZPG,
    /// `0x75`: add with carry, zero page,X.
    AdcZPX,
    /// `0x6D`: add with carry, absolute.
    AdcABS,
    /// `0x7D`: add with carry, absolute,X.
    AdcABX,
    /// `0x79`: add with carry, absolute,Y.
    AdcABY,
    /// `0x61`: add with carry, (indirect,X).
    AdcIDX,
    /// `0x71`: add with carry, (indirect),Y.
    AdcIDY,
    // * [SBC] Subtract with carry
    /// `0xE9`: subtract with carry, immediate.
    SbcIMM,
    /// `0xE5`: subtract with carry, zero page.
    SbcZPG,
    /// `0xF5`: subtract with carry, zero page,X.
    SbcZPX,
    /// `0xED`: subtract with carry, absolute.
    SbcABS,
    /// `0xFD`: subtract with carry, absolute,X.
    SbcABX,
    /// `0xF9`: subtract with carry, absolute,Y.
    SbcABY,
    /// `0xE1`: subtract with carry, (indirect,X).
    SbcIDX,
    /// `0xF1`: subtract with carry, (indirect),Y.
    SbcIDY,
    // * [CMP] Compare accumulator
    /// `0xC9`: compare accumulator, immediate.
    CmpIMM,
    /// `0xC5`: compare accumulator, zero page.
    CmpZPG,
    /// `0xD5`: compare accumulator, zero page,X.
    CmpZPX,
    /// `0xCD`: compare accumulator, absolute.
    CmpABS,
    /// `0xDD`: compare accumulator, absolute,X.
    CmpABX,
    /// `0xD9`: compare accumulator, absolute,Y.
    CmpABY,
    /// `0xC1`: compare accumulator, (indirect,X).
    CmpIDX,
    /// `0xD1`: compare accumulator, (indirect),Y.
    CmpIDY,
    // * [CPX] Compare X
    /// `0xE0`: compare X, immediate.
    CpxIMM,
    /// `0xE4`: compare X, zero page.
    CpxZPG,
    /// `0xEC`: compare X, absolute.
    CpxABS,
    // * [CPY] Compare Y
    /// `0xC0`: compare Y, immediate.
    CpyIMM,
    /// `0xC4`: compare Y, zero page.
    CpyZPG,
    /// `0xCC`: compare Y, absolute.
    CpyABS,
    // * [INC] Increment memory
    /// `0xE6`: increment memory, zero page.
    IncZPG,
    /// `0xF6`: increment memory, zero page,X.
    IncZPX,
    /// `0xEE`: increment memory, absolute.
    IncABS,
    /// `0xFE`: increment memory, absolute,X.
    IncABX,
    // * [INX] Increment X
    /// `0xE8`: increment X, implied.
    InxIMP,
    // * [INY] Increment Y
    /// `0xC8`: increment Y, implied.
    InyIMP,
    // * [DEC] Decrement memory
    /// `0xC6`: decrement memory, zero page.
    DecZPG,
    /// `0xD6`: decrement memory, zero page,X.
    DecZPX,
    /// `0xCE`: decrement memory, absolute.
    DecABS,
    /// `0xDE`: decrement memory, absolute,X.
    DecABX,
    // * [DEX] Decrement X
    /// `0xCA`: decrement X, implied.
    DexIMP,
    // * [DEY] Decrement Y
    /// `0x88`: decrement Y, implied.
    DeyIMP,
    // * [ASL] Arithmetic shift left
    /// `0x0A`: arithmetic shift left, implied.
    AslIMP,
    /// `0x06`: arithmetic shift left, zero page.
    AslZPG,
    /// `0x16`: arithmetic shift left, zero page,X.
    AslZPX,
    /// `0x0E`: arithmetic shift left, absolute.
    AslABS,
    /// `0x1E`: arithmetic shift left, absolute,X.
    AslABX,
    // * [LSR] Logical shift right
    /// `0x4A`: logical shift right, implied.
    LsrIMP,
    /// `0x46`: logical shift right, zero page.
    LsrZPG,
    /// `0x56`: logical shift right, zero page,X.
    LsrZPX,
    /// `0x4E`: logical shift right, absolute.
    LsrABS,
    /// `0x5E`: logical shift right, absolute,X.
    LsrABX,
    // * [ROL] Rotate left
    /// `0x2A`: rotate left, implied.
    RolIMP,
    /// `0x26`: rotate left, zero page.
    RolZPG,
    /// `0x36`: rotate left, zero page,X.
    RolZPX,
    /// `0x2E`: rotate left, absolute.
    RolABS,
    /// `0x3E`: rotate left, absolute,X.
    RolABX,
    // * [ROR] Rotate right
    /// `0x6A`: rotate right, implied.
    RorIMP,
    /// `0x66`: rotate right, zero page.
    RorZPG,
    /// `0x76`: rotate right, zero page,X.
    RorZPX,
    /// `0x6E`: rotate right, absolute.
    RorABS,
    /// `0x7E`: rotate right, absolute,X.
    RorABX,
    // * [JMP] Jump
    /// `0x4C`: jump, absolute.
    JmpABS,
    /// `0x6C`: jump, indirect.
    JmpIND,
    // * [JSR] Jump to subroutine
    /// `0x20`: jump to subroutine, absolute.
    JsrABS,
    // * [RTS] Return from subroutine
    /// `0x60`: return from subroutine, implied.
    RtsIMP,
    // * [BCC] Branch if carry clear
    /// `0x90`: branch if carry clear, relative.
    BccREL,
    // * [BCS] Branch if carry set
    /// `0xB0`: branch if carry set, relative.
    BcsREL,
    // * [BEQ] Branch if equal
    /// `0xF0`: branch if equal, relative.
    BeqREL,
    // * [BMI] Branch if minus
    /// `0x30`: branch if minus, relative.
    BmiREL,
    // * [BNE] Branch if not equal
    /// `0xD0`: branch if not equal, relative.
    BneREL,
    // * [BPL] Branch if plus
    /// `0x10`: branch if plus, relative.
    BplREL,
    // * [BVC] Branch if overflow clear
    /// `0x50`: branch if overflow clear, relative.
    BvcREL,
    // * [BVS] Branch if overflow set
    /// `0x70`: branch if overflow set, relative.
    BvsREL,
    // * [CLC] Clear carry
    /// `0x18`: clear carry, implied.
    ClcIMP,
    // * [CLD] Clear decimal mode
    /// `0xD8`: clear decimal mode, implied.
    CldIMP,
    // * [CLI] Clear interrupt disable
    /// `0x58`: clear interrupt disable, implied.
    CliIMP,
    // * [CLV] Clear overflow
    /// `0xB8`: clear overflow, implied.
    ClvIMP,
    // * [SEC] Set carry
    /// `0x38`: set carry, implied.
    SecIMP,
    // * [SED] Set decimal mode
    /// `0xF8`: set decimal mode, implied.
    SedIMP,
    // * [SEI] Set interrupt disable
    /// `0x78`: set interrupt disable, implied.
    SeiIMP,
    // * [BRK] Force interrupt
    /// `0x00`: force interrupt, implied.
    BrkIMP,
    // * [RTI] Return from interrupt
    /// `0x40`: return from interrupt, implied.
    RtiIMP,
    // * [NOP] No operation
    /// `0xEA`: no operation, implied.
    NopIMP,
}

impl Opcode {
    /// The byte that encodes this opcode.
    pub open spec fn byte(self) -> u8 {
        match self {
            Opcode::LdaIMM => 0xA9,
            Opcode::LdaZPG => 0xA5,
            Opcode::LdaZPX => 0xB5,
            Opcode::LdaABS => 0xAD,
            Opcode::LdaABX => 0xBD,
            Opcode::LdaABY => 0xB9,
            Opcode::LdaIDX => 0xA1,
            Opcode::LdaIDY => 0xB1,
            Opcode::LdxIMM => 0xA2,
            Opcode::LdxZPG => 0xA6,
            Opcode::LdxZPY => 0xB6,
            Opcode::LdxABS => 0xAE,
            Opcode::LdxABY => 0xBE,
            Opcode::LdyIMM => 0xA0,
            Opcode::LdyZPG => 0xA4,
            Opcode::LdyZPX => 0xB4,
            Opcode::LdyABS => 0xAC,
            Opcode::LdyABX => 0xBC,
            Opcode::StaZPG => 0x85,
            Opcode::StaZPX => 0x95,
            Opcode::StaABS => 0x8D,
            Opcode::StaABX => 0x9D,
            Opcode::StaABY => 0x99,
            Opcode::StaIDX => 0x81,
            Opcode::StaIDY => 0x91,
            Opcode::StxZPG => 0x86,
            Opcode::StxZPY => 0x96,
            Opcode::StxABS => 0x8E,
            Opcode::StyZPG => 0x84,
            Opcode::StyZPX => 0x94,
            Opcode::StyABS => 0x8C,
            Opcode::TaxIMP => 0xAA,
            Opcode::TayIMP => 0xA8,
            Opcode::TxaIMP => 0x8A,
            Opcode::TyaIMP => 0x98,
            Opcode::TsxIMP => 0xBA,
            Opcode::TxsIMP => 0x9A,
            Opcode::PhaIMP => 0x48,
            Opcode::PhpIMP => 0x08,
            Opcode::PlaIMP => 0x68,
            Opcode::PlpIMP => 0x28,
            Opcode::AndIMM => 0x29,
            Opcode::AndZPG => 0x25,
            Opcode::AndZPX => 0x35,
            Opcode::AndABS => 0x2D,
            Opcode::AndABX => 0x3D,
            Opcode::AndABY => 0x39,
            Opcode::AndIDX => 0x21,
            Opcode::AndIDY => 0x31,
            Opcode::EorIMM => 0x49,
            Opcode::EorZPG => 0x45,
            Opcode::EorZPX => 0x55,
            Opcode::EorABS => 0x4D,
            Opcode::EorABX => 0x5D,
            Opcode::EorABY => 0x59,
            Opcode::EorIDX => 0x41,
            Opcode::EorIDY => 0x51,
            Opcode::OraIMM => 0x09,
            Opcode::OraZPG => 0x05,
            Opcode::OraZPX => 0x15,
            Opcode::OraABS => 0x0D,
            Opcode::OraABX => 0x1D,
            Opcode::OraABY => 0x19,
            Opcode::OraIDX => 0x01,
            Opcode::OraIDY => 0x11,
            Opcode::BitZPG => 0x24,
            Opcode::BitABS => 0x2C,
            Opcode::AdcIMM => 0x69,
            Opcode::AdcZPG => 0x65,
            Opcode::AdcZPX => 0x75,
            Opcode::AdcABS => 0x6D,
            Opcode::AdcABX => 0x7D,
            Opcode::AdcABY => 0x79,
            Opcode::AdcIDX => 0x61,
            Opcode::AdcIDY => 0x71,
            Opcode::SbcIMM => 0xE9,
            Opcode::SbcZPG => 0xE5,
            Opcode::SbcZPX => 0xF5,
            Opcode::SbcABS => 0xED,
            Opcode::SbcABX => 0xFD,
            Opcode::SbcABY => 0xF9,
            Opcode::SbcIDX => 0xE1,
            Opcode::SbcIDY => 0xF1,
            Opcode::CmpIMM => 0xC9,
            Opcode::CmpZPG => 0xC5,
            Opcode::CmpZPX => 0xD5,
            Opcode::CmpABS => 0xCD,
            Opcode::CmpABX => 0xDD,
            Opcode::CmpABY => 0xD9,
            Opcode::CmpIDX => 0xC1,
            Opcode::CmpIDY => 0xD1,
            Opcode::CpxIMM => 0xE0,
            Opcode::CpxZPG => 0xE4,
            Opcode::CpxABS => 0xEC,
            Opcode::CpyIMM => 0xC0,
            Opcode::CpyZPG => 0xC4,
            Opcode::CpyABS => 0xCC,
            Opcode::IncZPG => 0xE6,
            Opcode::IncZPX => 0xF6,
            Opcode::IncABS => 0xEE,
            Opcode::IncABX => 0xFE,
            Opcode::InxIMP => 0xE8,
            Opcode::InyIMP => 0xC8,
            Opcode::DecZPG => 0xC6,
            Opcode::DecZPX => 0xD6,
            Opcode::DecABS => 0xCE,
            Opcode::DecABX => 0xDE,
            Opcode::DexIMP => 0xCA,
            Opcode::DeyIMP => 0x88,
            Opcode::AslIMP => 0x0A,
            Opcode::AslZPG => 0x06,
            Opcode::AslZPX => 0x16,
            Opcode::AslABS => 0x0E,
            Opcode::AslABX => 0x1E,
            Opcode::LsrIMP => 0x4A,
            Opcode::LsrZPG => 0x46,
            Opcode::LsrZPX => 0x56,
            Opcode::LsrABS => 0x4E,
            Opcode::LsrABX => 0x5E,
            Opcode::RolIMP => 0x2A,
            Opcode::RolZPG => 0x26,
            Opcode::RolZPX => 0x36,
            Opcode::RolABS => 0x2E,
            Opcode::RolABX => 0x3E,
            Opcode::RorIMP => 0x6A,
            Opcode::RorZPG => 0x66,
            Opcode::RorZPX => 0x76,
            Opcode::RorABS => 0x6E,
            Opcode::RorABX => 0x7E,
            Opcode::JmpABS => 0x4C,
            Opcode::JmpIND => 0x6C,
            Opcode::JsrABS => 0x20,
            Opcode::RtsIMP => 0x60,
            Opcode::BccREL => 0x90,
            Opcode::BcsREL => 0xB0,
            Opcode::BeqREL => 0xF0,
            Opcode::BmiREL => 0x30,
            Opcode::BneREL => 0xD0,
            Opcode::BplREL => 0x10,
            Opcode::BvcREL => 0x50,
            Opcode::BvsREL => 0x70,
            Opcode::ClcIMP => 0x18,
            Opcode::CldIMP => 0xD8,
            Opcode::CliIMP => 0x58,
            Opcode::ClvIMP => 0xB8,
            Opcode::SecIMP => 0x38,
            Opcode::SedIMP => 0xF8,
            Opcode::SeiIMP => 0x78,
            Opcode::BrkIMP => 0x00,
            Opcode::RtiIMP => 0x40,
            Opcode::NopIMP => 0xEA,
        }
    }

    /// The opcode that `byte` encodes, if it encodes one.
    pub open spec fn of_byte(byte: u8) -> Option<Opcode> {
        match byte {
            0xA9 => Some(Opcode::LdaIMM),
            0xA5 => Some(Opcode::LdaZPG),
            0xB5 => Some(Opcode::LdaZPX),
            0xAD => Some(Opcode::LdaABS),
            0xBD => Some(Opcode::LdaABX),
            0xB9 => Some(Opcode::LdaABY),
            0xA1 => Some(Opcode::LdaIDX),
            0xB1 => Some(Opcode::LdaIDY),
            0xA2 => Some(Opcode::LdxIMM),
            0xA6 => Some(Opcode::LdxZPG),
            0xB6 => Some(Opcode::LdxZPY),
            0xAE => Some(Opcode::LdxABS),
            0xBE => Some(Opcode::LdxABY),
            0xA0 => Some(Opcode::LdyIMM),
            0xA4 => Some(Opcode::LdyZPG),
            0xB4 => Some(Opcode::LdyZPX),
            0xAC => Some(Opcode::LdyABS),
            0xBC => Some(Opcode::LdyABX),
            0x85 => Some(Opcode::StaZPG),
            0x95 => Some(Opcode::StaZPX),
            0x8D => Some(Opcode::StaABS),
            0x9D => Some(Opcode::StaABX),
            0x99 => Some(Opcode::StaABY),
            0x81 => Some(Opcode::StaIDX),
            0x91 => Some(Opcode::StaIDY),
            0x86 => Some(Opcode::StxZPG),
            0x96 => Some(Opcode::StxZPY),
            0x8E => Some(Opcode::StxABS),
            0x84 => Some(Opcode::StyZPG),
            0x94 => Some(Opcode::StyZPX),
            0x8C => Some(Opcode::StyABS),
            0xAA => Some(Opcode::TaxIMP),
            0xA8 => Some(Opcode::TayIMP),
            0x8A => Some(Opcode::TxaIMP),
            0x98 => Some(Opcode::TyaIMP),
            0xBA => Some(Opcode::TsxIMP),
            0x9A => Some(Opcode::TxsIMP),
            0x48 => Some(Opcode::PhaIMP),
            0x08 => Some(Opcode::PhpIMP),
            0x68 => Some(Opcode::PlaIMP),
            0x28 => Some(Opcode::PlpIMP),
            0x29 => Some(Opcode::AndIMM),
            0x25 => Some(Opcode::AndZPG),
            0x35 => Some(Opcode::AndZPX),
            0x2D => Some(Opcode::AndABS),
            0x3D => Some(Opcode::AndABX),
            0x39 => Some(Opcode::AndABY),
            0x21 => Some(Opcode::AndIDX),
            0x31 => Some(Opcode::AndIDY),
            0x49 => Some(Opcode::EorIMM),
            0x45 => Some(Opcode::EorZPG),
            0x55 => Some(Opcode::EorZPX),
            0x4D => Some(Opcode::EorABS),
            0x5D => Some(Opcode::EorABX),
            0x59 => Some(Opcode::EorABY),
            0x41 => Some(Opcode::EorIDX),
            0x51 => Some(Opcode::EorIDY),
            0x09 => Some(Opcode::OraIMM),
            0x05 => Some(Opcode::OraZPG),
            0x15 => Some(Opcode::OraZPX),
            0x0D => Some(Opcode::OraABS),
            0x1D => Some(Opcode::OraABX),
            0x19 => Some(Opcode::OraABY),
            0x01 => Some(Opcode::OraIDX),
            0x11 => Some(Opcode::OraIDY),
            0x24 => Some(Opcode::BitZPG),
            0x2C => Some(Opcode::BitABS),
            0x69 => Some(Opcode::AdcIMM),
            0x65 => Some(Opcode::AdcZPG),
            0x75 => Some(Opcode::AdcZPX),
            0x6D => Some(Opcode::AdcABS),
            0x7D => Some(Opcode::AdcABX),
            0x79 => Some(Opcode::AdcABY),
            0x61 => Some(Opcode::AdcIDX),
            0x71 => Some(Opcode::AdcIDY),
            0xE9 => Some(Opcode::SbcIMM),
            0xE5 => Some(Opcode::SbcZPG),
            0xF5 => Some(Opcode::SbcZPX),
            0xED => Some(Opcode::SbcABS),
            0xFD => Some(Opcode::SbcABX),
            0xF9 => Some(Opcode::SbcABY),
            0xE1 => Some(Opcode::SbcIDX),
            0xF1 => Some(Opcode::SbcIDY),
            0xC9 => Some(Opcode::CmpIMM),
            0xC5 => Some(Opcode::CmpZPG),
            0xD5 => Some(Opcode::CmpZPX),
            0xCD => Some(Opcode::CmpABS),
            0xDD => Some(Opcode::CmpABX),
            0xD9 => Some(Opcode::CmpABY),
            0xC1 => Some(Opcode::CmpIDX),
            0xD1 => Some(Opcode::CmpIDY),
            0xE0 => Some(Opcode::CpxIMM),
            0xE4 => Some(Opcode::CpxZPG),
            0xEC => Some(Opcode::CpxABS),
            0xC0 => Some(Opcode::CpyIMM),
            0xC4 => Some(Opcode::CpyZPG),
            0xCC => Some(Opcode::CpyABS),
            0xE6 => Some(Opcode::IncZPG),
            0xF6 => Some(Opcode::IncZPX),
            0xEE => Some(Opcode::IncABS),
            0xFE => Some(Opcode::IncABX),
            0xE8 => Some(Opcode::InxIMP),
            0xC8 => Some(Opcode::InyIMP),
            0xC6 => Some(Opcode::DecZPG),
            0xD6 => Some(Opcode::DecZPX),
            0xCE => Some(Opcode::DecABS),
            0xDE => Some(Opcode::DecABX),
            0xCA => Some(Opcode::DexIMP),
            0x88 => Some(Opcode::DeyIMP),
            0x0A => Some(Opcode::AslIMP),
            0x06 => Some(Opcode::AslZPG),
            0x16 => Some(Opcode::AslZPX),
            0x0E => Some(Opcode::AslABS),
            0x1E => Some(Opcode::AslABX),
            0x4A => Some(Opcode::LsrIMP),
            0x46 => Some(Opcode::LsrZPG),
            0x56 => Some(Opcode::LsrZPX),
            0x4E => Some(Opcode::LsrABS),
            0x5E => Some(Opcode::LsrABX),
            0x2A => Some(Opcode::RolIMP),
            0x26 => Some(Opcode::RolZPG),
            0x36 => Some(Opcode::RolZPX),
            0x2E => Some(Opcode::RolABS),
            0x3E => Some(Opcode::RolABX),
            0x6A => Some(Opcode::RorIMP),
            0x66 => Some(Opcode::RorZPG),
            0x76 => Some(Opcode::RorZPX),
            0x6E => Some(Opcode::RorABS),
            0x7E => Some(Opcode::RorABX),
            0x4C => Some(Opcode::JmpABS),
            0x6C => Some(Opcode::JmpIND),
            0x20 => Some(Opcode::JsrABS),
            0x60 => Some(Opcode::RtsIMP),
            0x90 => Some(Opcode::BccREL),
            0xB0 => Some(Opcode::BcsREL),
            0xF0 => Some(Opcode::BeqREL),
            0x30 => Some(Opcode::BmiREL),
            0xD0 => Some(Opcode::BneREL),
            0x10 => Some(Opcode::BplREL),
            0x50 => Some(Opcode::BvcREL),
            0x70 => Some(Opcode::BvsREL),
            0x18 => Some(Opcode::ClcIMP),
            0xD8 => Some(Opcode::CldIMP),
            0x58 => Some(Opcode::CliIMP),
            0xB8 => Some(Opcode::ClvIMP),
            0x38 => Some(Opcode::SecIMP),
            0xF8 => Some(Opcode::SedIMP),
            0x78 => Some(Opcode::SeiIMP),
            0x00 => Some(Opcode::BrkIMP),
            0x40 => Some(Opcode::RtiIMP),
            0xEA => Some(Opcode::NopIMP),
            _ => None,
        }
    }
}

impl From<Opcode> for Byte {
    fn from(val: Opcode) -> (byte: Byte) {
        match val {
            Opcode::LdaIMM => 0xA9,
            Opcode::LdaZPG => 0xA5,
            Opcode::LdaZPX => 0xB5,
            Opcode::LdaABS => 0xAD,
            Opcode::LdaABX => 0xBD,
            Opcode::LdaABY => 0xB9,
            Opcode::LdaIDX => 0xA1,
            Opcode::LdaIDY => 0xB1,
            Opcode::LdxIMM => 0xA2,
            Opcode::LdxZPG => 0xA6,
            Opcode::LdxZPY => 0xB6,
            Opcode::LdxABS => 0xAE,
            Opcode::LdxABY => 0xBE,
            Opcode::LdyIMM => 0xA0,
            Opcode::LdyZPG => 0xA4,
            Opcode::LdyZPX => 0xB4,
            Opcode::LdyABS => 0xAC,
            Opcode::LdyABX => 0xBC,
            Opcode::StaZPG => 0x85,
            Opcode::StaZPX => 0x95,
            Opcode::StaABS => 0x8D,
            Opcode::StaABX => 0x9D,
            Opcode::StaABY => 0x99,
            Opcode::StaIDX => 0x81,
            Opcode::StaIDY => 0x91,
            Opcode::StxZPG => 0x86,
            Opcode::StxZPY => 0x96,
            Opcode::StxABS => 0x8E,
            Opcode::StyZPG => 0x84,
            Opcode::StyZPX => 0x94,
            Opcode::StyABS => 0x8C,
            Opcode::TaxIMP => 0xAA,
            Opcode::TayIMP => 0xA8,
            Opcode::TxaIMP => 0x8A,
            Opcode::TyaIMP => 0x98,
            Opcode::TsxIMP => 0xBA,
            Opcode::TxsIMP => 0x9A,
            Opcode::PhaIMP => 0x48,
            Opcode::PhpIMP => 0x08,
            Opcode::PlaIMP => 0x68,
            Opcode::PlpIMP => 0x28,
            Opcode::AndIMM => 0x29,
            Opcode::AndZPG => 0x25,
            Opcode::AndZPX => 0x35,
            Opcode::AndABS => 0x2D,
            Opcode::AndABX => 0x3D,
            Opcode::AndABY => 0x39,
            Opcode::AndIDX => 0x21,
            Opcode::AndIDY => 0x31,
            Opcode::EorIMM => 0x49,
            Opcode::EorZPG => 0x45,
            Opcode::EorZPX => 0x55,
            Opcode::EorABS => 0x4D,
            Opcode::EorABX => 0x5D,
            Opcode::EorABY => 0x59,
            Opcode::EorIDX => 0x41,
            Opcode::EorIDY => 0x51,
            Opcode::OraIMM => 0x09,
            Opcode::OraZPG => 0x05,
            Opcode::OraZPX => 0x15,
            Opcode::OraABS => 0x0D,
            Opcode::OraABX => 0x1D,
            Opcode::OraABY => 0x19,
            Opcode::OraIDX => 0x01,
            Opcode::OraIDY => 0x11,
            Opcode::BitZPG => 0x24,
            Opcode::BitABS => 0x2C,
            Opcode::AdcIMM => 0x69,
            Opcode::AdcZPG => 0x65,
            Opcode::AdcZPX => 0x75,
            Opcode::AdcABS => 0x6D,
            Opcode::AdcABX => 0x7D,
            Opcode::AdcABY => 0x79,
            Opcode::AdcIDX => 0x61,
            Opcode::AdcIDY => 0x71,
            Opcode::SbcIMM => 0xE9,
            Opcode::SbcZPG => 0xE5,
            Opcode::SbcZPX => 0xF5,
            Opcode::SbcABS => 0xED,
            Opcode::SbcABX => 0xFD,
            Opcode::SbcABY => 0xF9,
            Opcode::SbcIDX => 0xE1,
            Opcode::SbcIDY => 0xF1,
            Opcode::CmpIMM => 0xC9,
            Opcode::CmpZPG => 0xC5,
            Opcode::CmpZPX => 0xD5,
            Opcode::CmpABS => 0xCD,
            Opcode::CmpABX => 0xDD,
            Opcode::CmpABY => 0xD9,
            Opcode::CmpIDX => 0xC1,
            Opcode::CmpIDY => 0xD1,
            Opcode::CpxIMM => 0xE0,
            Opcode::CpxZPG => 0xE4,
            Opcode::CpxABS => 0xEC,
            Opcode::CpyIMM => 0xC0,
            Opcode::CpyZPG => 0xC4,
            Opcode::CpyABS => 0xCC,
            Opcode::IncZPG => 0xE6,
            Opcode::IncZPX => 0xF6,
            Opcode::IncABS => 0xEE,
            Opcode::IncABX => 0xFE,
            Opcode::InxIMP => 0xE8,
            Opcode::InyIMP => 0xC8,
            Opcode::DecZPG => 0xC6,
            Opcode::DecZPX => 0xD6,
            Opcode::DecABS => 0xCE,
            Opcode::DecABX => 0xDE,
            Opcode::DexIMP => 0xCA,
            Opcode::DeyIMP => 0x88,
            Opcode::AslIMP => 0x0A,
            Opcode::AslZPG => 0x06,
            Opcode::AslZPX => 0x16,
            Opcode::AslABS => 0x0E,
            Opcode::AslABX => 0x1E,
            Opcode::LsrIMP => 0x4A,
            Opcode::LsrZPG => 0x46,
            Opcode::LsrZPX => 0x56,
            Opcode::LsrABS => 0x4E,
            Opcode::LsrABX => 0x5E,
            Opcode::RolIMP => 0x2A,
            Opcode::RolZPG => 0x26,
            Opcode::RolZPX => 0x36,
            Opcode::RolABS => 0x2E,
            Opcode::RolABX => 0x3E,
            Opcode::RorIMP => 0x6A,
            Opcode::RorZPG => 0x66,
            Opcode::RorZPX => 0x76,
            Opcode::RorABS => 0x6E,
            Opcode::RorABX => 0x7E,
            Opcode::JmpABS => 0x4C,
            Opcode::JmpIND => 0x6C,
            Opcode::JsrABS => 0x20,
            Opcode::RtsIMP => 0x60,
            Opcode::BccREL => 0x90,
            Opcode::BcsREL => 0xB0,
            Opcode::BeqREL => 0xF0,
            Opcode::BmiREL => 0x30,
            Opcode::BneREL => 0xD0,
            Opcode::BplREL => 0x10,
            Opcode::BvcREL => 0x50,
            Opcode::BvsREL => 0x70,
            Opcode::ClcIMP => 0x18,
            Opcode::CldIMP => 0xD8,
            Opcode::CliIMP => 0x58,
            Opcode::ClvIMP => 0xB8,
            Opcode::SecIMP => 0x38,
            Opcode::SedIMP => 0xF8,
            Opcode::SeiIMP => 0x78,
            Opcode::BrkIMP => 0x00,
            Opcode::RtiIMP => 0x40,
            Opcode::NopIMP => 0xEA,
        }
    }
}

impl vstd::std_specs::convert::FromSpecImpl<Opcode> for Byte {
    open spec fn obeys_from_spec() -> bool {
        true
    }

    open spec fn from_spec(val: Opcode) -> Byte {
        val.byte()
    }
}

impl TryFrom<Byte> for Opcode {
    type Error = &'static str;

    fn try_from(v: Byte) -> (r: Result<Opcode, &'static str>) {
        match v {
            // * [LDA]
            0xA9 => Ok(Opcode::LdaIMM),
            0xA5 => Ok(Opcode::LdaZPG),
            0xB5 => Ok(Opcode::LdaZPX),
            0xAD => Ok(Opcode::LdaABS),
            0xBD => Ok(Opcode::LdaABX),
            0xB9 => Ok(Opcode::LdaABY),
            0xA1 => Ok(Opcode::LdaIDX),
            0xB1 => Ok(Opcode::LdaIDY),
            // * [LDX]
            0xA2 => Ok(Opcode::LdxIMM),
            0xA6 => Ok(Opcode::LdxZPG),
            0xB6 => Ok(Opcode::LdxZPY),
            0xAE => Ok(Opcode::LdxABS),
            0xBE => Ok(Opcode::LdxABY),
            // * [LDY]
            0xA0 => Ok(Opcode::LdyIMM),
            0xA4 => Ok(Opcode::LdyZPG),
            0xB4 => Ok(Opcode::LdyZPX),
            0xAC => Ok(Opcode::LdyABS),
            0xBC => Ok(Opcode::LdyABX),
            // * [STA]
            0x85 => Ok(Opcode::StaZPG),
            0x95 => Ok(Opcode::StaZPX),
            0x8D => Ok(Opcode::StaABS),
            0x9D => Ok(Opcode::StaABX),
            0x99 => Ok(Opcode::StaABY),
            0x81 => Ok(Opcode::StaIDX),
            0x91 => Ok(Opcode::StaIDY),
            // * [STX]
            0x86 => Ok(Opcode::StxZPG),
            0x96 => Ok(Opcode::StxZPY),
            0x8E => Ok(Opcode::StxABS),
            // * [STY]
            0x84 => Ok(Opcode::StyZPG),
            0x94 => Ok(Opcode::StyZPX),
            0x8C => Ok(Opcode::StyABS),
            // * [TAX]
            0xAA => Ok(Opcode::TaxIMP),
            // * [TAY]
            0xA8 => Ok(Opcode::TayIMP),
            // * [TXA]
            0x8A => Ok(Opcode::TxaIMP),
            // * [TYA]
            0x98 => Ok(Opcode::TyaIMP),
            // * [TSX]
            0xBA => Ok(Opcode::TsxIMP),
            // * [TXS]
            0x9A => Ok(Opcode::TxsIMP),
            // * [PHA]
            0x48 => Ok(Opcode::PhaIMP),
            // * [PHP]
            0x08 => Ok(Opcode::PhpIMP),
            // * [PLA]
            0x68 => Ok(Opcode::PlaIMP),
            // * [PLP]
            0x28 => Ok(Opcode::PlpIMP),
            // * [AND]
            0x29 => Ok(Opcode::AndIMM),
            0x25 => Ok(Opcode::AndZPG),
            0x35 => Ok(Opcode::AndZPX),
            0x2D => Ok(Opcode::AndABS),
            0x3D => Ok(Opcode::AndABX),
            0x39 => Ok(Opcode::AndABY),
            0x21 => Ok(Opcode::AndIDX),
            0x31 => Ok(Opcode::AndIDY),
            // * [EOR]
            0x49 => Ok(Opcode::EorIMM),
            0x45 => Ok(Opcode::EorZPG),
            0x55 => Ok(Opcode::EorZPX),
            0x4D => Ok(Opcode::EorABS),
            0x5D => Ok(Opcode::EorABX),
            0x59 => Ok(Opcode::EorABY),
            0x41 => Ok(Opcode::EorIDX),
            0x51 => Ok(Opcode::EorIDY),
            // * [ORA]
            0x09 => Ok(Opcode::OraIMM),
            0x05 => Ok(Opcode::OraZPG),
            0x15 => Ok(Opcode::OraZPX),
            0x0D => Ok(Opcode::OraABS),
            0x1D => Ok(Opcode::OraABX),
            0x19 => Ok(Opcode::OraABY),
            0x01 => Ok(Opcode::OraIDX),
            0x11 => Ok(Opcode::OraIDY),
            // * [BIT]
            0x24 => Ok(Opcode::BitZPG),
            0x2C => Ok(Opcode::BitABS),
            // * [ADC]
            0x69 => Ok(Opcode::AdcIMM),
            0x65 => Ok(Opcode::AdcZPG),
            0x75 => Ok(Opcode::AdcZPX),
            0x6D => Ok(Opcode::AdcABS),
            0x7D => Ok(Opcode::AdcABX),
            0x79 => Ok(Opcode::AdcABY),
            0x61 => Ok(Opcode::AdcIDX),
            0x71 => Ok(Opcode::AdcIDY),
            // * [SBC]
            0xE9 => Ok(Opcode::SbcIMM),
            0xE5 => Ok(Opcode::SbcZPG),
            0xF5 => Ok(Opcode::SbcZPX),
            0xED => Ok(Opcode::SbcABS),
            0xFD => Ok(Opcode::SbcABX),
            0xF9 => Ok(Opcode::SbcABY),
            0xE1 => Ok(Opcode::SbcIDX),
            0xF1 => Ok(Opcode::SbcIDY),
            // * [CMP]
            0xC9 => Ok(Opcode::CmpIMM),
            0xC5 => Ok(Opcode::CmpZPG),
            0xD5 => Ok(Opcode::CmpZPX),
            0xCD => Ok(Opcode::CmpABS),
            0xDD => Ok(Opcode::CmpABX),
            0xD9 => Ok(Opcode::CmpABY),
            0xC1 => Ok(Opcode::CmpIDX),
            0xD1 => Ok(Opcode::CmpIDY),
            // * [CPX]
            0xE0 => Ok(Opcode::CpxIMM),
            0xE4 => Ok(Opcode::CpxZPG),
            0xEC => Ok(Opcode::CpxABS),
            // * [CPY]
            0xC0 => Ok(Opcode::CpyIMM),
            0xC4 => Ok(Opcode::CpyZPG),
            0xCC => Ok(Opcode::CpyABS),
            // * [INC]
            0xE6 => Ok(Opcode::IncZPG),
            0xF6 => Ok(Opcode::IncZPX),
            0xEE => Ok(Opcode::IncABS),
            0xFE => Ok(Opcode::IncABX),
            // * [INX]
            0xE8 => Ok(Opcode::InxIMP),
            // * [INY]
            0xC8 => Ok(Opcode::InyIMP),
            // * [DEC]
            0xC6 => Ok(Opcode::DecZPG),
            0xD6 => Ok(Opcode::DecZPX),
            0xCE => Ok(Opcode::DecABS),
            0xDE => Ok(Opcode::DecABX),
            // * [DEX]
            0xCA => Ok(Opcode::DexIMP),
            // * [DEY]
            0x88 => Ok(Opcode::DeyIMP),
            // * [ASL]
            0x0A => Ok(Opcode::AslIMP),
            0x06 => Ok(Opcode::AslZPG),
            0x16 => Ok(Opcode::AslZPX),
            0x0E => Ok(Opcode::AslABS),
            0x1E => Ok(Opcode::AslABX),
            // * [LSR]
            0x4A => Ok(Opcode::LsrIMP),
            0x46 => Ok(Opcode::LsrZPG),
            0x56 => Ok(Opcode::LsrZPX),
            0x4E => Ok(Opcode::LsrABS),
            0x5E => Ok(Opcode::LsrABX),
            // * [ROL]
            0x2A => Ok(Opcode::RolIMP),
            0x26 => Ok(Opcode::RolZPG),
            0x36 => Ok(Opcode::RolZPX),
            0x2E => Ok(Opcode::RolABS),
            0x3E => Ok(Opcode::RolABX),
            // * [ROR]
            0x6A => Ok(Opcode::RorIMP),
            0x66 => Ok(Opcode::RorZPG),
            0x76 => Ok(Opcode::RorZPX),
            0x6E => Ok(Opcode::RorABS),
            0x7E => Ok(Opcode::RorABX),
            // * [JMP]
            0x4C => Ok(Opcode::JmpABS),
            0x6C => Ok(Opcode::JmpIND),
            // * [JSR]
            0x20 => Ok(Opcode::JsrABS),
            // * [RTS]
            0x60 => Ok(Opcode::RtsIMP),
            // * [BCC]
            0x90 => Ok(Opcode::BccREL),
            // * [BCS]
            0xB0 => Ok(Opcode::BcsREL),
            // * [BEQ]
            0xF0 => Ok(Opcode::BeqREL),
            // * [BMI]
            0x30 => Ok(Opcode::BmiREL),
            // * [BNE]
            0xD0 => Ok(Opcode::BneREL),
            // * [BPL]
            0x10 => Ok(Opcode::BplREL),
            // * [BVC]
            0x50 => Ok(Opcode::BvcREL),
            // * [BVS]
            0x70 => Ok(Opcode::BvsREL),
            // * [CLC]
            0x18 => Ok(Opcode::ClcIMP),
            // * [CLD]
            0xD8 => Ok(Opcode::CldIMP),
            // * [CLI]
            0x58 => Ok(Opcode::CliIMP),
            // * [CLV]
            0xB8 => Ok(Opcode::ClvIMP),
            // * [SEC]
            0x38 => Ok(Opcode::SecIMP),
            // * [SED]
            0xF8 => Ok(Opcode::SedIMP),
            // * [SEI]
            0x78 => Ok(Opcode::SeiIMP),
            // * [BRK]
            0x00 => Ok(Opcode::BrkIMP),
            // * [RTI]
            0x40 => Ok(Opcode::RtiIMP),
            // * [NOP]
            0xEA => Ok(Opcode::NopIMP),
            _ => Err("unknown CPU instruction"),
        }
    }
}

impl vstd::std_specs::convert::TryFromSpecImpl<Byte> for Opcode {
    open spec fn obeys_try_from_spec() -> bool {
        true
    }

    open spec fn try_from_spec(v: Byte) -> Result<Opcode, &'static str> {
        match Opcode::of_byte(v) {
            Some(opcode) => Ok(opcode),
            None => Err("unknown CPU instruction"),
        }
    }
}

} // verus!
