//! The instruction set: the operations of the primary opcode byte and of
//! the byte that follows the `0xCB` prefix, with the operands they carry, and
//! how a byte maps to them.
//!
//! An opcode byte is made of three fields: `x` (bits 7 and 6), `y` (bits 5
//! to 3) and `z` (bits 2 to 0); `y` in turn splits into `p` (its upper two
//! bits) and `q` (its lowest bit). `decode` states the instruction set in
//! terms of these fields; the executable decoders are flat tables that are
//! proved to agree with it.

use vstd::prelude::*;
use vstd::std_specs::convert::TryFromSpecImpl;

verus! {

/// The operations of the primary opcode byte.
#[derive(Debug, Clone, Copy, PartialEq, Eq, Structural)]
pub enum Opcode {
    NOP,
    LD(LDType),
    INC(IncDecTarget),
    DEC(IncDecTarget),
    PUSH(StackTarget),
    POP(StackTarget),
    JP(JCondition),
    JPI,
    JR(JCondition),
    ADD(ALUOperand),
    ADDHL(ADDHLOperand),
    ADDSP,
    ADC(ALUOperand),
    SUB(ALUOperand),
    SBC(ALUOperand),
    AND(ALUOperand),
    OR(ALUOperand),
    XOR(ALUOperand),
    CP(ALUOperand),
    CPL,
    CCF,
    SCF,
    DAA,
    RLCA,
    RLA,
    RRCA,
    RRA,
    CALL(JCondition),
    RET(JCondition),
    RETI,
    RST(RSTAddress),
    DI,
    HALT,
    EI,
    PREFIX,
}

/// The operations of the byte after the `0xCB` prefix.
#[derive(Debug, Clone, Copy, PartialEq, Eq, Structural)]
pub enum PrefixedOpcode {
    RLC(PrefixOperand),
    RRC(PrefixOperand),
    RL(PrefixOperand),
    RR(PrefixOperand),
    SLA(PrefixOperand),
    SRA(PrefixOperand),
    SRL(PrefixOperand),
    SWAP(PrefixOperand),
    BIT(PrefixOperand, BitPosition),
    RES(PrefixOperand, BitPosition),
    SET(PrefixOperand, BitPosition),
}

/// The operand of a prefixed operation: a register or the byte at `(HL)`.
#[derive(Debug, Clone, Copy, PartialEq, Eq, Structural)]
pub enum PrefixOperand {
    A,
    B,
    C,
    D,
    E,
    H,
    L,
    HLIndirect,
}

/// A bit of a byte.
#[derive(Debug, Clone, Copy, PartialEq, Eq, Structural)]
pub enum BitPosition {
    B0,
    B1,
    B2,
    B3,
    B4,
    B5,
    B6,
    B7,
}

/// The second operand of an 8-bit ALU operation: a register, the byte after the opcode, or the byte at `(HL)`.
#[derive(Debug, Clone, Copy, PartialEq, Eq, Structural)]
pub enum ALUOperand {
    A,
    B,
    C,
    D,
    E,
    H,
    L,
    D8,
    HLIndirect,
}

/// The register pair added to `HL`.
#[derive(Debug, Clone, Copy, PartialEq, Eq, Structural)]
pub enum ADDHLOperand {
    BC,
    DE,
    HL,
    SP,
}

/// The fixed address that a restart calls.
#[derive(Debug, Clone, Copy, PartialEq, Eq, Structural)]
pub enum RSTAddress {
    X00,
    X10,
    X20,
    X30,
    X08,
    X18,
    X28,
    X38,
}

/// The condition of a jump, call or return.
#[derive(Debug, Clone, Copy, PartialEq, Eq, Structural)]
pub enum JCondition {
    Nothing,
    NZ,
    NC,
    Z,
    C,
}

/// The forms of the load instruction.
#[derive(Debug, Clone, Copy, PartialEq, Eq, Structural)]
pub enum LDType {
    /// Register or `(HL)` from register, `(HL)` or immediate byte.
    Byte(LDTarget, LDSource),
    /// Register pair from the immediate word.
    Word(LDWordTarget),
    /// `A` from memory at an indirect address.
    AFromIndirect(Indirect),
    /// Memory at an indirect address from `A`.
    IndirectFromA(Indirect),
    /// `A` from the high page: address `0xFF00` plus the immediate byte.
    AFromAddress,
    /// The high page, at `0xFF00` plus the immediate byte, from `A`.
    AddressFromA,
    /// `SP` from `HL`.
    SPFromHL,
    /// Memory at the immediate address from `SP`, low byte first.
    IndirectFromSP,
    /// `HL` from `SP` plus the signed immediate byte.
    HLFromSPOffset,
}

/// What an increment or decrement works on.
#[derive(Debug, Clone, Copy, PartialEq, Eq, Structural)]
pub enum IncDecTarget {
    A,
    B,
    C,
    D,
    E,
    H,
    L,
    BC,
    DE,
    HL,
    SP,
    HLIndirect,
}

/// The ways to address memory through a register or an immediate word; `LastByteIndirect` is the high page indexed by `C`.
#[derive(Debug, Clone, Copy, PartialEq, Eq, Structural)]
pub enum Indirect {
    BCIndirect,
    DEIndirect,
    HLIndirectInc,
    HLIndirectDec,
    WordIndirect,
    LastByteIndirect,
}

/// The register pair pushed or popped.
#[derive(Debug, Clone, Copy, PartialEq, Eq, Structural)]
pub enum StackTarget {
    AF,
    BC,
    DE,
    HL,
}

/// The register pair loaded with a word.
#[derive(Debug, Clone, Copy, PartialEq, Eq, Structural)]
pub enum LDWordTarget {
    BC,
    DE,
    HL,
    SP,
}

/// The source of a byte load.
#[derive(Debug, Clone, Copy, PartialEq, Eq, Structural)]
pub enum LDSource {
    A,
    B,
    C,
    D,
    E,
    H,
    L,
    D8,
    HLIndirect,
}

/// The target of a byte load.
#[derive(Debug, Clone, Copy, PartialEq, Eq, Structural)]
pub enum LDTarget {
    A,
    B,
    C,
    D,
    E,
    H,
    L,
    HLIndirect,
}

/// The operand that the three-bit field `z` names.
pub open spec fn prefix_operand(z: int) -> PrefixOperand {
    if z == 0 {
        PrefixOperand::B
    } else if z == 1 {
        PrefixOperand::C
    } else if z == 2 {
        PrefixOperand::D
    } else if z == 3 {
        PrefixOperand::E
    } else if z == 4 {
        PrefixOperand::H
    } else if z == 5 {
        PrefixOperand::L
    } else if z == 6 {
        PrefixOperand::HLIndirect
    } else {
        PrefixOperand::A
    }
}

/// The load target that the three-bit field `y` names.
pub open spec fn ld_target(y: int) -> LDTarget {
    if y == 0 {
        LDTarget::B
    } else if y == 1 {
        LDTarget::C
    } else if y == 2 {
        LDTarget::D
    } else if y == 3 {
        LDTarget::E
    } else if y == 4 {
        LDTarget::H
    } else if y == 5 {
        LDTarget::L
    } else if y == 6 {
        LDTarget::HLIndirect
    } else {
        LDTarget::A
    }
}

/// The load source that the three-bit field `z` names.
pub open spec fn ld_source(z: int) -> LDSource {
    if z == 0 {
        LDSource::B
    } else if z == 1 {
        LDSource::C
    } else if z == 2 {
        LDSource::D
    } else if z == 3 {
        LDSource::E
    } else if z == 4 {
        LDSource::H
    } else if z == 5 {
        LDSource::L
    } else if z == 6 {
        LDSource::HLIndirect
    } else {
        LDSource::A
    }
}

/// The ALU operand that the three-bit field `z` names.
pub open spec fn alu_operand(z: int) -> ALUOperand {
    if z == 0 {
        ALUOperand::B
    } else if z == 1 {
        ALUOperand::C
    } else if z == 2 {
        ALUOperand::D
    } else if z == 3 {
        ALUOperand::E
    } else if z == 4 {
        ALUOperand::H
    } else if z == 5 {
        ALUOperand::L
    } else if z == 6 {
        ALUOperand::HLIndirect
    } else {
        ALUOperand::A
    }
}

/// The 8-bit increment target that the three-bit field `y` names.
pub open spec fn inc_dec_target(y: int) -> IncDecTarget {
    if y == 0 {
        IncDecTarget::B
    } else if y == 1 {
        IncDecTarget::C
    } else if y == 2 {
        IncDecTarget::D
    } else if y == 3 {
        IncDecTarget::E
    } else if y == 4 {
        IncDecTarget::H
    } else if y == 5 {
        IncDecTarget::L
    } else if y == 6 {
        IncDecTarget::HLIndirect
    } else {
        IncDecTarget::A
    }
}

/// The 16-bit increment target that the two-bit field `p` names.
pub open spec fn inc_dec_pair(p: int) -> IncDecTarget {
    if p == 0 {
        IncDecTarget::BC
    } else if p == 1 {
        IncDecTarget::DE
    } else if p == 2 {
        IncDecTarget::HL
    } else {
        IncDecTarget::SP
    }
}

/// The register pair that the two-bit field `p` names in a word load.
pub open spec fn word_target(p: int) -> LDWordTarget {
    if p == 0 {
        LDWordTarget::BC
    } else if p == 1 {
        LDWordTarget::DE
    } else if p == 2 {
        LDWordTarget::HL
    } else {
        LDWordTarget::SP
    }
}

/// The register pair that the two-bit field `p` names in an addition to `HL`.
pub open spec fn addhl_operand(p: int) -> ADDHLOperand {
    if p == 0 {
        ADDHLOperand::BC
    } else if p == 1 {
        ADDHLOperand::DE
    } else if p == 2 {
        ADDHLOperand::HL
    } else {
        ADDHLOperand::SP
    }
}

/// The register pair that the two-bit field `p` names on the stack.
pub open spec fn stack_target(p: int) -> StackTarget {
    if p == 0 {
        StackTarget::BC
    } else if p == 1 {
        StackTarget::DE
    } else if p == 2 {
        StackTarget::HL
    } else {
        StackTarget::AF
    }
}

/// The condition that a two-bit field names.
pub open spec fn condition(c: int) -> JCondition {
    if c == 0 {
        JCondition::NZ
    } else if c == 1 {
        JCondition::Z
    } else if c == 2 {
        JCondition::NC
    } else {
        JCondition::C
    }
}

/// The restart whose address is `y * 8`.
pub open spec fn rst_address(y: int) -> RSTAddress {
    if y == 0 {
        RSTAddress::X00
    } else if y == 1 {
        RSTAddress::X08
    } else if y == 2 {
        RSTAddress::X10
    } else if y == 3 {
        RSTAddress::X18
    } else if y == 4 {
        RSTAddress::X20
    } else if y == 5 {
        RSTAddress::X28
    } else if y == 6 {
        RSTAddress::X30
    } else {
        RSTAddress::X38
    }
}

/// The bit that the three-bit field `y` names.
pub open spec fn bit_position(y: int) -> BitPosition {
    if y == 0 {
        BitPosition::B0
    } else if y == 1 {
        BitPosition::B1
    } else if y == 2 {
        BitPosition::B2
    } else if y == 3 {
        BitPosition::B3
    } else if y == 4 {
        BitPosition::B4
    } else if y == 5 {
        BitPosition::B5
    } else if y == 6 {
        BitPosition::B6
    } else {
        BitPosition::B7
    }
}

/// The register-indirect address that the two-bit field `p` names.
pub open spec fn indirect_pair(p: int) -> Indirect {
    if p == 0 {
        Indirect::BCIndirect
    } else if p == 1 {
        Indirect::DEIndirect
    } else if p == 2 {
        Indirect::HLIndirectInc
    } else {
        Indirect::HLIndirectDec
    }
}

/// The ALU operation that the three-bit field `y` names, on `operand`.
pub open spec fn alu_opcode(y: int, operand: ALUOperand) -> Opcode {
    if y == 0 {
        Opcode::ADD(operand)
    } else if y == 1 {
        Opcode::ADC(operand)
    } else if y == 2 {
        Opcode::SUB(operand)
    } else if y == 3 {
        Opcode::SBC(operand)
    } else if y == 4 {
        Opcode::AND(operand)
    } else if y == 5 {
        Opcode::XOR(operand)
    } else if y == 6 {
        Opcode::OR(operand)
    } else {
        Opcode::CP(operand)
    }
}

/// The instructions with `x == 0`: loads of immediates, 16-bit arithmetic,
/// increments, relative jumps and the accumulator rotations.
pub open spec fn decode_low(y: int, z: int) -> Option<Opcode> {
    let p = y / 2;
    let q = y % 2;
    if z == 0 {
        if y == 0 {
            Some(Opcode::NOP)
        } else if y == 1 {
            Some(Opcode::LD(LDType::IndirectFromSP))
        } else if y == 2 {
            None
        } else if y == 3 {
            Some(Opcode::JR(JCondition::Nothing))
        } else {
            Some(Opcode::JR(condition(y - 4)))
        }
    } else if z == 1 {
        if q == 0 {
            Some(Opcode::LD(LDType::Word(word_target(p))))
        } else {
            Some(Opcode::ADDHL(addhl_operand(p)))
        }
    } else if z == 2 {
        if q == 0 {
            Some(Opcode::LD(LDType::IndirectFromA(indirect_pair(p))))
        } else {
            Some(Opcode::LD(LDType::AFromIndirect(indirect_pair(p))))
        }
    } else if z == 3 {
        if q == 0 {
            Some(Opcode::INC(inc_dec_pair(p)))
        } else {
            Some(Opcode::DEC(inc_dec_pair(p)))
        }
    } else if z == 4 {
        Some(Opcode::INC(inc_dec_target(y)))
    } else if z == 5 {
        Some(Opcode::DEC(inc_dec_target(y)))
    } else if z == 6 {
        Some(Opcode::LD(LDType::Byte(ld_target(y), LDSource::D8)))
    } else {
        Some(
            if y == 0 {
                Opcode::RLCA
            } else if y == 1 {
                Opcode::RRCA
            } else if y == 2 {
                Opcode::RLA
            } else if y == 3 {
                Opcode::RRA
            } else if y == 4 {
                Opcode::DAA
            } else if y == 5 {
                Opcode::CPL
            } else if y == 6 {
                Opcode::SCF
            } else {
                Opcode::CCF
            },
        )
    }
}

/// The instructions with `x == 3`: control flow, the stack, the ALU
/// operations on an immediate byte and the loads through the high page. Eleven
/// bytes of this block name no instruction.
pub open spec fn decode_high(y: int, z: int) -> Option<Opcode> {
    let p = y / 2;
    let q = y % 2;
    if z == 0 {
        if y < 4 {
            Some(Opcode::RET(condition(y)))
        } else if y == 4 {
            Some(Opcode::LD(LDType::AddressFromA))
        } else if y == 5 {
            Some(Opcode::ADDSP)
        } else if y == 6 {
            Some(Opcode::LD(LDType::AFromAddress))
        } else {
            Some(Opcode::LD(LDType::HLFromSPOffset))
        }
    } else if z == 1 {
        if q == 0 {
            Some(Opcode::POP(stack_target(p)))
        } else if p == 0 {
            Some(Opcode::RET(JCondition::Nothing))
        } else if p == 1 {
            Some(Opcode::RETI)
        } else if p == 2 {
            Some(Opcode::JPI)
        } else {
            Some(Opcode::LD(LDType::SPFromHL))
        }
    } else if z == 2 {
        if y < 4 {
            Some(Opcode::JP(condition(y)))
        } else if y == 4 {
            Some(Opcode::LD(LDType::IndirectFromA(Indirect::LastByteIndirect)))
        } else if y == 5 {
            Some(Opcode::LD(LDType::IndirectFromA(Indirect::WordIndirect)))
        } else if y == 6 {
            Some(Opcode::LD(LDType::AFromIndirect(Indirect::LastByteIndirect)))
        } else {
            Some(Opcode::LD(LDType::AFromIndirect(Indirect::WordIndirect)))
        }
    } else if z == 3 {
        if y == 0 {
            Some(Opcode::JP(JCondition::Nothing))
        } else if y == 1 {
            Some(Opcode::PREFIX)
        } else if y == 6 {
            Some(Opcode::DI)
        } else if y == 7 {
            Some(Opcode::EI)
        } else {
            None
        }
    } else if z == 4 {
        if y < 4 {
            Some(Opcode::CALL(condition(y)))
        } else {
            None
        }
    } else if z == 5 {
        if q == 0 {
            Some(Opcode::PUSH(stack_target(p)))
        } else if p == 0 {
            Some(Opcode::CALL(JCondition::Nothing))
        } else {
            None
        }
    } else if z == 6 {
        Some(alu_opcode(y, ALUOperand::D8))
    } else {
        Some(Opcode::RST(rst_address(y)))
    }
}

/// The instruction that a primary opcode byte names, if any. Twelve bytes
/// name none: `0x10`, `0xD3`, `0xDB`, `0xDD`, `0xE3`, `0xE4`, `0xEB`, `0xEC`,
/// `0xED`, `0xF4`, `0xFC` and `0xFD`.
pub open spec fn decode(op: u8) -> Option<Opcode> {
    let x = op as int / 64;
    let y = (op as int / 8) % 8;
    let z = op as int % 8;
    if x == 0 {
        decode_low(y, z)
    } else if x == 1 {
        if op == 0x76 {
            Some(Opcode::HALT)
        } else {
            Some(Opcode::LD(LDType::Byte(ld_target(y), ld_source(z))))
        }
    } else if x == 2 {
        Some(alu_opcode(y, alu_operand(z)))
    } else {
        decode_high(y, z)
    }
}

/// The operation that a byte after the prefix names; every byte names one.
pub open spec fn decode_prefixed(op: u8) -> PrefixedOpcode {
    let x = op as int / 64;
    let y = (op as int / 8) % 8;
    let operand = prefix_operand(op as int % 8);
    if x == 0 {
        if y == 0 {
            PrefixedOpcode::RLC(operand)
        } else if y == 1 {
            PrefixedOpcode::RRC(operand)
        } else if y == 2 {
            PrefixedOpcode::RL(operand)
        } else if y == 3 {
            PrefixedOpcode::RR(operand)
        } else if y == 4 {
            PrefixedOpcode::SLA(operand)
        } else if y == 5 {
            PrefixedOpcode::SRA(operand)
        } else if y == 6 {
            PrefixedOpcode::SWAP(operand)
        } else {
            PrefixedOpcode::SRL(operand)
        }
    } else if x == 1 {
        PrefixedOpcode::BIT(operand, bit_position(y))
    } else if x == 2 {
        PrefixedOpcode::RES(operand, bit_position(y))
    } else {
        PrefixedOpcode::SET(operand, bit_position(y))
    }
}

/// Whether a byte names no instruction.
pub open spec fn undefined(op: u8) -> bool {
    decode(op) is None
}

/// The bytes that name no instruction.
pub proof fn lemma_undefined(op: u8)
    ensures
        undefined(op) <==> (op == 0x10 || op == 0xD3 || op == 0xDB || op == 0xDD || op == 0xE3 || op
            == 0xE4 || op == 0xEB || op == 0xEC || op == 0xED || op == 0xF4 || op == 0xFC || op
            == 0xFD),
{
}

impl TryFrom<u8> for Opcode {
    type Error = &'static str;

    fn try_from(value: u8) -> (r: Result<Self, Self::Error>) {
        match value {
            0x00 => Ok(Opcode::NOP),
            0x01 => Ok(Opcode::LD(LDType::Word(LDWordTarget::BC))),
            0x02 => Ok(Opcode::LD(LDType::IndirectFromA(Indirect::BCIndirect))),
            0x03 => Ok(Opcode::INC(IncDecTarget::BC)),
            0x04 => Ok(Opcode::INC(IncDecTarget::B)),
            0x05 => Ok(Opcode::DEC(IncDecTarget::B)),
            0x06 => Ok(Opcode::LD(LDType::Byte(LDTarget::B, LDSource::D8))),
            0x07 => Ok(Opcode::RLCA),
            0x08 => Ok(Opcode::LD(LDType::IndirectFromSP)),
            0x09 => Ok(Opcode::ADDHL(ADDHLOperand::BC)),
            0x0a => Ok(Opcode::LD(LDType::AFromIndirect(Indirect::BCIndirect))),
            0x0b => Ok(Opcode::DEC(IncDecTarget::BC)),
            0x0c => Ok(Opcode::INC(IncDecTarget::C)),
            0x0d => Ok(Opcode::DEC(IncDecTarget::C)),
            0x0e => Ok(Opcode::LD(LDType::Byte(LDTarget::C, LDSource::D8))),
            0x0f => Ok(Opcode::RRCA),
            0x11 => Ok(Opcode::LD(LDType::Word(LDWordTarget::DE))),
            0x12 => Ok(Opcode::LD(LDType::IndirectFromA(Indirect::DEIndirect))),
            0x13 => Ok(Opcode::INC(IncDecTarget::DE)),
            0x14 => Ok(Opcode::INC(IncDecTarget::D)),
            0x15 => Ok(Opcode::DEC(IncDecTarget::D)),
            0x16 => Ok(Opcode::LD(LDType::Byte(LDTarget::D, LDSource::D8))),
            0x17 => Ok(Opcode::RLA),
            0x18 => Ok(Opcode::JR(JCondition::Nothing)),
            0x19 => Ok(Opcode::ADDHL(ADDHLOperand::DE)),
            0x1a => Ok(Opcode::LD(LDType::AFromIndirect(Indirect::DEIndirect))),
            0x1b => Ok(Opcode::DEC(IncDecTarget::DE)),
            0x1c => Ok(Opcode::INC(IncDecTarget::E)),
            0x1d => Ok(Opcode::DEC(IncDecTarget::E)),
            0x1e => Ok(Opcode::LD(LDType::Byte(LDTarget::E, LDSource::D8))),
            0x1f => Ok(Opcode::RRA),
            0x20 => Ok(Opcode::JR(JCondition::NZ)),
            0x21 => Ok(Opcode::LD(LDType::Word(LDWordTarget::HL))),
            0x22 => Ok(Opcode::LD(LDType::IndirectFromA(Indirect::HLIndirectInc))),
            0x23 => Ok(Opcode::INC(IncDecTarget::HL)),
            0x24 => Ok(Opcode::INC(IncDecTarget::H)),
            0x25 => Ok(Opcode::DEC(IncDecTarget::H)),
            0x26 => Ok(Opcode::LD(LDType::Byte(LDTarget::H, LDSource::D8))),
            0x27 => Ok(Opcode::DAA),
            0x28 => Ok(Opcode::JR(JCondition::Z)),
            0x29 => Ok(Opcode::ADDHL(ADDHLOperand::HL)),
            0x2a => Ok(Opcode::LD(LDType::AFromIndirect(Indirect::HLIndirectInc))),
            0x2b => Ok(Opcode::DEC(IncDecTarget::HL)),
            0x2c => Ok(Opcode::INC(IncDecTarget::L)),
            0x2d => Ok(Opcode::DEC(IncDecTarget::L)),
            0x2e => Ok(Opcode::LD(LDType::Byte(LDTarget::L, LDSource::D8))),
            0x2f => Ok(Opcode::CPL),
            0x30 => Ok(Opcode::JR(JCondition::NC)),
            0x31 => Ok(Opcode::LD(LDType::Word(LDWordTarget::SP))),
            0x32 => Ok(Opcode::LD(LDType::IndirectFromA(Indirect::HLIndirectDec))),
            0x33 => Ok(Opcode::INC(IncDecTarget::SP)),
            0x34 => Ok(Opcode::INC(IncDecTarget::HLIndirect)),
            0x35 => Ok(Opcode::DEC(IncDecTarget::HLIndirect)),
            0x36 => Ok(Opcode::LD(LDType::Byte(LDTarget::HLIndirect, LDSource::D8))),
            0x37 => Ok(Opcode::SCF),
            0x38 => Ok(Opcode::JR(JCondition::C)),
            0x39 => Ok(Opcode::ADDHL(ADDHLOperand::SP)),
            0x3a => Ok(Opcode::LD(LDType::AFromIndirect(Indirect::HLIndirectDec))),
            0x3b => Ok(Opcode::DEC(IncDecTarget::SP)),
            0x3c => Ok(Opcode::INC(IncDecTarget::A)),
            0x3d => Ok(Opcode::DEC(IncDecTarget::A)),
            0x3e => Ok(Opcode::LD(LDType::Byte(LDTarget::A, LDSource::D8))),
            0x3f => Ok(Opcode::CCF),
            0x40 => Ok(Opcode::LD(LDType::Byte(LDTarget::B, LDSource::B))),
            0x41 => Ok(Opcode::LD(LDType::Byte(LDTarget::B, LDSource::C))),
            0x42 => Ok(Opcode::LD(LDType::Byte(LDTarget::B, LDSource::D))),
            0x43 => Ok(Opcode::LD(LDType::Byte(LDTarget::B, LDSource::E))),
            0x44 => Ok(Opcode::LD(LDType::Byte(LDTarget::B, LDSource::H))),
            0x45 => Ok(Opcode::LD(LDType::Byte(LDTarget::B, LDSource::L))),
            0x46 => Ok(Opcode::LD(LDType::Byte(LDTarget::B, LDSource::HLIndirect))),
            0x47 => Ok(Opcode::LD(LDType::Byte(LDTarget::B, LDSource::A))),
            0x48 => Ok(Opcode::LD(LDType::Byte(LDTarget::C, LDSource::B))),
            0x49 => Ok(Opcode::LD(LDType::Byte(LDTarget::C, LDSource::C))),
            0x4a => Ok(Opcode::LD(LDType::Byte(LDTarget::C, LDSource::D))),
            0x4b => Ok(Opcode::LD(LDType::Byte(LDTarget::C, LDSource::E))),
            0x4c => Ok(Opcode::LD(LDType::Byte(LDTarget::C, LDSource::H))),
            0x4d => Ok(Opcode::LD(LDType::Byte(LDTarget::C, LDSource::L))),
            0x4e => Ok(Opcode::LD(LDType::Byte(LDTarget::C, LDSource::HLIndirect))),
            0x4f => Ok(Opcode::LD(LDType::Byte(LDTarget::C, LDSource::A))),
            0x50 => Ok(Opcode::LD(LDType::Byte(LDTarget::D, LDSource::B))),
            0x51 => Ok(Opcode::LD(LDType::Byte(LDTarget::D, LDSource::C))),
            0x52 => Ok(Opcode::LD(LDType::Byte(LDTarget::D, LDSource::D))),
            0x53 => Ok(Opcode::LD(LDType::Byte(LDTarget::D, LDSource::E))),
            0x54 => Ok(Opcode::LD(LDType::Byte(LDTarget::D, LDSource::H))),
            0x55 => Ok(Opcode::LD(LDType::Byte(LDTarget::D, LDSource::L))),
            0x56 => Ok(Opcode::LD(LDType::Byte(LDTarget::D, LDSource::HLIndirect))),
            0x57 => Ok(Opcode::LD(LDType::Byte(LDTarget::D, LDSource::A))),
            0x58 => Ok(Opcode::LD(LDType::Byte(LDTarget::E, LDSource::B))),
            0x59 => Ok(Opcode::LD(LDType::Byte(LDTarget::E, LDSource::C))),
            0x5a => Ok(Opcode::LD(LDType::Byte(LDTarget::E, LDSource::D))),
            0x5b => Ok(Opcode::LD(LDType::Byte(LDTarget::E, LDSource::E))),
            0x5c => Ok(Opcode::LD(LDType::Byte(LDTarget::E, LDSource::H))),
            0x5d => Ok(Opcode::LD(LDType::Byte(LDTarget::E, LDSource::L))),
            0x5e => Ok(Opcode::LD(LDType::Byte(LDTarget::E, LDSource::HLIndirect))),
            0x5f => Ok(Opcode::LD(LDType::Byte(LDTarget::E, LDSource::A))),
            0x60 => Ok(Opcode::LD(LDType::Byte(LDTarget::H, LDSource::B))),
            0x61 => Ok(Opcode::LD(LDType::Byte(LDTarget::H, LDSource::C))),
            0x62 => Ok(Opcode::LD(LDType::Byte(LDTarget::H, LDSource::D))),
            0x63 => Ok(Opcode::LD(LDType::Byte(LDTarget::H, LDSource::E))),
            0x64 => Ok(Opcode::LD(LDType::Byte(LDTarget::H, LDSource::H))),
            0x65 => Ok(Opcode::LD(LDType::Byte(LDTarget::H, LDSource::L))),
            0x66 => Ok(Opcode::LD(LDType::Byte(LDTarget::H, LDSource::HLIndirect))),
            0x67 => Ok(Opcode::LD(LDType::Byte(LDTarget::H, LDSource::A))),
            0x68 => Ok(Opcode::LD(LDType::Byte(LDTarget::L, LDSource::B))),
            0x69 => Ok(Opcode::LD(LDType::Byte(LDTarget::L, LDSource::C))),
            0x6a => Ok(Opcode::LD(LDType::Byte(LDTarget::L, LDSource::D))),
            0x6b => Ok(Opcode::LD(LDType::Byte(LDTarget::L, LDSource::E))),
            0x6c => Ok(Opcode::LD(LDType::Byte(LDTarget::L, LDSource::H))),
            0x6d => Ok(Opcode::LD(LDType::Byte(LDTarget::L, LDSource::L))),
            0x6e => Ok(Opcode::LD(LDType::Byte(LDTarget::L, LDSource::HLIndirect))),
            0x6f => Ok(Opcode::LD(LDType::Byte(LDTarget::L, LDSource::A))),
            0x70 => Ok(Opcode::LD(LDType::Byte(LDTarget::HLIndirect, LDSource::B))),
            0x71 => Ok(Opcode::LD(LDType::Byte(LDTarget::HLIndirect, LDSource::C))),
            0x72 => Ok(Opcode::LD(LDType::Byte(LDTarget::HLIndirect, LDSource::D))),
            0x73 => Ok(Opcode::LD(LDType::Byte(LDTarget::HLIndirect, LDSource::E))),
            0x74 => Ok(Opcode::LD(LDType::Byte(LDTarget::HLIndirect, LDSource::H))),
            0x75 => Ok(Opcode::LD(LDType::Byte(LDTarget::HLIndirect, LDSource::L))),
            0x76 => Ok(Opcode::HALT),
            0x77 => Ok(Opcode::LD(LDType::Byte(LDTarget::HLIndirect, LDSource::A))),
            0x78 => Ok(Opcode::LD(LDType::Byte(LDTarget::A, LDSource::B))),
            0x79 => Ok(Opcode::LD(LDType::Byte(LDTarget::A, LDSource::C))),
            0x7a => Ok(Opcode::LD(LDType::Byte(LDTarget::A, LDSource::D))),
            0x7b => Ok(Opcode::LD(LDType::Byte(LDTarget::A, LDSource::E))),
            0x7c => Ok(Opcode::LD(LDType::Byte(LDTarget::A, LDSource::H))),
            0x7d => Ok(Opcode::LD(LDType::Byte(LDTarget::A, LDSource::L))),
            0x7e => Ok(Opcode::LD(LDType::Byte(LDTarget::A, LDSource::HLIndirect))),
            0x7f => Ok(Opcode::LD(LDType::Byte(LDTarget::A, LDSource::A))),
            0x80 => Ok(Opcode::ADD(ALUOperand::B)),
            0x81 => Ok(Opcode::ADD(ALUOperand::C)),
            0x82 => Ok(Opcode::ADD(ALUOperand::D)),
            0x83 => Ok(Opcode::ADD(ALUOperand::E)),
            0x84 => Ok(Opcode::ADD(ALUOperand::H)),
            0x85 => Ok(Opcode::ADD(ALUOperand::L)),
            0x86 => Ok(Opcode::ADD(ALUOperand::HLIndirect)),
            0x87 => Ok(Opcode::ADD(ALUOperand::A)),
            0x88 => Ok(Opcode::ADC(ALUOperand::B)),
            0x89 => Ok(Opcode::ADC(ALUOperand::C)),
            0x8a => Ok(Opcode::ADC(ALUOperand::D)),
            0x8b => Ok(Opcode::ADC(ALUOperand::E)),
            0x8c => Ok(Opcode::ADC(ALUOperand::H)),
            0x8d => Ok(Opcode::ADC(ALUOperand::L)),
            0x8e => Ok(Opcode::ADC(ALUOperand::HLIndirect)),
            0x8f => Ok(Opcode::ADC(ALUOperand::A)),
            0x90 => Ok(Opcode::SUB(ALUOperand::B)),
            0x91 => Ok(Opcode::SUB(ALUOperand::C)),
            0x92 => Ok(Opcode::SUB(ALUOperand::D)),
            0x93 => Ok(Opcode::SUB(ALUOperand::E)),
            0x94 => Ok(Opcode::SUB(ALUOperand::H)),
            0x95 => Ok(Opcode::SUB(ALUOperand::L)),
            0x96 => Ok(Opcode::SUB(ALUOperand::HLIndirect)),
            0x97 => Ok(Opcode::SUB(ALUOperand::A)),
            0x98 => Ok(Opcode::SBC(ALUOperand::B)),
            0x99 => Ok(Opcode::SBC(ALUOperand::C)),
            0x9a => Ok(Opcode::SBC(ALUOperand::D)),
            0x9b => Ok(Opcode::SBC(ALUOperand::E)),
            0x9c => Ok(Opcode::SBC(ALUOperand::H)),
            0x9d => Ok(Opcode::SBC(ALUOperand::L)),
            0x9e => Ok(Opcode::SBC(ALUOperand::HLIndirect)),
            0x9f => Ok(Opcode::SBC(ALUOperand::A)),
            0xa0 => Ok(Opcode::AND(ALUOperand::B)),
            0xa1 => Ok(Opcode::AND(ALUOperand::C)),
            0xa2 => Ok(Opcode::AND(ALUOperand::D)),
            0xa3 => Ok(Opcode::AND(ALUOperand::E)),
            0xa4 => Ok(Opcode::AND(ALUOperand::H)),
            0xa5 => Ok(Opcode::AND(ALUOperand::L)),
            0xa6 => Ok(Opcode::AND(ALUOperand::HLIndirect)),
            0xa7 => Ok(Opcode::AND(ALUOperand::A)),
            0xa8 => Ok(Opcode::XOR(ALUOperand::B)),
            0xa9 => Ok(Opcode::XOR(ALUOperand::C)),
            0xaa => Ok(Opcode::XOR(ALUOperand::D)),
            0xab => Ok(Opcode::XOR(ALUOperand::E)),
            0xac => Ok(Opcode::XOR(ALUOperand::H)),
            0xad => Ok(Opcode::XOR(ALUOperand::L)),
            0xae => Ok(Opcode::XOR(ALUOperand::HLIndirect)),
            0xaf => Ok(Opcode::XOR(ALUOperand::A)),
            0xb0 => Ok(Opcode::OR(ALUOperand::B)),
            0xb1 => Ok(Opcode::OR(ALUOperand::C)),
            0xb2 => Ok(Opcode::OR(ALUOperand::D)),
            0xb3 => Ok(Opcode::OR(ALUOperand::E)),
            0xb4 => Ok(Opcode::OR(ALUOperand::H)),
            0xb5 => Ok(Opcode::OR(ALUOperand::L)),
            0xb6 => Ok(Opcode::OR(ALUOperand::HLIndirect)),
            0xb7 => Ok(Opcode::OR(ALUOperand::A)),
            0xb8 => Ok(Opcode::CP(ALUOperand::B)),
            0xb9 => Ok(Opcode::CP(ALUOperand::C)),
            0xba => Ok(Opcode::CP(ALUOperand::D)),
            0xbb => Ok(Opcode::CP(ALUOperand::E)),
            0xbc => Ok(Opcode::CP(ALUOperand::H)),
            0xbd => Ok(Opcode::CP(ALUOperand::L)),
            0xbe => Ok(Opcode::CP(ALUOperand::HLIndirect)),
            0xbf => Ok(Opcode::CP(ALUOperand::A)),
            0xc0 => Ok(Opcode::RET(JCondition::NZ)),
            0xc1 => Ok(Opcode::POP(StackTarget::BC)),
            0xc2 => Ok(Opcode::JP(JCondition::NZ)),
            0xc3 => Ok(Opcode::JP(JCondition::Nothing)),
            0xc4 => Ok(Opcode::CALL(JCondition::NZ)),
            0xc5 => Ok(Opcode::PUSH(StackTarget::BC)),
            0xc6 => Ok(Opcode::ADD(ALUOperand::D8)),
            0xc7 => Ok(Opcode::RST(RSTAddress::X00)),
            0xc8 => Ok(Opcode::RET(JCondition::Z)),
            0xc9 => Ok(Opcode::RET(JCondition::Nothing)),
            0xca => Ok(Opcode::JP(JCondition::Z)),
            0xcb => Ok(Opcode::PREFIX),
            0xcc => Ok(Opcode::CALL(JCondition::Z)),
            0xcd => Ok(Opcode::CALL(JCondition::Nothing)),
            0xce => Ok(Opcode::ADC(ALUOperand::D8)),
            0xcf => Ok(Opcode::RST(RSTAddress::X08)),
            0xd0 => Ok(Opcode::RET(JCondition::NC)),
            0xd1 => Ok(Opcode::POP(StackTarget::DE)),
            0xd2 => Ok(Opcode::JP(JCondition::NC)),
            0xd4 => Ok(Opcode::CALL(JCondition::NC)),
            0xd5 => Ok(Opcode::PUSH(StackTarget::DE)),
            0xd6 => Ok(Opcode::SUB(ALUOperand::D8)),
            0xd7 => Ok(Opcode::RST(RSTAddress::X10)),
            0xd8 => Ok(Opcode::RET(JCondition::C)),
            0xd9 => Ok(Opcode::RETI),
            0xda => Ok(Opcode::JP(JCondition::C)),
            0xdc => Ok(Opcode::CALL(JCondition::C)),
            0xde => Ok(Opcode::SBC(ALUOperand::D8)),
            0xdf => Ok(Opcode::RST(RSTAddress::X18)),
            0xe0 => Ok(Opcode::LD(LDType::AddressFromA)),
            0xe1 => Ok(Opcode::POP(StackTarget::HL)),
            0xe2 => Ok(Opcode::LD(LDType::IndirectFromA(Indirect::LastByteIndirect))),
            0xe5 => Ok(Opcode::PUSH(StackTarget::HL)),
            0xe6 => Ok(Opcode::AND(ALUOperand::D8)),
            0xe7 => Ok(Opcode::RST(RSTAddress::X20)),
            0xe8 => Ok(Opcode::ADDSP),
            0xe9 => Ok(Opcode::JPI),
            0xea => Ok(Opcode::LD(LDType::IndirectFromA(Indirect::WordIndirect))),
            0xee => Ok(Opcode::XOR(ALUOperand::D8)),
            0xef => Ok(Opcode::RST(RSTAddress::X28)),
            0xf0 => Ok(Opcode::LD(LDType::AFromAddress)),
            0xf1 => Ok(Opcode::POP(StackTarget::AF)),
            0xf2 => Ok(Opcode::LD(LDType::AFromIndirect(Indirect::LastByteIndirect))),
            0xf3 => Ok(Opcode::DI),
            0xf5 => Ok(Opcode::PUSH(StackTarget::AF)),
            0xf6 => Ok(Opcode::OR(ALUOperand::D8)),
            0xf7 => Ok(Opcode::RST(RSTAddress::X30)),
            0xf8 => Ok(Opcode::LD(LDType::HLFromSPOffset)),
            0xf9 => Ok(Opcode::LD(LDType::SPFromHL)),
            0xfa => Ok(Opcode::LD(LDType::AFromIndirect(Indirect::WordIndirect))),
            0xfb => Ok(Opcode::EI),
            0xfe => Ok(Opcode::CP(ALUOperand::D8)),
            0xff => Ok(Opcode::RST(RSTAddress::X38)),
            _ => Err("unknown opcode"),
        }
    }
}

impl TryFromSpecImpl<u8> for Opcode {
    open spec fn obeys_try_from_spec() -> bool {
        true
    }

    open spec fn try_from_spec(value: u8) -> Result<Opcode, &'static str> {
        match decode(value) {
            Some(opcode) => Ok(opcode),
            None => Err("unknown opcode"),
        }
    }
}

impl TryFrom<u8> for PrefixedOpcode {
    type Error = &'static str;

    fn try_from(value: u8) -> (r: Result<Self, Self::Error>) {
        match value {
            0x00 => Ok(PrefixedOpcode::RLC(PrefixOperand::B)),
            0x01 => Ok(PrefixedOpcode::RLC(PrefixOperand::C)),
            0x02 => Ok(PrefixedOpcode::RLC(PrefixOperand::D)),
            0x03 => Ok(PrefixedOpcode::RLC(PrefixOperand::E)),
            0x04 => Ok(PrefixedOpcode::RLC(PrefixOperand::H)),
            0x05 => Ok(PrefixedOpcode::RLC(PrefixOperand::L)),
            0x06 => Ok(PrefixedOpcode::RLC(PrefixOperand::HLIndirect)),
            0x07 => Ok(PrefixedOpcode::RLC(PrefixOperand::A)),
            0x08 => Ok(PrefixedOpcode::RRC(PrefixOperand::B)),
            0x09 => Ok(PrefixedOpcode::RRC(PrefixOperand::C)),
            0x0a => Ok(PrefixedOpcode::RRC(PrefixOperand::D)),
            0x0b => Ok(PrefixedOpcode::RRC(PrefixOperand::E)),
            0x0c => Ok(PrefixedOpcode::RRC(PrefixOperand::H)),
            0x0d => Ok(PrefixedOpcode::RRC(PrefixOperand::L)),
            0x0e => Ok(PrefixedOpcode::RRC(PrefixOperand::HLIndirect)),
            0x0f => Ok(PrefixedOpcode::RRC(PrefixOperand::A)),
            0x10 => Ok(PrefixedOpcode::RL(PrefixOperand::B)),
            0x11 => Ok(PrefixedOpcode::RL(PrefixOperand::C)),
            0x12 => Ok(PrefixedOpcode::RL(PrefixOperand::D)),
            0x13 => Ok(PrefixedOpcode::RL(PrefixOperand::E)),
            0x14 => Ok(PrefixedOpcode::RL(PrefixOperand::H)),
            0x15 => Ok(PrefixedOpcode::RL(PrefixOperand::L)),
            0x16 => Ok(PrefixedOpcode::RL(PrefixOperand::HLIndirect)),
            0x17 => Ok(PrefixedOpcode::RL(PrefixOperand::A)),
            0x18 => Ok(PrefixedOpcode::RR(PrefixOperand::B)),
            0x19 => Ok(PrefixedOpcode::RR(PrefixOperand::C)),
            0x1a => Ok(PrefixedOpcode::RR(PrefixOperand::D)),
            0x1b => Ok(PrefixedOpcode::RR(PrefixOperand::E)),
            0x1c => Ok(PrefixedOpcode::RR(PrefixOperand::H)),
            0x1d => Ok(PrefixedOpcode::RR(PrefixOperand::L)),
            0x1e => Ok(PrefixedOpcode::RR(PrefixOperand::HLIndirect)),
            0x1f => Ok(PrefixedOpcode::RR(PrefixOperand::A)),
            0x20 => Ok(PrefixedOpcode::SLA(PrefixOperand::B)),
            0x21 => Ok(PrefixedOpcode::SLA(PrefixOperand::C)),
            0x22 => Ok(PrefixedOpcode::SLA(PrefixOperand::D)),
            0x23 => Ok(PrefixedOpcode::SLA(PrefixOperand::E)),
            0x24 => Ok(PrefixedOpcode::SLA(PrefixOperand::H)),
            0x25 => Ok(PrefixedOpcode::SLA(PrefixOperand::L)),
            0x26 => Ok(PrefixedOpcode::SLA(PrefixOperand::HLIndirect)),
            0x27 => Ok(PrefixedOpcode::SLA(PrefixOperand::A)),
            0x28 => Ok(PrefixedOpcode::SRA(PrefixOperand::B)),
            0x29 => Ok(PrefixedOpcode::SRA(PrefixOperand::C)),
            0x2a => Ok(PrefixedOpcode::SRA(PrefixOperand::D)),
            0x2b => Ok(PrefixedOpcode::SRA(PrefixOperand::E)),
            0x2c => Ok(PrefixedOpcode::SRA(PrefixOperand::H)),
            0x2d => Ok(PrefixedOpcode::SRA(PrefixOperand::L)),
            0x2e => Ok(PrefixedOpcode::SRA(PrefixOperand::HLIndirect)),
            0x2f => Ok(PrefixedOpcode::SRA(PrefixOperand::A)),
            0x30 => Ok(PrefixedOpcode::SWAP(PrefixOperand::B)),
            0x31 => Ok(PrefixedOpcode::SWAP(PrefixOperand::C)),
            0x32 => Ok(PrefixedOpcode::SWAP(PrefixOperand::D)),
            0x33 => Ok(PrefixedOpcode::SWAP(PrefixOperand::E)),
            0x34 => Ok(PrefixedOpcode::SWAP(PrefixOperand::H)),
            0x35 => Ok(PrefixedOpcode::SWAP(PrefixOperand::L)),
            0x36 => Ok(PrefixedOpcode::SWAP(PrefixOperand::HLIndirect)),
            0x37 => Ok(PrefixedOpcode::SWAP(PrefixOperand::A)),
            0x38 => Ok(PrefixedOpcode::SRL(PrefixOperand::B)),
            0x39 => Ok(PrefixedOpcode::SRL(PrefixOperand::C)),
            0x3a => Ok(PrefixedOpcode::SRL(PrefixOperand::D)),
            0x3b => Ok(PrefixedOpcode::SRL(PrefixOperand::E)),
            0x3c => Ok(PrefixedOpcode::SRL(PrefixOperand::H)),
            0x3d => Ok(PrefixedOpcode::SRL(PrefixOperand::L)),
            0x3e => Ok(PrefixedOpcode::SRL(PrefixOperand::HLIndirect)),
            0x3f => Ok(PrefixedOpcode::SRL(PrefixOperand::A)),
            0x40 => Ok(PrefixedOpcode::BIT(PrefixOperand::B, BitPosition::B0)),
            0x41 => Ok(PrefixedOpcode::BIT(PrefixOperand::C, BitPosition::B0)),
            0x42 => Ok(PrefixedOpcode::BIT(PrefixOperand::D, BitPosition::B0)),
            0x43 => Ok(PrefixedOpcode::BIT(PrefixOperand::E, BitPosition::B0)),
            0x44 => Ok(PrefixedOpcode::BIT(PrefixOperand::H, BitPosition::B0)),
            0x45 => Ok(PrefixedOpcode::BIT(PrefixOperand::L, BitPosition::B0)),
            0x46 => Ok(PrefixedOpcode::BIT(PrefixOperand::HLIndirect, BitPosition::B0)),
            0x47 => Ok(PrefixedOpcode::BIT(PrefixOperand::A, BitPosition::B0)),
            0x48 => Ok(PrefixedOpcode::BIT(PrefixOperand::B, BitPosition::B1)),
            0x49 => Ok(PrefixedOpcode::BIT(PrefixOperand::C, BitPosition::B1)),
            0x4a => Ok(PrefixedOpcode::BIT(PrefixOperand::D, BitPosition::B1)),
            0x4b => Ok(PrefixedOpcode::BIT(PrefixOperand::E, BitPosition::B1)),
            0x4c => Ok(PrefixedOpcode::BIT(PrefixOperand::H, BitPosition::B1)),
            0x4d => Ok(PrefixedOpcode::BIT(PrefixOperand::L, BitPosition::B1)),
            0x4e => Ok(PrefixedOpcode::BIT(PrefixOperand::HLIndirect, BitPosition::B1)),
            0x4f => Ok(PrefixedOpcode::BIT(PrefixOperand::A, BitPosition::B1)),
            0x50 => Ok(PrefixedOpcode::BIT(PrefixOperand::B, BitPosition::B2)),
            0x51 => Ok(PrefixedOpcode::BIT(PrefixOperand::C, BitPosition::B2)),
            0x52 => Ok(PrefixedOpcode::BIT(PrefixOperand::D, BitPosition::B2)),
            0x53 => Ok(PrefixedOpcode::BIT(PrefixOperand::E, BitPosition::B2)),
            0x54 => Ok(PrefixedOpcode::BIT(PrefixOperand::H, BitPosition::B2)),
            0x55 => Ok(PrefixedOpcode::BIT(PrefixOperand::L, BitPosition::B2)),
            0x56 => Ok(PrefixedOpcode::BIT(PrefixOperand::HLIndirect, BitPosition::B2)),
            0x57 => Ok(PrefixedOpcode::BIT(PrefixOperand::A, BitPosition::B2)),
            0x58 => Ok(PrefixedOpcode::BIT(PrefixOperand::B, BitPosition::B3)),
            0x59 => Ok(PrefixedOpcode::BIT(PrefixOperand::C, BitPosition::B3)),
            0x5a => Ok(PrefixedOpcode::BIT(PrefixOperand::D, BitPosition::B3)),
            0x5b => Ok(PrefixedOpcode::BIT(PrefixOperand::E, BitPosition::B3)),
            0x5c => Ok(PrefixedOpcode::BIT(PrefixOperand::H, BitPosition::B3)),
            0x5d => Ok(PrefixedOpcode::BIT(PrefixOperand::L, BitPosition::B3)),
            0x5e => Ok(PrefixedOpcode::BIT(PrefixOperand::HLIndirect, BitPosition::B3)),
            0x5f => Ok(PrefixedOpcode::BIT(PrefixOperand::A, BitPosition::B3)),
            0x60 => Ok(PrefixedOpcode::BIT(PrefixOperand::B, BitPosition::B4)),
            0x61 => Ok(PrefixedOpcode::BIT(PrefixOperand::C, BitPosition::B4)),
            0x62 => Ok(PrefixedOpcode::BIT(PrefixOperand::D, BitPosition::B4)),
            0x63 => Ok(PrefixedOpcode::BIT(PrefixOperand::E, BitPosition::B4)),
            0x64 => Ok(PrefixedOpcode::BIT(PrefixOperand::H, BitPosition::B4)),
            0x65 => Ok(PrefixedOpcode::BIT(PrefixOperand::L, BitPosition::B4)),
            0x66 => Ok(PrefixedOpcode::BIT(PrefixOperand::HLIndirect, BitPosition::B4)),
            0x67 => Ok(PrefixedOpcode::BIT(PrefixOperand::A, BitPosition::B4)),
            0x68 => Ok(PrefixedOpcode::BIT(PrefixOperand::B, BitPosition::B5)),
            0x69 => Ok(PrefixedOpcode::BIT(PrefixOperand::C, BitPosition::B5)),
            0x6a => Ok(PrefixedOpcode::BIT(PrefixOperand::D, BitPosition::B5)),
            0x6b => Ok(PrefixedOpcode::BIT(PrefixOperand::E, BitPosition::B5)),
            0x6c => Ok(PrefixedOpcode::BIT(PrefixOperand::H, BitPosition::B5)),
            0x6d => Ok(PrefixedOpcode::BIT(PrefixOperand::L, BitPosition::B5)),
            0x6e => Ok(PrefixedOpcode::BIT(PrefixOperand::HLIndirect, BitPosition::B5)),
            0x6f => Ok(PrefixedOpcode::BIT(PrefixOperand::A, BitPosition::B5)),
            0x70 => Ok(PrefixedOpcode::BIT(PrefixOperand::B, BitPosition::B6)),
            0x71 => Ok(PrefixedOpcode::BIT(PrefixOperand::C, BitPosition::B6)),
            0x72 => Ok(PrefixedOpcode::BIT(PrefixOperand::D, BitPosition::B6)),
            0x73 => Ok(PrefixedOpcode::BIT(PrefixOperand::E, BitPosition::B6)),
            0x74 => Ok(PrefixedOpcode::BIT(PrefixOperand::H, BitPosition::B6)),
            0x75 => Ok(PrefixedOpcode::BIT(PrefixOperand::L, BitPosition::B6)),
            0x76 => Ok(PrefixedOpcode::BIT(PrefixOperand::HLIndirect, BitPosition::B6)),
            0x77 => Ok(PrefixedOpcode::BIT(PrefixOperand::A, BitPosition::B6)),
            0x78 => Ok(PrefixedOpcode::BIT(PrefixOperand::B, BitPosition::B7)),
            0x79 => Ok(PrefixedOpcode::BIT(PrefixOperand::C, BitPosition::B7)),
            0x7a => Ok(PrefixedOpcode::BIT(PrefixOperand::D, BitPosition::B7)),
            0x7b => Ok(PrefixedOpcode::BIT(PrefixOperand::E, BitPosition::B7)),
            0x7c => Ok(PrefixedOpcode::BIT(PrefixOperand::H, BitPosition::B7)),
            0x7d => Ok(PrefixedOpcode::BIT(PrefixOperand::L, BitPosition::B7)),
            0x7e => Ok(PrefixedOpcode::BIT(PrefixOperand::HLIndirect, BitPosition::B7)),
            0x7f => Ok(PrefixedOpcode::BIT(PrefixOperand::A, BitPosition::B7)),
            0x80 => Ok(PrefixedOpcode::RES(PrefixOperand::B, BitPosition::B0)),
            0x81 => Ok(PrefixedOpcode::RES(PrefixOperand::C, BitPosition::B0)),
            0x82 => Ok(PrefixedOpcode::RES(PrefixOperand::D, BitPosition::B0)),
            0x83 => Ok(PrefixedOpcode::RES(PrefixOperand::E, BitPosition::B0)),
            0x84 => Ok(PrefixedOpcode::RES(PrefixOperand::H, BitPosition::B0)),
            0x85 => Ok(PrefixedOpcode::RES(PrefixOperand::L, BitPosition::B0)),
            0x86 => Ok(PrefixedOpcode::RES(PrefixOperand::HLIndirect, BitPosition::B0)),
            0x87 => Ok(PrefixedOpcode::RES(PrefixOperand::A, BitPosition::B0)),
            0x88 => Ok(PrefixedOpcode::RES(PrefixOperand::B, BitPosition::B1)),
            0x89 => Ok(PrefixedOpcode::RES(PrefixOperand::C, BitPosition::B1)),
            0x8a => Ok(PrefixedOpcode::RES(PrefixOperand::D, BitPosition::B1)),
            0x8b => Ok(PrefixedOpcode::RES(PrefixOperand::E, BitPosition::B1)),
            0x8c => Ok(PrefixedOpcode::RES(PrefixOperand::H, BitPosition::B1)),
            0x8d => Ok(PrefixedOpcode::RES(PrefixOperand::L, BitPosition::B1)),
            0x8e => Ok(PrefixedOpcode::RES(PrefixOperand::HLIndirect, BitPosition::B1)),
            0x8f => Ok(PrefixedOpcode::RES(PrefixOperand::A, BitPosition::B1)),
            0x90 => Ok(PrefixedOpcode::RES(PrefixOperand::B, BitPosition::B2)),
            0x91 => Ok(PrefixedOpcode::RES(PrefixOperand::C, BitPosition::B2)),
            0x92 => Ok(PrefixedOpcode::RES(PrefixOperand::D, BitPosition::B2)),
            0x93 => Ok(PrefixedOpcode::RES(PrefixOperand::E, BitPosition::B2)),
            0x94 => Ok(PrefixedOpcode::RES(PrefixOperand::H, BitPosition::B2)),
            0x95 => Ok(PrefixedOpcode::RES(PrefixOperand::L, BitPosition::B2)),
            0x96 => Ok(PrefixedOpcode::RES(PrefixOperand::HLIndirect, BitPosition::B2)),
            0x97 => Ok(PrefixedOpcode::RES(PrefixOperand::A, BitPosition::B2)),
            0x98 => Ok(PrefixedOpcode::RES(PrefixOperand::B, BitPosition::B3)),
            0x99 => Ok(PrefixedOpcode::RES(PrefixOperand::C, BitPosition::B3)),
            0x9a => Ok(PrefixedOpcode::RES(PrefixOperand::D, BitPosition::B3)),
            0x9b => Ok(PrefixedOpcode::RES(PrefixOperand::E, BitPosition::B3)),
            0x9c => Ok(PrefixedOpcode::RES(PrefixOperand::H, BitPosition::B3)),
            0x9d => Ok(PrefixedOpcode::RES(PrefixOperand::L, BitPosition::B3)),
            0x9e => Ok(PrefixedOpcode::RES(PrefixOperand::HLIndirect, BitPosition::B3)),
            0x9f => Ok(PrefixedOpcode::RES(PrefixOperand::A, BitPosition::B3)),
            0xa0 => Ok(PrefixedOpcode::RES(PrefixOperand::B, BitPosition::B4)),
            0xa1 => Ok(PrefixedOpcode::RES(PrefixOperand::C, BitPosition::B4)),
            0xa2 => Ok(PrefixedOpcode::RES(PrefixOperand::D, BitPosition::B4)),
            0xa3 => Ok(PrefixedOpcode::RES(PrefixOperand::E, BitPosition::B4)),
            0xa4 => Ok(PrefixedOpcode::RES(PrefixOperand::H, BitPosition::B4)),
            0xa5 => Ok(PrefixedOpcode::RES(PrefixOperand::L, BitPosition::B4)),
            0xa6 => Ok(PrefixedOpcode::RES(PrefixOperand::HLIndirect, BitPosition::B4)),
            0xa7 => Ok(PrefixedOpcode::RES(PrefixOperand::A, BitPosition::B4)),
            0xa8 => Ok(PrefixedOpcode::RES(PrefixOperand::B, BitPosition::B5)),
            0xa9 => Ok(PrefixedOpcode::RES(PrefixOperand::C, BitPosition::B5)),
            0xaa => Ok(PrefixedOpcode::RES(PrefixOperand::D, BitPosition::B5)),
            0xab => Ok(PrefixedOpcode::RES(PrefixOperand::E, BitPosition::B5)),
            0xac => Ok(PrefixedOpcode::RES(PrefixOperand::H, BitPosition::B5)),
            0xad => Ok(PrefixedOpcode::RES(PrefixOperand::L, BitPosition::B5)),
            0xae => Ok(PrefixedOpcode::RES(PrefixOperand::HLIndirect, BitPosition::B5)),
            0xaf => Ok(PrefixedOpcode::RES(PrefixOperand::A, BitPosition::B5)),
            0xb0 => Ok(PrefixedOpcode::RES(PrefixOperand::B, BitPosition::B6)),
            0xb1 => Ok(PrefixedOpcode::RES(PrefixOperand::C, BitPosition::B6)),
            0xb2 => Ok(PrefixedOpcode::RES(PrefixOperand::D, BitPosition::B6)),
            0xb3 => Ok(PrefixedOpcode::RES(PrefixOperand::E, BitPosition::B6)),
            0xb4 => Ok(PrefixedOpcode::RES(PrefixOperand::H, BitPosition::B6)),
            0xb5 => Ok(PrefixedOpcode::RES(PrefixOperand::L, BitPosition::B6)),
            0xb6 => Ok(PrefixedOpcode::RES(PrefixOperand::HLIndirect, BitPosition::B6)),
            0xb7 => Ok(PrefixedOpcode::RES(PrefixOperand::A, BitPosition::B6)),
            0xb8 => Ok(PrefixedOpcode::RES(PrefixOperand::B, BitPosition::B7)),
            0xb9 => Ok(PrefixedOpcode::RES(PrefixOperand::C, BitPosition::B7)),
            0xba => Ok(PrefixedOpcode::RES(PrefixOperand::D, BitPosition::B7)),
            0xbb => Ok(PrefixedOpcode::RES(PrefixOperand::E, BitPosition::B7)),
            0xbc => Ok(PrefixedOpcode::RES(PrefixOperand::H, BitPosition::B7)),
            0xbd => Ok(PrefixedOpcode::RES(PrefixOperand::L, BitPosition::B7)),
            0xbe => Ok(PrefixedOpcode::RES(PrefixOperand::HLIndirect, BitPosition::B7)),
            0xbf => Ok(PrefixedOpcode::RES(PrefixOperand::A, BitPosition::B7)),
            0xc0 => Ok(PrefixedOpcode::SET(PrefixOperand::B, BitPosition::B0)),
            0xc1 => Ok(PrefixedOpcode::SET(PrefixOperand::C, BitPosition::B0)),
            0xc2 => Ok(PrefixedOpcode::SET(PrefixOperand::D, BitPosition::B0)),
            0xc3 => Ok(PrefixedOpcode::SET(PrefixOperand::E, BitPosition::B0)),
            0xc4 => Ok(PrefixedOpcode::SET(PrefixOperand::H, BitPosition::B0)),
            0xc5 => Ok(PrefixedOpcode::SET(PrefixOperand::L, BitPosition::B0)),
            0xc6 => Ok(PrefixedOpcode::SET(PrefixOperand::HLIndirect, BitPosition::B0)),
            0xc7 => Ok(PrefixedOpcode::SET(PrefixOperand::A, BitPosition::B0)),
            0xc8 => Ok(PrefixedOpcode::SET(PrefixOperand::B, BitPosition::B1)),
            0xc9 => Ok(PrefixedOpcode::SET(PrefixOperand::C, BitPosition::B1)),
            0xca => Ok(PrefixedOpcode::SET(PrefixOperand::D, BitPosition::B1)),
            0xcb => Ok(PrefixedOpcode::SET(PrefixOperand::E, BitPosition::B1)),
            0xcc => Ok(PrefixedOpcode::SET(PrefixOperand::H, BitPosition::B1)),
            0xcd => Ok(PrefixedOpcode::SET(PrefixOperand::L, BitPosition::B1)),
            0xce => Ok(PrefixedOpcode::SET(PrefixOperand::HLIndirect, BitPosition::B1)),
            0xcf => Ok(PrefixedOpcode::SET(PrefixOperand::A, BitPosition::B1)),
            0xd0 => Ok(PrefixedOpcode::SET(PrefixOperand::B, BitPosition::B2)),
            0xd1 => Ok(PrefixedOpcode::SET(PrefixOperand::C, BitPosition::B2)),
            0xd2 => Ok(PrefixedOpcode::SET(PrefixOperand::D, BitPosition::B2)),
            0xd3 => Ok(PrefixedOpcode::SET(PrefixOperand::E, BitPosition::B2)),
            0xd4 => Ok(PrefixedOpcode::SET(PrefixOperand::H, BitPosition::B2)),
            0xd5 => Ok(PrefixedOpcode::SET(PrefixOperand::L, BitPosition::B2)),
            0xd6 => Ok(PrefixedOpcode::SET(PrefixOperand::HLIndirect, BitPosition::B2)),
            0xd7 => Ok(PrefixedOpcode::SET(PrefixOperand::A, BitPosition::B2)),
            0xd8 => Ok(PrefixedOpcode::SET(PrefixOperand::B, BitPosition::B3)),
            0xd9 => Ok(PrefixedOpcode::SET(PrefixOperand::C, BitPosition::B3)),
            0xda => Ok(PrefixedOpcode::SET(PrefixOperand::D, BitPosition::B3)),
            0xdb => Ok(PrefixedOpcode::SET(PrefixOperand::E, BitPosition::B3)),
            0xdc => Ok(PrefixedOpcode::SET(PrefixOperand::H, BitPosition::B3)),
            0xdd => Ok(PrefixedOpcode::SET(PrefixOperand::L, BitPosition::B3)),
            0xde => Ok(PrefixedOpcode::SET(PrefixOperand::HLIndirect, BitPosition::B3)),
            0xdf => Ok(PrefixedOpcode::SET(PrefixOperand::A, BitPosition::B3)),
            0xe0 => Ok(PrefixedOpcode::SET(PrefixOperand::B, BitPosition::B4)),
            0xe1 => Ok(PrefixedOpcode::SET(PrefixOperand::C, BitPosition::B4)),
            0xe2 => Ok(PrefixedOpcode::SET(PrefixOperand::D, BitPosition::B4)),
            0xe3 => Ok(PrefixedOpcode::SET(PrefixOperand::E, BitPosition::B4)),
            0xe4 => Ok(PrefixedOpcode::SET(PrefixOperand::H, BitPosition::B4)),
            0xe5 => Ok(PrefixedOpcode::SET(PrefixOperand::L, BitPosition::B4)),
            0xe6 => Ok(PrefixedOpcode::SET(PrefixOperand::HLIndirect, BitPosition::B4)),
            0xe7 => Ok(PrefixedOpcode::SET(PrefixOperand::A, BitPosition::B4)),
            0xe8 => Ok(PrefixedOpcode::SET(PrefixOperand::B, BitPosition::B5)),
            0xe9 => Ok(PrefixedOpcode::SET(PrefixOperand::C, BitPosition::B5)),
            0xea => Ok(PrefixedOpcode::SET(PrefixOperand::D, BitPosition::B5)),
            0xeb => Ok(PrefixedOpcode::SET(PrefixOperand::E, BitPosition::B5)),
            0xec => Ok(PrefixedOpcode::SET(PrefixOperand::H, BitPosition::B5)),
            0xed => Ok(PrefixedOpcode::SET(PrefixOperand::L, BitPosition::B5)),
            0xee => Ok(PrefixedOpcode::SET(PrefixOperand::HLIndirect, BitPosition::B5)),
            0xef => Ok(PrefixedOpcode::SET(PrefixOperand::A, BitPosition::B5)),
            0xf0 => Ok(PrefixedOpcode::SET(PrefixOperand::B, BitPosition::B6)),
            0xf1 => Ok(PrefixedOpcode::SET(PrefixOperand::C, BitPosition::B6)),
            0xf2 => Ok(PrefixedOpcode::SET(PrefixOperand::D, BitPosition::B6)),
            0xf3 => Ok(PrefixedOpcode::SET(PrefixOperand::E, BitPosition::B6)),
            0xf4 => Ok(PrefixedOpcode::SET(PrefixOperand::H, BitPosition::B6)),
            0xf5 => Ok(PrefixedOpcode::SET(PrefixOperand::L, BitPosition::B6)),
            0xf6 => Ok(PrefixedOpcode::SET(PrefixOperand::HLIndirect, BitPosition::B6)),
            0xf7 => Ok(PrefixedOpcode::SET(PrefixOperand::A, BitPosition::B6)),
            0xf8 => Ok(PrefixedOpcode::SET(PrefixOperand::B, BitPosition::B7)),
            0xf9 => Ok(PrefixedOpcode::SET(PrefixOperand::C, BitPosition::B7)),
            0xfa => Ok(PrefixedOpcode::SET(PrefixOperand::D, BitPosition::B7)),
            0xfb => Ok(PrefixedOpcode::SET(PrefixOperand::E, BitPosition::B7)),
            0xfc => Ok(PrefixedOpcode::SET(PrefixOperand::H, BitPosition::B7)),
            0xfd => Ok(PrefixedOpcode::SET(PrefixOperand::L, BitPosition::B7)),
            0xfe => Ok(PrefixedOpcode::SET(PrefixOperand::HLIndirect, BitPosition::B7)),
            0xff => Ok(PrefixedOpcode::SET(PrefixOperand::A, BitPosition::B7)),
        }
    }
}

impl TryFromSpecImpl<u8> for PrefixedOpcode {
    open spec fn obeys_try_from_spec() -> bool {
        true
    }

    open spec fn try_from_spec(value: u8) -> Result<PrefixedOpcode, &'static str> {
        Ok(decode_prefixed(value))
    }
}

impl BitPosition {
    /// The number of the bit, 0 to 7.
    pub open spec fn spec_index(self) -> u8 {
        match self {
            BitPosition::B0 => 0,
            BitPosition::B1 => 1,
            BitPosition::B2 => 2,
            BitPosition::B3 => 3,
            BitPosition::B4 => 4,
            BitPosition::B5 => 5,
            BitPosition::B6 => 6,
            BitPosition::B7 => 7,
        }
    }

    /// The number of the bit, 0 to 7.
    #[verifier::when_used_as_spec(spec_index)]
    pub fn index(self) -> (i: u8)
        ensures
            i == self.spec_index(),
            i < 8,
    {
        match self {
            BitPosition::B0 => 0,
            BitPosition::B1 => 1,
            BitPosition::B2 => 2,
            BitPosition::B3 => 3,
            BitPosition::B4 => 4,
            BitPosition::B5 => 5,
            BitPosition::B6 => 6,
            BitPosition::B7 => 7,
        }
    }
}

impl RSTAddress {
    /// The address called.
    pub open spec fn spec_address(self) -> u16 {
        match self {
            RSTAddress::X00 => 0x00,
            RSTAddress::X08 => 0x08,
            RSTAddress::X10 => 0x10,
            RSTAddress::X18 => 0x18,
            RSTAddress::X20 => 0x20,
            RSTAddress::X28 => 0x28,
            RSTAddress::X30 => 0x30,
            RSTAddress::X38 => 0x38,
        }
    }

    /// The address called.
    #[verifier::when_used_as_spec(spec_address)]
    pub fn address(self) -> (a: u16)
        ensures
            a == self.spec_address(),
    {
        match self {
            RSTAddress::X00 => 0x00,
            RSTAddress::X08 => 0x08,
            RSTAddress::X10 => 0x10,
            RSTAddress::X18 => 0x18,
            RSTAddress::X20 => 0x20,
            RSTAddress::X28 => 0x28,
            RSTAddress::X30 => 0x30,
            RSTAddress::X38 => 0x38,
        }
    }
}

impl LDTarget {
    /// The register or memory byte that the target names.
    pub open spec fn spec_place(self) -> PrefixOperand {
        match self {
            LDTarget::A => PrefixOperand::A,
            LDTarget::B => PrefixOperand::B,
            LDTarget::C => PrefixOperand::C,
            LDTarget::D => PrefixOperand::D,
            LDTarget::E => PrefixOperand::E,
            LDTarget::H => PrefixOperand::H,
            LDTarget::L => PrefixOperand::L,
            LDTarget::HLIndirect => PrefixOperand::HLIndirect,
        }
    }

    /// The register or memory byte named, if any.
    #[verifier::when_used_as_spec(spec_place)]
    pub fn place(self) -> (p: PrefixOperand)
        ensures
            p == self.spec_place(),
    {
        match self {
            LDTarget::A => PrefixOperand::A,
            LDTarget::B => PrefixOperand::B,
            LDTarget::C => PrefixOperand::C,
            LDTarget::D => PrefixOperand::D,
            LDTarget::E => PrefixOperand::E,
            LDTarget::H => PrefixOperand::H,
            LDTarget::L => PrefixOperand::L,
            LDTarget::HLIndirect => PrefixOperand::HLIndirect,
        }
    }
}

impl LDSource {
    /// The register or memory byte that the source names; the immediate byte is no place.
    pub open spec fn spec_place(self) -> Option<PrefixOperand> {
        match self {
            LDSource::A => Some(PrefixOperand::A),
            LDSource::B => Some(PrefixOperand::B),
            LDSource::C => Some(PrefixOperand::C),
            LDSource::D => Some(PrefixOperand::D),
            LDSource::E => Some(PrefixOperand::E),
            LDSource::H => Some(PrefixOperand::H),
            LDSource::L => Some(PrefixOperand::L),
            LDSource::HLIndirect => Some(PrefixOperand::HLIndirect),
            LDSource::D8 => None,
        }
    }

    /// The register or memory byte named, if any.
    #[verifier::when_used_as_spec(spec_place)]
    pub fn place(self) -> (p: Option<PrefixOperand>)
        ensures
            p == self.spec_place(),
    {
        match self {
            LDSource::A => Some(PrefixOperand::A),
            LDSource::B => Some(PrefixOperand::B),
            LDSource::C => Some(PrefixOperand::C),
            LDSource::D => Some(PrefixOperand::D),
            LDSource::E => Some(PrefixOperand::E),
            LDSource::H => Some(PrefixOperand::H),
            LDSource::L => Some(PrefixOperand::L),
            LDSource::HLIndirect => Some(PrefixOperand::HLIndirect),
            LDSource::D8 => None,
        }
    }
}

impl ALUOperand {
    /// The register or memory byte that the operand names; the immediate byte is no place.
    pub open spec fn spec_place(self) -> Option<PrefixOperand> {
        match self {
            ALUOperand::A => Some(PrefixOperand::A),
            ALUOperand::B => Some(PrefixOperand::B),
            ALUOperand::C => Some(PrefixOperand::C),
            ALUOperand::D => Some(PrefixOperand::D),
            ALUOperand::E => Some(PrefixOperand::E),
            ALUOperand::H => Some(PrefixOperand::H),
            ALUOperand::L => Some(PrefixOperand::L),
            ALUOperand::HLIndirect => Some(PrefixOperand::HLIndirect),
            ALUOperand::D8 => None,
        }
    }

    /// The register or memory byte named, if any.
    #[verifier::when_used_as_spec(spec_place)]
    pub fn place(self) -> (p: Option<PrefixOperand>)
        ensures
            p == self.spec_place(),
    {
        match self {
            ALUOperand::A => Some(PrefixOperand::A),
            ALUOperand::B => Some(PrefixOperand::B),
            ALUOperand::C => Some(PrefixOperand::C),
            ALUOperand::D => Some(PrefixOperand::D),
            ALUOperand::E => Some(PrefixOperand::E),
            ALUOperand::H => Some(PrefixOperand::H),
            ALUOperand::L => Some(PrefixOperand::L),
            ALUOperand::HLIndirect => Some(PrefixOperand::HLIndirect),
            ALUOperand::D8 => None,
        }
    }
}

/// A 16-bit register: a pair of 8-bit registers or the stack pointer.
#[derive(Debug, Clone, Copy, PartialEq, Eq, Structural)]
pub enum WordRegister {
    AF,
    BC,
    DE,
    HL,
    SP,
}

impl IncDecTarget {
    /// The byte that an 8-bit target names; the 16-bit targets name none.
    pub open spec fn spec_place(self) -> Option<PrefixOperand> {
        match self {
            IncDecTarget::A => Some(PrefixOperand::A),
            IncDecTarget::B => Some(PrefixOperand::B),
            IncDecTarget::C => Some(PrefixOperand::C),
            IncDecTarget::D => Some(PrefixOperand::D),
            IncDecTarget::E => Some(PrefixOperand::E),
            IncDecTarget::H => Some(PrefixOperand::H),
            IncDecTarget::L => Some(PrefixOperand::L),
            IncDecTarget::HLIndirect => Some(PrefixOperand::HLIndirect),
            _ => None,
        }
    }

    /// The register or memory byte named, if any.
    #[verifier::when_used_as_spec(spec_place)]
    pub fn place(self) -> (p: Option<PrefixOperand>)
        ensures
            p == self.spec_place(),
    {
        match self {
            IncDecTarget::A => Some(PrefixOperand::A),
            IncDecTarget::B => Some(PrefixOperand::B),
            IncDecTarget::C => Some(PrefixOperand::C),
            IncDecTarget::D => Some(PrefixOperand::D),
            IncDecTarget::E => Some(PrefixOperand::E),
            IncDecTarget::H => Some(PrefixOperand::H),
            IncDecTarget::L => Some(PrefixOperand::L),
            IncDecTarget::HLIndirect => Some(PrefixOperand::HLIndirect),
            _ => None,
        }
    }

    /// The 16-bit register that a 16-bit target names; for the 8-bit
    /// targets this is `HL`.
    pub open spec fn spec_word(self) -> WordRegister {
        match self {
            IncDecTarget::BC => WordRegister::BC,
            IncDecTarget::DE => WordRegister::DE,
            IncDecTarget::SP => WordRegister::SP,
            _ => WordRegister::HL,
        }
    }

    /// The 16-bit register that a 16-bit target names.
    #[verifier::when_used_as_spec(spec_word)]
    pub fn word(self) -> (w: WordRegister)
        ensures
            w == self.spec_word(),
    {
        match self {
            IncDecTarget::BC => WordRegister::BC,
            IncDecTarget::DE => WordRegister::DE,
            IncDecTarget::SP => WordRegister::SP,
            _ => WordRegister::HL,
        }
    }
}

impl ADDHLOperand {
    /// The 16-bit register named.
    pub open spec fn spec_word(self) -> WordRegister {
        match self {
            ADDHLOperand::BC => WordRegister::BC,
            ADDHLOperand::DE => WordRegister::DE,
            ADDHLOperand::HL => WordRegister::HL,
            ADDHLOperand::SP => WordRegister::SP,
        }
    }

    /// The 16-bit register that the operand names.
    #[verifier::when_used_as_spec(spec_word)]
    pub fn word(self) -> (w: WordRegister)
        ensures
            w == self.spec_word(),
    {
        match self {
            ADDHLOperand::BC => WordRegister::BC,
            ADDHLOperand::DE => WordRegister::DE,
            ADDHLOperand::HL => WordRegister::HL,
            ADDHLOperand::SP => WordRegister::SP,
        }
    }
}

impl LDWordTarget {
    /// The 16-bit register named.
    pub open spec fn spec_word(self) -> WordRegister {
        match self {
            LDWordTarget::BC => WordRegister::BC,
            LDWordTarget::DE => WordRegister::DE,
            LDWordTarget::HL => WordRegister::HL,
            LDWordTarget::SP => WordRegister::SP,
        }
    }

    /// The 16-bit register that the target names.
    #[verifier::when_used_as_spec(spec_word)]
    pub fn word(self) -> (w: WordRegister)
        ensures
            w == self.spec_word(),
    {
        match self {
            LDWordTarget::BC => WordRegister::BC,
            LDWordTarget::DE => WordRegister::DE,
            LDWordTarget::HL => WordRegister::HL,
            LDWordTarget::SP => WordRegister::SP,
        }
    }
}

impl StackTarget {
    /// The 16-bit register named.
    pub open spec fn spec_word(self) -> WordRegister {
        match self {
            StackTarget::AF => WordRegister::AF,
            StackTarget::BC => WordRegister::BC,
            StackTarget::DE => WordRegister::DE,
            StackTarget::HL => WordRegister::HL,
        }
    }

    /// The register pair that the target names.
    #[verifier::when_used_as_spec(spec_word)]
    pub fn word(self) -> (w: WordRegister)
        ensures
            w == self.spec_word(),
    {
        match self {
            StackTarget::AF => WordRegister::AF,
            StackTarget::BC => WordRegister::BC,
            StackTarget::DE => WordRegister::DE,
            StackTarget::HL => WordRegister::HL,
        }
    }
}

} // verus!
