//! Mnemonic resolution: six per-format tables map an already classified
//! word's sub-opcode field to one of the named instruction variants, or
//! reject the bit pattern as unassigned.

use super::itype::{
    spec_classify, Branch, DecodeError, Immediate, InstructionType, Jump, Memory, RegImm,
    Special,
};
use vstd::prelude::*;

verus! {

/// A decoded instruction: one mnemonic wrapping the format record it was
/// resolved from.
#[derive(Debug, Clone, Copy, PartialEq, Eq, Structural)]
pub enum Instruction {
    Add(Special),
    AddI(Immediate),
    AddIU(Immediate),
    AddU(Special),
    And(Special),
    AndI(Immediate),
    Beq(Branch),
    BeqL(Branch),
    BgeZ(RegImm),
    BgeZal(RegImm),
    BgeZall(RegImm),
    BgeZl(RegImm),
    BgtZ(Branch),
    BgtZl(Branch),
    BleZ(Branch),
    BleZl(Branch),
    BltZ(RegImm),
    BltZal(RegImm),
    BltZall(RegImm),
    BltZl(RegImm),
    Bne(Branch),
    BneL(Branch),
    Break(Special),
    DAdd(Special),
    DAddI(Immediate),
    DAddIU(Immediate),
    DAddU(Special),
    DDiv(Special),
    DDivU(Special),
    Div(Special),
    DivU(Special),
    DMult(Special),
    DMultU(Special),
    DslL(Special),
    DslL32(Special),
    DslLV(Special),
    DsRA(Special),
    DsRA32(Special),
    DsRAV(Special),
    DsRL(Special),
    DsRL32(Special),
    DsRLV(Special),
    DSub(Special),
    DSubU(Special),
    J(Jump),
    JAL(Jump),
    JALR(Special),
    JR(Special),
    LB(Memory),
    LBU(Memory),
    LD(Memory),
    LDL(Memory),
    LDR(Memory),
    LH(Memory),
    LHU(Memory),
    LL(Memory),
    LLD(Memory),
    LUI(Memory),
    LW(Memory),
    LWL(Memory),
    LWR(Memory),
    LWU(Memory),
    MfHi(Special),
    MfLo(Special),
    MovN(Special),
    MovZ(Special),
    MtHi(Special),
    MtLo(Special),
    Mult(Special),
    MultU(Special),
    NOr(Special),
    Or(Special),
    OrI(Immediate),
    SB(Memory),
    SC(Memory),
    SCD(Memory),
    SD(Memory),
    SDL(Memory),
    SDR(Memory),
    SH(Memory),
    SLL(Special),
    SLLV(Special),
    SLt(Special),
    SLtI(Immediate),
    SLtIU(Immediate),
    SRA(Special),
    SRAV(Special),
    SRL(Special),
    SRLV(Special),
    Sub(Special),
    SubU(Special),
    SW(Memory),
    SWL(Memory),
    SWR(Memory),
    SYNC(Special),
    Syscall(Special),
    TEq(Special),
    TEqI(RegImm),
    TGe(Special),
    TGeI(RegImm),
    TGeIU(RegImm),
    TGeU(Special),
    TLt(Special),
    TLtI(RegImm),
    TLtIU(RegImm),
    TLtU(Special),
    TNe(Special),
    TNeI(RegImm),
    XOr(Special),
    XOrI(Immediate),
}

pub open spec fn spec_decode_special(ityp: Special) -> Result<Instruction, DecodeError> {
    if ityp.opcode == 0b100000 {
        Ok(Instruction::Add(ityp))
    } else if ityp.opcode == 0b100001 {
        Ok(Instruction::AddU(ityp))
    } else if ityp.opcode == 0b100100 {
        Ok(Instruction::And(ityp))
    } else if ityp.opcode == 0b001101 {
        Ok(Instruction::Break(ityp))
    } else if ityp.opcode == 0b101100 {
        Ok(Instruction::DAdd(ityp))
    } else if ityp.opcode == 0b101101 {
        Ok(Instruction::DAddU(ityp))
    } else if ityp.opcode == 0b011110 {
        Ok(Instruction::DDiv(ityp))
    } else if ityp.opcode == 0b011111 {
        Ok(Instruction::DDivU(ityp))
    } else if ityp.opcode == 0b011010 {
        Ok(Instruction::Div(ityp))
    } else if ityp.opcode == 0b011011 {
        Ok(Instruction::DivU(ityp))
    } else if ityp.opcode == 0b011100 {
        Ok(Instruction::DMult(ityp))
    } else if ityp.opcode == 0b011101 {
        Ok(Instruction::DMultU(ityp))
    } else if ityp.opcode == 0b111000 {
        Ok(Instruction::DslL(ityp))
    } else if ityp.opcode == 0b111100 {
        Ok(Instruction::DslL32(ityp))
    } else if ityp.opcode == 0b010100 {
        Ok(Instruction::DslLV(ityp))
    } else if ityp.opcode == 0b111011 {
        Ok(Instruction::DsRA(ityp))
    } else if ityp.opcode == 0b111111 {
        Ok(Instruction::DsRA32(ityp))
    } else if ityp.opcode == 0b010111 {
        Ok(Instruction::DsRAV(ityp))
    } else if ityp.opcode == 0b111010 {
        Ok(Instruction::DsRL(ityp))
    } else if ityp.opcode == 0b111110 {
        Ok(Instruction::DsRL32(ityp))
    } else if ityp.opcode == 0b010110 {
        Ok(Instruction::DsRLV(ityp))
    } else if ityp.opcode == 0b101110 {
        Ok(Instruction::DSub(ityp))
    } else if ityp.opcode == 0b101111 {
        Ok(Instruction::DSubU(ityp))
    } else if ityp.opcode == 0b001001 {
        Ok(Instruction::JALR(ityp))
    } else if ityp.opcode == 0b001000 {
        Ok(Instruction::JR(ityp))
    } else if ityp.opcode == 0b010000 {
        Ok(Instruction::MfHi(ityp))
    } else if ityp.opcode == 0b010010 {
        Ok(Instruction::MfLo(ityp))
    } else if ityp.opcode == 0b001011 {
        Ok(Instruction::MovN(ityp))
    } else if ityp.opcode == 0b001010 {
        Ok(Instruction::MovZ(ityp))
    } else if ityp.opcode == 0b010001 {
        Ok(Instruction::MtHi(ityp))
    } else if ityp.opcode == 0b010011 {
        Ok(Instruction::MtLo(ityp))
    } else if ityp.opcode == 0b011000 {
        Ok(Instruction::Mult(ityp))
    } else if ityp.opcode == 0b011001 {
        Ok(Instruction::MultU(ityp))
    } else if ityp.opcode == 0b100111 {
        Ok(Instruction::NOr(ityp))
    } else if ityp.opcode == 0b100101 {
        Ok(Instruction::Or(ityp))
    } else if ityp.opcode == 0b000000 {
        Ok(Instruction::SLL(ityp))
    } else if ityp.opcode == 0b000100 {
        Ok(Instruction::SLLV(ityp))
    } else if ityp.opcode == 0b101010 {
        Ok(Instruction::SLt(ityp))
    } else if ityp.opcode == 0b000011 {
        Ok(Instruction::SRA(ityp))
    } else if ityp.opcode == 0b000111 {
        Ok(Instruction::SRAV(ityp))
    } else if ityp.opcode == 0b000010 {
        Ok(Instruction::SRL(ityp))
    } else if ityp.opcode == 0b000110 {
        Ok(Instruction::SRLV(ityp))
    } else if ityp.opcode == 0b100010 {
        Ok(Instruction::Sub(ityp))
    } else if ityp.opcode == 0b100011 {
        Ok(Instruction::SubU(ityp))
    } else if ityp.opcode == 0b001111 {
        Ok(Instruction::SYNC(ityp))
    } else if ityp.opcode == 0b001100 {
        Ok(Instruction::Syscall(ityp))
    } else if ityp.opcode == 0b110100 {
        Ok(Instruction::TEq(ityp))
    } else if ityp.opcode == 0b110000 {
        Ok(Instruction::TGe(ityp))
    } else if ityp.opcode == 0b110001 {
        Ok(Instruction::TGeU(ityp))
    } else if ityp.opcode == 0b110010 {
        Ok(Instruction::TLt(ityp))
    } else if ityp.opcode == 0b110011 {
        Ok(Instruction::TLtU(ityp))
    } else if ityp.opcode == 0b110110 {
        Ok(Instruction::TNe(ityp))
    } else if ityp.opcode == 0b100110 {
        Ok(Instruction::XOr(ityp))
    } else {
        Err(DecodeError::UnassignedSpecial(ityp.opcode))
    }
}

pub open spec fn spec_decode_immediate(ityp: Immediate) -> Result<Instruction, DecodeError> {
    if ityp.opcode == 0b001000 {
        Ok(Instruction::AddI(ityp))
    } else if ityp.opcode == 0b001001 {
        Ok(Instruction::AddIU(ityp))
    } else if ityp.opcode == 0b001100 {
        Ok(Instruction::AndI(ityp))
    } else if ityp.opcode == 0b011000 {
        Ok(Instruction::DAddI(ityp))
    } else if ityp.opcode == 0b011001 {
        Ok(Instruction::DAddIU(ityp))
    } else if ityp.opcode == 0b001101 {
        Ok(Instruction::OrI(ityp))
    } else if ityp.opcode == 0b001010 {
        Ok(Instruction::SLtI(ityp))
    } else if ityp.opcode == 0b001011 {
        Ok(Instruction::SLtIU(ityp))
    } else if ityp.opcode == 0b001110 {
        Ok(Instruction::XOrI(ityp))
    } else {
        Err(DecodeError::UnassignedImmediate(ityp.opcode))
    }
}

pub open spec fn spec_decode_branch(ityp: Branch) -> Result<Instruction, DecodeError> {
    if ityp.opcode == 0b000100 {
        Ok(Instruction::Beq(ityp))
    } else if ityp.opcode == 0b010100 {
        Ok(Instruction::BeqL(ityp))
    } else if ityp.opcode == 0b000111 {
        Ok(Instruction::BgtZ(ityp))
    } else if ityp.opcode == 0b010111 {
        Ok(Instruction::BgtZl(ityp))
    } else if ityp.opcode == 0b000110 {
        Ok(Instruction::BleZ(ityp))
    } else if ityp.opcode == 0b010110 {
        Ok(Instruction::BleZl(ityp))
    } else if ityp.opcode == 0b000101 {
        Ok(Instruction::Bne(ityp))
    } else if ityp.opcode == 0b010101 {
        Ok(Instruction::BneL(ityp))
    } else {
        Err(DecodeError::UnassignedBranch(ityp.opcode))
    }
}

pub open spec fn spec_decode_regimm(ityp: RegImm) -> Result<Instruction, DecodeError> {
    if ityp.opcode == 0b00001 {
        Ok(Instruction::BgeZ(ityp))
    } else if ityp.opcode == 0b10001 {
        Ok(Instruction::BgeZal(ityp))
    } else if ityp.opcode == 0b10011 {
        Ok(Instruction::BgeZall(ityp))
    } else if ityp.opcode == 0b00011 {
        Ok(Instruction::BgeZl(ityp))
    } else if ityp.opcode == 0b00000 {
        Ok(Instruction::BltZ(ityp))
    } else if ityp.opcode == 0b10000 {
        Ok(Instruction::BltZal(ityp))
    } else if ityp.opcode == 0b10010 {
        Ok(Instruction::BltZall(ityp))
    } else if ityp.opcode == 0b00010 {
        Ok(Instruction::BltZl(ityp))
    } else if ityp.opcode == 0b01100 {
        Ok(Instruction::TEqI(ityp))
    } else if ityp.opcode == 0b01000 {
        Ok(Instruction::TGeI(ityp))
    } else if ityp.opcode == 0b01001 {
        Ok(Instruction::TGeIU(ityp))
    } else if ityp.opcode == 0b01010 {
        Ok(Instruction::TLtI(ityp))
    } else if ityp.opcode == 0b01011 {
        Ok(Instruction::TLtIU(ityp))
    } else if ityp.opcode == 0b01110 {
        Ok(Instruction::TNeI(ityp))
    } else {
        Err(DecodeError::UnassignedRegImm(ityp.opcode))
    }
}

pub open spec fn spec_decode_jump(ityp: Jump) -> Result<Instruction, DecodeError> {
    if ityp.opcode == 0b000010 {
        Ok(Instruction::J(ityp))
    } else if ityp.opcode == 0b000011 {
        Ok(Instruction::JAL(ityp))
    } else {
        Err(DecodeError::UnassignedJump(ityp.opcode))
    }
}

pub open spec fn spec_decode_memory(ityp: Memory) -> Result<Instruction, DecodeError> {
    if ityp.opcode == 0b100000 {
        Ok(Instruction::LB(ityp))
    } else if ityp.opcode == 0b100100 {
        Ok(Instruction::LBU(ityp))
    } else if ityp.opcode == 0b110111 {
        Ok(Instruction::LD(ityp))
    } else if ityp.opcode == 0b011010 {
        Ok(Instruction::LDL(ityp))
    } else if ityp.opcode == 0b011011 {
        Ok(Instruction::LDR(ityp))
    } else if ityp.opcode == 0b100001 {
        Ok(Instruction::LH(ityp))
    } else if ityp.opcode == 0b100101 {
        Ok(Instruction::LHU(ityp))
    } else if ityp.opcode == 0b110000 {
        Ok(Instruction::LL(ityp))
    } else if ityp.opcode == 0b110100 {
        Ok(Instruction::LLD(ityp))
    } else if ityp.opcode == 0b001111 {
        Ok(Instruction::LUI(ityp))
    } else if ityp.opcode == 0b100011 {
        Ok(Instruction::LW(ityp))
    } else if ityp.opcode == 0b100010 {
        Ok(Instruction::LWL(ityp))
    } else if ityp.opcode == 0b100110 {
        Ok(Instruction::LWR(ityp))
    } else if ityp.opcode == 0b100111 {
        Ok(Instruction::LWU(ityp))
    } else if ityp.opcode == 0b101000 {
        Ok(Instruction::SB(ityp))
    } else if ityp.opcode == 0b111000 {
        Ok(Instruction::SC(ityp))
    } else if ityp.opcode == 0b111100 {
        Ok(Instruction::SCD(ityp))
    } else if ityp.opcode == 0b111111 {
        Ok(Instruction::SD(ityp))
    } else if ityp.opcode == 0b101100 {
        Ok(Instruction::SDL(ityp))
    } else if ityp.opcode == 0b101101 {
        Ok(Instruction::SDR(ityp))
    } else if ityp.opcode == 0b101001 {
        Ok(Instruction::SH(ityp))
    } else if ityp.opcode == 0b101011 {
        Ok(Instruction::SW(ityp))
    } else if ityp.opcode == 0b101010 {
        Ok(Instruction::SWL(ityp))
    } else if ityp.opcode == 0b101110 {
        Ok(Instruction::SWR(ityp))
    } else {
        Err(DecodeError::UnassignedMemory(ityp.opcode))
    }
}

/// The whole decode pipeline: classification, then per-format mnemonic
/// resolution.  A classification failure is passed through unchanged.
pub open spec fn spec_decode(w: u32) -> Result<Instruction, DecodeError> {
    match spec_classify(w) {
        Ok(InstructionType::Special(a)) => spec_decode_special(a),
        Ok(InstructionType::Immediate(i)) => spec_decode_immediate(i),
        Ok(InstructionType::Branch(b)) => spec_decode_branch(b),
        Ok(InstructionType::RegImm(b)) => spec_decode_regimm(b),
        Ok(InstructionType::Jump(j)) => spec_decode_jump(j),
        Ok(InstructionType::Memory(l)) => spec_decode_memory(l),
        Err(e) => Err(e),
    }
}

fn decode_special(ityp: Special) -> (r: Result<Instruction, DecodeError>)
    ensures
        r == spec_decode_special(ityp),
{
    match ityp.opcode {
        0b100000 => Ok(Instruction::Add(ityp)),
        0b100001 => Ok(Instruction::AddU(ityp)),
        0b100100 => Ok(Instruction::And(ityp)),
        0b001101 => Ok(Instruction::Break(ityp)),
        0b101100 => Ok(Instruction::DAdd(ityp)),
        0b101101 => Ok(Instruction::DAddU(ityp)),
        0b011110 => Ok(Instruction::DDiv(ityp)),
        0b011111 => Ok(Instruction::DDivU(ityp)),
        0b011010 => Ok(Instruction::Div(ityp)),
        0b011011 => Ok(Instruction::DivU(ityp)),
        0b011100 => Ok(Instruction::DMult(ityp)),
        0b011101 => Ok(Instruction::DMultU(ityp)),
        0b111000 => Ok(Instruction::DslL(ityp)),
        0b111100 => Ok(Instruction::DslL32(ityp)),
        0b010100 => Ok(Instruction::DslLV(ityp)),
        0b111011 => Ok(Instruction::DsRA(ityp)),
        0b111111 => Ok(Instruction::DsRA32(ityp)),
        0b010111 => Ok(Instruction::DsRAV(ityp)),
        0b111010 => Ok(Instruction::DsRL(ityp)),
        0b111110 => Ok(Instruction::DsRL32(ityp)),
        0b010110 => Ok(Instruction::DsRLV(ityp)),
        0b101110 => Ok(Instruction::DSub(ityp)),
        0b101111 => Ok(Instruction::DSubU(ityp)),
        0b001001 => Ok(Instruction::JALR(ityp)),
        0b001000 => Ok(Instruction::JR(ityp)),
        0b010000 => Ok(Instruction::MfHi(ityp)),
        0b010010 => Ok(Instruction::MfLo(ityp)),
        0b001011 => Ok(Instruction::MovN(ityp)),
        0b001010 => Ok(Instruction::MovZ(ityp)),
        0b010001 => Ok(Instruction::MtHi(ityp)),
        0b010011 => Ok(Instruction::MtLo(ityp)),
        0b011000 => Ok(Instruction::Mult(ityp)),
        0b011001 => Ok(Instruction::MultU(ityp)),
        0b100111 => Ok(Instruction::NOr(ityp)),
        0b100101 => Ok(Instruction::Or(ityp)),
        0b000000 => Ok(Instruction::SLL(ityp)),
        0b000100 => Ok(Instruction::SLLV(ityp)),
        0b101010 => Ok(Instruction::SLt(ityp)),
        0b000011 => Ok(Instruction::SRA(ityp)),
        0b000111 => Ok(Instruction::SRAV(ityp)),
        0b000010 => Ok(Instruction::SRL(ityp)),
        0b000110 => Ok(Instruction::SRLV(ityp)),
        0b100010 => Ok(Instruction::Sub(ityp)),
        0b100011 => Ok(Instruction::SubU(ityp)),
        0b001111 => Ok(Instruction::SYNC(ityp)),
        0b001100 => Ok(Instruction::Syscall(ityp)),
        0b110100 => Ok(Instruction::TEq(ityp)),
        0b110000 => Ok(Instruction::TGe(ityp)),
        0b110001 => Ok(Instruction::TGeU(ityp)),
        0b110010 => Ok(Instruction::TLt(ityp)),
        0b110011 => Ok(Instruction::TLtU(ityp)),
        0b110110 => Ok(Instruction::TNe(ityp)),
        0b100110 => Ok(Instruction::XOr(ityp)),
        _ => Err(DecodeError::UnassignedSpecial(ityp.opcode)),
    }
}

fn decode_immediate(ityp: Immediate) -> (r: Result<Instruction, DecodeError>)
    ensures
        r == spec_decode_immediate(ityp),
{
    match ityp.opcode {
        0b001000 => Ok(Instruction::AddI(ityp)),
        0b001001 => Ok(Instruction::AddIU(ityp)),
        0b001100 => Ok(Instruction::AndI(ityp)),
        0b011000 => Ok(Instruction::DAddI(ityp)),
        0b011001 => Ok(Instruction::DAddIU(ityp)),
        0b001101 => Ok(Instruction::OrI(ityp)),
        0b001010 => Ok(Instruction::SLtI(ityp)),
        0b001011 => Ok(Instruction::SLtIU(ityp)),
        0b001110 => Ok(Instruction::XOrI(ityp)),
        _ => Err(DecodeError::UnassignedImmediate(ityp.opcode)),
    }
}

fn decode_branch(ityp: Branch) -> (r: Result<Instruction, DecodeError>)
    ensures
        r == spec_decode_branch(ityp),
{
    match ityp.opcode {
        0b000100 => Ok(Instruction::Beq(ityp)),
        0b010100 => Ok(Instruction::BeqL(ityp)),
        0b000111 => Ok(Instruction::BgtZ(ityp)),
        0b010111 => Ok(Instruction::BgtZl(ityp)),
        0b000110 => Ok(Instruction::BleZ(ityp)),
        0b010110 => Ok(Instruction::BleZl(ityp)),
        0b000101 => Ok(Instruction::Bne(ityp)),
        0b010101 => Ok(Instruction::BneL(ityp)),
        _ => Err(DecodeError::UnassignedBranch(ityp.opcode)),
    }
}

fn decode_regimm(ityp: RegImm) -> (r: Result<Instruction, DecodeError>)
    ensures
        r == spec_decode_regimm(ityp),
{
    match ityp.opcode {
        0b00001 => Ok(Instruction::BgeZ(ityp)),
        0b10001 => Ok(Instruction::BgeZal(ityp)),
        0b10011 => Ok(Instruction::BgeZall(ityp)),
        0b00011 => Ok(Instruction::BgeZl(ityp)),
        0b00000 => Ok(Instruction::BltZ(ityp)),
        0b10000 => Ok(Instruction::BltZal(ityp)),
        0b10010 => Ok(Instruction::BltZall(ityp)),
        0b00010 => Ok(Instruction::BltZl(ityp)),
        0b01100 => Ok(Instruction::TEqI(ityp)),
        0b01000 => Ok(Instruction::TGeI(ityp)),
        0b01001 => Ok(Instruction::TGeIU(ityp)),
        0b01010 => Ok(Instruction::TLtI(ityp)),
        0b01011 => Ok(Instruction::TLtIU(ityp)),
        0b01110 => Ok(Instruction::TNeI(ityp)),
        _ => Err(DecodeError::UnassignedRegImm(ityp.opcode)),
    }
}

fn decode_jump(ityp: Jump) -> (r: Result<Instruction, DecodeError>)
    ensures
        r == spec_decode_jump(ityp),
{
    match ityp.opcode {
        0b000010 => Ok(Instruction::J(ityp)),
        0b000011 => Ok(Instruction::JAL(ityp)),
        _ => Err(DecodeError::UnassignedJump(ityp.opcode)),
    }
}

fn decode_memory(ityp: Memory) -> (r: Result<Instruction, DecodeError>)
    ensures
        r == spec_decode_memory(ityp),
{
    match ityp.opcode {
        0b100000 => Ok(Instruction::LB(ityp)),
        0b100100 => Ok(Instruction::LBU(ityp)),
        0b110111 => Ok(Instruction::LD(ityp)),
        0b011010 => Ok(Instruction::LDL(ityp)),
        0b011011 => Ok(Instruction::LDR(ityp)),
        0b100001 => Ok(Instruction::LH(ityp)),
        0b100101 => Ok(Instruction::LHU(ityp)),
        0b110000 => Ok(Instruction::LL(ityp)),
        0b110100 => Ok(Instruction::LLD(ityp)),
        0b001111 => Ok(Instruction::LUI(ityp)),
        0b100011 => Ok(Instruction::LW(ityp)),
        0b100010 => Ok(Instruction::LWL(ityp)),
        0b100110 => Ok(Instruction::LWR(ityp)),
        0b100111 => Ok(Instruction::LWU(ityp)),
        0b101000 => Ok(Instruction::SB(ityp)),
        0b111000 => Ok(Instruction::SC(ityp)),
        0b111100 => Ok(Instruction::SCD(ityp)),
        0b111111 => Ok(Instruction::SD(ityp)),
        0b101100 => Ok(Instruction::SDL(ityp)),
        0b101101 => Ok(Instruction::SDR(ityp)),
        0b101001 => Ok(Instruction::SH(ityp)),
        0b101011 => Ok(Instruction::SW(ityp)),
        0b101010 => Ok(Instruction::SWL(ityp)),
        0b101110 => Ok(Instruction::SWR(ityp)),
        _ => Err(DecodeError::UnassignedMemory(ityp.opcode)),
    }
}

impl Instruction {
    /// Decode a raw 32-bit word into a named instruction variant, or
    /// report at which stage and on which bits the word was rejected.
    pub fn decode(bitfield: u32) -> (r: Result<Instruction, DecodeError>)
        ensures
            r == spec_decode(bitfield),
    {
        match InstructionType::decode(bitfield) {
            Ok(InstructionType::Special(a)) => decode_special(a),
            Ok(InstructionType::Immediate(i)) => decode_immediate(i),
            Ok(InstructionType::Branch(b)) => decode_branch(b),
            Ok(InstructionType::RegImm(b)) => decode_regimm(b),
            Ok(InstructionType::Jump(j)) => decode_jump(j),
            Ok(InstructionType::Memory(l)) => decode_memory(l),
            Err(e) => Err(e),
        }
    }
}

/// Two decoded instructions carry the same mnemonic, whatever their
/// remaining field values.
pub open spec fn same_mnemonic(a: Instruction, b: Instruction) -> bool {
    match a {
        Instruction::Add(_) => b is Add,
        Instruction::AddI(_) => b is AddI,
        Instruction::AddIU(_) => b is AddIU,
        Instruction::AddU(_) => b is AddU,
        Instruction::And(_) => b is And,
        Instruction::AndI(_) => b is AndI,
        Instruction::Beq(_) => b is Beq,
        Instruction::BeqL(_) => b is BeqL,
        Instruction::BgeZ(_) => b is BgeZ,
        Instruction::BgeZal(_) => b is BgeZal,
        Instruction::BgeZall(_) => b is BgeZall,
        Instruction::BgeZl(_) => b is BgeZl,
        Instruction::BgtZ(_) => b is BgtZ,
        Instruction::BgtZl(_) => b is BgtZl,
        Instruction::BleZ(_) => b is BleZ,
        Instruction::BleZl(_) => b is BleZl,
        Instruction::BltZ(_) => b is BltZ,
        Instruction::BltZal(_) => b is BltZal,
        Instruction::BltZall(_) => b is BltZall,
        Instruction::BltZl(_) => b is BltZl,
        Instruction::Bne(_) => b is Bne,
        Instruction::BneL(_) => b is BneL,
        Instruction::Break(_) => b is Break,
        Instruction::DAdd(_) => b is DAdd,
        Instruction::DAddI(_) => b is DAddI,
        Instruction::DAddIU(_) => b is DAddIU,
        Instruction::DAddU(_) => b is DAddU,
        Instruction::DDiv(_) => b is DDiv,
        Instruction::DDivU(_) => b is DDivU,
        Instruction::Div(_) => b is Div,
        Instruction::DivU(_) => b is DivU,
        Instruction::DMult(_) => b is DMult,
        Instruction::DMultU(_) => b is DMultU,
        Instruction::DslL(_) => b is DslL,
        Instruction::DslL32(_) => b is DslL32,
        Instruction::DslLV(_) => b is DslLV,
        Instruction::DsRA(_) => b is DsRA,
        Instruction::DsRA32(_) => b is DsRA32,
        Instruction::DsRAV(_) => b is DsRAV,
        Instruction::DsRL(_) => b is DsRL,
        Instruction::DsRL32(_) => b is DsRL32,
        Instruction::DsRLV(_) => b is DsRLV,
        Instruction::DSub(_) => b is DSub,
        Instruction::DSubU(_) => b is DSubU,
        Instruction::J(_) => b is J,
        Instruction::JAL(_) => b is JAL,
        Instruction::JALR(_) => b is JALR,
        Instruction::JR(_) => b is JR,
        Instruction::LB(_) => b is LB,
        Instruction::LBU(_) => b is LBU,
        Instruction::LD(_) => b is LD,
        Instruction::LDL(_) => b is LDL,
        Instruction::LDR(_) => b is LDR,
        Instruction::LH(_) => b is LH,
        Instruction::LHU(_) => b is LHU,
        Instruction::LL(_) => b is LL,
        Instruction::LLD(_) => b is LLD,
        Instruction::LUI(_) => b is LUI,
        Instruction::LW(_) => b is LW,
        Instruction::LWL(_) => b is LWL,
        Instruction::LWR(_) => b is LWR,
        Instruction::LWU(_) => b is LWU,
        Instruction::MfHi(_) => b is MfHi,
        Instruction::MfLo(_) => b is MfLo,
        Instruction::MovN(_) => b is MovN,
        Instruction::MovZ(_) => b is MovZ,
        Instruction::MtHi(_) => b is MtHi,
        Instruction::MtLo(_) => b is MtLo,
        Instruction::Mult(_) => b is Mult,
        Instruction::MultU(_) => b is MultU,
        Instruction::NOr(_) => b is NOr,
        Instruction::Or(_) => b is Or,
        Instruction::OrI(_) => b is OrI,
        Instruction::SB(_) => b is SB,
        Instruction::SC(_) => b is SC,
        Instruction::SCD(_) => b is SCD,
        Instruction::SD(_) => b is SD,
        Instruction::SDL(_) => b is SDL,
        Instruction::SDR(_) => b is SDR,
        Instruction::SH(_) => b is SH,
        Instruction::SLL(_) => b is SLL,
        Instruction::SLLV(_) => b is SLLV,
        Instruction::SLt(_) => b is SLt,
        Instruction::SLtI(_) => b is SLtI,
        Instruction::SLtIU(_) => b is SLtIU,
        Instruction::SRA(_) => b is SRA,
        Instruction::SRAV(_) => b is SRAV,
        Instruction::SRL(_) => b is SRL,
        Instruction::SRLV(_) => b is SRLV,
        Instruction::Sub(_) => b is Sub,
        Instruction::SubU(_) => b is SubU,
        Instruction::SW(_) => b is SW,
        Instruction::SWL(_) => b is SWL,
        Instruction::SWR(_) => b is SWR,
        Instruction::SYNC(_) => b is SYNC,
        Instruction::Syscall(_) => b is Syscall,
        Instruction::TEq(_) => b is TEq,
        Instruction::TEqI(_) => b is TEqI,
        Instruction::TGe(_) => b is TGe,
        Instruction::TGeI(_) => b is TGeI,
        Instruction::TGeIU(_) => b is TGeIU,
        Instruction::TGeU(_) => b is TGeU,
        Instruction::TLt(_) => b is TLt,
        Instruction::TLtI(_) => b is TLtI,
        Instruction::TLtIU(_) => b is TLtIU,
        Instruction::TLtU(_) => b is TLtU,
        Instruction::TNe(_) => b is TNe,
        Instruction::TNeI(_) => b is TNeI,
        Instruction::XOr(_) => b is XOr,
        Instruction::XOrI(_) => b is XOrI,
    }
}

/// The function codes / opcodes that the special-format table assigns.
pub open spec fn special_assigned(op: u8) -> bool {
    op == 0b100000 || op == 0b100001 || op == 0b100100 || op == 0b001101 ||
    op == 0b101100 || op == 0b101101 || op == 0b011110 || op == 0b011111 ||
    op == 0b011010 || op == 0b011011 || op == 0b011100 || op == 0b011101 ||
    op == 0b111000 || op == 0b111100 || op == 0b010100 || op == 0b111011 ||
    op == 0b111111 || op == 0b010111 || op == 0b111010 || op == 0b111110 ||
    op == 0b010110 || op == 0b101110 || op == 0b101111 || op == 0b001001 ||
    op == 0b001000 || op == 0b010000 || op == 0b010010 || op == 0b001011 ||
    op == 0b001010 || op == 0b010001 || op == 0b010011 || op == 0b011000 ||
    op == 0b011001 || op == 0b100111 || op == 0b100101 || op == 0b000000 ||
    op == 0b000100 || op == 0b101010 || op == 0b000011 || op == 0b000111 ||
    op == 0b000010 || op == 0b000110 || op == 0b100010 || op == 0b100011 ||
    op == 0b001111 || op == 0b001100 || op == 0b110100 || op == 0b110000 ||
    op == 0b110001 || op == 0b110010 || op == 0b110011 || op == 0b110110 ||
    op == 0b100110
}

/// The function codes / opcodes that the immediate-format table assigns.
pub open spec fn immediate_assigned(op: u8) -> bool {
    op == 0b001000 || op == 0b001001 || op == 0b001100 || op == 0b011000 ||
    op == 0b011001 || op == 0b001101 || op == 0b001010 || op == 0b001011 ||
    op == 0b001110
}

/// The function codes / opcodes that the branch-format table assigns.
pub open spec fn branch_assigned(op: u8) -> bool {
    op == 0b000100 || op == 0b010100 || op == 0b000111 || op == 0b010111 ||
    op == 0b000110 || op == 0b010110 || op == 0b000101 || op == 0b010101
}

/// The function codes / opcodes that the regimm-format table assigns.
pub open spec fn regimm_assigned(op: u8) -> bool {
    op == 0b00001 || op == 0b10001 || op == 0b10011 || op == 0b00011 ||
    op == 0b00000 || op == 0b10000 || op == 0b10010 || op == 0b00010 ||
    op == 0b01100 || op == 0b01000 || op == 0b01001 || op == 0b01010 ||
    op == 0b01011 || op == 0b01110
}

/// The function codes / opcodes that the jump-format table assigns.
pub open spec fn jump_assigned(op: u8) -> bool {
    op == 0b000010 || op == 0b000011
}

/// The function codes / opcodes that the memory-format table assigns.
pub open spec fn memory_assigned(op: u8) -> bool {
    op == 0b100000 || op == 0b100100 || op == 0b110111 || op == 0b011010 ||
    op == 0b011011 || op == 0b100001 || op == 0b100101 || op == 0b110000 ||
    op == 0b110100 || op == 0b001111 || op == 0b100011 || op == 0b100010 ||
    op == 0b100110 || op == 0b100111 || op == 0b101000 || op == 0b111000 ||
    op == 0b111100 || op == 0b111111 || op == 0b101100 || op == 0b101101 ||
    op == 0b101001 || op == 0b101011 || op == 0b101010 || op == 0b101110
}

/// The special-format table resolves exactly its assigned codes; every
/// other code fails, carrying the offending bits; and the mnemonic
/// chosen depends on the sub-opcode field alone.
pub proof fn lemma_special_table(a: Special, b: Special)
    requires
        a.opcode == b.opcode,
    ensures
        spec_decode_special(a) is Ok <==> special_assigned(a.opcode),
        !special_assigned(a.opcode) ==> spec_decode_special(a) == Err::<Instruction, DecodeError>(
            DecodeError::UnassignedSpecial(a.opcode),
        ),
        spec_decode_special(a) is Ok ==> same_mnemonic(spec_decode_special(a)->Ok_0,
            spec_decode_special(b)->Ok_0),
{
}

/// The immediate-format table resolves exactly its assigned codes; every
/// other code fails, carrying the offending bits; and the mnemonic
/// chosen depends on the sub-opcode field alone.
pub proof fn lemma_immediate_table(a: Immediate, b: Immediate)
    requires
        a.opcode == b.opcode,
    ensures
        spec_decode_immediate(a) is Ok <==> immediate_assigned(a.opcode),
        !immediate_assigned(a.opcode) ==> spec_decode_immediate(a) == Err::<Instruction, DecodeError>(
            DecodeError::UnassignedImmediate(a.opcode),
        ),
        spec_decode_immediate(a) is Ok ==> same_mnemonic(spec_decode_immediate(a)->Ok_0,
            spec_decode_immediate(b)->Ok_0),
{
}

/// The branch-format table resolves exactly its assigned codes; every
/// other code fails, carrying the offending bits; and the mnemonic
/// chosen depends on the sub-opcode field alone.
pub proof fn lemma_branch_table(a: Branch, b: Branch)
    requires
        a.opcode == b.opcode,
    ensures
        spec_decode_branch(a) is Ok <==> branch_assigned(a.opcode),
        !branch_assigned(a.opcode) ==> spec_decode_branch(a) == Err::<Instruction, DecodeError>(
            DecodeError::UnassignedBranch(a.opcode),
        ),
        spec_decode_branch(a) is Ok ==> same_mnemonic(spec_decode_branch(a)->Ok_0,
            spec_decode_branch(b)->Ok_0),
{
}

/// The regimm-format table resolves exactly its assigned codes; every
/// other code fails, carrying the offending bits; and the mnemonic
/// chosen depends on the sub-opcode field alone.
pub proof fn lemma_regimm_table(a: RegImm, b: RegImm)
    requires
        a.opcode == b.opcode,
    ensures
        spec_decode_regimm(a) is Ok <==> regimm_assigned(a.opcode),
        !regimm_assigned(a.opcode) ==> spec_decode_regimm(a) == Err::<Instruction, DecodeError>(
            DecodeError::UnassignedRegImm(a.opcode),
        ),
        spec_decode_regimm(a) is Ok ==> same_mnemonic(spec_decode_regimm(a)->Ok_0,
            spec_decode_regimm(b)->Ok_0),
{
}

/// The jump-format table resolves exactly its assigned codes; every
/// other code fails, carrying the offending bits; and the mnemonic
/// chosen depends on the sub-opcode field alone.
pub proof fn lemma_jump_table(a: Jump, b: Jump)
    requires
        a.opcode == b.opcode,
    ensures
        spec_decode_jump(a) is Ok <==> jump_assigned(a.opcode),
        !jump_assigned(a.opcode) ==> spec_decode_jump(a) == Err::<Instruction, DecodeError>(
            DecodeError::UnassignedJump(a.opcode),
        ),
        spec_decode_jump(a) is Ok ==> same_mnemonic(spec_decode_jump(a)->Ok_0,
            spec_decode_jump(b)->Ok_0),
{
}

/// The memory-format table resolves exactly its assigned codes; every
/// other code fails, carrying the offending bits; and the mnemonic
/// chosen depends on the sub-opcode field alone.
pub proof fn lemma_memory_table(a: Memory, b: Memory)
    requires
        a.opcode == b.opcode,
    ensures
        spec_decode_memory(a) is Ok <==> memory_assigned(a.opcode),
        !memory_assigned(a.opcode) ==> spec_decode_memory(a) == Err::<Instruction, DecodeError>(
            DecodeError::UnassignedMemory(a.opcode),
        ),
        spec_decode_memory(a) is Ok ==> same_mnemonic(spec_decode_memory(a)->Ok_0,
            spec_decode_memory(b)->Ok_0),
{
}

/// The opcode-determining bit positions of a word: the primary opcode,
/// refined by the function code when the primary opcode is 0 and by the
/// rt field when it is 1.  No other bits influence the mnemonic.
pub open spec fn mnemonic_key(w: u32) -> (u32, u32) {
    let o = crate::decoder::opcode_bits(w);
    if o == 0 {
        (o, crate::decoder::funct_bits(w))
    } else if o == 1 {
        (o, crate::decoder::rt_bits(w))
    } else {
        (o, 0)
    }
}

/// Decode is a function of exactly the opcode-determining bit positions:
/// two words that agree on those bits either both fail, with the same
/// error, or both resolve to the same mnemonic.
pub proof fn lemma_decode_depends_on_opcode_only(w1: u32, w2: u32)
    requires
        mnemonic_key(w1) == mnemonic_key(w2),
    ensures
        spec_decode(w1) is Ok <==> spec_decode(w2) is Ok,
        spec_decode(w1) is Err ==> spec_decode(w1) == spec_decode(w2),
        spec_decode(w1) is Ok ==> same_mnemonic(spec_decode(w1)->Ok_0, spec_decode(w2)->Ok_0),
{
    let o = crate::decoder::opcode_bits(w1);
    assert(crate::decoder::opcode_bits(w2) == o);
    if o == 0 {
        lemma_special_table(super::itype::spec_special(w1), super::itype::spec_special(w2));
        lemma_special_table(super::itype::spec_special(w2), super::itype::spec_special(w1));
    } else if o == 1 {
        lemma_regimm_table(super::itype::spec_regimm(w1), super::itype::spec_regimm(w2));
        lemma_regimm_table(super::itype::spec_regimm(w2), super::itype::spec_regimm(w1));
    } else if super::itype::is_memory_opcode(o) {
        lemma_memory_table(super::itype::spec_memory(w1), super::itype::spec_memory(w2));
        lemma_memory_table(super::itype::spec_memory(w2), super::itype::spec_memory(w1));
    } else if (o & 0b001000) > 0 {
        lemma_immediate_table(super::itype::spec_immediate(w1), super::itype::spec_immediate(w2));
        lemma_immediate_table(super::itype::spec_immediate(w2), super::itype::spec_immediate(w1));
    } else if super::itype::is_coprocessor_opcode(o) {
    } else if (o & 0b000100) > 0 {
        lemma_branch_table(super::itype::spec_branch(w1), super::itype::spec_branch(w2));
        lemma_branch_table(super::itype::spec_branch(w2), super::itype::spec_branch(w1));
    } else if (o & 0b000010) > 0 {
        lemma_jump_table(super::itype::spec_jump(w1), super::itype::spec_jump(w2));
        lemma_jump_table(super::itype::spec_jump(w2), super::itype::spec_jump(w1));
    } else {
    }
}

/// Decode succeeds on exactly the words whose format classification
/// succeeds and whose sub-opcode the format's table assigns; every other
/// word fails, never defaulting to some variant.
pub proof fn lemma_decode_total(w: u32)
    ensures
        spec_decode(w) is Ok <==> (match spec_classify(w) {
            Ok(InstructionType::Special(a)) => special_assigned(a.opcode),
            Ok(InstructionType::Immediate(i)) => immediate_assigned(i.opcode),
            Ok(InstructionType::Branch(b)) => branch_assigned(b.opcode),
            Ok(InstructionType::RegImm(b)) => regimm_assigned(b.opcode),
            Ok(InstructionType::Jump(j)) => jump_assigned(j.opcode),
            Ok(InstructionType::Memory(l)) => memory_assigned(l.opcode),
            Err(_) => false,
        }),
{
    match spec_classify(w) {
        Ok(InstructionType::Special(a)) => lemma_special_table(a, a),
        Ok(InstructionType::Immediate(i)) => lemma_immediate_table(i, i),
        Ok(InstructionType::Branch(b)) => lemma_branch_table(b, b),
        Ok(InstructionType::RegImm(b)) => lemma_regimm_table(b, b),
        Ok(InstructionType::Jump(j)) => lemma_jump_table(j, j),
        Ok(InstructionType::Memory(l)) => lemma_memory_table(l, l),
        Err(_) => {},
    }
}

} // verus!
