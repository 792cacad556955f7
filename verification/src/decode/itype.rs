//! Format classification: every 32-bit instruction word either belongs to
//! exactly one of six fixed layouts, determined by its top six bits (and, for
//! primary opcodes 0 and 1, by further sub-fields), or is rejected.

use crate::decoder::{
    extract_10_6, extract_15_0, extract_15_11, extract_20_16, extract_25_0, extract_25_21,
    extract_31_26, extract_5_0, funct_bits, imm_bits, jump_bits, lemma_field_bounds,
    opcode_bits, rd_bits, rs_bits, rt_bits, sa_bits,
};
use vstd::prelude::*;

verus! {

/// A word whose bit pattern matched one of the six instruction layouts,
/// with its layout-specific fields extracted.
#[derive(Debug, Clone, Copy, PartialEq, Eq, Structural)]
pub enum InstructionType {
    Special(Special),
    Immediate(Immediate),
    Branch(Branch),
    RegImm(RegImm),
    Jump(Jump),
    Memory(Memory),
}

/// Register format (primary opcode 0): `opcode` holds the function code
/// (bits 5:0) that selects the mnemonic.
#[derive(Debug, Clone, Copy, PartialEq, Eq, Structural)]
pub struct Special {
    pub opcode: u8,
    pub rs: u8,
    pub rt: u8,
    pub rd: u8,
    pub sa: u8,
}

/// Immediate format: a 16-bit constant, sign- or zero-extended per
/// instruction.
#[derive(Debug, Clone, Copy, PartialEq, Eq, Structural)]
pub struct Immediate {
    pub opcode: u8,
    pub rs: u8,
    pub rt: u8,
    pub immediate: u16,
}

/// Branch format: same shape as the immediate format, but the 16-bit field is
/// a word-granularity signed branch offset.
#[derive(Debug, Clone, Copy, PartialEq, Eq, Structural)]
pub struct Branch {
    pub opcode: u8,
    pub rs: u8,
    pub rt: u8,
    pub offset: u16,
}

/// Register-immediate format (primary opcode 1): `opcode` holds the sub-code
/// (bits 20:16) distinguishing branch-on-zero and trap-immediate variants.
#[derive(Debug, Clone, Copy, PartialEq, Eq, Structural)]
pub struct RegImm {
    pub opcode: u8,
    pub rs: u8,
    pub offset: u16,
}

/// Jump format: a 26-bit word-granularity instruction index within the
/// current 256MB segment.
#[derive(Debug, Clone, Copy, PartialEq, Eq, Structural)]
pub struct Jump {
    pub opcode: u8,
    pub instr_index: u32,
}

/// Memory format: a base register and a 16-bit signed byte offset.
#[derive(Debug, Clone, Copy, PartialEq, Eq, Structural)]
pub struct Memory {
    pub opcode: u8,
    pub base: u8,
    pub rt: u8,
    pub offset: u16,
}

/// Why a decode call failed, carrying the offending bit pattern.  The first
/// two variants arise during format classification, the rest during mnemonic
/// resolution within an already classified format.
#[derive(Debug, Clone, Copy, PartialEq, Eq, Structural)]
pub enum DecodeError {
    /// A coprocessor primary opcode: explicitly unsupported, not unknown.
    Coprocessor(u8),
    /// A primary opcode assigned to no format.
    UnknownOpcode(u8),
    /// An unassigned function code in a register-format word.
    UnassignedSpecial(u8),
    /// An unassigned primary opcode in an immediate-format word.
    UnassignedImmediate(u8),
    /// An unassigned primary opcode in a branch-format word.
    UnassignedBranch(u8),
    /// An unassigned sub-code in a register-immediate word.
    UnassignedRegImm(u8),
    /// An unassigned primary opcode in a jump-format word.
    UnassignedJump(u8),
    /// An unassigned primary opcode in a memory-format word.
    UnassignedMemory(u8),
}

/// The memory-format grouping: any opcode with bit 5 set, the doubleword
/// load-left/right pair (low bits `11010`), or LUI (`001111`).
pub open spec fn is_memory_opcode(o: u32) -> bool {
    (o & 0b100000) > 0 || (o & 0b011010) == 0b011010 || o == 0b001111
}

/// The coprocessor grouping: opcodes `0100xx`.
pub open spec fn is_coprocessor_opcode(o: u32) -> bool {
    (o & 0b111100) == 0b010000
}

pub open spec fn spec_special(w: u32) -> Special {
    Special {
        opcode: funct_bits(w) as u8,
        rs: rs_bits(w) as u8,
        rt: rt_bits(w) as u8,
        rd: rd_bits(w) as u8,
        sa: sa_bits(w) as u8,
    }
}

pub open spec fn spec_immediate(w: u32) -> Immediate {
    Immediate {
        opcode: opcode_bits(w) as u8,
        rs: rs_bits(w) as u8,
        rt: rt_bits(w) as u8,
        immediate: imm_bits(w) as u16,
    }
}

pub open spec fn spec_branch(w: u32) -> Branch {
    Branch {
        opcode: opcode_bits(w) as u8,
        rs: rs_bits(w) as u8,
        rt: rt_bits(w) as u8,
        offset: imm_bits(w) as u16,
    }
}

pub open spec fn spec_regimm(w: u32) -> RegImm {
    RegImm { opcode: rt_bits(w) as u8, rs: rs_bits(w) as u8, offset: imm_bits(w) as u16 }
}

pub open spec fn spec_jump(w: u32) -> Jump {
    Jump { opcode: opcode_bits(w) as u8, instr_index: jump_bits(w) }
}

pub open spec fn spec_memory(w: u32) -> Memory {
    Memory {
        opcode: opcode_bits(w) as u8,
        base: rs_bits(w) as u8,
        rt: rt_bits(w) as u8,
        offset: imm_bits(w) as u16,
    }
}

/// The ordered classification rules.  The predicates overlap as raw bit
/// patterns; only this priority order resolves them correctly.
pub open spec fn spec_classify(w: u32) -> Result<InstructionType, DecodeError> {
    let o = opcode_bits(w);
    if o == 0b000000 {
        Ok(InstructionType::Special(spec_special(w)))
    } else if o == 0b000001 {
        Ok(InstructionType::RegImm(spec_regimm(w)))
    } else if is_memory_opcode(o) {
        Ok(InstructionType::Memory(spec_memory(w)))
    } else if (o & 0b001000) > 0 {
        Ok(InstructionType::Immediate(spec_immediate(w)))
    } else if is_coprocessor_opcode(o) {
        Err(DecodeError::Coprocessor(o as u8))
    } else if (o & 0b000100) > 0 {
        Ok(InstructionType::Branch(spec_branch(w)))
    } else if (o & 0b000010) > 0 {
        Ok(InstructionType::Jump(spec_jump(w)))
    } else {
        Err(DecodeError::UnknownOpcode(o as u8))
    }
}

pub fn extract_rs(bitfield: u32) -> (r: u8)
    ensures
        r as u32 == rs_bits(bitfield),
{
    extract_25_21(bitfield)
}

pub fn extract_base(bitfield: u32) -> (r: u8)
    ensures
        r as u32 == rs_bits(bitfield),
{
    extract_25_21(bitfield)
}

pub fn extract_rt(bitfield: u32) -> (r: u8)
    ensures
        r as u32 == rt_bits(bitfield),
{
    extract_20_16(bitfield)
}

pub fn extract_rd(bitfield: u32) -> (r: u8)
    ensures
        r as u32 == rd_bits(bitfield),
{
    extract_15_11(bitfield)
}

pub fn extract_immediate(bitfield: u32) -> (r: u16)
    ensures
        r as u32 == imm_bits(bitfield),
{
    extract_15_0(bitfield)
}

pub fn extract_offset(bitfield: u32) -> (r: u16)
    ensures
        r as u32 == imm_bits(bitfield),
{
    extract_15_0(bitfield)
}

impl InstructionType {
    /// Classify a raw word into its format, or reject it as a coprocessor or
    /// unassigned opcode.
    pub fn decode(bitfield: u32) -> (r: Result<InstructionType, DecodeError>)
        ensures
            r == spec_classify(bitfield),
    {
        proof {
            lemma_field_bounds(bitfield);
        }
        let opcode: u32 = (bitfield >> 26) & 0x3f;
        if opcode == 0b000000 {
            Ok(InstructionType::Special(Special {
                opcode: extract_5_0(bitfield),
                rs: extract_rs(bitfield),
                rt: extract_rt(bitfield),
                rd: extract_rd(bitfield),
                sa: extract_10_6(bitfield),
            }))
        } else if opcode == 0b000001 {
            Ok(InstructionType::RegImm(RegImm {
                opcode: extract_20_16(bitfield),
                rs: extract_rs(bitfield),
                offset: extract_offset(bitfield),
            }))
        } else if (opcode & 0b100000) > 0 || (opcode & 0b011010) == 0b011010
            || opcode == 0b001111 {
            Ok(InstructionType::Memory(Memory {
                opcode: extract_31_26(bitfield),
                base: extract_base(bitfield),
                rt: extract_rt(bitfield),
                offset: extract_offset(bitfield),
            }))
        } else if (opcode & 0b001000) > 0 {
            Ok(InstructionType::Immediate(Immediate {
                opcode: extract_31_26(bitfield),
                rs: extract_rs(bitfield),
                rt: extract_rt(bitfield),
                immediate: extract_immediate(bitfield),
            }))
        } else if (opcode & 0b111100) == 0b010000 {
            Err(DecodeError::Coprocessor(opcode as u8))
        } else if (opcode & 0b000100) > 0 {
            Ok(InstructionType::Branch(Branch {
                opcode: extract_31_26(bitfield),
                rs: extract_rs(bitfield),
                rt: extract_rt(bitfield),
                offset: extract_offset(bitfield),
            }))
        } else if (opcode & 0b000010) > 0 {
            Ok(InstructionType::Jump(Jump {
                opcode: extract_31_26(bitfield),
                instr_index: extract_25_0(bitfield),
            }))
        } else {
            Err(DecodeError::UnknownOpcode(opcode as u8))
        }
    }
}

/// Classification rejects every word with a coprocessor primary opcode
/// (`0100xx`, which includes `010000`): such a word never reaches any format.
pub proof fn lemma_classify_rejects_coprocessor(w: u32)
    requires
        is_coprocessor_opcode(opcode_bits(w)),
    ensures
        spec_classify(w) == Err::<InstructionType, DecodeError>(
            DecodeError::Coprocessor(opcode_bits(w) as u8),
        ),
{
    let o = opcode_bits(w);
    assert(((o & 0b111100) == 0b010000) ==> (o != 0 && o != 1 && (o & 0b100000) == 0
        && (o & 0b011010) != 0b011010 && o != 0b001111 && (o & 0b001000) == 0))
        by (bit_vector);
}

/// Classification fails exactly on the coprocessor opcodes and on the
/// primary opcodes that none of the six layouts claims.
pub proof fn lemma_classify_total(w: u32)
    ensures
        spec_classify(w) is Err <==> (is_coprocessor_opcode(opcode_bits(w)) || (opcode_bits(w)
            != 0 && opcode_bits(w) != 1 && !is_memory_opcode(opcode_bits(w)) && (opcode_bits(w)
            & 0b001110) == 0)),
{
    let o = opcode_bits(w);
    if is_coprocessor_opcode(o) {
        lemma_classify_rejects_coprocessor(w);
    } else {
        assert(((o & 0b111100) != 0b010000 && (o & 0b001000) == 0 && (o & 0b000100) == 0 && (o
            & 0b000010) == 0) ==> (o & 0b001110) == 0) by (bit_vector);
        assert((o & 0b001110) == 0 ==> ((o & 0b001000) == 0 && (o & 0b000100) == 0 && (o
            & 0b000010) == 0)) by (bit_vector);
    }
}

/// Classifying a word assembled from register-format fields reproduces
/// exactly the field values placed into the word.
pub proof fn lemma_classify_register_round_trip(rs: u32, rt: u32, rd: u32, sa: u32, funct: u32)
    requires
        rs < 32,
        rt < 32,
        rd < 32,
        sa < 32,
        funct < 64,
    ensures
        spec_classify(crate::decoder::build_register_word(rs, rt, rd, sa, funct))
            == Ok::<InstructionType, DecodeError>(InstructionType::Special(Special {
            opcode: funct as u8,
            rs: rs as u8,
            rt: rt as u8,
            rd: rd as u8,
            sa: sa as u8,
        })),
{
    crate::decoder::lemma_register_round_trip(rs, rt, rd, sa, funct);
}

} // verus!
