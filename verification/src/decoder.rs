//! Bitfield extractors for 32-bit instruction words, and the opcode registry
//! (`Decoder`) that maps a fetched word's opcode to instruction metadata.

use crate::decoded::Opcode;
use crate::error::{ErrorKind, ExecResult};
use crate::execute::execute::{
    add_checked, add_wrapping, and_bits, branch_on_equal_taken, shift_left_logical,
    shift_right_arithmetic, shift_right_logical, spec_sll32, spec_sra32, spec_srl32,
};
use vstd::prelude::*;

verus! {

/// Bits 31:26 of `w`, right-aligned: the primary opcode field.
pub open spec fn opcode_bits(w: u32) -> u32 {
    (w >> 26) & 0x3f
}

/// Bits 25:21 of `w`, right-aligned: the rs (source register) field.
pub open spec fn rs_bits(w: u32) -> u32 {
    (w >> 21) & 0x1f
}

/// Bits 20:16 of `w`, right-aligned: the rt (target register) field.
pub open spec fn rt_bits(w: u32) -> u32 {
    (w >> 16) & 0x1f
}

/// Bits 15:11 of `w`, right-aligned: the rd (destination register) field.
pub open spec fn rd_bits(w: u32) -> u32 {
    (w >> 11) & 0x1f
}

/// Bits 15:0 of `w`: the immediate/offset field.
pub open spec fn imm_bits(w: u32) -> u32 {
    w & 0xffff
}

/// Bits 10:6 of `w`, right-aligned: the shift-amount field.
pub open spec fn sa_bits(w: u32) -> u32 {
    (w >> 6) & 0x1f
}

/// Bits 5:0 of `w`: the function-code field of register-format words.
pub open spec fn funct_bits(w: u32) -> u32 {
    w & 0x3f
}

/// Bits 25:0 of `w`: the instruction-index field of jump-format words.
pub open spec fn jump_bits(w: u32) -> u32 {
    w & 0x03ffffff
}

/// Every extracted field is bounded by the width of its bit range.
pub proof fn lemma_field_bounds(w: u32)
    ensures
        opcode_bits(w) < 64,
        rs_bits(w) < 32,
        rt_bits(w) < 32,
        rd_bits(w) < 32,
        imm_bits(w) < 0x10000,
        sa_bits(w) < 32,
        funct_bits(w) < 64,
        jump_bits(w) < 0x04000000,
{
    assert((w >> 26) & 0x3f < 64 && (w >> 21) & 0x1f < 32 && (w >> 16) & 0x1f < 32
        && (w >> 11) & 0x1f < 32 && w & 0xffff < 0x10000 && (w >> 6) & 0x1f < 32
        && w & 0x3f < 64 && w & 0x03ffffff < 0x04000000) by (bit_vector);
}

pub fn extract_31_26(bitfield: u32) -> (r: u8)
    ensures
        r as u32 == opcode_bits(bitfield),
{
    proof {
        lemma_field_bounds(bitfield);
    }
    ((bitfield >> 26) & 0x3f) as u8
}

pub fn extract_25_21(bitfield: u32) -> (r: u8)
    ensures
        r as u32 == rs_bits(bitfield),
{
    proof {
        lemma_field_bounds(bitfield);
    }
    ((bitfield >> 21) & 0x1f) as u8
}

pub fn extract_20_16(bitfield: u32) -> (r: u8)
    ensures
        r as u32 == rt_bits(bitfield),
{
    proof {
        lemma_field_bounds(bitfield);
    }
    ((bitfield >> 16) & 0x1f) as u8
}

pub fn extract_15_11(bitfield: u32) -> (r: u8)
    ensures
        r as u32 == rd_bits(bitfield),
{
    proof {
        lemma_field_bounds(bitfield);
    }
    ((bitfield >> 11) & 0x1f) as u8
}

pub fn extract_15_0(bitfield: u32) -> (r: u16)
    ensures
        r as u32 == imm_bits(bitfield),
{
    proof {
        lemma_field_bounds(bitfield);
    }
    (bitfield & 0xffff) as u16
}

pub fn extract_10_6(bitfield: u32) -> (r: u8)
    ensures
        r as u32 == sa_bits(bitfield),
{
    proof {
        lemma_field_bounds(bitfield);
    }
    ((bitfield >> 6) & 0x1f) as u8
}

pub fn extract_5_0(bitfield: u32) -> (r: u8)
    ensures
        r as u32 == funct_bits(bitfield),
{
    proof {
        lemma_field_bounds(bitfield);
    }
    (bitfield & 0x3f) as u8
}

pub fn extract_25_0(bitfield: u32) -> (r: u32)
    ensures
        r == jump_bits(bitfield),
{
    bitfield & 0x03ffffff
}


/// Assemble a register-format word (primary opcode 0) from its fields.
pub open spec fn build_register_word(rs: u32, rt: u32, rd: u32, sa: u32, funct: u32) -> u32 {
    (rs << 21) | (rt << 16) | (rd << 11) | (sa << 6) | funct
}

/// Assemble an immediate-style word (immediate, branch, or memory format)
/// from its fields.
pub open spec fn build_immediate_word(opcode: u32, rs: u32, rt: u32, imm: u32) -> u32 {
    (opcode << 26) | (rs << 21) | (rt << 16) | imm
}

/// Assemble a jump-format word from its opcode and instruction index.
pub open spec fn build_jump_word(opcode: u32, instr_index: u32) -> u32 {
    (opcode << 26) | instr_index
}

/// Extractor/constructor inverse law for register-format words: each field
/// extracted from an assembled word is exactly the field that was placed
/// into it.
pub proof fn lemma_register_round_trip(rs: u32, rt: u32, rd: u32, sa: u32, funct: u32)
    by (bit_vector)
    requires
        rs < 32,
        rt < 32,
        rd < 32,
        sa < 32,
        funct < 64,
    ensures
        opcode_bits(build_register_word(rs, rt, rd, sa, funct)) == 0,
        rs_bits(build_register_word(rs, rt, rd, sa, funct)) == rs,
        rt_bits(build_register_word(rs, rt, rd, sa, funct)) == rt,
        rd_bits(build_register_word(rs, rt, rd, sa, funct)) == rd,
        sa_bits(build_register_word(rs, rt, rd, sa, funct)) == sa,
        funct_bits(build_register_word(rs, rt, rd, sa, funct)) == funct,
{
}

/// Extractor/constructor inverse law for immediate-style words.
pub proof fn lemma_immediate_round_trip(opcode: u32, rs: u32, rt: u32, imm: u32)
    by (bit_vector)
    requires
        opcode < 64,
        rs < 32,
        rt < 32,
        imm < 0x10000,
    ensures
        opcode_bits(build_immediate_word(opcode, rs, rt, imm)) == opcode,
        rs_bits(build_immediate_word(opcode, rs, rt, imm)) == rs,
        rt_bits(build_immediate_word(opcode, rs, rt, imm)) == rt,
        imm_bits(build_immediate_word(opcode, rs, rt, imm)) == imm,
{
}

/// Extractor/constructor inverse law for jump-format words.
pub proof fn lemma_jump_round_trip(opcode: u32, instr_index: u32)
    by (bit_vector)
    requires
        opcode < 64,
        instr_index < 0x04000000,
    ensures
        opcode_bits(build_jump_word(opcode, instr_index)) == opcode,
        jump_bits(build_jump_word(opcode, instr_index)) == instr_index,
{
}


/// An operand role slot of a registered instruction: a conventional
/// register-operand position, the shift-amount field used as an operand, or
/// the embedded immediate.
#[derive(Debug, Copy, Clone, PartialEq, Eq, Structural)]
pub enum Register {
    RS,
    RT,
    RD,
    SA,
    Immediate,
}

/// The executor a registered instruction dispatches to: a closed tag in
/// place of per-instruction indirection, matched exhaustively in `execute`.
#[derive(Debug, Copy, Clone, PartialEq, Eq, Structural)]
pub enum Operation {
    CheckedAdd,
    WrappingAdd,
    BitAnd,
    ShiftLeftLogical,
    ShiftRightLogical,
    ShiftRightArithmetic,
    BranchOnEqual,
}

/// Registry metadata for one instruction: its mnemonic, the roles whose
/// register values `execute` expects (in order), the role it writes back,
/// and its executor.
#[derive(Debug)]
pub struct Instruction {
    pub name: &'static str,
    pub inputs: Vec<Register>,
    pub outputs: Option<Register>,
    pub operation: Operation,
}

impl Instruction {
    /// Apply the executor to two operand values.  Branch entries compute no
    /// register value: they answer through `branch_taken` and are `Empty`
    /// here.
    pub fn execute(&self, inputs: &Vec<u32>) -> (r: ExecResult<u32>)
        requires
            inputs@.len() == 2,
        ensures
            (self.operation == Operation::CheckedAdd && inputs@[0] + inputs@[1] <= 0x7fffffff)
                ==> r == ExecResult::Success((inputs@[0] + inputs@[1]) as u32),
            (self.operation == Operation::CheckedAdd && inputs@[0] + inputs@[1] > 0x7fffffff)
                ==> (r matches ExecResult::Exception(e) && e.kind == ErrorKind::Overflow),
            self.operation == Operation::WrappingAdd ==> r == ExecResult::Success(((inputs@[0]
                + inputs@[1]) % 0x100000000) as u32),
            self.operation == Operation::BitAnd ==> r == ExecResult::Success(
                inputs@[0] & inputs@[1],
            ),
            self.operation == Operation::ShiftLeftLogical ==> r == ExecResult::Success(
                spec_sll32(inputs@[0], inputs@[1]),
            ),
            self.operation == Operation::ShiftRightLogical ==> r == ExecResult::Success(
                spec_srl32(inputs@[0], inputs@[1]),
            ),
            self.operation == Operation::ShiftRightArithmetic ==> r == ExecResult::Success(
                spec_sra32(inputs@[0], inputs@[1]),
            ),
            self.operation == Operation::BranchOnEqual ==> r is Empty,
    {
        match self.operation {
            Operation::CheckedAdd => add_checked(inputs[0], inputs[1]),
            Operation::WrappingAdd => add_wrapping(inputs[0], inputs[1]),
            Operation::BitAnd => and_bits(inputs[0], inputs[1]),
            Operation::ShiftLeftLogical => shift_left_logical(inputs[0], inputs[1]),
            Operation::ShiftRightLogical => shift_right_logical(inputs[0], inputs[1]),
            Operation::ShiftRightArithmetic => shift_right_arithmetic(inputs[0], inputs[1]),
            Operation::BranchOnEqual => ExecResult::Empty,
        }
    }

    /// The taken/not-taken condition of a branch entry, `None` for every
    /// value-computing entry.
    pub fn branch_taken(&self, inputs: &Vec<u32>) -> (r: Option<bool>)
        requires
            inputs@.len() == 2,
        ensures
            self.operation == Operation::BranchOnEqual ==> r == Some(inputs@[0] == inputs@[1]),
            self.operation != Operation::BranchOnEqual ==> r is None,
    {
        match self.operation {
            Operation::BranchOnEqual => Some(branch_on_equal_taken(inputs[0], inputs[1])),
            _ => None,
        }
    }
}

/// One registered instruction carries the given mnemonic, operand roles and
/// executor.
pub open spec fn entry_spec(
    i: Instruction,
    name: Seq<char>,
    inputs: Seq<Register>,
    outputs: Option<Register>,
    operation: Operation,
) -> bool {
    i.name@ == name && i.inputs@ == inputs && i.outputs == outputs && i.operation == operation
}

/// The registry key a word selects: the function code under primary opcode
/// 0, the rt sub-code under primary opcode 1, the primary opcode otherwise.
pub open spec fn spec_opcode_key(w: u32) -> Opcode {
    let o = opcode_bits(w);
    if o == 0 {
        Opcode::Special(funct_bits(w) as u8)
    } else if o == 1 {
        Opcode::RegImm(rt_bits(w) as u8)
    } else {
        Opcode::Normal(o as u8)
    }
}

/// The opcode registry: an association table from opcode identity to
/// instruction metadata, built once and read-only thereafter.
pub struct Decoder {
    instructions: Vec<(Opcode, Instruction)>,
}

impl View for Decoder {
    type V = Seq<(Opcode, Instruction)>;

    closed spec fn view(&self) -> Seq<(Opcode, Instruction)> {
        self.instructions@
    }
}

impl Decoder {
    /// Each opcode key occurs at most once in the table.
    pub open spec fn wf(&self) -> bool {
        forall|i: int, j: int|
            0 <= i < j < self@.len() ==> (#[trigger] self@[i]).0 != (#[trigger] self@[j]).0
    }

    /// Build the registry holding every supported instruction.
    pub fn new() -> (r: Self)
        ensures
            r.wf(),
            r@.len() == 10,
            r@[0].0 == Opcode::Special(0b100000) && entry_spec(r@[0].1, "ADD"@, seq![Register::RS, Register::RT], Some(Register::RD), Operation::CheckedAdd),
            r@[1].0 == Opcode::Normal(0b001000) && entry_spec(r@[1].1, "ADDI"@, seq![Register::RS, Register::Immediate], Some(Register::RT), Operation::CheckedAdd),
            r@[2].0 == Opcode::Normal(0b001001) && entry_spec(r@[2].1, "ADDIU"@, seq![Register::RS, Register::Immediate], Some(Register::RT), Operation::WrappingAdd),
            r@[3].0 == Opcode::Special(0b100001) && entry_spec(r@[3].1, "ADDU"@, seq![Register::RS, Register::RT], Some(Register::RD), Operation::WrappingAdd),
            r@[4].0 == Opcode::Special(0b100100) && entry_spec(r@[4].1, "AND"@, seq![Register::RS, Register::RT], Some(Register::RT), Operation::BitAnd),
            r@[5].0 == Opcode::Normal(0b001100) && entry_spec(r@[5].1, "ANDI"@, seq![Register::RS, Register::Immediate], Some(Register::RT), Operation::BitAnd),
            r@[6].0 == Opcode::Special(0b000000) && entry_spec(r@[6].1, "SLL"@, seq![Register::RT, Register::SA], Some(Register::RD), Operation::ShiftLeftLogical),
            r@[7].0 == Opcode::Special(0b000010) && entry_spec(r@[7].1, "SRL"@, seq![Register::RT, Register::SA], Some(Register::RD), Operation::ShiftRightLogical),
            r@[8].0 == Opcode::Special(0b000011) && entry_spec(r@[8].1, "SRA"@, seq![Register::RT, Register::SA], Some(Register::RD), Operation::ShiftRightArithmetic),
            r@[9].0 == Opcode::Normal(0b000100) && entry_spec(r@[9].1, "BEQ"@, seq![Register::RS, Register::RT], None, Operation::BranchOnEqual),
    {
        let mut m: Vec<(Opcode, Instruction)> = Vec::new();
        crate::instruction::add::register(&mut m);
        crate::instruction::and::register(&mut m);
        crate::instruction::shift::register(&mut m);
        crate::instruction::branch::register(&mut m);
        Decoder { instructions: m }
    }

    /// Look the fetched word's opcode key up in the registry.
    pub fn decode(&self, command: Fetched) -> (r: Option<&Instruction>)
        ensures
            match r {
                Some(i) => exists|j: int|
                    0 <= j < self@.len() && (#[trigger] self@[j]).0 == spec_opcode_key(command.0)
                        && self@[j].1 == *i,
                None => forall|j: int|
                    0 <= j < self@.len() ==> (#[trigger] self@[j]).0 != spec_opcode_key(
                        command.0,
                    ),
            },
    {
        let op = extract_31_26(command.0);
        let key = if op == 0b000000 {
            Opcode::Special(extract_5_0(command.0))
        } else if op == 0b000001 {
            Opcode::RegImm(extract_20_16(command.0))
        } else {
            Opcode::Normal(op)
        };
        assert(key == spec_opcode_key(command.0));
        let mut idx: usize = 0;
        while idx < self.instructions.len()
            invariant
                idx <= self.instructions@.len(),
                key == spec_opcode_key(command.0),
                forall|j: int| 0 <= j < idx ==> (#[trigger] self.instructions@[j]).0 != key,
            decreases self.instructions@.len() - idx,
        {
            if self.instructions[idx].0 == key {
                return Some(&self.instructions[idx].1);
            }
            idx += 1;
        }
        None
    }

    /// Every opcode key the registry holds, in registration order.
    pub fn keys(&self) -> (r: Vec<Opcode>)
        ensures
            r@.len() == self@.len(),
            forall|j: int| 0 <= j < self@.len() ==> r@[j] == (#[trigger] self@[j]).0,
    {
        let mut ks: Vec<Opcode> = Vec::new();
        let mut idx: usize = 0;
        while idx < self.instructions.len()
            invariant
                idx <= self.instructions@.len(),
                ks@.len() == idx,
                forall|j: int| 0 <= j < idx ==> ks@[j] == (#[trigger] self.instructions@[j]).0,
            decreases self.instructions@.len() - idx,
        {
            ks.push(self.instructions[idx].0);
            idx += 1;
        }
        ks
    }
}

/// A raw instruction word as handed over by the (external) fetch stage.
pub struct Fetched(pub u32);

} // verus!
