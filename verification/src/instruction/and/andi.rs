//! And Immediate: bitwise AND of a register operand and the
//! zero-extended embedded immediate.

use crate::decoded::{Decodable, Decoded, Opcode, IO};
use crate::decoder::{extract_15_0, extract_20_16, extract_25_21, imm_bits, rs_bits, rt_bits};
use crate::error::ExecResult;
use vstd::prelude::*;

verus! {

#[derive(Debug, Copy, Clone, PartialEq, Eq, Structural)]
pub struct AndI {
    pub rs: u8,
    pub rt: u8,
    pub immediate: u16,
}

impl AndI {
    /// Extract this instruction's fields from a raw word.
    pub fn new(bitfield: u32) -> (r: Self)
        ensures
            r.rs as u32 == rs_bits(bitfield),
            r.rt as u32 == rt_bits(bitfield),
            r.immediate as u32 == imm_bits(bitfield),
    {
        AndI {
            rs: extract_25_21(bitfield),
            rt: extract_20_16(bitfield),
            immediate: extract_15_0(bitfield),
        }
    }
}

impl Decodable for AndI {
    open spec fn spec_opcode() -> Opcode {
        Opcode::Normal(0b001100)
    }

    fn opcode() -> (r: Opcode) {
        Opcode::Normal(0b001100)
    }
}

impl Decoded for AndI {
    open spec fn spec_name(&self) -> Seq<char> {
        "ANDI"@
    }

    open spec fn spec_inputs(&self) -> Seq<IO> {
        seq![IO::Register(self.rs)]
    }

    open spec fn spec_outputs(&self) -> Option<IO> {
        Some(IO::Register(self.rt))
    }

    open spec fn spec_trap_on_overflow(&self) -> bool {
        false
    }

    open spec fn spec_success_on(&self, registers: Seq<u32>) -> bool {
        true
    }

    open spec fn spec_value(&self, registers: Seq<u32>) -> u32 {
        registers[0] & (self.immediate as u32)
    }

    fn name(&self) -> (r: &'static str) {
        "ANDI"
    }

    fn inputs(&self) -> (r: Vec<IO>) {
        let mut v: Vec<IO> = Vec::new();
        v.push(IO::Register(self.rs));
        proof {
            assert(v@ =~= self.spec_inputs());
        }
        v
    }

    fn outputs(&self) -> (r: Option<IO>) {
        Some(IO::Register(self.rt))
    }

    fn is_trap_on_overflow(&self) -> (r: bool) {
        false
    }

    fn execute(&self, registers: &[u32]) -> (r: ExecResult<u32>) {
        crate::execute::execute::and_bits(registers[0], self.immediate as u32)
    }
}

} // verus!
