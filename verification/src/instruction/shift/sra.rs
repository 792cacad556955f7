//! Shift Word Right Arithmetic: the sign bit fills the vacated
//! positions.

use crate::decoded::{Decodable, Decoded, Opcode, IO};
use crate::decoder::{extract_10_6, extract_15_11, extract_20_16, rd_bits, rt_bits, sa_bits};
use crate::error::ExecResult;
use vstd::prelude::*;

verus! {

#[derive(Debug, Copy, Clone, PartialEq, Eq, Structural)]
pub struct SRA {
    pub rt: u8,
    pub rd: u8,
    pub sa: u8,
}

impl SRA {
    /// Extract this instruction's fields from a raw word.
    pub fn new(bitfield: u32) -> (r: Self)
        ensures
            r.rt as u32 == rt_bits(bitfield),
            r.rd as u32 == rd_bits(bitfield),
            r.sa as u32 == sa_bits(bitfield),
    {
        SRA {
            rt: extract_20_16(bitfield),
            rd: extract_15_11(bitfield),
            sa: extract_10_6(bitfield),
        }
    }
}

impl Decodable for SRA {
    open spec fn spec_opcode() -> Opcode {
        Opcode::Special(0b000011)
    }

    fn opcode() -> (r: Opcode) {
        Opcode::Special(0b000011)
    }
}

impl Decoded for SRA {
    open spec fn spec_name(&self) -> Seq<char> {
        "SRA"@
    }

    open spec fn spec_inputs(&self) -> Seq<IO> {
        seq![IO::Register(self.rt)]
    }

    open spec fn spec_outputs(&self) -> Option<IO> {
        Some(IO::Register(self.rd))
    }

    open spec fn spec_trap_on_overflow(&self) -> bool {
        false
    }

    open spec fn spec_success_on(&self, registers: Seq<u32>) -> bool {
        true
    }

    open spec fn spec_value(&self, registers: Seq<u32>) -> u32 {
        crate::execute::execute::spec_sra32(registers[0], self.sa as u32)
    }

    fn name(&self) -> (r: &'static str) {
        "SRA"
    }

    fn inputs(&self) -> (r: Vec<IO>) {
        let mut v: Vec<IO> = Vec::new();
        v.push(IO::Register(self.rt));
        proof {
            assert(v@ =~= self.spec_inputs());
        }
        v
    }

    fn outputs(&self) -> (r: Option<IO>) {
        Some(IO::Register(self.rd))
    }

    fn is_trap_on_overflow(&self) -> (r: bool) {
        false
    }

    fn execute(&self, registers: &[u32]) -> (r: ExecResult<u32>) {
        crate::execute::execute::shift_right_arithmetic(registers[0], self.sa as u32)
    }
}

} // verus!
