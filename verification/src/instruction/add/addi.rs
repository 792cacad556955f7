//! Add Immediate Word: checked addition of a register operand and the
//! embedded immediate.

use crate::decoded::{Decodable, Decoded, Opcode, IO};
use crate::decoder::{extract_15_0, extract_20_16, extract_25_21, imm_bits, rs_bits, rt_bits};
use crate::error::ExecResult;
use vstd::prelude::*;

verus! {

#[derive(Debug, Copy, Clone, PartialEq, Eq, Structural)]
pub struct AddI {
    pub rs: u8,
    pub rt: u8,
    pub immediate: u16,
}

impl AddI {
    /// Extract this instruction's fields from a raw word.
    pub fn new(bitfield: u32) -> (r: Self)
        ensures
            r.rs as u32 == rs_bits(bitfield),
            r.rt as u32 == rt_bits(bitfield),
            r.immediate as u32 == imm_bits(bitfield),
    {
        AddI {
            rs: extract_25_21(bitfield),
            rt: extract_20_16(bitfield),
            immediate: extract_15_0(bitfield),
        }
    }
}

impl Decodable for AddI {
    open spec fn spec_opcode() -> Opcode {
        Opcode::Normal(0b001000)
    }

    fn opcode() -> (r: Opcode) {
        Opcode::Normal(0b001000)
    }
}

impl Decoded for AddI {
    open spec fn spec_name(&self) -> Seq<char> {
        "ADDI"@
    }

    open spec fn spec_inputs(&self) -> Seq<IO> {
        seq![IO::Register(self.rs)]
    }

    open spec fn spec_outputs(&self) -> Option<IO> {
        Some(IO::Register(self.rt))
    }

    open spec fn spec_trap_on_overflow(&self) -> bool {
        true
    }

    open spec fn spec_success_on(&self, registers: Seq<u32>) -> bool {
        registers[0] + self.immediate <= 0x7fffffff
    }

    open spec fn spec_value(&self, registers: Seq<u32>) -> u32 {
        ((registers[0] + self.immediate) % 0x100000000) as u32
    }

    fn name(&self) -> (r: &'static str) {
        "ADDI"
    }

    fn inputs(&self) -> (r: Vec<IO>) {
        let mut v: Vec<IO> = Vec::new();
        v.push(IO::Register(self.rs));
        proof {
            assert(v@ =~= self.spec_inputs());
        }
        v
    }

    fn outputs(&self) -> (r: Option<IO>) {
        Some(IO::Register(self.rt))
    }

    fn is_trap_on_overflow(&self) -> (r: bool) {
        true
    }

    fn execute(&self, registers: &[u32]) -> (r: ExecResult<u32>) {
        crate::execute::execute::add_checked(registers[0], self.immediate as u32)
    }
}

} // verus!
