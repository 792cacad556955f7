//! Add Word: checked addition of two register operands.

use crate::decoded::{Decodable, Decoded, Opcode, IO};
use crate::decoder::{extract_15_11, extract_20_16, extract_25_21, rd_bits, rs_bits, rt_bits};
use crate::error::ExecResult;
use vstd::prelude::*;

verus! {

#[derive(Debug, Copy, Clone, PartialEq, Eq, Structural)]
pub struct ADD {
    pub rs: u8,
    pub rt: u8,
    pub rd: u8,
}

impl ADD {
    /// Extract this instruction's fields from a raw word.
    pub fn new(bitfield: u32) -> (r: Self)
        ensures
            r.rs as u32 == rs_bits(bitfield),
            r.rt as u32 == rt_bits(bitfield),
            r.rd as u32 == rd_bits(bitfield),
    {
        ADD {
            rs: extract_25_21(bitfield),
            rt: extract_20_16(bitfield),
            rd: extract_15_11(bitfield),
        }
    }
}

impl Decodable for ADD {
    open spec fn spec_opcode() -> Opcode {
        Opcode::Special(0b100000)
    }

    fn opcode() -> (r: Opcode) {
        Opcode::Special(0b100000)
    }
}

impl Decoded for ADD {
    open spec fn spec_name(&self) -> Seq<char> {
        "ADD"@
    }

    open spec fn spec_inputs(&self) -> Seq<IO> {
        seq![IO::Register(self.rs), IO::Register(self.rt)]
    }

    open spec fn spec_outputs(&self) -> Option<IO> {
        Some(IO::Register(self.rd))
    }

    open spec fn spec_trap_on_overflow(&self) -> bool {
        true
    }

    open spec fn spec_success_on(&self, registers: Seq<u32>) -> bool {
        registers[0] + registers[1] <= 0x7fffffff
    }

    open spec fn spec_value(&self, registers: Seq<u32>) -> u32 {
        ((registers[0] + registers[1]) % 0x100000000) as u32
    }

    fn name(&self) -> (r: &'static str) {
        "ADD"
    }

    fn inputs(&self) -> (r: Vec<IO>) {
        let mut v: Vec<IO> = Vec::new();
        v.push(IO::Register(self.rs));
        v.push(IO::Register(self.rt));
        proof {
            assert(v@ =~= self.spec_inputs());
        }
        v
    }

    fn outputs(&self) -> (r: Option<IO>) {
        Some(IO::Register(self.rd))
    }

    fn is_trap_on_overflow(&self) -> (r: bool) {
        true
    }

    fn execute(&self, registers: &[u32]) -> (r: ExecResult<u32>) {
        crate::execute::execute::add_checked(registers[0], registers[1])
    }
}

} // verus!
