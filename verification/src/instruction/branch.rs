//! The branch family: entries that compute a taken/not-taken condition
//! and write no register back.

use crate::decoded::Opcode;
use crate::decoder::{entry_spec, Instruction, Operation, Register};
use vstd::prelude::*;

verus! {

/// Append this family's entries to the opcode registry.
pub fn register(m: &mut Vec<(Opcode, Instruction)>)
    ensures
        final(m)@.len() == old(m)@.len() + 1,
        final(m)@.subrange(0, old(m)@.len() as int) == old(m)@,
        final(m)@[old(m)@.len() as int + 0].0 == Opcode::Normal(0b000100) && entry_spec(
            final(m)@[old(m)@.len() as int + 0].1,
            "BEQ"@,
            seq![Register::RS, Register::RT],
            None,
            Operation::BranchOnEqual,
        ),
{
    let mut inputs_beq: Vec<Register> = Vec::new();
    inputs_beq.push(Register::RS);
    inputs_beq.push(Register::RT);
    proof {
        assert(inputs_beq@ =~= seq![Register::RS, Register::RT]);
    }
    m.push((Opcode::Normal(0b000100), Instruction {
        name: "BEQ",
        inputs: inputs_beq,
        outputs: None,
        operation: Operation::BranchOnEqual,
    }));
    proof {
        assert(final(m)@.subrange(0, old(m)@.len() as int) =~= old(m)@);
    }
}

} // verus!
