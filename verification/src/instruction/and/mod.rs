//! The bitwise-AND family, register and immediate forms.

pub mod and;
pub mod andi;

pub use self::and::And;
pub use self::andi::AndI;

use crate::decoded::Opcode;
use crate::decoder::{entry_spec, Instruction, Operation, Register};
use vstd::prelude::*;

verus! {

/// Append this family's entries to the opcode registry.
pub fn register(m: &mut Vec<(Opcode, Instruction)>)
    ensures
        final(m)@.len() == old(m)@.len() + 2,
        final(m)@.subrange(0, old(m)@.len() as int) == old(m)@,
        final(m)@[old(m)@.len() as int + 0].0 == Opcode::Special(0b100100) && entry_spec(
            final(m)@[old(m)@.len() as int + 0].1,
            "AND"@,
            seq![Register::RS, Register::RT],
            Some(Register::RT),
            Operation::BitAnd,
        ),
        final(m)@[old(m)@.len() as int + 1].0 == Opcode::Normal(0b001100) && entry_spec(
            final(m)@[old(m)@.len() as int + 1].1,
            "ANDI"@,
            seq![Register::RS, Register::Immediate],
            Some(Register::RT),
            Operation::BitAnd,
        ),
{
    let mut inputs_and: Vec<Register> = Vec::new();
    inputs_and.push(Register::RS);
    inputs_and.push(Register::RT);
    proof {
        assert(inputs_and@ =~= seq![Register::RS, Register::RT]);
    }
    m.push((Opcode::Special(0b100100), Instruction {
        name: "AND",
        inputs: inputs_and,
        outputs: Some(Register::RT),
        operation: Operation::BitAnd,
    }));
    let mut inputs_andi: Vec<Register> = Vec::new();
    inputs_andi.push(Register::RS);
    inputs_andi.push(Register::Immediate);
    proof {
        assert(inputs_andi@ =~= seq![Register::RS, Register::Immediate]);
    }
    m.push((Opcode::Normal(0b001100), Instruction {
        name: "ANDI",
        inputs: inputs_andi,
        outputs: Some(Register::RT),
        operation: Operation::BitAnd,
    }));
    proof {
        assert(final(m)@.subrange(0, old(m)@.len() as int) =~= old(m)@);
    }
}

} // verus!
