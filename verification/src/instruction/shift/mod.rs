//! The constant-shift family: logical left and right, arithmetic right.

pub mod sll;
pub mod sra;
pub mod srl;

pub use self::sll::SLL;
pub use self::sra::SRA;
pub use self::srl::SRL;

use crate::decoded::Opcode;
use crate::decoder::{entry_spec, Instruction, Operation, Register};
use vstd::prelude::*;

verus! {

/// Append this family's entries to the opcode registry.
pub fn register(m: &mut Vec<(Opcode, Instruction)>)
    ensures
        final(m)@.len() == old(m)@.len() + 3,
        final(m)@.subrange(0, old(m)@.len() as int) == old(m)@,
        final(m)@[old(m)@.len() as int + 0].0 == Opcode::Special(0b000000) && entry_spec(
            final(m)@[old(m)@.len() as int + 0].1,
            "SLL"@,
            seq![Register::RT, Register::SA],
            Some(Register::RD),
            Operation::ShiftLeftLogical,
        ),
        final(m)@[old(m)@.len() as int + 1].0 == Opcode::Special(0b000010) && entry_spec(
            final(m)@[old(m)@.len() as int + 1].1,
            "SRL"@,
            seq![Register::RT, Register::SA],
            Some(Register::RD),
            Operation::ShiftRightLogical,
        ),
        final(m)@[old(m)@.len() as int + 2].0 == Opcode::Special(0b000011) && entry_spec(
            final(m)@[old(m)@.len() as int + 2].1,
            "SRA"@,
            seq![Register::RT, Register::SA],
            Some(Register::RD),
            Operation::ShiftRightArithmetic,
        ),
{
    let mut inputs_sll: Vec<Register> = Vec::new();
    inputs_sll.push(Register::RT);
    inputs_sll.push(Register::SA);
    proof {
        assert(inputs_sll@ =~= seq![Register::RT, Register::SA]);
    }
    m.push((Opcode::Special(0b000000), Instruction {
        name: "SLL",
        inputs: inputs_sll,
        outputs: Some(Register::RD),
        operation: Operation::ShiftLeftLogical,
    }));
    let mut inputs_srl: Vec<Register> = Vec::new();
    inputs_srl.push(Register::RT);
    inputs_srl.push(Register::SA);
    proof {
        assert(inputs_srl@ =~= seq![Register::RT, Register::SA]);
    }
    m.push((Opcode::Special(0b000010), Instruction {
        name: "SRL",
        inputs: inputs_srl,
        outputs: Some(Register::RD),
        operation: Operation::ShiftRightLogical,
    }));
    let mut inputs_sra: Vec<Register> = Vec::new();
    inputs_sra.push(Register::RT);
    inputs_sra.push(Register::SA);
    proof {
        assert(inputs_sra@ =~= seq![Register::RT, Register::SA]);
    }
    m.push((Opcode::Special(0b000011), Instruction {
        name: "SRA",
        inputs: inputs_sra,
        outputs: Some(Register::RD),
        operation: Operation::ShiftRightArithmetic,
    }));
    proof {
        assert(final(m)@.subrange(0, old(m)@.len() as int) =~= old(m)@);
    }
}

} // verus!
