//! The add family: checked and wrapping addition, register and
//! immediate forms.

pub mod add;
pub mod addi;
pub mod addiu;
pub mod addu;

pub use self::add::ADD;
pub use self::addi::AddI;
pub use self::addiu::AddIU;
pub use self::addu::AddU;

use crate::decoded::{Decoded, Opcode};
use crate::decoder::{entry_spec, Instruction, Operation, Register};
use vstd::prelude::*;

verus! {

/// Append this family's entries to the opcode registry.
pub fn register(m: &mut Vec<(Opcode, Instruction)>)
    ensures
        final(m)@.len() == old(m)@.len() + 4,
        final(m)@.subrange(0, old(m)@.len() as int) == old(m)@,
        final(m)@[old(m)@.len() as int + 0].0 == Opcode::Special(0b100000) && entry_spec(
            final(m)@[old(m)@.len() as int + 0].1,
            "ADD"@,
            seq![Register::RS, Register::RT],
            Some(Register::RD),
            Operation::CheckedAdd,
        ),
        final(m)@[old(m)@.len() as int + 1].0 == Opcode::Normal(0b001000) && entry_spec(
            final(m)@[old(m)@.len() as int + 1].1,
            "ADDI"@,
            seq![Register::RS, Register::Immediate],
            Some(Register::RT),
            Operation::CheckedAdd,
        ),
        final(m)@[old(m)@.len() as int + 2].0 == Opcode::Normal(0b001001) && entry_spec(
            final(m)@[old(m)@.len() as int + 2].1,
            "ADDIU"@,
            seq![Register::RS, Register::Immediate],
            Some(Register::RT),
            Operation::WrappingAdd,
        ),
        final(m)@[old(m)@.len() as int + 3].0 == Opcode::Special(0b100001) && entry_spec(
            final(m)@[old(m)@.len() as int + 3].1,
            "ADDU"@,
            seq![Register::RS, Register::RT],
            Some(Register::RD),
            Operation::WrappingAdd,
        ),
{
    let mut inputs_add: Vec<Register> = Vec::new();
    inputs_add.push(Register::RS);
    inputs_add.push(Register::RT);
    proof {
        assert(inputs_add@ =~= seq![Register::RS, Register::RT]);
    }
    m.push((Opcode::Special(0b100000), Instruction {
        name: "ADD",
        inputs: inputs_add,
        outputs: Some(Register::RD),
        operation: Operation::CheckedAdd,
    }));
    let mut inputs_addi: Vec<Register> = Vec::new();
    inputs_addi.push(Register::RS);
    inputs_addi.push(Register::Immediate);
    proof {
        assert(inputs_addi@ =~= seq![Register::RS, Register::Immediate]);
    }
    m.push((Opcode::Normal(0b001000), Instruction {
        name: "ADDI",
        inputs: inputs_addi,
        outputs: Some(Register::RT),
        operation: Operation::CheckedAdd,
    }));
    let mut inputs_addiu: Vec<Register> = Vec::new();
    inputs_addiu.push(Register::RS);
    inputs_addiu.push(Register::Immediate);
    proof {
        assert(inputs_addiu@ =~= seq![Register::RS, Register::Immediate]);
    }
    m.push((Opcode::Normal(0b001001), Instruction {
        name: "ADDIU",
        inputs: inputs_addiu,
        outputs: Some(Register::RT),
        operation: Operation::WrappingAdd,
    }));
    let mut inputs_addu: Vec<Register> = Vec::new();
    inputs_addu.push(Register::RS);
    inputs_addu.push(Register::RT);
    proof {
        assert(inputs_addu@ =~= seq![Register::RS, Register::RT]);
    }
    m.push((Opcode::Special(0b100001), Instruction {
        name: "ADDU",
        inputs: inputs_addu,
        outputs: Some(Register::RD),
        operation: Operation::WrappingAdd,
    }));
    proof {
        assert(final(m)@.subrange(0, old(m)@.len() as int) =~= old(m)@);
    }
}

/// On any pair of operand values whose exact sum exceeds the signed 32-bit
/// range, ADD signals an overflow exception while ADDU, on the same inputs,
/// succeeds with the wrapped sum.
pub proof fn lemma_add_traps_where_addu_wraps(checked: ADD, wrapping: AddU, registers: Seq<u32>)
    requires
        registers.len() == 2,
        registers[0] + registers[1] > 0x7fffffff,
    ensures
        !checked.spec_success_on(registers),
        wrapping.spec_success_on(registers),
        wrapping.spec_value(registers) == ((registers[0] + registers[1]) % 0x100000000) as u32,
{
}

/// The same law for the immediate forms: on any operand value and embedded
/// immediate whose exact sum exceeds the signed 32-bit range, ADDI signals
/// an overflow exception while ADDIU succeeds with the wrapped sum.
pub proof fn lemma_addi_traps_where_addiu_wraps(checked: AddI, wrapping: AddIU, registers: Seq<u32>)
    requires
        registers.len() == 1,
        checked.immediate == wrapping.immediate,
        registers[0] + checked.immediate > 0x7fffffff,
    ensures
        !checked.spec_success_on(registers),
        wrapping.spec_success_on(registers),
        wrapping.spec_value(registers) == ((registers[0] + checked.immediate) % 0x100000000)
            as u32,
{
}


} // verus!
