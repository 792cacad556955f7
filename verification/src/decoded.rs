//! The opcode identity used as registry key, and the interface every
//! decoded, executable instruction offers: its mnemonic, operand roles, and
//! execution semantics.

use crate::error::{ErrorKind, ExecResult};
use vstd::prelude::*;

verus! {

/// Identity of an instruction in the opcode space: a plain primary opcode,
/// a function code under primary opcode 0, or a sub-code under primary
/// opcode 1.
#[derive(Debug, Copy, Clone, PartialEq, Eq, Hash, Structural)]
pub enum Opcode {
    Normal(u8),
    Special(u8),
    RegImm(u8),
}

/// An operand role: a physical register slot, or the abstract memory port of
/// a load/store instruction (distinct from any register).
#[derive(Debug, Copy, Clone, PartialEq, Eq, Structural)]
pub enum IO {
    Register(u8),
    Memory,
}

/// An instruction type that owns a fixed slot in the opcode space.
pub trait Decodable {
    /// The opcode under which this instruction registers.
    spec fn spec_opcode() -> Opcode;

    fn opcode() -> (r: Opcode)
        ensures
            r == Self::spec_opcode(),
    ;
}

/// A decoded instruction: declares its mnemonic and operand roles, and
/// computes its result from register operand values.  `execute` takes the
/// operand values in the order `inputs` declares, and either succeeds with
/// the value described by `spec_value`, or signals an arithmetic overflow.
pub trait Decoded {
    /// The mnemonic, as a character sequence.
    spec fn spec_name(&self) -> Seq<char>;

    /// The declared input roles.
    spec fn spec_inputs(&self) -> Seq<IO>;

    /// The declared output role, if the instruction writes one back.
    spec fn spec_outputs(&self) -> Option<IO>;

    /// Whether the instruction signals overflow instead of wrapping.
    spec fn spec_trap_on_overflow(&self) -> bool;

    /// On which operand values execution succeeds.
    spec fn spec_success_on(&self, registers: Seq<u32>) -> bool;

    /// The value computed on success.
    spec fn spec_value(&self, registers: Seq<u32>) -> u32;

    fn name(&self) -> (r: &'static str)
        ensures
            r@ == self.spec_name(),
    ;

    fn inputs(&self) -> (r: Vec<IO>)
        ensures
            r@ == self.spec_inputs(),
    ;

    fn outputs(&self) -> (r: Option<IO>)
        ensures
            r == self.spec_outputs(),
    ;

    fn is_trap_on_overflow(&self) -> (r: bool)
        ensures
            r == self.spec_trap_on_overflow(),
    ;

    fn execute(&self, registers: &[u32]) -> (r: ExecResult<u32>)
        requires
            registers@.len() == self.spec_inputs().len(),
        ensures
            self.spec_success_on(registers@) ==> r == ExecResult::Success(self.spec_value(
                registers@,
            )),
            !self.spec_success_on(registers@) ==> (r matches ExecResult::Exception(e) && e.kind
                == ErrorKind::Overflow),
    ;
}

} // verus!
