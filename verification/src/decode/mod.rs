pub mod instruction;
pub mod itype;

pub use self::instruction::Instruction;
pub use self::itype::{
    Branch, DecodeError, Immediate, InstructionType, Jump, Memory, RegImm, Special,
};
