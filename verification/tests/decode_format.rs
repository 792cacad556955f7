//! Format classification checks: which of the six layouts a word falls
//! into, and which words classification rejects.

use mips_decode::decode::{DecodeError, Immediate, InstructionType, Special};
use quickcheck::{QuickCheck, StdGen};

fn masked_quickcheck(size: usize) -> QuickCheck<StdGen<rand::rngs::ThreadRng>> {
    QuickCheck::new().gen(StdGen::new(rand::thread_rng(), size))
}

#[test]
fn test_instruction_type_normal() {
    fn prop(xs: u32) -> bool {
        match InstructionType::decode(xs) {
            Ok(InstructionType::Special(Special { .. })) => true,
            _ => false,
        }
    }
    masked_quickcheck(0x03ffffff).tests(1_000).quickcheck(prop as fn(u32) -> bool);
}

#[test]
fn test_instruction_type_immediate() {
    fn prop(xs: u32) -> bool {
        match InstructionType::decode((xs & 0x03ffffff) | (0b001000 << 26)) {
            Ok(InstructionType::Immediate(Immediate { .. })) => true,
            _ => false,
        }
    }
    masked_quickcheck(0x03ffffff).tests(1_000).quickcheck(prop as fn(u32) -> bool);
}

#[test]
fn classify_fields_special() {
    let word = 0b000000_11111_00000_11111_01010_100000u32;
    match InstructionType::decode(word) {
        Ok(InstructionType::Special(s)) => {
            assert_eq!(s.opcode, 0b100000);
            assert_eq!(s.rs, 0b11111);
            assert_eq!(s.rt, 0b00000);
            assert_eq!(s.rd, 0b11111);
            assert_eq!(s.sa, 0b01010);
        }
        other => panic!("expected register format, got {:?}", other),
    }
}

#[test]
fn classify_fields_regimm() {
    let word = (1 << 26) | (0b11010 << 21) | (0b01100 << 16) | 0x1234;
    match InstructionType::decode(word) {
        Ok(InstructionType::RegImm(r)) => {
            assert_eq!(r.opcode, 0b01100);
            assert_eq!(r.rs, 0b11010);
            assert_eq!(r.offset, 0x1234);
        }
        other => panic!("expected register-immediate format, got {:?}", other),
    }
}

#[test]
fn classify_fields_memory() {
    let word = (0b100011 << 26) | (0b00111 << 21) | (0b01001 << 16) | 0xfffc;
    match InstructionType::decode(word) {
        Ok(InstructionType::Memory(m)) => {
            assert_eq!(m.opcode, 0b100011);
            assert_eq!(m.base, 0b00111);
            assert_eq!(m.rt, 0b01001);
            assert_eq!(m.offset, 0xfffc);
        }
        other => panic!("expected memory format, got {:?}", other),
    }
}

#[test]
fn classify_fields_jump() {
    let word = (0b000010 << 26) | 0x02abcdef;
    match InstructionType::decode(word) {
        Ok(InstructionType::Jump(j)) => {
            assert_eq!(j.opcode, 0b000010);
            assert_eq!(j.instr_index, 0x02abcdef);
        }
        other => panic!("expected jump format, got {:?}", other),
    }
}

#[test]
fn classify_lui_is_memory() {
    let word = (0b001111 << 26) | (0b00000 << 21) | (0b00001 << 16) | 0xbeef;
    match InstructionType::decode(word) {
        Ok(InstructionType::Memory(m)) => {
            assert_eq!(m.opcode, 0b001111);
            assert_eq!(m.offset, 0xbeef);
        }
        other => panic!("expected memory format for LUI, got {:?}", other),
    }
}

#[test]
fn classify_rejects_coprocessor() {
    for op in [0b010000u32, 0b010001, 0b010010, 0b010011] {
        match InstructionType::decode(op << 26) {
            Err(DecodeError::Coprocessor(o)) => assert_eq!(o as u32, op),
            other => panic!("expected coprocessor rejection, got {:?}", other),
        }
    }
}
