//! The bitwise-AND family: registry lookup, field extraction, execution.

use mips_decode::decoded::Decoded;
use mips_decode::decoder::{Decoder, Fetched};
use mips_decode::instruction::and::{And, AndI};

#[test]
fn and_decode() {
    let d = Decoder::new();
    let i = d.decode(Fetched(0b000000_11111_00000_11111_00000_100100u32)).unwrap();
    assert_eq!(i.name, "AND");
}

#[test]
fn andi_decode() {
    let d = Decoder::new();
    let i = d.decode(Fetched(0b001100_11111_00000_1111111111111111u32)).unwrap();
    assert_eq!(i.name, "ANDI");
}

#[test]
fn mod_and_decode() {
    let d = Decoder::new();
    let i = d.decode(Fetched(0b000000_11111_00000_11111_00000_100100u32)).unwrap();
    assert_eq!(i.name, "AND");
}

#[test]
fn mod_andi_decode() {
    let d = Decoder::new();
    let i = d.decode(Fetched(0b001100_11111_00000_1111111111111111u32)).unwrap();
    assert_eq!(i.name, "ANDI");
}

#[test]
fn add_construct() {
    assert_eq!(
        And::new(0b000000_00000_11111_00000_00000_100100),
        And { rs: 0b00000, rt: 0b11111, rd: 0b00000 }
    );
    assert_eq!(
        And::new(0b000000_11111_00000_11111_00000_100100),
        And { rs: 0b11111, rt: 0b00000, rd: 0b11111 }
    );
}

#[test]
fn and_exec() {
    let s = And { rs: 0, rt: 1, rd: 2 };
    assert_eq!(s.execute(&[0xff, 0xcc]).unwrap(), 0xcc);
}

#[test]
fn andi_construct() {
    assert_eq!(
        AndI::new(0b001100_00000_11111_0000000000000000),
        AndI { rs: 0b00000, rt: 0b11111, immediate: 0 }
    );
    assert_eq!(
        AndI::new(0b001100_11111_00000_1111111111111111),
        AndI { rs: 0b11111, rt: 0b00000, immediate: 0xffff }
    );
}

#[test]
fn andi_exec() {
    let s = AndI { rs: 0, rt: 1, immediate: 0xff };
    assert_eq!(s.execute(&[0xcc]).unwrap(), 0xcc);
}
