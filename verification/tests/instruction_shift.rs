//! The constant-shift family: registry lookup, field extraction, execution.

use mips_decode::decoded::Decoded;
use mips_decode::decoder::{Decoder, Fetched};
use mips_decode::instruction::shift::{SLL, SRA, SRL};

#[test]
fn sll_decode() {
    let d = Decoder::new();
    let i = d.decode(Fetched(0b000000_11111_00000_11111_000000u32)).unwrap();
    assert_eq!(i.name, "SLL");
}

#[test]
fn srl_decode() {
    let d = Decoder::new();
    let i = d.decode(Fetched(0b000000_00000_11111_00000_11111_000010u32)).unwrap();
    assert_eq!(i.name, "SRL");
}

#[test]
fn sra_decode() {
    let d = Decoder::new();
    let i = d.decode(Fetched(0b00000_00000_11111_00000_11111_000011u32)).unwrap();
    assert_eq!(i.name, "SRA");
}

#[test]
fn mod_sll_decode() {
    let d = Decoder::new();
    let i = d.decode(Fetched(0b000000_11111_00000_11111_000000u32)).unwrap();
    assert_eq!(i.name, "SLL");
}

#[test]
fn mod_srl_decode() {
    let d = Decoder::new();
    let i = d.decode(Fetched(0b000000_00000_11111_00000_11111_000010u32)).unwrap();
    assert_eq!(i.name, "SRL");
}

#[test]
fn mod_sra_decode() {
    let d = Decoder::new();
    let i = d.decode(Fetched(0b00000_00000_11111_00000_11111_000011u32)).unwrap();
    assert_eq!(i.name, "SRA");
}

#[test]
fn sll_sll_decode() {
    assert_eq!(
        SLL::new(0b000000_00000_11111_00000_11111_000000),
        SLL { rt: 0b11111, rd: 0b00000, sa: 0b11111 }
    );
    assert_eq!(
        SLL::new(0b000000_00000_00000_11111_00000_000000),
        SLL { rt: 0b00000, rd: 0b11111, sa: 0b00000 }
    );
}

#[test]
fn sll_exec() {
    let s = SLL { rt: 0, rd: 1, sa: 5 };
    assert_eq!(s.execute(&[10]).unwrap(), 320);
}

#[test]
fn sra_construct() {
    assert_eq!(
        SRA::new(0b000000_00000_11111_00000_11111_000000),
        SRA { rt: 0b11111, rd: 0b00000, sa: 0b11111 }
    );
    assert_eq!(
        SRA::new(0b000000_00000_00000_11111_00000_000000),
        SRA { rt: 0b00000, rd: 0b11111, sa: 0b00000 }
    );
}

#[test]
fn sra_exec() {
    let s = SRA { rt: 0, rd: 1, sa: 2 };
    assert_eq!(s.execute(&[50]).unwrap(), 12);
}

#[test]
fn srl_construct() {
    assert_eq!(
        SRL::new(0b000000_00000_11111_00000_11111_000000),
        SRL { rt: 0b11111, rd: 0b00000, sa: 0b11111 }
    );
    assert_eq!(
        SRL::new(0b000000_00000_00000_11111_00000_000000),
        SRL { rt: 0b00000, rd: 0b11111, sa: 0b00000 }
    );
}

#[test]
fn srl_exec() {
    let s = SRL { rt: 0, rd: 1, sa: 2 };
    assert_eq!(s.execute(&[10]).unwrap(), 2);
}
