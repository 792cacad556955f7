//! The branch family: registry lookup and the taken/not-taken condition.

use mips_decode::decoder::{Decoder, Fetched};

#[test]
fn beq_decode() {
    let d = Decoder::new();
    let i = d.decode(Fetched(0b000100_11111_00000_1111111111111111u32)).unwrap();
    assert_eq!(i.name, "BEQ");
}

#[test]
fn beq_taken_condition() {
    let d = Decoder::new();
    let i = d.decode(Fetched(0b000100_00001_00010_0000000000000100u32)).unwrap();
    assert_eq!(i.branch_taken(&vec![7, 7]), Some(true));
    assert_eq!(i.branch_taken(&vec![7, 8]), Some(false));
    assert!(matches!(i.execute(&vec![7, 7]), mips_decode::error::ExecResult::Empty));
}
