//! Bitfield extractor checks: each extractor returns exactly the bits of its
//! documented range, right-aligned.

use mips_decode::decoder::{
    extract_10_6, extract_15_0, extract_15_11, extract_20_16, extract_25_0, extract_25_21,
    extract_31_26, extract_5_0,
};

#[test]
fn test_extract_31_26() {
    assert_eq!(extract_31_26(0b111111_11111_11111_11111_11111_111111), 0b111111);
    assert_eq!(extract_31_26(0b111111_00000_00000_00000_00000_000000), 0b111111);
    assert_eq!(extract_31_26(0b000000_11111_11111_11111_11111_111111), 0b000000);
}

#[test]
fn test_extract_25_21() {
    assert_eq!(extract_25_21(0b111111_11111_11111_11111_11111_111111), 0b11111);
    assert_eq!(extract_25_21(0b000000_11111_00000_00000_00000_000000), 0b11111);
    assert_eq!(extract_25_21(0b111111_00000_11111_11111_11111_111111), 0b00000);
}

#[test]
fn test_extract_20_16() {
    assert_eq!(extract_20_16(0b111111_11111_11111_11111_11111_111111), 0b11111);
    assert_eq!(extract_20_16(0b000000_00000_11111_00000_00000_000000), 0b11111);
    assert_eq!(extract_20_16(0b111111_11111_00000_11111_11111_111111), 0b00000);
}

#[test]
fn test_extract_15_11() {
    assert_eq!(extract_15_11(0b111111_11111_11111_11111_11111_111111), 0b11111);
    assert_eq!(extract_15_11(0b000000_00000_00000_11111_00000_000000), 0b11111);
    assert_eq!(extract_15_11(0b111111_11111_11111_00000_11111_111111), 0b00000);
}

#[test]
fn test_extract_15_0() {
    assert_eq!(extract_15_0(0xff_ff_ff_ff), 0xffff);
    assert_eq!(extract_15_0(0x00_00_ff_ff), 0xffff);
    assert_eq!(extract_15_0(0xff_ff_00_00), 0x0000);
}

#[test]
fn test_extract_10_6() {
    assert_eq!(extract_10_6(0b111111_11111_11111_11111_11111_111111), 0b11111);
    assert_eq!(extract_10_6(0b000000_00000_00000_00000_11111_000000), 0b11111);
    assert_eq!(extract_10_6(0b111111_11111_11111_11111_00000_111111), 0b00000);
}

#[test]
fn test_extract_5_0() {
    assert_eq!(extract_5_0(0xff_ff_ff_ff), 0x3f);
    assert_eq!(extract_5_0(0x00_00_00_3f), 0x3f);
    assert_eq!(extract_5_0(0xff_ff_ff_c0), 0x00);
}

#[test]
fn test_extract_25_0() {
    assert_eq!(extract_25_0(0xff_ff_ff_ff), 0x03_ff_ff_ff);
    assert_eq!(extract_25_0(0x03_ff_ff_ff), 0x03_ff_ff_ff);
    assert_eq!(extract_25_0(0xfc_00_00_00), 0x00_00_00_00);
}
