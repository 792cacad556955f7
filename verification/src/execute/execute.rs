//! Per-mnemonic execution semantics: pure functions from operand values to a
//! result value or an arithmetic-trap signal.  Register values arrive as
//! unsigned words; a checked operation traps exactly when the exact result of
//! the operation, with its operands read as unsigned words, falls outside the
//! signed range of the register width, while the "U"-suffixed wrapping
//! operations treat overflow as defined behaviour and never trap.

use crate::error::{ErrorKind, ExecError, ExecResult};
use vstd::prelude::*;

verus! {

/// Largest exact sum/difference a checked 32-bit operation may produce.
pub open spec fn in_signed32(v: int) -> bool {
    -0x80000000 <= v <= 0x7fffffff
}

/// Largest exact sum/difference a checked 64-bit operation may produce.
pub open spec fn in_signed64(v: int) -> bool {
    -0x8000000000000000 <= v <= 0x7fffffffffffffff
}

/// The 16-bit immediate sign-extended to a 32-bit word.
pub open spec fn sign_extend16(x: u16) -> u32 {
    x as i16 as i32 as u32
}

/// Logical left shift, shift amount taken modulo the register width.
pub open spec fn spec_sll32(v: u32, sa: u32) -> u32 {
    v << (sa & 0x1f)
}

/// Logical right shift, shift amount taken modulo the register width;
/// vacated bits are zero-filled.
pub open spec fn spec_srl32(v: u32, sa: u32) -> u32 {
    v >> (sa & 0x1f)
}

/// Arithmetic (sign-preserving) right shift, shift amount taken modulo the
/// register width.
pub open spec fn spec_sra32(v: u32, sa: u32) -> u32 {
    ((v as i32) >> (sa & 0x1f)) as u32
}

/// Checked 32-bit addition: traps with `Overflow` exactly when the exact sum
/// exceeds the signed 32-bit range; otherwise the sum itself.
pub fn add_checked(a: u32, b: u32) -> (r: ExecResult<u32>)
    ensures
        a + b <= 0x7fffffff ==> r == ExecResult::Success((a + b) as u32),
        a + b > 0x7fffffff ==> (r matches ExecResult::Exception(e) && e.kind
            == ErrorKind::Overflow),
{
    let s: u64 = (a as u64) + (b as u64);
    if s <= 0x7fffffff {
        ExecResult::Success(s as u32)
    } else {
        ExecResult::Exception(ExecError::new(ErrorKind::Overflow, "checked add overflowed"))
    }
}

/// Wrapping 32-bit addition: overflow is defined behaviour, never an
/// exception.
pub fn add_wrapping(a: u32, b: u32) -> (r: ExecResult<u32>)
    ensures
        r == ExecResult::Success(((a + b) % 0x100000000) as u32),
{
    let s: u64 = (a as u64) + (b as u64);
    ExecResult::Success((s % 0x100000000) as u32)
}

/// Checked 32-bit subtraction: traps with `Overflow` exactly when the exact
/// difference falls outside the signed 32-bit range; otherwise the
/// difference as a two's-complement word.
pub fn sub_checked(a: u32, b: u32) -> (r: ExecResult<u32>)
    ensures
        in_signed32(a - b) ==> r == ExecResult::Success(((a - b) % 0x100000000) as u32),
        !in_signed32(a - b) ==> (r matches ExecResult::Exception(e) && e.kind
            == ErrorKind::Overflow),
{
    let d: i64 = (a as i64) - (b as i64);
    if -0x80000000 <= d && d <= 0x7fffffff {
        ExecResult::Success(a.wrapping_sub(b))
    } else {
        ExecResult::Exception(ExecError::new(ErrorKind::Overflow, "checked sub overflowed"))
    }
}

/// Wrapping 32-bit subtraction.
pub fn sub_wrapping(a: u32, b: u32) -> (r: ExecResult<u32>)
    ensures
        r == ExecResult::Success(((a - b) % 0x100000000) as u32),
{
    ExecResult::Success(a.wrapping_sub(b))
}

/// Checked 64-bit addition, for the doubleword instruction subset.
pub fn dadd_checked(a: u64, b: u64) -> (r: ExecResult<u64>)
    ensures
        a + b <= 0x7fffffffffffffff ==> r == ExecResult::Success((a + b) as u64),
        a + b > 0x7fffffffffffffff ==> (r matches ExecResult::Exception(e) && e.kind
            == ErrorKind::Overflow),
{
    let s: u128 = (a as u128) + (b as u128);
    if s <= 0x7fffffffffffffff {
        ExecResult::Success(s as u64)
    } else {
        ExecResult::Exception(ExecError::new(ErrorKind::Overflow, "checked dadd overflowed"))
    }
}

/// Wrapping 64-bit addition.
pub fn dadd_wrapping(a: u64, b: u64) -> (r: ExecResult<u64>)
    ensures
        r == ExecResult::Success(((a + b) % 0x10000000000000000) as u64),
{
    ExecResult::Success(a.wrapping_add(b))
}

/// Checked 64-bit subtraction.
pub fn dsub_checked(a: u64, b: u64) -> (r: ExecResult<u64>)
    ensures
        in_signed64(a - b) ==> r == ExecResult::Success(((a - b) % 0x10000000000000000) as u64),
        !in_signed64(a - b) ==> (r matches ExecResult::Exception(e) && e.kind
            == ErrorKind::Overflow),
{
    let d: i128 = (a as i128) - (b as i128);
    if -0x8000000000000000 <= d && d <= 0x7fffffffffffffff {
        ExecResult::Success(a.wrapping_sub(b))
    } else {
        ExecResult::Exception(ExecError::new(ErrorKind::Overflow, "checked dsub overflowed"))
    }
}

/// Wrapping 64-bit subtraction.
pub fn dsub_wrapping(a: u64, b: u64) -> (r: ExecResult<u64>)
    ensures
        r == ExecResult::Success(((a - b) % 0x10000000000000000) as u64),
{
    ExecResult::Success(a.wrapping_sub(b))
}

/// Signed 32x32 multiplication: the full 64-bit two's-complement product,
/// as the HI/LO pair reads it.  No overflow is possible.
pub fn multiply(a: u32, b: u32) -> (r: ExecResult<u64>)
    ensures
        r == ExecResult::Success((((a as i32) as i64) * ((b as i32) as i64)) as u64),
{
    let ai: i64 = (a as i32) as i64;
    let bi: i64 = (b as i32) as i64;
    proof {
        assert(-0x4000000000000000 <= ai * bi <= 0x4000000000000000) by (nonlinear_arith)
            requires
                -0x80000000 <= ai <= 0x7fffffff,
                -0x80000000 <= bi <= 0x7fffffff,
        ;
    }
    ExecResult::Success((ai * bi) as u64)
}

/// Unsigned 32x32 multiplication: the full 64-bit product.
pub fn multiply_unsigned(a: u32, b: u32) -> (r: ExecResult<u64>)
    ensures
        r == ExecResult::Success(((a as u64) * (b as u64)) as u64),
{
    let au: u64 = a as u64;
    let bu: u64 = b as u64;
    proof {
        assert(au * bu <= 0xffffffff * 0xffffffff) by (nonlinear_arith)
            requires
                au <= 0xffffffff,
                bu <= 0xffffffff,
        ;
    }
    ExecResult::Success(au * bu)
}

/// Bitwise AND: no overflow is possible, always a success.
pub fn and_bits(a: u32, b: u32) -> (r: ExecResult<u32>)
    ensures
        r == ExecResult::Success(a & b),
{
    ExecResult::Success(a & b)
}

/// Bitwise OR.
pub fn or_bits(a: u32, b: u32) -> (r: ExecResult<u32>)
    ensures
        r == ExecResult::Success(a | b),
{
    ExecResult::Success(a | b)
}

/// Bitwise XOR.
pub fn xor_bits(a: u32, b: u32) -> (r: ExecResult<u32>)
    ensures
        r == ExecResult::Success(a ^ b),
{
    ExecResult::Success(a ^ b)
}

/// Bitwise NOR.
pub fn nor_bits(a: u32, b: u32) -> (r: ExecResult<u32>)
    ensures
        r == ExecResult::Success(!(a | b)),
{
    ExecResult::Success(!(a | b))
}

/// Logical left shift; vacated bits are zero-filled.
pub fn shift_left_logical(v: u32, sa: u32) -> (r: ExecResult<u32>)
    ensures
        r == ExecResult::Success(spec_sll32(v, sa)),
{
    assert(sa & 0x1f < 32) by (bit_vector);
    ExecResult::Success(v << (sa & 0x1f))
}

/// Logical right shift; vacated bits are zero-filled.
pub fn shift_right_logical(v: u32, sa: u32) -> (r: ExecResult<u32>)
    ensures
        r == ExecResult::Success(spec_srl32(v, sa)),
{
    assert(sa & 0x1f < 32) by (bit_vector);
    ExecResult::Success(v >> (sa & 0x1f))
}

/// Arithmetic right shift: the sign bit fills the vacated positions.
pub fn shift_right_arithmetic(v: u32, sa: u32) -> (r: ExecResult<u32>)
    ensures
        r == ExecResult::Success(spec_sra32(v, sa)),
{
    assert(sa & 0x1f < 32) by (bit_vector);
    ExecResult::Success(((v as i32) >> (sa & 0x1f)) as u32)
}

/// Set-on-less-than, operands read as signed words.
pub fn set_less_than(a: u32, b: u32) -> (r: ExecResult<u32>)
    ensures
        r == ExecResult::Success(if (a as i32) < (b as i32) { 1u32 } else { 0u32 }),
{
    if (a as i32) < (b as i32) {
        ExecResult::Success(1)
    } else {
        ExecResult::Success(0)
    }
}

/// Set-on-less-than, operands read as unsigned words.
pub fn set_less_than_unsigned(a: u32, b: u32) -> (r: ExecResult<u32>)
    ensures
        r == ExecResult::Success(if a < b { 1u32 } else { 0u32 }),
{
    if a < b {
        ExecResult::Success(1)
    } else {
        ExecResult::Success(0)
    }
}

/// Trap-if-equal condition.  Whether a met condition raises a machine
/// exception is pipeline policy, left to the caller.
pub fn trap_if_equal(a: u32, b: u32) -> (r: bool)
    ensures
        r == (a == b),
{
    a == b
}

/// Trap-if-not-equal condition.
pub fn trap_if_not_equal(a: u32, b: u32) -> (r: bool)
    ensures
        r == (a != b),
{
    a != b
}

/// Trap-if-less-than condition, signed.
pub fn trap_if_less_than(a: u32, b: u32) -> (r: bool)
    ensures
        r == ((a as i32) < (b as i32)),
{
    (a as i32) < (b as i32)
}

/// Trap-if-less-than condition, unsigned.
pub fn trap_if_less_than_unsigned(a: u32, b: u32) -> (r: bool)
    ensures
        r == (a < b),
{
    a < b
}

/// Trap-if-greater-or-equal condition, signed.
pub fn trap_if_greater_equal(a: u32, b: u32) -> (r: bool)
    ensures
        r == ((a as i32) >= (b as i32)),
{
    (a as i32) >= (b as i32)
}

/// Trap-if-greater-or-equal condition, unsigned.
pub fn trap_if_greater_equal_unsigned(a: u32, b: u32) -> (r: bool)
    ensures
        r == (a >= b),
{
    a >= b
}

/// Branch-on-equal taken/not-taken condition.  Target-address computation
/// and control-flow redirection belong to the excluded pipeline component.
pub fn branch_on_equal_taken(a: u32, b: u32) -> (r: bool)
    ensures
        r == (a == b),
{
    a == b
}

/// Branch-on-not-equal taken/not-taken condition.
pub fn branch_on_not_equal_taken(a: u32, b: u32) -> (r: bool)
    ensures
        r == (a != b),
{
    a != b
}

/// Branch-on-less-than-or-equal-to-zero condition, signed.
pub fn branch_on_lez_taken(a: u32) -> (r: bool)
    ensures
        r == ((a as i32) <= 0),
{
    (a as i32) <= 0
}

/// Branch-on-greater-than-zero condition, signed.
pub fn branch_on_gtz_taken(a: u32) -> (r: bool)
    ensures
        r == ((a as i32) > 0),
{
    (a as i32) > 0
}

/// Branch-on-less-than-zero condition, signed.
pub fn branch_on_ltz_taken(a: u32) -> (r: bool)
    ensures
        r == ((a as i32) < 0),
{
    (a as i32) < 0
}

/// Branch-on-greater-or-equal-to-zero condition, signed.
pub fn branch_on_gez_taken(a: u32) -> (r: bool)
    ensures
        r == ((a as i32) >= 0),
{
    (a as i32) >= 0
}

/// The effective address of a memory-format instruction: the base register
/// value plus the sign-extended 16-bit byte offset, wrapping.  The actual
/// memory access is delegated to the excluded memory subsystem.
pub fn effective_address(base: u32, offset: u16) -> (r: u32)
    ensures
        r as int == (base + sign_extend16(offset)) % 0x100000000,
{
    let ext: u32 = (offset as i16 as i32) as u32;
    let s: u64 = (base as u64) + (ext as u64);
    (s % 0x100000000) as u32
}

/// The value LUI places in a register: the immediate in the upper halfword,
/// zeros below.
pub fn lui_value(imm: u16) -> (r: u32)
    ensures
        r == (imm as u32) << 16,
{
    (imm as u32) << 16
}

} // verus!
