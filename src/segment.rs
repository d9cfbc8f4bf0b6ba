//! Digit to segment bitmap encoding for a seven-segment display.
//!
//! Each segment is one bit of a byte: A is bit 0, B bit 1, through G at bit 6,
//! and the decimal point at bit 7.
use vstd::prelude::*;

verus! {

pub const SEG_A: u8 = 0b0000_0001;

pub const SEG_B: u8 = 0b0000_0010;

pub const SEG_C: u8 = 0b0000_0100;

pub const SEG_D: u8 = 0b0000_1000;

pub const SEG_E: u8 = 0b0001_0000;

pub const SEG_F: u8 = 0b0010_0000;

pub const SEG_G: u8 = 0b0100_0000;

pub const SEG_DP: u8 = 0b1000_0000;

/// Why a value could not be encoded.
#[derive(Debug, Clone, Copy, PartialEq, Eq, Structural)]
pub enum SegmentError {
    /// The value is not a decimal digit (0 through 9).
    OutOfRange,
}

/// A decimal digit.
pub open spec fn is_digit(d: int) -> bool {
    0 <= d <= 9
}

/// The segments lit to draw digit `d` in its conventional shape.
pub open spec fn digit_pattern(d: int) -> u8
    recommends
        is_digit(d),
{
    if d == 0 {
        SEG_A | SEG_B | SEG_C | SEG_D | SEG_E | SEG_F
    } else if d == 1 {
        SEG_B | SEG_C
    } else if d == 2 {
        SEG_A | SEG_B | SEG_D | SEG_E | SEG_G
    } else if d == 3 {
        SEG_A | SEG_B | SEG_C | SEG_D | SEG_G
    } else if d == 4 {
        SEG_B | SEG_C | SEG_F | SEG_G
    } else if d == 5 {
        SEG_A | SEG_C | SEG_D | SEG_F | SEG_G
    } else if d == 6 {
        SEG_A | SEG_C | SEG_D | SEG_E | SEG_F | SEG_G
    } else if d == 7 {
        SEG_A | SEG_B | SEG_C
    } else if d == 8 {
        SEG_A | SEG_B | SEG_C | SEG_D | SEG_E | SEG_F | SEG_G
    } else {
        SEG_A | SEG_B | SEG_C | SEG_D | SEG_F | SEG_G
    }
}

/// Encoding any integer: the bitmap of a digit, an error for anything else.
pub open spec fn encode_spec(d: int) -> Result<u8, SegmentError> {
    if is_digit(d) {
        Ok(digit_pattern(d))
    } else {
        Err(SegmentError::OutOfRange)
    }
}

/// The conventional number of segments lit for digit `d`.
pub open spec fn segment_count(d: int) -> nat {
    if d == 1 {
        2
    } else if d == 7 {
        3
    } else if d == 4 {
        4
    } else if d == 2 || d == 3 || d == 5 {
        5
    } else if d == 8 {
        7
    } else {
        6
    }
}

/// The number of set bits of `b`.
pub open spec fn bit_count(b: nat) -> nat
    decreases b,
{
    if b == 0 {
        0
    } else {
        b % 2 + bit_count(b / 2)
    }
}

/// The bitmap of digit `x`.
pub fn digit_byte(x: usize) -> (r: u8)
    requires
        x <= 9,
    ensures
        r == digit_pattern(x as int),
        r & SEG_DP == 0,
{
    proof {
        lemma_no_decimal_point(x as int);
    }
    match x {
        0 => SEG_A | SEG_B | SEG_C | SEG_D | SEG_E | SEG_F,
        1 => SEG_B | SEG_C,
        2 => SEG_A | SEG_B | SEG_D | SEG_E | SEG_G,
        3 => SEG_A | SEG_B | SEG_C | SEG_D | SEG_G,
        4 => SEG_B | SEG_C | SEG_F | SEG_G,
        5 => SEG_A | SEG_C | SEG_D | SEG_F | SEG_G,
        6 => SEG_A | SEG_C | SEG_D | SEG_E | SEG_F | SEG_G,
        7 => SEG_A | SEG_B | SEG_C,
        8 => SEG_A | SEG_B | SEG_C | SEG_D | SEG_E | SEG_F | SEG_G,
        _ => SEG_A | SEG_B | SEG_C | SEG_D | SEG_F | SEG_G,
    }
}

/// The bitmap of `digit`, or `OutOfRange` when it is not in 0 through 9.
pub fn encode(digit: i64) -> (r: Result<u8, SegmentError>)
    ensures
        r == encode_spec(digit as int),
        r is Ok <==> is_digit(digit as int),
        r is Ok ==> r->Ok_0 & SEG_DP == 0,
{
    if 0 <= digit && digit <= 9 {
        Ok(digit_byte(digit as usize))
    } else {
        Err(SegmentError::OutOfRange)
    }
}

/// The bitmap of each digit, as a number.
pub proof fn lemma_digit_values()
    ensures
        digit_pattern(0) == 0x3f,
        digit_pattern(1) == 0x06,
        digit_pattern(2) == 0x5b,
        digit_pattern(3) == 0x4f,
        digit_pattern(4) == 0x66,
        digit_pattern(5) == 0x6d,
        digit_pattern(6) == 0x7d,
        digit_pattern(7) == 0x07,
        digit_pattern(8) == 0x7f,
        digit_pattern(9) == 0x6f,
{
    assert(SEG_A | SEG_B | SEG_C | SEG_D | SEG_E | SEG_F == 0x3f) by (bit_vector);
    assert(SEG_B | SEG_C == 0x06) by (bit_vector);
    assert(SEG_A | SEG_B | SEG_D | SEG_E | SEG_G == 0x5b) by (bit_vector);
    assert(SEG_A | SEG_B | SEG_C | SEG_D | SEG_G == 0x4f) by (bit_vector);
    assert(SEG_B | SEG_C | SEG_F | SEG_G == 0x66) by (bit_vector);
    assert(SEG_A | SEG_C | SEG_D | SEG_F | SEG_G == 0x6d) by (bit_vector);
    assert(SEG_A | SEG_C | SEG_D | SEG_E | SEG_F | SEG_G == 0x7d) by (bit_vector);
    assert(SEG_A | SEG_B | SEG_C == 0x07) by (bit_vector);
    assert(SEG_A | SEG_B | SEG_C | SEG_D | SEG_E | SEG_F | SEG_G == 0x7f) by (bit_vector);
    assert(SEG_A | SEG_B | SEG_C | SEG_D | SEG_F | SEG_G == 0x6f) by (bit_vector);
}

/// No digit lights the decimal point.
pub proof fn lemma_no_decimal_point(d: int)
    requires
        is_digit(d),
    ensures
        digit_pattern(d) & SEG_DP == 0,
{
    lemma_digit_values();
    let b = digit_pattern(d);
    assert(b == 0x3f || b == 0x06 || b == 0x5b || b == 0x4f || b == 0x66 || b == 0x6d
        || b == 0x7d || b == 0x07 || b == 0x7f || b == 0x6f);
    assert(b & SEG_DP == 0) by (bit_vector)
        requires
            b == 0x3f || b == 0x06 || b == 0x5b || b == 0x4f || b == 0x66 || b == 0x6d
                || b == 0x7d || b == 0x07 || b == 0x7f || b == 0x6f,
    ;
}

/// Each digit lights the conventional number of segments for its shape.
pub proof fn lemma_segment_count(d: int)
    requires
        is_digit(d),
    ensures
        bit_count(digit_pattern(d) as nat) == segment_count(d),
{
    lemma_digit_values();
    reveal_with_fuel(bit_count, 8);
}

/// Two different digits never share a bitmap.
pub proof fn lemma_patterns_distinct(a: int, b: int)
    requires
        is_digit(a),
        is_digit(b),
        a != b,
    ensures
        digit_pattern(a) != digit_pattern(b),
{
    lemma_digit_values();
}

} // verus!
