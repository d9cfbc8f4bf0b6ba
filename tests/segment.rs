use leadscrew::segment::{SEG_A, SEG_B, SEG_C, SEG_D, SEG_DP, SEG_E, SEG_F, SEG_G};
use leadscrew::{digit_byte, encode, SegmentError};

#[test]
fn encode_zero_lights_outer_ring() {
    assert_eq!(encode(0), Ok(0x3F));
    assert_eq!(encode(0), Ok(SEG_A | SEG_B | SEG_C | SEG_D | SEG_E | SEG_F));
}

#[test]
fn encode_one_lights_right_side() {
    assert_eq!(encode(1), Ok(0x06));
}

#[test]
fn encode_seven() {
    assert_eq!(encode(7), Ok(0x07));
}

#[test]
fn encode_eight_lights_every_segment() {
    assert_eq!(encode(8), Ok(0x7F));
    assert_eq!(encode(8), Ok(SEG_A | SEG_B | SEG_C | SEG_D | SEG_E | SEG_F | SEG_G));
}

#[test]
fn encode_all_digits() {
    let expected: [u8; 10] = [0x3F, 0x06, 0x5B, 0x4F, 0x66, 0x6D, 0x7D, 0x07, 0x7F, 0x6F];
    for d in 0..10i64 {
        assert_eq!(encode(d), Ok(expected[d as usize]));
    }
}

#[test]
fn encode_rejects_ten() {
    assert_eq!(encode(10), Err(SegmentError::OutOfRange));
}

#[test]
fn encode_rejects_minus_one() {
    assert_eq!(encode(-1), Err(SegmentError::OutOfRange));
}

#[test]
fn encode_rejects_extremes() {
    assert_eq!(encode(i64::MIN), Err(SegmentError::OutOfRange));
    assert_eq!(encode(i64::MAX), Err(SegmentError::OutOfRange));
}

#[test]
fn segment_counts_match_digit_shapes() {
    let counts: [u32; 10] = [6, 2, 5, 5, 4, 5, 6, 3, 7, 6];
    for d in 0..10usize {
        assert_eq!(digit_byte(d).count_ones(), counts[d]);
    }
}

#[test]
fn decimal_point_never_set() {
    for d in 0..10i64 {
        assert_eq!(encode(d).unwrap() & SEG_DP, 0);
    }
}

#[test]
fn repeated_calls_agree() {
    let first: Vec<u8> = (0..10i64).map(|d| encode(d).unwrap()).collect();
    assert_eq!(encode(10), Err(SegmentError::OutOfRange));
    for d in (0..10i64).rev() {
        assert_eq!(encode(d).unwrap(), first[d as usize]);
        assert_eq!(encode(d).unwrap(), first[d as usize]);
    }
}

#[test]
fn digit_bitmaps_pairwise_distinct() {
    for a in 0..10usize {
        for b in 0..10usize {
            if a != b {
                assert_ne!(digit_byte(a), digit_byte(b));
            }
        }
    }
}

#[test]
fn digit_byte_agrees_with_encode() {
    for d in 0..10usize {
        assert_eq!(Ok(digit_byte(d)), encode(d as i64));
    }
    assert_eq!(digit_byte(9), 0x6F);
}
