use alu_core::{ALUFlags, CMPFlags, DataWord};

fn w(content: usize, width: u32) -> DataWord {
    DataWord::from(content, width)
}

#[test]
fn from_keeps_low_bits() {
    let v = w(300, 8);
    assert_eq!(v.content, 44);
    assert_eq!(v.width, 8);
    assert!(!v.flags.zero && v.flags.not_zero);
    assert!(v.flags.even && !v.flags.odd);
    assert!(!v.flags.carry && !v.flags.not_carry);
    assert!(!v.flags.overflow && !v.flags.not_overflow);
}

#[test]
fn from_content_below_modulus() {
    for width in 1u32..64 {
        for x in [0usize, 1, 2, 5, 255, 256, 1000, usize::MAX / 3, usize::MAX] {
            let v = w(x, width);
            assert!((v.content as u128) < (1u128 << width));
            assert_eq!(v.content as u128, (x as u128) % (1u128 << width));
        }
    }
}

#[test]
fn from_multiple_of_modulus_is_zero() {
    let v = w(256, 8);
    assert_eq!(v.content, 0);
    assert!(v.flags.zero && !v.flags.not_zero);
    assert!(v.flags.even && !v.flags.odd);
}

#[test]
fn flags_follow_content() {
    let a = w(77, 8);
    let b = w(200, 8);
    for v in [a, b, a.add(b), a.sub(b), a.bitand(b), a.bitor(b), a.bitxor(b), a.not(), DataWord::rsh(a)] {
        assert_eq!(v.flags.zero, v.content == 0);
        assert_eq!(v.flags.not_zero, !v.flags.zero);
        assert_eq!(v.flags.even, v.content % 2 == 0);
        assert_eq!(v.flags.odd, !v.flags.even);
    }
    for v in [a.add(b), a.sub(b)] {
        assert_eq!(v.flags.not_carry, !v.flags.carry);
        assert_eq!(v.flags.not_overflow, !v.flags.overflow);
    }
}

#[test]
fn add_wraps_around() {
    let r = w(255, 8).add(w(1, 8));
    assert_eq!(r.content, 0);
    assert_eq!(r.width, 8);
    assert!(r.flags.carry && !r.flags.not_carry);
    assert!(r.flags.zero && !r.flags.not_zero);
    assert!(!r.flags.overflow && r.flags.not_overflow);
}

#[test]
fn add_signed_overflow() {
    let r = w(127, 8).add(w(1, 8));
    assert_eq!(r.content, 128);
    assert!(r.flags.overflow && !r.flags.not_overflow);
    assert!(!r.flags.carry && r.flags.not_carry);
    assert!(r.flags.even && !r.flags.zero);
}

#[test]
fn add_truncates_to_narrower_width() {
    let r = w(3, 4).add(w(20, 8));
    assert_eq!(r.content, 7);
    assert_eq!(r.width, 4);
    assert!(!r.flags.carry && !r.flags.overflow);
    assert!(r.flags.odd && !r.flags.even);
}

#[test]
fn add_negative_overflow() {
    let r = w(128, 8).add(w(128, 8));
    assert_eq!(r.content, 0);
    assert!(r.flags.carry && r.flags.overflow && r.flags.zero);
}

#[test]
fn add_single_bit_width() {
    let r = w(1, 1).add(w(1, 1));
    assert_eq!(r.content, 0);
    assert_eq!(r.width, 1);
    assert!(r.flags.carry && r.flags.overflow);
}

#[test]
fn add_widest_width() {
    let top = w(usize::MAX, 63);
    assert_eq!(top.content, (1usize << 63) - 1);
    let r = top.add(w(1, 63));
    assert_eq!(r.content, 0);
    assert!(r.flags.carry && !r.flags.overflow && r.flags.zero);
    let r = w((1usize << 62) - 1, 63).add(w(1, 63));
    assert_eq!(r.content, 1usize << 62);
    assert!(!r.flags.carry && r.flags.overflow);
}

#[test]
fn sub_without_borrow() {
    let r = w(127, 8).sub(w(1, 8));
    assert_eq!(r.content, 126);
    assert_eq!(r.width, 8);
    assert!(r.flags.carry && !r.flags.not_carry);
    assert!(!r.flags.overflow && r.flags.not_overflow);
}

#[test]
fn sub_with_borrow_wraps() {
    let r = w(1, 8).sub(w(2, 8));
    assert_eq!(r.content, 255);
    assert!(!r.flags.carry && r.flags.not_carry);
    assert!(!r.flags.overflow);
    assert!(r.flags.odd);
}

#[test]
fn sub_signed_overflow() {
    let r = w(0, 8).sub(w(128, 8));
    assert_eq!(r.content, 128);
    assert!(r.flags.overflow && !r.flags.carry);
    let r = w(128, 8).sub(w(1, 8));
    assert_eq!(r.content, 127);
    assert!(r.flags.overflow && r.flags.carry);
}

#[test]
fn sub_equal_operands_is_zero() {
    let r = w(5, 8).sub(w(5, 8));
    assert_eq!(r.content, 0);
    assert!(r.flags.zero && r.flags.carry && !r.flags.overflow);
}

#[test]
fn sub_truncates_to_narrower_width() {
    let r = w(20, 8).sub(w(3, 4));
    assert_eq!(r.width, 4);
    assert_eq!(r.content, 1);
    assert!(r.flags.carry);
}

#[test]
fn and_truncates_to_narrower_width() {
    let r = w(0xFC, 8).bitand(w(0xA, 4));
    assert_eq!(r.content, 8);
    assert_eq!(r.width, 4);
    assert!(!r.flags.carry && !r.flags.not_carry && !r.flags.overflow && !r.flags.not_overflow);
    assert!(r.flags.even && !r.flags.zero);
}

#[test]
fn or_combines_bits() {
    let r = w(0x0F, 8).bitor(w(0xF0, 8));
    assert_eq!(r.content, 0xFF);
    assert!(r.flags.odd && r.flags.not_zero);
    assert!(!r.flags.carry && !r.flags.overflow);
}

#[test]
fn xor_of_equal_values_is_zero() {
    let r = w(0xFF, 8).bitxor(w(0xFF, 8));
    assert_eq!(r.content, 0);
    assert!(r.flags.zero && r.flags.even);
    let r = w(0x1F, 8).bitxor(w(0x3, 2));
    assert_eq!(r.width, 2);
    assert_eq!(r.content, 0);
    let r = w(0b1100, 8).bitxor(w(0b1010, 8));
    assert_eq!(r.content, 0b0110);
}

#[test]
fn not_flips_bits_within_width() {
    let r = w(5, 8).not();
    assert_eq!(r.content, 250);
    assert_eq!(r.width, 8);
    assert!(!r.flags.carry && !r.flags.overflow && r.flags.even);
    assert_eq!(w(0, 1).not().content, 1);
    assert_eq!(w(0, 63).not().content, (1usize << 63) - 1);
    assert!(w(255, 8).not().flags.zero);
}

#[test]
fn not_twice_restores_value() {
    for width in [1u32, 4, 8, 17, 63] {
        for x in [0usize, 1, 5, 127, 200, 12345] {
            let v = w(x, width);
            let back = v.not().not();
            assert_eq!(back.content, v.content);
            assert_eq!(back.width, v.width);
        }
    }
}

#[test]
fn rsh_reports_shifted_out_bit() {
    let r = DataWord::rsh(w(5, 8));
    assert_eq!(r.content, 2);
    assert_eq!(r.width, 8);
    assert!(r.flags.overflow);
    assert!(!r.flags.carry && !r.flags.not_carry && !r.flags.not_overflow);
    assert!(r.flags.even);
    let r = DataWord::rsh(w(4, 8));
    assert_eq!(r.content, 2);
    assert!(!r.flags.overflow);
    let r = DataWord::rsh(w(1, 8));
    assert_eq!(r.content, 0);
    assert!(r.flags.zero && r.flags.overflow);
}

#[test]
fn cmp_less_ignores_width() {
    let f: CMPFlags = w(3, 8).cmp(&w(5, 4));
    assert!(f.less && f.less_equal && f.not_equal);
    assert!(!f.greater && !f.greater_equal && !f.equal);
    assert!(f.always_true && !f.always_false);
}

#[test]
fn cmp_equal_and_greater() {
    let f = w(7, 8).cmp(&w(7, 4));
    assert!(f.equal && f.less_equal && f.greater_equal);
    assert!(!f.less && !f.greater && !f.not_equal);
    let f = w(9, 8).cmp(&w(2, 8));
    assert!(f.greater && f.greater_equal && f.not_equal);
    assert!(!f.less && !f.less_equal && !f.equal);
}

#[test]
fn cmp_exactly_one_relation() {
    let vals = [w(0, 8), w(1, 8), w(200, 8), w(15, 4)];
    for a in vals.iter() {
        for b in vals.iter() {
            let f = a.cmp(b);
            assert_eq!(f.less as u8 + f.equal as u8 + f.greater as u8, 1);
            assert_eq!(f.less_equal, f.less || f.equal);
            assert_eq!(f.greater_equal, f.greater || f.equal);
            assert_eq!(f.not_equal, !f.equal);
            assert!(f.always_true && !f.always_false);
        }
    }
}

#[test]
fn flags_are_plain_values() {
    let f: ALUFlags = w(3, 8).flags;
    let g = f;
    assert_eq!(f, g);
}

fn signed(x: usize, width: u32) -> i64 {
    let half = 1i64 << (width - 1);
    let x = x as i64;
    if x < half { x } else { x - 2 * half }
}

#[test]
fn overflow_matches_signed_range_for_all_bytes() {
    for x in 0usize..256 {
        for y in 0usize..256 {
            let a = w(x, 8);
            let b = w(y, 8);
            let sum = a.add(b);
            let diff = a.sub(b);
            let s = signed(x, 8) + signed(y, 8);
            let d = signed(x, 8) - signed(y, 8);
            assert_eq!(sum.flags.overflow, !(-128..128).contains(&s));
            assert_eq!(diff.flags.overflow, !(-128..128).contains(&d));
            assert_eq!(sum.flags.carry, x + y >= 256);
            assert_eq!(diff.flags.carry, x >= y);
            assert_eq!(sum.content, (x + y) % 256);
            assert_eq!(diff.content, (x + 256 - y) % 256);
        }
    }
}
