//! Width-constrained words, the operations of the unit on them, and the
//! condition flags those operations derive.

use vstd::prelude::*;

verus! {

use vstd::arithmetic::power2::pow2;
use vstd::arithmetic::div_mod::{lemma_mod_add_multiples_vanish, lemma_small_mod};
use crate::word_lemmas::{
    lemma_shl_one, lemma_modulus_halves, lemma_double_modulus_fits, lemma_top_bit,
    lemma_mod_keeps_parity, lemma_not_masked, lemma_bitwise_below,
};

/// Condition flags produced by an arithmetic, bitwise or shift operation.
///
/// Each predicate is stored next to its complement so that a control unit can
/// branch on either one without a separate negation step.
#[derive(Debug, Copy, Clone, PartialEq, Eq, Structural)]
pub struct ALUFlags {
    pub carry: bool,
    pub not_carry: bool,
    pub overflow: bool,
    pub not_overflow: bool,
    pub zero: bool,
    pub not_zero: bool,
    pub even: bool,
    pub odd: bool,
}

/// The eight relational condition codes obtained by comparing two words.
#[derive(Debug, Copy, Clone, PartialEq, Eq, Structural)]
pub struct CMPFlags {
    pub greater: bool,
    pub less_equal: bool,
    pub less: bool,
    pub greater_equal: bool,
    pub equal: bool,
    pub not_equal: bool,
    pub always_false: bool,
    pub always_true: bool,
}

/// An unsigned value held modulo `2^width`, together with the flags of the
/// operation that produced it.
#[derive(Debug, Copy, Clone, PartialEq, Eq, Structural)]
pub struct DataWord {
    pub content: usize,
    pub width: u32,
    pub flags: ALUFlags,
}

/// A width is usable when it is at least one bit and `2^width` fits in a
/// native unsigned integer.
pub open spec fn valid_width(w: u32) -> bool {
    1 <= w < usize::BITS
}

/// `x` reduced to its low `w` bits.
pub open spec fn trunc(x: usize, w: u32) -> nat {
    x as nat % pow2(w as nat)
}

/// Zero and parity flags of `result`; carry, overflow and their complements
/// all cleared. Used by construction and by the bitwise operations.
pub open spec fn neutral_flags(result: nat) -> ALUFlags {
    ALUFlags {
        carry: false,
        not_carry: false,
        overflow: false,
        not_overflow: false,
        zero: result == 0,
        not_zero: result != 0,
        even: result % 2 == 0,
        odd: result % 2 != 0,
    }
}

/// Flags of an addition or subtraction: every predicate with its complement.
pub open spec fn arith_flags(carry: bool, overflow: bool, result: nat) -> ALUFlags {
    ALUFlags {
        carry,
        not_carry: !carry,
        overflow,
        not_overflow: !overflow,
        zero: result == 0,
        not_zero: result != 0,
        even: result % 2 == 0,
        odd: result % 2 != 0,
    }
}

/// Flags of a right shift: the bit shifted out is reported in `overflow`.
pub open spec fn shift_flags(shifted_out: bool, result: nat) -> ALUFlags {
    ALUFlags {
        carry: false,
        not_carry: false,
        overflow: shifted_out,
        not_overflow: false,
        zero: result == 0,
        not_zero: result != 0,
        even: result % 2 == 0,
        odd: result % 2 != 0,
    }
}

/// The word that construction yields from `x` at width `w`.
pub open spec fn from_result(x: usize, w: u32) -> DataWord {
    DataWord { content: trunc(x, w) as usize, width: w, flags: neutral_flags(trunc(x, w)) }
}

/// The width of a result of two operands: the narrower of the two.
pub open spec fn narrower(a: u32, b: u32) -> u32 {
    if a <= b { a } else { b }
}

/// The value of the `w`-bit pattern `x` read as a two's-complement number.
pub open spec fn signed_value(x: nat, w: nat) -> int {
    if x < pow2((w - 1) as nat) { x as int } else { x - pow2(w) }
}

/// Whether `v` lies outside the range of `w`-bit two's-complement numbers.
pub open spec fn outside_signed_range(v: int, w: nat) -> bool {
    !(-pow2((w - 1) as nat) <= v < pow2((w - 1) as nat))
}

/// The word that `a + b` yields. Both operands are first cut to the narrower
/// width `w`; `carry` is bit `w` of the raw sum, and `overflow` tells whether
/// the carry out of the top bit differs from the carry into it.
pub open spec fn add_result(a: DataWord, b: DataWord) -> DataWord {
    let w = narrower(a.width, b.width);
    let c = pow2(w as nat);
    let h = pow2((w - 1) as nat);
    let sum = trunc(a.content, w) + trunc(b.content, w);
    let low_sum = a.content as nat % h + b.content as nat % h;
    let carry = sum >= c;
    let overflow = carry != (low_sum >= h);
    DataWord { content: (sum % c) as usize, width: w, flags: arith_flags(carry, overflow, sum % c) }
}

/// The word that `a - b` yields: `a` plus the two's complement of `b`, that is
/// plus the bitwise complement of `b` within `w` bits and a carry-in of one,
/// with carry and overflow taken from that sum as for an addition.
pub open spec fn sub_result(a: DataWord, b: DataWord) -> DataWord {
    let w = narrower(a.width, b.width);
    let c: int = pow2(w as nat) as int;
    let h: int = pow2((w - 1) as nat) as int;
    let sum: int = trunc(a.content, w) + (c - 1 - trunc(b.content, w)) + 1;
    let low_sum: int = a.content as int % h + (h - 1 - b.content as int % h) + 1;
    let carry = sum >= c;
    let overflow = carry != (low_sum >= h);
    DataWord {
        content: (sum % c) as usize,
        width: w,
        flags: arith_flags(carry, overflow, (sum % c) as nat),
    }
}

/// The word that `a & b` yields at the narrower width.
pub open spec fn and_result(a: DataWord, b: DataWord) -> DataWord {
    let w = narrower(a.width, b.width);
    let v = (trunc(a.content, w) as usize) & (trunc(b.content, w) as usize);
    DataWord { content: v, width: w, flags: neutral_flags(v as nat) }
}

/// The word that `a | b` yields at the narrower width.
pub open spec fn or_result(a: DataWord, b: DataWord) -> DataWord {
    let w = narrower(a.width, b.width);
    let v = (trunc(a.content, w) as usize) | (trunc(b.content, w) as usize);
    DataWord { content: v, width: w, flags: neutral_flags(v as nat) }
}

/// The word that `a ^ b` yields at the narrower width.
pub open spec fn xor_result(a: DataWord, b: DataWord) -> DataWord {
    let w = narrower(a.width, b.width);
    let v = (trunc(a.content, w) as usize) ^ (trunc(b.content, w) as usize);
    DataWord { content: v, width: w, flags: neutral_flags(v as nat) }
}

/// The word that `!a` yields: every one of its `width` bits flipped.
pub open spec fn not_result(a: DataWord) -> DataWord {
    let v = (pow2(a.width as nat) - 1 - a.content) as nat;
    DataWord { content: v as usize, width: a.width, flags: neutral_flags(v) }
}

/// The word that a logical right shift by one bit yields; the bit shifted out
/// is reported in `overflow`.
pub open spec fn rsh_result(a: DataWord) -> DataWord {
    let v = a.content as nat / 2;
    DataWord { content: v as usize, width: a.width, flags: shift_flags(a.content % 2 == 1, v) }
}

/// The condition codes of comparing `a` with `b`.
pub open spec fn cmp_result(a: nat, b: nat) -> CMPFlags {
    CMPFlags {
        greater: a > b,
        less_equal: a <= b,
        less: a < b,
        greater_equal: a >= b,
        equal: a == b,
        not_equal: a != b,
        always_false: false,
        always_true: true,
    }
}

impl DataWord {
    /// The width is usable and the content lies below `2^width`.
    pub open spec fn wf(self) -> bool {
        &&& valid_width(self.width)
        &&& self.content < pow2(self.width as nat)
    }

    /// The zero and parity flags describe the content, each with its
    /// complement.
    pub open spec fn flags_match_content(self) -> bool {
        &&& self.flags.zero == (self.content == 0)
        &&& self.flags.not_zero == !self.flags.zero
        &&& self.flags.even == (self.content % 2 == 0)
        &&& self.flags.odd == !self.flags.even
    }

    /// Builds a word of the given width from `content`, keeping its low
    /// `width` bits.
    pub fn from(content: usize, width: u32) -> (r: DataWord)
        requires
            valid_width(width),
        ensures
            r == from_result(content, width),
            r.content < pow2(width as nat),
            r.content == content as nat % pow2(width as nat),
            r.wf(),
            r.flags_match_content(),
    {
        let constraint: usize = word_modulus(width);
        let content: usize = content % constraint;
        DataWord { content, width, flags: neutral_flags_of(content) }
    }

    /// Adds two words with wraparound at the narrower width.
    pub fn add(self, rhs: DataWord) -> (r: DataWord)
        requires
            self.wf(),
            rhs.wf(),
        ensures
            r == add_result(self, rhs),
            r.width == narrower(self.width, rhs.width),
            r.content == (trunc(self.content, r.width) + trunc(rhs.content, r.width)) % pow2(
                r.width as nat,
            ),
            r.wf(),
            r.flags_match_content(),
    {
        let bit_width: u32 = if self.width <= rhs.width { self.width } else { rhs.width };
        let constraint: usize = word_modulus(bit_width);
        let half: usize = constraint / 2;
        proof {
            lemma_modulus_halves(bit_width as nat);
            lemma_double_modulus_fits(bit_width as nat);
        }
        let result: usize = self.content % constraint + rhs.content % constraint;
        let result_cut_msb: usize = self.content % half + rhs.content % half;
        proof {
            lemma_top_bit(result, bit_width as usize);
            lemma_top_bit(result_cut_msb, (bit_width - 1) as usize);
            lemma_mod_keeps_parity(result as nat, bit_width as nat);
        }
        let carry: bool = constraint & result != 0;
        let msb_carry: bool = half & result_cut_msb != 0;
        let content: usize = result % constraint;
        DataWord {
            content,
            width: bit_width,
            flags: ALUFlags {
                carry,
                not_carry: !carry,
                overflow: carry ^ msb_carry,
                not_overflow: !(carry ^ msb_carry),
                zero: content == 0,
                not_zero: content != 0,
                even: result % 2 == 0,
                odd: result % 2 != 0,
            },
        }
    }

    /// Subtracts `rhs` by adding its two's complement at the narrower width.
    pub fn sub(self, rhs: DataWord) -> (r: DataWord)
        requires
            self.wf(),
            rhs.wf(),
        ensures
            r == sub_result(self, rhs),
            r.width == narrower(self.width, rhs.width),
            r.content == (trunc(self.content, r.width) - trunc(rhs.content, r.width)) % (pow2(
                r.width as nat,
            ) as int),
            r.flags.carry == (trunc(self.content, r.width) >= trunc(rhs.content, r.width)),
            r.wf(),
            r.flags_match_content(),
    {
        let bit_width: u32 = if self.width <= rhs.width { self.width } else { rhs.width };
        let constraint: usize = word_modulus(bit_width);
        let half: usize = constraint / 2;
        proof {
            lemma_modulus_halves(bit_width as nat);
            lemma_double_modulus_fits(bit_width as nat);
            lemma_not_masked(rhs.content, bit_width as nat);
            lemma_not_masked(rhs.content, (bit_width - 1) as nat);
        }
        let result: usize = self.content % constraint + (!rhs.content & (constraint - 1)) + 1;
        let result_cut_msb: usize = self.content % half + (!rhs.content & (half - 1)) + 1;
        proof {
            lemma_top_bit(result, bit_width as usize);
            lemma_top_bit(result_cut_msb, (bit_width - 1) as usize);
            lemma_mod_keeps_parity(result as nat, bit_width as nat);
            lemma_mod_add_multiples_vanish(
                trunc(self.content, bit_width) - trunc(rhs.content, bit_width),
                constraint as int,
            );
        }
        let carry: bool = constraint & result != 0;
        let msb_carry: bool = half & result_cut_msb != 0;
        let content: usize = result % constraint;
        DataWord {
            content,
            width: bit_width,
            flags: ALUFlags {
                carry,
                not_carry: !carry,
                overflow: carry ^ msb_carry,
                not_overflow: !(carry ^ msb_carry),
                zero: content == 0,
                not_zero: content != 0,
                even: result % 2 == 0,
                odd: result % 2 != 0,
            },
        }
    }
}

impl DataWord {
    /// Bitwise AND at the narrower width.
    pub fn bitand(self, rhs: DataWord) -> (r: DataWord)
        requires
            self.wf(),
            rhs.wf(),
        ensures
            r == and_result(self, rhs),
            r.wf(),
            r.flags_match_content(),
    {
        let bit_width: u32 = if self.width <= rhs.width { self.width } else { rhs.width };
        let constraint: usize = word_modulus(bit_width);
        let result: usize = (self.content % constraint) & (rhs.content % constraint);
        proof {
            lemma_bitwise_below(self.content % constraint, rhs.content % constraint, bit_width as usize);
        }
        DataWord { content: result, width: bit_width, flags: neutral_flags_of(result) }
    }

    /// Bitwise OR at the narrower width.
    pub fn bitor(self, rhs: DataWord) -> (r: DataWord)
        requires
            self.wf(),
            rhs.wf(),
        ensures
            r == or_result(self, rhs),
            r.wf(),
            r.flags_match_content(),
    {
        let bit_width: u32 = if self.width <= rhs.width { self.width } else { rhs.width };
        let constraint: usize = word_modulus(bit_width);
        let result: usize = (self.content % constraint) | (rhs.content % constraint);
        proof {
            lemma_bitwise_below(self.content % constraint, rhs.content % constraint, bit_width as usize);
        }
        DataWord { content: result, width: bit_width, flags: neutral_flags_of(result) }
    }

    /// Bitwise XOR at the narrower width.
    pub fn bitxor(self, rhs: DataWord) -> (r: DataWord)
        requires
            self.wf(),
            rhs.wf(),
        ensures
            r == xor_result(self, rhs),
            r.wf(),
            r.flags_match_content(),
    {
        let bit_width: u32 = if self.width <= rhs.width { self.width } else { rhs.width };
        let constraint: usize = word_modulus(bit_width);
        let result: usize = (self.content % constraint) ^ (rhs.content % constraint);
        proof {
            lemma_bitwise_below(self.content % constraint, rhs.content % constraint, bit_width as usize);
        }
        DataWord { content: result, width: bit_width, flags: neutral_flags_of(result) }
    }

    /// Bitwise complement within the word's own width.
    pub fn not(self) -> (r: DataWord)
        requires
            self.wf(),
        ensures
            r == not_result(self),
            r.content == (!self.content) & ((pow2(self.width as nat) - 1) as usize),
            r.wf(),
            r.flags_match_content(),
    {
        let constraint: usize = word_modulus(self.width);
        let result: usize = !self.content & (constraint - 1);
        proof {
            lemma_not_masked(self.content, self.width as nat);
            lemma_small_mod(self.content as nat, constraint as nat);
        }
        DataWord { content: result, width: self.width, flags: neutral_flags_of(result) }
    }

    /// Logical shift right by one bit; the bit shifted out is reported in the
    /// `overflow` flag.
    pub fn rsh(val: DataWord) -> (r: DataWord)
        requires
            val.wf(),
        ensures
            r == rsh_result(val),
            r.content == val.content / 2,
            r.flags.overflow == (val.content % 2 == 1),
            r.wf(),
            r.flags_match_content(),
    {
        let constraint: usize = word_modulus(val.width);
        let shifted_out: bool = val.content % 2 == 1;
        let content: usize = val.content;
        assert(content >> 1usize == content / 2) by (bit_vector);
        let result: usize = (val.content >> 1usize) % constraint;
        proof {
            lemma_small_mod(content as nat / 2, constraint as nat);
        }
        DataWord {
            content: result,
            width: val.width,
            flags: ALUFlags {
                carry: false,
                not_carry: false,
                overflow: shifted_out,
                not_overflow: false,
                zero: result == 0,
                not_zero: result != 0,
                even: result % 2 == 0,
                odd: result % 2 != 0,
            },
        }
    }

    /// Compares the contents of two words; their widths play no part.
    pub fn cmp(&self, rhs: &DataWord) -> (r: CMPFlags)
        ensures
            r == cmp_result(self.content as nat, rhs.content as nat),
    {
        CMPFlags {
            greater: self.content > rhs.content,
            less_equal: self.content <= rhs.content,
            less: self.content < rhs.content,
            greater_equal: self.content >= rhs.content,
            equal: self.content == rhs.content,
            not_equal: self.content != rhs.content,
            always_false: false,
            always_true: true,
        }
    }
}

/// The flags of a bitwise result: zero and parity of `result`, carry and
/// overflow cleared.
fn neutral_flags_of(result: usize) -> (f: ALUFlags)
    ensures
        f == neutral_flags(result as nat),
{
    ALUFlags {
        carry: false,
        not_carry: false,
        overflow: false,
        not_overflow: false,
        zero: result == 0,
        not_zero: result != 0,
        even: result % 2 == 0,
        odd: result % 2 != 0,
    }
}

/// `2^width`, the number of values a word of that width can hold.
fn word_modulus(width: u32) -> (c: usize)
    requires
        valid_width(width),
    ensures
        c == pow2(width as nat),
        c >= 2,
{
    let s: usize = width as usize;
    proof {
        lemma_shl_one(s);
        crate::word_lemmas::lemma_modulus_halves(width as nat);
    }
    1usize << s
}

} // verus!
