//! Laws that hold across the operations of the unit.

use vstd::prelude::*;

verus! {

use vstd::bits::lemma_usize_pow2_no_overflow;
use crate::bit_ops::{
    DataWord, valid_width, from_result, add_result, sub_result, and_result, or_result,
    xor_result, not_result, rsh_result, cmp_result, narrower, trunc, signed_value,
    outside_signed_range,
};
use crate::word_lemmas::{lemma_low_part, lemma_modulus_halves};
use vstd::arithmetic::power2::{pow2, lemma_pow2_pos};

/// Every word the unit produces carries flags that describe its content:
/// `zero` holds exactly when the content is 0, `even` exactly when it is
/// even, and `not_zero` and `odd` are their complements. Addition and
/// subtraction also store `not_carry` and `not_overflow` as the complements
/// of `carry` and `overflow`.
pub proof fn lemma_flags_describe_content(a: DataWord, b: DataWord, x: usize, w: u32)
    requires
        a.wf(),
        b.wf(),
        valid_width(w),
    ensures
        from_result(x, w).flags_match_content(),
        add_result(a, b).flags_match_content(),
        sub_result(a, b).flags_match_content(),
        and_result(a, b).flags_match_content(),
        or_result(a, b).flags_match_content(),
        xor_result(a, b).flags_match_content(),
        not_result(a).flags_match_content(),
        rsh_result(a).flags_match_content(),
        add_result(a, b).flags.not_carry == !add_result(a, b).flags.carry,
        add_result(a, b).flags.not_overflow == !add_result(a, b).flags.overflow,
        sub_result(a, b).flags.not_carry == !sub_result(a, b).flags.carry,
        sub_result(a, b).flags.not_overflow == !sub_result(a, b).flags.overflow,
{
    lemma_usize_pow2_no_overflow(w as nat);
    lemma_usize_pow2_no_overflow(a.width as nat);
    lemma_usize_pow2_no_overflow(b.width as nat);
}

/// The overflow flag of an addition or a subtraction tells whether the exact
/// result of the operation on the operands read as two's-complement numbers
/// of the result width falls outside that width's signed range.
pub proof fn lemma_overflow_is_signed_overflow(a: DataWord, b: DataWord)
    requires
        a.wf(),
        b.wf(),
    ensures
        ({
            let w = narrower(a.width, b.width) as nat;
            let x = signed_value(trunc(a.content, w as u32), w);
            let y = signed_value(trunc(b.content, w as u32), w);
            &&& add_result(a, b).flags.overflow == outside_signed_range(x + y, w)
            &&& sub_result(a, b).flags.overflow == outside_signed_range(x - y, w)
        }),
{
    let wu = narrower(a.width, b.width);
    let w = wu as nat;
    let c = pow2(w);
    let h = pow2((w - 1) as nat);
    lemma_low_part(a.content as nat, w);
    lemma_low_part(b.content as nat, w);
    lemma_modulus_halves(w);
    lemma_pow2_pos(w);
    let xa = trunc(a.content, wu);
    let xb = trunc(b.content, wu);
    assert(xa < c && xb < c);
    let la = a.content as nat % h;
    let lb = b.content as nat % h;
    assert(xa < h ==> la == xa);
    assert(xa >= h ==> la == xa - h);
    assert(xb < h ==> lb == xb);
    assert(xb >= h ==> lb == xb - h);
    assert(add_result(a, b).flags.overflow == ((xa + xb >= c) != (la + lb >= h)));
    assert(sub_result(a, b).flags.overflow == ((xa + (c - 1 - xb) + 1 >= c) != (la + (h - 1 - lb) + 1 >= h)));
}

/// Complementing a word twice gives back its content and its width.
pub proof fn lemma_not_involutive(v: DataWord)
    requires
        v.wf(),
    ensures
        not_result(not_result(v)).content == v.content,
        not_result(not_result(v)).width == v.width,
{
    lemma_usize_pow2_no_overflow(v.width as nat);
}

/// Of `less`, `equal` and `greater` exactly one holds; the other codes are
/// the matching disjunctions and negations, and the two constant codes never
/// change.
pub proof fn lemma_compare_total(a: DataWord, b: DataWord)
    ensures
        ({
            let f = cmp_result(a.content as nat, b.content as nat);
            &&& (f.less as int) + (f.equal as int) + (f.greater as int) == 1
            &&& f.less_equal == (f.less || f.equal)
            &&& f.greater_equal == (f.greater || f.equal)
            &&& f.not_equal == !f.equal
            &&& f.always_true
            &&& !f.always_false
        }),
{
}

} // verus!
