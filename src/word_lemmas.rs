//! Arithmetic and bit-level facts about words held modulo a power of two.

use vstd::prelude::*;

verus! {

use vstd::arithmetic::power2::{
    pow2, lemma_pow2_pos, lemma_pow2_unfold, lemma_pow2_strictly_increases, lemma2_to64,
};
use vstd::arithmetic::div_mod::{lemma_mod_mod, lemma_small_mod, lemma_mod_sub_multiples_vanish};
use vstd::bits::{lemma_usize_pow2_no_overflow, lemma_usize_shl_is_mul, lemma_usize_low_bits_mask_is_mod};

/// `1 << s` is `2^s` whenever it fits.
pub proof fn lemma_shl_one(s: usize)
    requires
        s < usize::BITS,
    ensures
        (1usize << s) == pow2(s as nat),
        pow2(s as nat) < usize::MAX,
{
    lemma_usize_pow2_no_overflow(s as nat);
    lemma_usize_shl_is_mul(1, s);
}

/// The modulus of a width of at least one bit is twice the modulus of the
/// width one bit narrower.
pub proof fn lemma_modulus_halves(w: nat)
    requires
        1 <= w,
    ensures
        pow2(w) == 2 * pow2((w - 1) as nat),
        pow2((w - 1) as nat) > 0,
{
    lemma_pow2_unfold(w);
    lemma_pow2_pos((w - 1) as nat);
}

/// Two values below `2^w`, added together with a carry-in, still fit in a
/// native word.
pub proof fn lemma_double_modulus_fits(w: nat)
    requires
        w < usize::BITS,
    ensures
        2 * pow2(w) <= usize::MAX + 1,
{
    lemma2_to64();
    lemma_pow2_unfold(usize::BITS as nat);
    if w < usize::BITS - 1 {
        lemma_pow2_strictly_increases(w, (usize::BITS - 1) as nat);
    }
}

/// Bit `s` of a value below `2^(s+1)` is set exactly when the value reaches
/// `2^s`.
pub proof fn lemma_top_bit(r: usize, s: usize)
    requires
        s < usize::BITS,
        r < 2 * pow2(s as nat),
    ensures
        (pow2(s as nat) as usize & r != 0) == (r >= pow2(s as nat)),
{
    lemma_shl_one(s);
    let c: usize = 1usize << s;
    if r >= c {
        assert(r - c < c);
        assert(c & r != 0) by (bit_vector)
            requires
                s < usize::BITS,
                c == 1usize << s,
                r >= c,
                r - c < c,
        ;
    } else {
        assert(c & r == 0) by (bit_vector)
            requires
                s < usize::BITS,
                c == 1usize << s,
                r < c,
        ;
    }
}

/// Combining two values below `2^s` bit by bit stays below `2^s`.
pub proof fn lemma_bitwise_below(x: usize, y: usize, s: usize)
    requires
        s < usize::BITS,
        x < pow2(s as nat),
        y < pow2(s as nat),
    ensures
        (x & y) < pow2(s as nat),
        (x | y) < pow2(s as nat),
        (x ^ y) < pow2(s as nat),
{
    lemma_shl_one(s);
    let c: usize = 1usize << s;
    assert((x & y) < c && (x | y) < c && (x ^ y) < c) by (bit_vector)
        requires
            s < usize::BITS,
            c == 1usize << s,
            x < c,
            y < c,
    ;
}

/// The low `w - 1` bits of `v` are its low `w` bits, less the top bit's
/// weight when that bit is set.
pub proof fn lemma_low_part(v: nat, w: nat)
    requires
        1 <= w,
    ensures
        v % pow2(w) < pow2((w - 1) as nat) ==> v % pow2((w - 1) as nat) == v % pow2(w),
        v % pow2(w) >= pow2((w - 1) as nat) ==> v % pow2((w - 1) as nat) == v % pow2(w) - pow2(
            (w - 1) as nat,
        ),
{
    let h: nat = pow2((w - 1) as nat);
    let x: nat = v % pow2(w);
    lemma_modulus_halves(w);
    lemma_mod_mod(v as int, h as int, 2);
    assert(h * 2 == pow2(w));
    assert(x % h == v % h);
    if x < h {
        lemma_small_mod(x, h);
    } else {
        lemma_mod_sub_multiples_vanish(x as int, h as int);
        lemma_small_mod((x - h) as nat, h);
    }
}

/// Reducing modulo a power of two of at least one bit keeps the parity.
pub proof fn lemma_mod_keeps_parity(x: nat, w: nat)
    requires
        1 <= w,
    ensures
        (x % pow2(w)) % 2 == x % 2,
{
    lemma_modulus_halves(w);
    lemma_mod_mod(x as int, 2, pow2((w - 1) as nat) as int);
}

/// The complement of `x` masked to its low `w` bits is the complement, within
/// `w` bits, of the low `w` bits of `x`.
pub proof fn lemma_not_masked(x: usize, w: nat)
    requires
        w < usize::BITS,
    ensures
        (!x) & ((pow2(w) - 1) as usize) == pow2(w) - 1 - x as nat % pow2(w),
        x & ((pow2(w) - 1) as usize) == x as nat % pow2(w),
{
    lemma_usize_pow2_no_overflow(w);
    let m: usize = (pow2(w) - 1) as usize;
    assert((!x) & m == m - (x & m)) by (bit_vector);
    lemma_usize_low_bits_mask_is_mod(x, w);
}

} // verus!
