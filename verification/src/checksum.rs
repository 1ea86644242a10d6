//! The Internet (one's-complement) checksum used by ICMP echo packets.
//!
//! A buffer is read as 16-bit big-endian words (an odd trailing byte is the
//! high-order half of a final word), the words are summed, carries from bit
//! 16 upward are folded back into the low 16 bits until none remain, and the
//! result is complemented.

use vstd::prelude::*;
use vstd::arithmetic::div_mod::{
    lemma_fundamental_div_mod, lemma_mod_add_multiples_vanish, lemma_mod_multiples_vanish,
    lemma_sub_mod_noop,
};

verus! {

/// The value of the `j`-th 16-bit big-endian word of `b` (bytes `2j` and
/// `2j + 1`); a missing low byte counts as zero.
pub open spec fn word_value(b: Seq<u8>, j: int) -> int {
    b[2 * j] as int * 256 + if 2 * j + 1 < b.len() {
        b[2 * j + 1] as int
    } else {
        0
    }
}

/// Number of 16-bit words that cover `b`.
pub open spec fn num_words(b: Seq<u8>) -> int {
    (b.len() as int + 1) / 2
}

/// Sum of the first `k` words of `b`.
pub open spec fn sum_first_words(b: Seq<u8>, k: int) -> int
    decreases k,
{
    if k <= 0 {
        0
    } else {
        sum_first_words(b, k - 1) + word_value(b, k - 1)
    }
}

/// Sum of all 16-bit big-endian words of `b`.
pub open spec fn sum_words(b: Seq<u8>) -> int {
    sum_first_words(b, num_words(b))
}

/// Folds carries from bit 16 upward back into the low 16 bits, repeatedly,
/// until the sum fits in 16 bits.
pub open spec fn fold_carries(s: int) -> int
    decreases s,
{
    if s <= 0xFFFF {
        s
    } else {
        fold_carries(s % 0x10000 + s / 0x10000)
    }
}

/// The Internet checksum of `b`: the one's complement of the folded word sum.
pub open spec fn checksum_of(b: Seq<u8>) -> u16 {
    (0xFFFF - fold_carries(sum_words(b))) as u16
}

/// A buffer passes checksum verification when its folded word sum, taken
/// with the transmitted checksum in place, is all ones (complementing it
/// yields zero).
pub open spec fn checksum_verifies(b: Seq<u8>) -> bool {
    fold_carries(sum_words(b)) == 0xFFFF
}

/// Every word is non-negative, so every partial word sum is.
pub proof fn lemma_sum_first_words_nonneg(b: Seq<u8>, k: int)
    requires
        2 * k <= b.len() + 1,
        0 <= k,
    ensures
        0 <= sum_first_words(b, k),
    decreases k,
{
    if k > 0 {
        lemma_sum_first_words_nonneg(b, k - 1);
    }
}

/// The whole word sum is non-negative.
pub proof fn lemma_sum_words_nonneg(b: Seq<u8>)
    ensures
        0 <= sum_words(b),
{
    lemma_fundamental_div_mod(b.len() as int + 1, 2);
    lemma_sum_first_words_nonneg(b, num_words(b));
}

/// Folding keeps the sum within `0 ..= 0xFFFF` and never turns a positive
/// sum into zero.
pub proof fn lemma_fold_carries_bounds(s: int)
    requires
        0 <= s,
    ensures
        0 <= fold_carries(s) <= 0xFFFF,
        s > 0 ==> fold_carries(s) > 0,
    decreases s,
{
    if s > 0xFFFF {
        lemma_fundamental_div_mod(s, 0x10000);
        lemma_fold_carries_bounds(s % 0x10000 + s / 0x10000);
    }
}

/// Folding preserves the value modulo `0xFFFF`, because `0x10000` is
/// congruent to `1` modulo `0xFFFF`.
pub proof fn lemma_fold_carries_congruent(s: int)
    requires
        0 <= s,
    ensures
        fold_carries(s) % 0xFFFF == s % 0xFFFF,
    decreases s,
{
    if s > 0xFFFF {
        let next = s % 0x10000 + s / 0x10000;
        lemma_fundamental_div_mod(s, 0x10000);
        assert(s == 0xFFFF * (s / 0x10000) + next);
        lemma_mod_multiples_vanish(s / 0x10000, next, 0xFFFF);
        lemma_fold_carries_congruent(next);
    }
}

/// The heart of checksum verification: adding the complement of a sum's
/// fold back onto the sum folds to all ones.
pub proof fn lemma_fold_complement(s: int)
    requires
        0 <= s,
    ensures
        fold_carries(s + 0xFFFF - fold_carries(s)) == 0xFFFF,
{
    let f = fold_carries(s);
    lemma_fold_carries_bounds(s);
    let t = s + 0xFFFF - f;
    lemma_fold_carries_congruent(s);
    lemma_fold_carries_congruent(t);
    lemma_fold_carries_bounds(t);
    // t == (s - f) + 0xFFFF, and s ≡ f (mod 0xFFFF), so t ≡ 0 (mod 0xFFFF).
    lemma_sub_mod_noop(s, f, 0xFFFF);
    assert((s - f) % 0xFFFF == 0) by {
        assert((s % 0xFFFF - f % 0xFFFF) % 0xFFFF == (s - f) % 0xFFFF);
        assert(s % 0xFFFF == f % 0xFFFF);
    }
    lemma_mod_add_multiples_vanish(s - f, 0xFFFF);
    assert(t % 0xFFFF == 0);
    assert(fold_carries(t) % 0xFFFF == 0);
    // fold_carries(t) lies in 0 ..= 0xFFFF and is divisible by 0xFFFF, so it
    // is 0 or 0xFFFF; and t > 0 rules out 0.
    if fold_carries(t) < 0xFFFF {
        lemma_small_mod_self(fold_carries(t));
    }
}

/// A value already below the modulus is its own remainder.
proof fn lemma_small_mod_self(x: int)
    requires
        0 <= x < 0xFFFF,
    ensures
        x % 0xFFFF == x,
{
    vstd::arithmetic::div_mod::lemma_small_mod(x as nat, 0xFFFF as nat);
}

} // verus!
