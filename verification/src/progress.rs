//! The progress scale: mapping transferred bytes onto 101 columns.
//!
//! The display is a fixed ruler of columns 0 through 100, one column per
//! percentage point of the total size. The whole policy lives here: which
//! column a byte count corresponds to, that the column never moves
//! backwards, and the exact text of the scale's header lines and glyphs.

use vstd::arithmetic::div_mod::{
    lemma_div_is_ordered, lemma_div_multiples_vanish, lemma_div_pos_is_pos,
};
use vstd::arithmetic::mul::lemma_mul_inequality;
use vstd::prelude::*;

verus! {

/// The column on the 0..=100 scale that `bytes` transferred out of `total`
/// stand at. An empty file is complete the moment the transfer starts, so a
/// zero total maps straight to the final column instead of dividing by zero.
pub open spec fn column_spec(bytes: int, total: int) -> int {
    if total == 0 {
        100
    } else {
        bytes * 100 / total
    }
}

/// The column is within the scale as long as no more than `total` bytes
/// have been counted.
pub proof fn lemma_column_in_scale(bytes: int, total: int)
    requires
        0 <= bytes <= total,
    ensures
        0 <= column_spec(bytes, total) <= 100,
{
    if total != 0 {
        lemma_div_pos_is_pos(bytes * 100, total);
        lemma_mul_inequality(bytes, total, 100);
        lemma_div_is_ordered(bytes * 100, total * 100, total);
        lemma_div_multiples_vanish(100, total);
    }
}

/// The column sequence of a transfer never decreases, and it ends at
/// exactly 100 once every byte of the total has been counted — also for an
/// empty total, where it is 100 from the start.
pub proof fn lemma_column_monotone(b1: int, b2: int, total: int)
    requires
        0 <= b1 <= b2 <= total,
    ensures
        column_spec(b1, total) <= column_spec(b2, total),
        0 <= column_spec(b1, total) <= 100,
        column_spec(total, total) == 100,
{
    lemma_column_in_scale(b1, total);
    if total != 0 {
        lemma_mul_inequality(b1, b2, 100);
        lemma_div_is_ordered(b1 * 100, b2 * 100, total);
        lemma_div_multiples_vanish(100, total);
    }
}

/// Compute the progress column for `bytes` transferred out of `total`.
pub fn column_of(bytes: u64, total: u64) -> (c: u8)
    requires
        bytes <= total,
    ensures
        c == column_spec(bytes as int, total as int),
{
    proof {
        lemma_column_in_scale(bytes as int, total as int);
    }
    if total == 0 {
        100
    } else {
        let wide: u128 = (bytes as u128) * 100 / (total as u128);
        wide as u8
    }
}

} // verus!
