//! The advisory remaining-count estimate `(lower, upper)` and its saturating
//! decrement, applied once per production attempt of a sequence.

use vstd::prelude::*;

verus! {

/// One saturating decrement: never underflows below zero.
pub open spec fn saturating_dec(n: usize) -> usize {
    if n == 0 {
        0
    } else {
        (n - 1) as usize
    }
}

/// What a remaining-count estimate becomes after one element production
/// attempt: both bounds drop by one, saturating at zero; an unknown upper
/// bound stays unknown.
pub open spec fn dec_estimate(lower: usize, upper: Option<usize>) -> (usize, Option<usize>) {
    (
        saturating_dec(lower),
        match upper {
            Some(u) => Some(saturating_dec(u)),
            None => None,
        },
    )
}

/// The estimate after `n` production attempts.
pub open spec fn dec_estimate_n(lower: usize, upper: Option<usize>, n: nat) -> (
    usize,
    Option<usize>,
)
    decreases n,
{
    if n == 0 {
        (lower, upper)
    } else {
        let e = dec_estimate_n(lower, upper, (n - 1) as nat);
        dec_estimate(e.0, e.1)
    }
}

/// Law: the exhausted estimate `(0, Some(0))` is a fixed point of the
/// decrement, so decrementing it any number of times yields `(0, Some(0))`
/// again and never underflows.
pub proof fn lemma_zero_estimate_fixed(n: nat)
    ensures
        dec_estimate_n(0, Some(0), n) == (0usize, Some(0usize)),
    decreases n,
{
    if n > 0 {
        lemma_zero_estimate_fixed((n - 1) as nat);
    }
}

} // verus!
