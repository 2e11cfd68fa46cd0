//! A wrapper that substitutes a caller-supplied remaining-count estimate for
//! the wrapped sequence's own, forwarding every produced element unchanged.

use vstd::prelude::*;
use crate::estimate::dec_estimate;
use crate::sequence::PullIter;

verus! {

/// Overrides the remaining-count estimate a sequence reports.
///
/// The wrapper forwards the inner sequence's elements unchanged, but reports
/// its own stored `(lower, upper)` estimate instead of the inner one, and
/// decrements that estimate (saturating at zero) on every production
/// attempt, even one that finds the inner sequence exhausted. The bounds are
/// advisory metadata only: they are never validated against the inner
/// sequence's actual contents.
pub struct SizeHintedIter<I> {
    /// The wrapped sequence.
    pub inner: I,
    /// The lower bound to pretend to have.
    pub lower: usize,
    /// The upper bound to pretend to have.
    pub upper: Option<usize>,
}

impl<I> SizeHintedIter<I> {
    /// Stores the given bounds verbatim, without validation.
    #[inline(always)]
    pub fn with_bounds(inner: I, lower: usize, upper: Option<usize>) -> (r: Self)
        ensures
            r.inner == inner,
            r.lower == lower,
            r.upper == upper,
    {
        SizeHintedIter { inner, lower, upper }
    }

    /// Discards the override and returns ownership of the wrapped sequence,
    /// exactly as it stands.
    #[inline(always)]
    pub fn into_inner(self) -> (r: I)
        ensures
            r == self.inner,
    {
        self.inner
    }
}

impl<I: PullIter> SizeHintedIter<I> {
    /// Inherits the bounds from the given sequence's own estimate, read once
    /// at construction.
    #[inline(always)]
    pub fn new(inner: I) -> (r: Self)
        ensures
            r.inner == inner,
            r.lower == inner.estimate().0,
            r.upper == inner.estimate().1,
    {
        let hint = inner.size_hint();
        Self::with_bounds(inner, hint.0, hint.1)
    }
}

/// Law: a wrapper whose bounds were inherited from the wrapped sequence's
/// own estimate is behaviorally identical to that sequence: it will produce
/// the same elements in the same order and reports the same estimate, so
/// wrapping and unwrapping changes nothing.
pub proof fn lemma_inherited_wrapper_round_trip<I: PullIter>(s: I, w: SizeHintedIter<I>)
    requires
        w.inner == s,
        w.lower == s.estimate().0,
        w.upper == s.estimate().1,
    ensures
        w.remaining() == s.remaining(),
        w.estimate() == s.estimate(),
        w.inner == s,
{
}

impl<I: PullIter> PullIter for SizeHintedIter<I> {
    type Item = I::Item;

    open spec fn remaining(&self) -> Seq<I::Item> {
        self.inner.remaining()
    }

    open spec fn estimate(&self) -> (usize, Option<usize>) {
        (self.lower, self.upper)
    }

    open spec fn estimate_after(&self) -> (usize, Option<usize>) {
        dec_estimate(self.lower, self.upper)
    }

    fn next(&mut self) -> (r: Option<I::Item>) {
        self.lower = if self.lower == 0 {
            0
        } else {
            self.lower - 1
        };
        self.upper = match self.upper {
            Some(u) => Some(
                if u == 0 {
                    0
                } else {
                    u - 1
                },
            ),
            None => None,
        };
        self.inner.next()
    }

    fn size_hint(&self) -> (h: (usize, Option<usize>)) {
        (self.lower, self.upper)
    }
}

} // verus!
