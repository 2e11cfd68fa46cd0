//! The pull-based sequence protocol and the two container capabilities the
//! collector is generic over: building a container from a sequence and
//! extending a container by a sequence.

use vstd::prelude::*;

verus! {

/// A lazy, pull-based sequence of elements.
///
/// `remaining` is the mathematical sequence of elements yet to be produced,
/// in production order. `estimate` is the advisory remaining-count estimate
/// the sequence currently reports; it is for capacity planning only and
/// carries no correctness guarantee about `remaining`. `estimate_after` is
/// the estimate the sequence will report after one more production attempt.
pub trait PullIter: Sized {
    /// The element type produced by this sequence.
    type Item;

    /// The elements yet to be produced, in order.
    spec fn remaining(&self) -> Seq<Self::Item>;

    /// The advisory `(lower, upper)` remaining-count estimate now reported.
    spec fn estimate(&self) -> (usize, Option<usize>);

    /// The advisory estimate reported after one more production attempt.
    spec fn estimate_after(&self) -> (usize, Option<usize>);

    /// Produce the next element, or report exhaustion.
    fn next(&mut self) -> (r: Option<Self::Item>)
        ensures
            old(self).remaining().len() == 0 ==> r is None
                && final(self).remaining() == old(self).remaining(),
            old(self).remaining().len() > 0 ==> r == Some(old(self).remaining()[0])
                && final(self).remaining() == old(self).remaining().drop_first(),
            final(self).estimate() == old(self).estimate_after(),
    ;

    /// Report the current advisory remaining-count estimate.
    fn size_hint(&self) -> (h: (usize, Option<usize>))
        ensures
            h == self.estimate(),
    ;
}

/// A container whose contents can be described as a mathematical sequence.
pub trait SequenceStore<T> {
    /// The elements the container currently holds, in order.
    spec fn elems(&self) -> Seq<T>;
}

/// A container that can be built from a pull sequence of `T`.
pub trait SequenceBuildable<T>: SequenceStore<T> + Sized {
    /// Build a container holding exactly the elements `src` produces, in
    /// order.
    fn build_from<I: PullIter<Item = T>>(src: I) -> (r: Self)
        ensures
            r.elems() == src.remaining(),
    ;
}

/// A container that can be extended in place by a pull sequence of `T`.
pub trait SequenceExtendable<T>: SequenceStore<T> {
    /// Append the elements `src` produces, in order, after the elements
    /// already held.
    fn extend_with<I: PullIter<Item = T>>(&mut self, src: I)
        ensures
            final(self).elems() == old(self).elems() + src.remaining(),
    ;
}

impl<T> SequenceStore<T> for Vec<T> {
    open spec fn elems(&self) -> Seq<T> {
        self@
    }
}

impl<T> SequenceBuildable<T> for Vec<T> {
    #[verifier::loop_isolation(false)]
    fn build_from<I: PullIter<Item = T>>(src: I) -> (r: Self) {
        let mut v: Vec<T> = Vec::new();
        let mut s = src;
        let ghost orig: Seq<T> = s.remaining();
        proof {
            assert(v@ + s.remaining() =~= orig);
        }
        loop
            invariant
                orig == v@ + s.remaining(),
            decreases s.remaining().len(),
        {
            match s.next() {
                None => {
                    proof {
                        assert(v@ + s.remaining() =~= v@);
                    }
                    return v;
                },
                Some(x) => {
                    v.push(x);
                    proof {
                        assert(v@ + s.remaining() =~= orig);
                    }
                },
            }
        }
    }
}

impl<T> SequenceExtendable<T> for Vec<T> {
    #[verifier::loop_isolation(false)]
    fn extend_with<I: PullIter<Item = T>>(&mut self, src: I) {
        let mut s = src;
        let ghost init: Seq<T> = self@;
        let ghost orig: Seq<T> = s.remaining();
        proof {
            assert(self@ + s.remaining() =~= init + orig);
        }
        loop
            invariant
                init + orig == self@ + s.remaining(),
            decreases s.remaining().len(),
        {
            match s.next() {
                None => {
                    proof {
                        assert(self@ + s.remaining() =~= self@);
                    }
                    return;
                },
                Some(x) => {
                    self.push(x);
                    proof {
                        assert(self@ + s.remaining() =~= init + orig);
                    }
                },
            }
        }
    }
}

} // verus!
