//! A container that, besides storing elements, records the remaining-count
//! estimate the extending sequence reports after each element it yields, the
//! moment a pre-allocating container would consult it. It exists to make the
//! collector's estimate bookkeeping observable.

use vstd::prelude::*;
use crate::sequence::{PullIter, SequenceBuildable, SequenceExtendable, SequenceStore};

verus! {

/// Stores elements like a vector and logs the `(lower, upper)` estimate the
/// extending sequence reports right after each element it yields.
pub struct HintRecorder<T> {
    /// The elements collected so far, in order.
    pub items: Vec<T>,
    /// One entry per element received through an extension: the estimate
    /// the extending sequence reported just after yielding that element.
    pub hints: Vec<(usize, Option<usize>)>,
}

impl<T> SequenceStore<T> for HintRecorder<T> {
    open spec fn elems(&self) -> Seq<T> {
        self.items@
    }
}

impl<T> SequenceBuildable<T> for HintRecorder<T> {
    #[verifier::loop_isolation(false)]
    fn build_from<I: PullIter<Item = T>>(src: I) -> (r: Self) {
        let mut items: Vec<T> = Vec::new();
        let mut s = src;
        let ghost orig: Seq<T> = s.remaining();
        proof {
            assert(items@ + s.remaining() =~= orig);
        }
        loop
            invariant
                orig == items@ + s.remaining(),
            decreases s.remaining().len(),
        {
            match s.next() {
                None => {
                    proof {
                        assert(items@ + s.remaining() =~= items@);
                    }
                    return HintRecorder { items, hints: Vec::new() };
                },
                Some(x) => {
                    items.push(x);
                    proof {
                        assert(items@ + s.remaining() =~= orig);
                    }
                },
            }
        }
    }
}

impl<T> SequenceExtendable<T> for HintRecorder<T> {
    #[verifier::loop_isolation(false)]
    fn extend_with<I: PullIter<Item = T>>(&mut self, src: I) {
        let mut s = src;
        let ghost init: Seq<T> = self.items@;
        let ghost orig: Seq<T> = s.remaining();
        proof {
            assert(self.items@ + s.remaining() =~= init + orig);
        }
        loop
            invariant
                init + orig == self.items@ + s.remaining(),
            decreases s.remaining().len(),
        {
            match s.next() {
                None => {
                    proof {
                        assert(self.items@ + s.remaining() =~= self.items@);
                    }
                    return;
                },
                Some(x) => {
                    self.items.push(x);
                    let hint: (usize, Option<usize>) = s.size_hint();
                    self.hints.push(hint);
                    proof {
                        assert(self.items@ + s.remaining() =~= init + orig);
                    }
                },
            }
        }
    }
}

} // verus!
