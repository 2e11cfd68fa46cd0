//! Short-circuiting collection of a fallible pull sequence, together with a
//! wrapper that overrides a sequence's advisory remaining-count estimate.

use vstd::prelude::*;

pub mod estimate;
pub mod hint_recorder;
pub mod sequence;
pub mod size_hint_iter;
pub mod vec_source;

pub use size_hint_iter::SizeHintedIter;

use crate::sequence::{PullIter, SequenceBuildable, SequenceExtendable};
use crate::vec_source::VecSource;

verus! {

/// The failure value carried by the first `Err` element of `s`, if any.
pub open spec fn first_failure<T, E>(s: Seq<Result<T, E>>) -> Option<E>
    decreases s.len(),
{
    if s.len() == 0 {
        None
    } else if s[0] is Err {
        Some(s[0]->Err_0)
    } else {
        first_failure(s.drop_first())
    }
}

/// The success values of `s`, in order; meaningful when `s` holds no `Err`.
pub open spec fn ok_values<T, E>(s: Seq<Result<T, E>>) -> Seq<T> {
    s.map_values(|x: Result<T, E>| x->Ok_0)
}

/// A sequence of only `Ok` elements holds no first failure.
proof fn lemma_first_failure_all_ok<T, E>(s: Seq<Result<T, E>>)
    requires
        forall|i: int| 0 <= i < s.len() ==> s[i] is Ok,
    ensures
        first_failure(s) is None,
    decreases s.len(),
{
    if s.len() > 0 {
        lemma_first_failure_all_ok(s.drop_first());
    }
}

/// An all-`Ok` prefix does not change which failure comes first.
proof fn lemma_first_failure_skip_ok<T, E>(pre: Seq<Result<T, E>>, rest: Seq<Result<T, E>>)
    requires
        forall|i: int| 0 <= i < pre.len() ==> pre[i] is Ok,
    ensures
        first_failure(pre + rest) == first_failure(rest),
    decreases pre.len(),
{
    if pre.len() == 0 {
        assert(pre + rest =~= rest);
    } else {
        assert((pre + rest)[0] == pre[0]);
        assert((pre + rest).drop_first() =~= pre.drop_first() + rest);
        lemma_first_failure_skip_ok(pre.drop_first(), rest);
    }
}

/// Short-circuiting collect of a pull sequence of fallible elements.
pub trait CollectResult<T, E>: PullIter<Item = Result<T, E>> + Sized {
    /// Collects every success value, in order, into a container of the
    /// caller's choice, or returns the first failure produced, consuming no
    /// element past it.
    ///
    /// On success the container holds exactly the unwrapped success values
    /// of the whole input, in production order. The `Err` case returns the
    /// first failure in sequence order, and no container is returned, so no
    /// partial result is observable.
    fn collect_result<O: SequenceBuildable<T> + SequenceExtendable<T>>(self) -> (r: Result<O, E>)
        ensures
            r is Ok ==> first_failure(self.remaining()) is None
                && (r->Ok_0).elems() == ok_values(self.remaining()),
            r is Err ==> first_failure(self.remaining()) == Some(r->Err_0),
    ;
}

impl<T, E, I: PullIter<Item = Result<T, E>>> CollectResult<T, E> for I {
    /// Takes a pull sequence of results and tries to collect all `Ok`s from
    /// it, returning the first `Err` immediately if one is produced.
    ///
    /// The container is built once from an empty sequence wrapped with the
    /// input's own remaining-count estimate, then extended by one wrapped
    /// single-element sequence per success value. Each wrapper carries the
    /// running estimate of the whole input, not a single element's, so the
    /// container's capacity planning sees one long shrinking sequence.
    #[verifier::loop_isolation(false)]
    fn collect_result<O: SequenceBuildable<T> + SequenceExtendable<T>>(self) -> (r: Result<O, E>) {
        let mut it = self;
        let ghost orig: Seq<Result<T, E>> = it.remaining();
        let hint: (usize, Option<usize>) = it.size_hint();
        let mut lower: usize = hint.0;
        let mut upper: Option<usize> = hint.1;
        let mut ret: O = O::build_from(SizeHintedIter::with_bounds(VecSource::empty(), lower, upper));
        let ghost mut done: Seq<Result<T, E>> = Seq::empty();
        proof {
            assert(done + it.remaining() =~= orig);
            assert(ret.elems() =~= ok_values(done));
        }
        loop
            invariant
                orig == done + it.remaining(),
                forall|i: int| 0 <= i < done.len() ==> done[i] is Ok,
                ret.elems() == ok_values(done),
            decreases it.remaining().len(),
        {
            let ghost prev: Seq<Result<T, E>> = it.remaining();
            match it.next() {
                None => {
                    proof {
                        assert(done + it.remaining() =~= done);
                        lemma_first_failure_all_ok(done);
                    }
                    return Ok(ret);
                },
                Some(element) => {
                    match element {
                        Ok(v) => {
                            let wrapped = SizeHintedIter::with_bounds(VecSource::once(v), lower, upper);
                            ret.extend_with(wrapped);
                            lower = if lower == 0 {
                                0
                            } else {
                                lower - 1
                            };
                            upper = match upper {
                                Some(u) => Some(
                                    if u == 0 {
                                        0
                                    } else {
                                        u - 1
                                    },
                                ),
                                None => None,
                            };
                            proof {
                                done = done.push(Ok(v));
                                assert(done + it.remaining() =~= orig);
                                assert(ret.elems() =~= ok_values(done));
                            }
                        },
                        Err(e) => {
                            proof {
                                lemma_first_failure_skip_ok(done, prev);
                            }
                            return Err(e);
                        },
                    }
                },
            }
        }
    }
}

} // verus!
