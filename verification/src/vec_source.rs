//! A concrete pull sequence backed by a vector: it produces the vector's
//! elements front to back and reports an exact remaining-count estimate.

use vstd::prelude::*;
use crate::estimate::dec_estimate;
use crate::sequence::PullIter;

verus! {

/// A pull sequence that yields the elements of a vector in order.
///
/// Its remaining-count estimate is exact: both bounds equal the number of
/// elements still held.
pub struct VecSource<T> {
    /// The elements not yet produced, front first.
    pub items: Vec<T>,
}

impl<T> VecSource<T> {
    /// A source that produces the given elements in order.
    pub fn from_vec(items: Vec<T>) -> (r: Self)
        ensures
            r.items@ == items@,
    {
        VecSource { items }
    }

    /// A source that produces nothing.
    pub fn empty() -> (r: Self)
        ensures
            r.items@ == Seq::<T>::empty(),
    {
        VecSource { items: Vec::new() }
    }

    /// A source that produces exactly the one given element.
    pub fn once(value: T) -> (r: Self)
        ensures
            r.items@ == seq![value],
    {
        let mut items: Vec<T> = Vec::new();
        items.push(value);
        VecSource { items }
    }
}

impl<T> PullIter for VecSource<T> {
    type Item = T;

    open spec fn remaining(&self) -> Seq<T> {
        self.items@
    }

    open spec fn estimate(&self) -> (usize, Option<usize>) {
        (self.items@.len() as usize, Some(self.items@.len() as usize))
    }

    open spec fn estimate_after(&self) -> (usize, Option<usize>) {
        dec_estimate(self.items@.len() as usize, Some(self.items@.len() as usize))
    }

    fn next(&mut self) -> (r: Option<T>) {
        if self.items.len() == 0 {
            None
        } else {
            let ghost prev: Seq<T> = self.items@;
            let x = self.items.remove(0);
            proof {
                assert(self.items@ =~= prev.drop_first());
            }
            Some(x)
        }
    }

    fn size_hint(&self) -> (h: (usize, Option<usize>)) {
        let n: usize = self.items.len();
        (n, Some(n))
    }
}

} // verus!
