use crate::vector::{RealVector, VectorTarget};
use vstd::prelude::*;

verus! {

/// A growable buffer owned by the host side.
pub struct RustVec<T> {
    items: Vec<T>,
}

impl<T: VectorTarget> View for RustVec<T> {
    type V = Seq<T>;

    closed spec fn view(&self) -> Seq<T> {
        self.items@
    }
}

impl<T: VectorTarget> RustVec<T> {
    /// Takes ownership of the contents of `s`.
    pub fn from(s: Vec<T>) -> (r: Self)
        ensures
            r@ == s@,
    {
        RustVec { items: s }
    }

    /// Hands the contents back as a `Vec`.
    pub fn into_vec(self) -> (r: Vec<T>)
        ensures
            r@ == self@,
    {
        self.items
    }

    /// The number of elements.
    pub fn len(&self) -> (r: usize)
        ensures
            r == self@.len(),
    {
        self.items.len()
    }

    /// Appends a copy of every element, in order, to the native array `vec`.
    pub fn to_vector(&self, vec: &mut RealVector<T>)
        ensures
            final(vec)@ == old(vec)@ + self@,
    {
        let mut i: usize = 0;
        while i < self.items.len()
            invariant
                i <= self@.len(),
                vec@ == old(vec)@ + self@.subrange(0, i as int),
            decreases self@.len() - i,
        {
            vec.push_back(&self.items[i]);
            assert(vec@ =~= old(vec)@ + self@.subrange(0, i as int + 1));
            i = i + 1;
        }
        assert(self@.subrange(0, self@.len() as int) =~= self@);
    }
}

} // verus!
