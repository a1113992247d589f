use vstd::prelude::*;

verus! {

/// Element types a native growable array can be instantiated with.
pub trait VectorTarget: Copy {

}

impl VectorTarget for u8 {

}

/// A native growable array. Host code only ever reaches one through a
/// reference or an owning pointer, never by value.
pub struct RealVector<T> {
    items: Vec<T>,
}

impl<T: VectorTarget> View for RealVector<T> {
    type V = Seq<T>;

    closed spec fn view(&self) -> Seq<T> {
        self.items@
    }
}

impl<T: VectorTarget> RealVector<T> {
    /// An empty array.
    pub fn new() -> (r: Self)
        ensures
            r@ == Seq::<T>::empty(),
    {
        RealVector { items: Vec::new() }
    }

    /// The number of elements.
    pub fn size(&self) -> (r: usize)
        ensures
            r == self@.len(),
    {
        self.items.len()
    }

    /// The element at `pos`; the caller keeps `pos` in bounds.
    pub fn get_unchecked(&self, pos: usize) -> (r: &T)
        requires
            pos < self@.len(),
        ensures
            *r == self@[pos as int],
    {
        &self.items[pos]
    }

    /// Whether the array has no elements.
    pub fn is_empty(&self) -> (r: bool)
        ensures
            r == (self@.len() == 0),
    {
        self.size() == 0
    }

    /// The element at `pos`, or `None` past the end.
    pub fn get(&self, pos: usize) -> (r: Option<&T>)
        ensures
            pos < self@.len() ==> r == Some(&self@[pos as int]),
            pos >= self@.len() ==> r is None,
    {
        if pos < self.size() {
            Some(self.get_unchecked(pos))
        } else {
            None
        }
    }

    /// Appends a copy of `item`.
    pub fn push_back(&mut self, item: &T)
        ensures
            final(self)@ == old(self)@.push(*item),
    {
        self.items.push(*item);
    }

    /// A cursor over the elements, from the first.
    pub fn iter(&self) -> (r: VectorIntoIterator<'_, T>)
        ensures
            r.index() == 0,
            r.vector()@ == self@,
    {
        VectorIntoIterator { v: self, index: 0 }
    }
}

/// A cursor over the elements of a native growable array.
pub struct VectorIntoIterator<'a, T> {
    v: &'a RealVector<T>,
    index: usize,
}

impl<'a, T: VectorTarget> VectorIntoIterator<'a, T> {
    pub closed spec fn index(&self) -> nat {
        self.index as nat
    }

    pub closed spec fn vector(&self) -> RealVector<T> {
        *self.v
    }

    /// The element under the cursor, if any; the cursor moves on by one on
    /// every call, saturating at the largest index.
    pub fn next(&mut self) -> (r: Option<&'a T>)
        ensures
            final(self).vector()@ == old(self).vector()@,
            old(self).index() < old(self).vector()@.len() ==> r == Some(
                &old(self).vector()@[old(self).index() as int],
            ),
            old(self).index() >= old(self).vector()@.len() ==> r is None,
            final(self).index() == if old(self).index() < usize::MAX {
                old(self).index() + 1
            } else {
                usize::MAX as nat
            },
    {
        let r = if self.index < self.v.size() {
            Some(self.v.get_unchecked(self.index))
        } else {
            None
        };
        self.index = self.index.saturating_add(1);
        r
    }
}

} // verus!
