//! Utilities that the rest of the crate needs but that have nothing to do with ratings.
use vstd::prelude::*;

verus! {

/// A wrapper around [`Vec`] that only lets you append.
/// Indices into it therefore stay valid for as long as it exists.
#[derive(Clone, Default, PartialEq, Eq, PartialOrd, Ord, Hash, Debug)]
pub struct PushOnlyVec<T>(Vec<T>);

impl<T> View for PushOnlyVec<T> {
    type V = Seq<T>;

    closed spec fn view(&self) -> Seq<T> {
        self.0@
    }
}

impl<T> From<Vec<T>> for PushOnlyVec<T> {
    fn from(vec: Vec<T>) -> (r: Self)
        ensures
            r@ == vec@,
    {
        PushOnlyVec(vec)
    }
}

impl<T> vstd::std_specs::convert::FromSpecImpl<Vec<T>> for PushOnlyVec<T> {
    open spec fn obeys_from_spec() -> bool {
        true
    }

    closed spec fn from_spec(vec: Vec<T>) -> Self {
        PushOnlyVec(vec)
    }
}

impl<T> From<PushOnlyVec<T>> for Vec<T> {
    fn from(push_only: PushOnlyVec<T>) -> (r: Self)
        ensures
            r@ == push_only@,
    {
        push_only.0
    }
}

impl<T> vstd::std_specs::convert::FromSpecImpl<PushOnlyVec<T>> for Vec<T> {
    open spec fn obeys_from_spec() -> bool {
        true
    }

    closed spec fn from_spec(push_only: PushOnlyVec<T>) -> Self {
        push_only.0
    }
}

impl<T> PushOnlyVec<T> {
    /// Creates a new, empty `PushOnlyVec<T>`.
    pub fn new() -> (r: Self)
        ensures
            r@ == Seq::<T>::empty(),
    {
        PushOnlyVec(Vec::new())
    }

    /// The underlying [`Vec`], for all read-only operations.
    pub fn vec(&self) -> (r: &Vec<T>)
        ensures
            r@ == self@,
    {
        &self.0
    }

    /// Appends an element; all indices handed out before stay valid.
    pub fn push(&mut self, value: T)
        ensures
            final(self)@ == old(self)@.push(value),
    {
        self.0.push(value);
    }

    /// A mutable reference to the element at `index`, or `None` if `index` is out of bounds.
    pub fn get_mut(&mut self, index: usize) -> (r: Option<&mut T>)
        ensures
            index < old(self)@.len() ==> (r matches Some(e) && *e == old(self)@[index as int]
                && final(self)@ == old(self)@.update(index as int, *final(e))),
            index >= old(self)@.len() ==> r is None && final(self)@ == old(self)@,
        no_unwind
    {
        if index < self.0.len() {
            Some(&mut self.0[index])
        } else {
            None
        }
    }

    /// Mutable access to every element at once; the length cannot change through it.
    pub fn iter_mut(&mut self) -> (r: &mut [T])
        ensures
            r@ == old(self)@,
            final(self)@ == final(r)@,
    {
        self.0.as_mut_slice()
    }
}

} // verus!
