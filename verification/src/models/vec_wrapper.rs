//! A growable list that also records its own length.

use vstd::prelude::*;
use vstd::std_specs::cmp::{PartialEqSpec, PartialEqSpecImpl};
use vstd::std_specs::iter::IteratorSpec;

verus! {

/// Wrapper for `Vec<T>`.
#[derive(Debug)]
pub struct VecWrapper<T> where T: PartialEq + Clone {
    /// Contains all values of the list.
    pub values: Vec<T>,
    /// Keeps track of the length.
    pub len: usize,
}

impl<T> VecWrapper<T> where T: PartialEq + Clone {
    /// The recorded length agrees with the number of values.
    pub open spec fn wf(&self) -> bool {
        self.len == self.values@.len()
    }

    /// The position of the first value equal to `val`, if there is one.
    pub open spec fn first_match(values: Seq<T>, val: T, at: Option<usize>) -> bool {
        match at {
            Some(i) => {
                &&& i < values.len()
                &&& values[i as int].eq_spec(&val)
                &&& forall|j: int| 0 <= j < i ==> !(#[trigger] values[j]).eq_spec(&val)
            },
            None => forall|j: int| 0 <= j < values.len() ==> !(#[trigger] values[j]).eq_spec(&val),
        }
    }

    /// Creates a new, empty list.
    pub fn new() -> (w: VecWrapper<T>)
        ensures
            w.values@ == Seq::<T>::empty(),
            w.len == 0,
            w.wf(),
    {
        VecWrapper { values: Vec::new(), len: 0 }
    }

    /// Pushes a new value onto the end of the list.
    pub fn push(&mut self, val: T)
        ensures
            final(self).values@ == old(self).values@.push(val),
            final(self).wf(),
    {
        self.values.push(val);
        self.len = self.values.len();
    }

    /// Removes the first value equal to `val` and hands it back.
    pub fn remove(&mut self, val: T) -> (removed: Option<T>)
        ensures
            T::obeys_eq_spec() ==> exists|at: Option<usize>| #[trigger]
                Self::first_match(old(self).values@, val, at) && match at {
                    Some(i) => {
                        &&& removed == Some(old(self).values@[i as int])
                        &&& final(self).values@ == old(self).values@.remove(i as int)
                        &&& final(self).wf()
                    },
                    None => removed is None && *final(self) == *old(self),
                },
    {
        match self.index_of(&val) {
            Some(i) => {
                let out: T = self.values.remove(i);
                self.len = self.values.len();
                Some(out)
            },
            None => None,
        }
    }

    /// Gets the index of the first value equal to `val`.
    pub fn index_of(&self, val: &T) -> (at: Option<usize>)
        ensures
            T::obeys_eq_spec() ==> Self::first_match(self.values@, *val, at),
            at matches Some(i) ==> i < self.values@.len(),
    {
        let mut i: usize = 0;
        while i < self.values.len()
            invariant
                i <= self.values@.len(),
                T::obeys_eq_spec() ==> forall|j: int| 0 <= j < i ==> !(#[trigger] self.values@[j]).eq_spec(val),
            decreases self.values@.len() - i,
        {
            if self.values[i] == *val {
                return Some(i);
            }
            i += 1;
        }
        None
    }

    /// Replaces the value at an index by a copy of `val`.
    pub fn set(&mut self, idx: usize, val: &T)
        requires
            idx < old(self).values@.len(),
        ensures
            final(self).values@.len() == old(self).values@.len(),
            cloned::<T>(*val, final(self).values@[idx as int]),
            forall|j: int| 0 <= j < old(self).values@.len() && j != idx ==> final(self).values@[j] == old(self).values@[j],
            final(self).len == old(self).len,
    {
        self.values[idx] = val.clone();
    }

    /// Gets the first value equal to `val`.
    pub fn get(&self, val: &T) -> (found: Option<&T>)
        ensures
            T::obeys_eq_spec() ==> exists|at: Option<usize>| #[trigger]
                Self::first_match(self.values@, *val, at) && match at {
                    Some(i) => found == Some(&self.values@[i as int]),
                    None => found is None,
                },
    {
        let idx: Option<usize> = self.index_of(val);
        match idx {
            Some(i) => Some(&self.values[i]),
            None => None,
        }
    }

    /// Returns an iterator over the values.
    pub fn iter(&self) -> (it: std::slice::Iter<'_, T>)
        ensures
            IteratorSpec::remaining(&it) == self.values@.as_ref(),
    {
        broadcast use vstd::std_specs::slice::axiom_spec_slice_iter;

        self.values.iter()
    }

    /// Returns the number of values.
    pub fn len(&self) -> (n: usize)
        ensures
            n == self.values@.len(),
    {
        self.values.len()
    }

    /// Checks whether the list is empty.
    pub fn is_empty(&self) -> (b: bool)
        ensures
            b == (self.values@.len() == 0),
    {
        self.values.is_empty()
    }

    /// Returns a copy of the values as a vector.
    pub fn to_vec(&self) -> (v: Vec<T>)
        ensures
            v@.len() == self.values@.len(),
            forall|i: int| 0 <= i < v@.len() ==> cloned::<T>(#[trigger] self.values@[i], v@[i]),
    {
        self.values.clone()
    }
}

impl<T> Clone for VecWrapper<T> where T: PartialEq + Clone {
    fn clone(&self) -> (w: Self)
        ensures
            w.len == self.len,
            w.values@.len() == self.values@.len(),
            forall|i: int| 0 <= i < w.values@.len() ==> cloned::<T>(#[trigger] self.values@[i], w.values@[i]),
    {
        VecWrapper { values: self.values.clone(), len: self.len }
    }
}

impl<T> Default for VecWrapper<T> where T: PartialEq + Clone {
    fn default() -> (w: Self)
        ensures
            w.values@ == Seq::<T>::empty(),
            w.len == 0,
    {
        VecWrapper::new()
    }
}

impl<T> PartialEq for VecWrapper<T> where T: PartialEq + Clone {
    fn eq(&self, other: &Self) -> (r: bool) {
        if self.len != other.len || self.values.len() != other.values.len() {
            return false;
        }
        let mut i: usize = 0;
        while i < self.values.len()
            invariant
                i <= self.values@.len(),
                self.len == other.len,
                self.values@.len() == other.values@.len(),
                T::obeys_eq_spec() ==> forall|j: int|
                    0 <= j < i ==> (#[trigger] self.values@[j]).eq_spec(&other.values@[j]),
            decreases self.values@.len() - i,
        {
            if !(self.values[i] == other.values[i]) {
                return false;
            }
            i += 1;
        }
        true
    }
}

impl<T> PartialEqSpecImpl for VecWrapper<T> where T: PartialEq + Clone {
    open spec fn obeys_eq_spec() -> bool {
        T::obeys_eq_spec()
    }

    open spec fn eq_spec(&self, other: &Self) -> bool {
        &&& self.len == other.len
        &&& self.values@.len() == other.values@.len()
        &&& forall|j: int| 0 <= j < self.values@.len() ==> (#[trigger] self.values@[j]).eq_spec(&other.values@[j])
    }
}

} // verus!
