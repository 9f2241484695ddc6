//! A day counter that tells its listeners about the current day.

use vstd::prelude::*;
use vstd::std_specs::cmp::PartialEqSpec;
use crate::types::Model;

verus! {

/// Something that wants to hear about a value when it changes.
pub trait Listener<T> {
    /// Takes note of the new value.
    fn notify(&mut self, new: T);

    /// Hands out the value that was noted last.
    fn pull(&self) -> T;
}

/// Something that keeps listeners and tells them about its value.
pub trait Listenable<V, T> where T: Listener<V> + Model + Clone {
    /// Adds a listener.
    fn add_listener(&mut self, listener: T);

    /// Removes the first listener equal to the given one and hands it back.
    fn pop_listener(&mut self, listener: T) -> Option<T>;

    /// Tells every listener about the current value.
    fn notify_listeners(&mut self);
}

/// The day counter with its listeners.
#[derive(Debug)]
pub struct Time<T> where T: Listener<usize> + Model + Clone + PartialEq + Eq {
    listeners: Vec<T>,
    day: usize,
}

impl<T> Time<T> where T: Listener<usize> + Model + Clone + PartialEq + Eq {
    /// The listeners, in the order they were added.
    pub closed spec fn listeners(&self) -> Seq<T> {
        self.listeners@
    }

    /// The current day.
    pub closed spec fn day(&self) -> usize {
        self.day
    }

    /// The listener at `at` is the first that equals `val`.
    pub open spec fn first_equal(listeners: Seq<T>, val: T, at: int) -> bool {
        &&& 0 <= at < listeners.len()
        &&& listeners[at].eq_spec(&val)
        &&& forall|j: int| 0 <= j < at ==> !(#[trigger] listeners[j]).eq_spec(&val)
    }

    /// No listener equals `val`.
    pub open spec fn none_equal(listeners: Seq<T>, val: T) -> bool {
        forall|j: int| 0 <= j < listeners.len() ==> !(#[trigger] listeners[j]).eq_spec(&val)
    }

    /// Creates a counter with the given listeners on the given day.
    pub fn new(listeners: Vec<T>, day: usize) -> (t: Self)
        ensures
            t.listeners() == listeners@,
            t.day() == day,
    {
        Self { listeners, day }
    }

    /// Where the first listener equal to `val` stands.
    pub fn index_of(&self, val: &T) -> (r: Option<usize>)
        ensures
            T::obeys_eq_spec() ==> match r {
                Some(at) => Self::first_equal(self.listeners(), *val, at as int),
                None => Self::none_equal(self.listeners(), *val),
            },
            r matches Some(at) ==> at < self.listeners().len(),
    {
        let mut i: usize = 0;
        while i < self.listeners.len()
            invariant
                i <= self.listeners@.len(),
                T::obeys_eq_spec() ==> forall|j: int| 0 <= j < i ==> !(#[trigger] self.listeners@[j]).eq_spec(val),
            decreases self.listeners@.len() - i,
        {
            if self.listeners[i] == *val {
                return Some(i);
            }
            i += 1;
        }
        None
    }

    /// Moves on to the next day. The listeners are not told.
    pub fn incr_day(&mut self)
        requires
            old(self).day() < usize::MAX,
        ensures
            final(self).day() == old(self).day() + 1,
            final(self).listeners() == old(self).listeners(),
    {
        self.day += 1;
    }
}

impl<T> Listenable<usize, T> for Time<T> where T: Listener<usize> + Model + Clone + PartialEq + Eq {
    fn add_listener(&mut self, listener: T)
        ensures
            final(self).listeners() == old(self).listeners().push(listener),
            final(self).day() == old(self).day(),
    {
        self.listeners.push(listener);
    }

    fn pop_listener(&mut self, listener: T) -> (r: Option<T>)
        ensures
            final(self).day() == old(self).day(),
            T::obeys_eq_spec() ==> match r {
                Some(l) => exists|at: int| #[trigger]
                    Self::first_equal(old(self).listeners(), listener, at) && l == old(self).listeners()[at]
                        && final(self).listeners() == old(self).listeners().remove(at),
                None => Self::none_equal(old(self).listeners(), listener) && final(self).listeners()
                    == old(self).listeners(),
            },
    {
        match self.index_of(&listener) {
            Some(i) => Some(self.listeners.remove(i)),
            None => None,
        }
    }

    fn notify_listeners(&mut self)
        ensures
            final(self).day() == old(self).day(),
            final(self).listeners().len() == old(self).listeners().len(),
            forall|k: int| #[trigger]
                is_place(k, old(self).listeners().len()) ==> exists|told: &mut T|
                    #[trigger] call_ensures(T::notify, (told, old(self).day()), ()) && mut_ref_current(told) == old(
                        self,
                    ).listeners()[k] && mut_ref_future(told) == final(self).listeners()[k],
    {
        let day: usize = self.day;
        let n: usize = self.listeners.len();
        let mut i: usize = 0;
        while i < n
            invariant
                i <= n,
                n == self.listeners@.len(),
                n == old(self).listeners@.len(),
                self.day == day,
                day == old(self).day,
                forall|k: int| #[trigger]
                    is_place(k, i as nat) ==> exists|told: &mut T|
                        #[trigger] call_ensures(T::notify, (told, day), ()) && mut_ref_current(told) == old(
                            self,
                        ).listeners@[k] && mut_ref_future(told) == self.listeners@[k],
                forall|k: int| i <= k < n ==> self.listeners@[k] == old(self).listeners@[k],
            decreases n - i,
        {
            let ghost before = self.listeners@;
            self.listeners[i].notify(day);
            i += 1;
            assert forall|k: int| #[trigger] is_place(k, i as nat) implies exists|told: &mut T|
                #[trigger] call_ensures(T::notify, (told, day), ()) && mut_ref_current(told) == old(
                    self,
                ).listeners@[k] && mut_ref_future(told) == self.listeners@[k] by {
                if k < i - 1 {
                    assert(is_place(k, (i - 1) as nat));
                    assert(self.listeners@[k] == before[k]);
                }
            }
        }
    }
}

/// `k` is a place in a list of `len` entries.
pub open spec fn is_place(k: int, len: nat) -> bool {
    0 <= k < len
}

} // verus!
