//! What every page of the application offers.

use vstd::prelude::*;

verus! {

/// A page of the application.
pub trait Page<T> {
    /// Runs the page on the store and hands the store back.
    fn show(&mut self, sys: T) -> T;
}

} // verus!
