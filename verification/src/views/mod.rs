//! What the user interface needs from the library: the options of every
//! menu, and the methods that a view of each page offers.

use vstd::prelude::*;

/// What the console decides.
pub mod console;
/// Contract view.
pub mod contract_view;
/// Item view.
pub mod item_view;
/// Main view.
pub mod main_view;
/// Member view.
pub mod member_view;
/// Simulator view.
pub mod simulator_view;

verus! {

/// The options of a menu.
pub trait Options: Sized {
    /// The name of the option, and the option that the name stands for.
    fn as_tuple(&self) -> (String, Self);

    /// The names of the options that a user can choose, in order.
    fn options() -> Vec<String>;

    /// The option at a place of the menu.
    fn from_choice(choice: usize) -> Self;
}

} // verus!
