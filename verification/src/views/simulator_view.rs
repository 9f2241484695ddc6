//! The simulator menu and what a simulator view offers.

use vstd::prelude::*;
use crate::views::Options;

verus! {

/// All options of the simulator.
#[derive(Debug, Clone, Copy, PartialEq, Eq, Structural)]
pub enum SimulatorOption {
    /// Moves the store on to the next day.
    IncrDay,
    /// Goes back to the previous page.
    Back,
    /// Quits the application.
    Quit,
    /// Any other choice made by the user.
    Other,
}

impl SimulatorOption {
    /// The name of the option.
    pub open spec fn name(self) -> Seq<char> {
        match self {
            SimulatorOption::IncrDay => "IncrDay"@,
            SimulatorOption::Back => "Back"@,
            SimulatorOption::Quit => "Quit"@,
            SimulatorOption::Other => "Other"@,
        }
    }

    /// The option that a text names; a text that names none stands for
    /// `Other`.
    pub open spec fn named(text: Seq<char>) -> Self {
        if text == "IncrDay"@ {
            SimulatorOption::IncrDay
        } else if text == "Back"@ {
            SimulatorOption::Back
        } else if text == "Quit"@ {
            SimulatorOption::Quit
        } else {
            SimulatorOption::Other
        }
    }

    /// The option at a place of the menu; a place beyond the menu stands
    /// for `Other`.
    pub open spec fn chosen(choice: usize) -> Self {
        if choice == 0 {
            SimulatorOption::IncrDay
        } else if choice == 1 {
            SimulatorOption::Back
        } else if choice == 2 {
            SimulatorOption::Quit
        } else {
            SimulatorOption::Other
        }
    }

    /// The names of the options of the menu, in order.
    pub open spec fn menu() -> Seq<Seq<char>> {
        seq!["IncrDay"@, "Back"@, "Quit"@]
    }

    /// Writes the name of the option.
    pub fn to_text(&self) -> (text: String)
        ensures
            text@ == self.name(),
    {
        match self {
            SimulatorOption::IncrDay => "IncrDay".to_owned(),
            SimulatorOption::Back => "Back".to_owned(),
            SimulatorOption::Quit => "Quit".to_owned(),
            SimulatorOption::Other => "Other".to_owned(),
        }
    }

    /// Reads an option from its name.
    pub fn from_text(text: &str) -> (option: Self)
        ensures
            option == Self::named(text@),
    {
        if crate::text::same_text(text, "IncrDay") {
            SimulatorOption::IncrDay
        } else if crate::text::same_text(text, "Back") {
            SimulatorOption::Back
        } else if crate::text::same_text(text, "Quit") {
            SimulatorOption::Quit
        } else {
            SimulatorOption::Other
        }
    }
}

/// Reading the name of an option gives the option back, and the option at
/// each place of the menu is the one that the menu names there.
pub proof fn lemma_simulator_options(option: SimulatorOption, choice: usize)
    ensures
        SimulatorOption::named(option.name()) == option,
        choice < SimulatorOption::menu().len() ==> SimulatorOption::chosen(choice).name()
            == SimulatorOption::menu()[choice as int],
        choice >= SimulatorOption::menu().len() ==> SimulatorOption::chosen(choice) == SimulatorOption::Other,
{
    reveal_strlit("IncrDay");
    reveal_strlit("Back");
    reveal_strlit("Quit");
    reveal_strlit("Other");
    assert("IncrDay"@.len() != "Back"@.len());
    assert("IncrDay"@.len() != "Quit"@.len());
    assert("Back"@[0] != "Quit"@[0]);
    assert("IncrDay"@.len() != "Other"@.len());
    assert("Back"@.len() != "Other"@.len());
    assert("Quit"@.len() != "Other"@.len());
}

impl Options for SimulatorOption {
    fn as_tuple(&self) -> (r: (String, Self))
        ensures
            r.0@ == self.name(),
            r.1 == Self::named(self.name()),
    {
        let text: String = self.to_text();
        let option: Self = Self::from_text(text.as_str());
        (text, option)
    }

    fn options() -> (names: Vec<String>)
        ensures
            names@.map_values(|s: String| s@) == Self::menu(),
    {
        let mut names: Vec<String> = Vec::new();
        names.push("IncrDay".to_owned());
        names.push("Back".to_owned());
        names.push("Quit".to_owned());
        assert(names@.map_values(|s: String| s@) =~= Self::menu());
        names
    }

    fn from_choice(choice: usize) -> (option: Self)
        ensures
            option == Self::chosen(choice),
    {
        if choice == 0 {
            SimulatorOption::IncrDay
        } else if choice == 1 {
            SimulatorOption::Back
        } else if choice == 2 {
            SimulatorOption::Quit
        } else {
            SimulatorOption::Other
        }
    }
}

/// All methods needed by a simulator view.
pub trait SimulatorView {
    /// Shows the simulator menu and hands back the choice.
    fn simulator_menu(&self) -> SimulatorOption;

    /// Displays a message and waits for the user.
    fn wait(&self, display: &str);
}

} // verus!
