//! The main menu.

use vstd::prelude::*;
use crate::views::Options;

verus! {

/// All options of the main menu.
#[derive(Debug, Clone, Copy, PartialEq, Eq, Structural)]
pub enum MainMenuOption {
    /// Goes to the members page.
    MembersPage,
    /// Goes to the items page.
    ItemsPage,
    /// Goes to the contracts page.
    ContractsPage,
    /// Goes to the simulator.
    Simulator,
    /// Quits the application.
    Quit,
    /// Any other choice made by the user.
    Other,
}

impl MainMenuOption {
    /// The name of the option.
    pub open spec fn name(self) -> Seq<char> {
        match self {
            MainMenuOption::MembersPage => "MembersPage"@,
            MainMenuOption::ItemsPage => "ItemsPage"@,
            MainMenuOption::ContractsPage => "ContractsPage"@,
            MainMenuOption::Simulator => "Simulator"@,
            MainMenuOption::Quit => "Quit"@,
            MainMenuOption::Other => "Other"@,
        }
    }

    /// The option that a text names; a text that names none stands for
    /// `Other`.
    pub open spec fn named(text: Seq<char>) -> Self {
        if text == "MembersPage"@ {
            MainMenuOption::MembersPage
        } else if text == "ItemsPage"@ {
            MainMenuOption::ItemsPage
        } else if text == "ContractsPage"@ {
            MainMenuOption::ContractsPage
        } else if text == "Simulator"@ {
            MainMenuOption::Simulator
        } else if text == "Quit"@ {
            MainMenuOption::Quit
        } else {
            MainMenuOption::Other
        }
    }

    /// The option at a place of the menu; a place beyond the menu stands
    /// for `Other`.
    pub open spec fn chosen(choice: usize) -> Self {
        if choice == 0 {
            MainMenuOption::MembersPage
        } else if choice == 1 {
            MainMenuOption::ItemsPage
        } else if choice == 2 {
            MainMenuOption::ContractsPage
        } else if choice == 3 {
            MainMenuOption::Simulator
        } else if choice == 4 {
            MainMenuOption::Quit
        } else {
            MainMenuOption::Other
        }
    }

    /// The names of the options of the menu, in order.
    pub open spec fn menu() -> Seq<Seq<char>> {
        seq!["MembersPage"@, "ItemsPage"@, "ContractsPage"@, "Simulator"@, "Quit"@]
    }

    /// Writes the name of the option.
    pub fn to_text(&self) -> (text: String)
        ensures
            text@ == self.name(),
    {
        match self {
            MainMenuOption::MembersPage => "MembersPage".to_owned(),
            MainMenuOption::ItemsPage => "ItemsPage".to_owned(),
            MainMenuOption::ContractsPage => "ContractsPage".to_owned(),
            MainMenuOption::Simulator => "Simulator".to_owned(),
            MainMenuOption::Quit => "Quit".to_owned(),
            MainMenuOption::Other => "Other".to_owned(),
        }
    }

    /// Reads an option from its name.
    pub fn from_text(text: &str) -> (option: Self)
        ensures
            option == Self::named(text@),
    {
        if crate::text::same_text(text, "MembersPage") {
            MainMenuOption::MembersPage
        } else if crate::text::same_text(text, "ItemsPage") {
            MainMenuOption::ItemsPage
        } else if crate::text::same_text(text, "ContractsPage") {
            MainMenuOption::ContractsPage
        } else if crate::text::same_text(text, "Simulator") {
            MainMenuOption::Simulator
        } else if crate::text::same_text(text, "Quit") {
            MainMenuOption::Quit
        } else {
            MainMenuOption::Other
        }
    }
}

/// Reading the name of an option gives the option back, and the option at
/// each place of the menu is the one that the menu names there.
pub proof fn lemma_main_options(option: MainMenuOption, choice: usize)
    ensures
        MainMenuOption::named(option.name()) == option,
        choice < MainMenuOption::menu().len() ==> MainMenuOption::chosen(choice).name()
            == MainMenuOption::menu()[choice as int],
        choice >= MainMenuOption::menu().len() ==> MainMenuOption::chosen(choice) == MainMenuOption::Other,
{
    reveal_strlit("MembersPage");
    reveal_strlit("ItemsPage");
    reveal_strlit("ContractsPage");
    reveal_strlit("Simulator");
    reveal_strlit("Quit");
    reveal_strlit("Other");
    assert("MembersPage"@.len() != "ItemsPage"@.len());
    assert("MembersPage"@.len() != "ContractsPage"@.len());
    assert("ItemsPage"@.len() != "ContractsPage"@.len());
    assert("MembersPage"@.len() != "Simulator"@.len());
    assert("ItemsPage"@[0] != "Simulator"@[0]);
    assert("ContractsPage"@.len() != "Simulator"@.len());
    assert("MembersPage"@.len() != "Quit"@.len());
    assert("ItemsPage"@.len() != "Quit"@.len());
    assert("ContractsPage"@.len() != "Quit"@.len());
    assert("Simulator"@.len() != "Quit"@.len());
    assert("MembersPage"@.len() != "Other"@.len());
    assert("ItemsPage"@.len() != "Other"@.len());
    assert("ContractsPage"@.len() != "Other"@.len());
    assert("Simulator"@.len() != "Other"@.len());
    assert("Quit"@.len() != "Other"@.len());
}

impl Options for MainMenuOption {
    fn as_tuple(&self) -> (r: (String, Self))
        ensures
            r.0@ == self.name(),
            r.1 == Self::named(self.name()),
    {
        let text: String = self.to_text();
        let option: Self = Self::from_text(text.as_str());
        (text, option)
    }

    fn options() -> (names: Vec<String>)
        ensures
            names@.map_values(|s: String| s@) == Self::menu(),
    {
        let mut names: Vec<String> = Vec::new();
        names.push("MembersPage".to_owned());
        names.push("ItemsPage".to_owned());
        names.push("ContractsPage".to_owned());
        names.push("Simulator".to_owned());
        names.push("Quit".to_owned());
        assert(names@.map_values(|s: String| s@) =~= Self::menu());
        names
    }

    fn from_choice(choice: usize) -> (option: Self)
        ensures
            option == Self::chosen(choice),
    {
        if choice == 0 {
            MainMenuOption::MembersPage
        } else if choice == 1 {
            MainMenuOption::ItemsPage
        } else if choice == 2 {
            MainMenuOption::ContractsPage
        } else if choice == 3 {
            MainMenuOption::Simulator
        } else if choice == 4 {
            MainMenuOption::Quit
        } else {
            MainMenuOption::Other
        }
    }
}

/// All methods needed by a main view.
pub trait MainView {
    /// Shows the main menu and hands back the choice.
    fn main_menu(&self) -> MainMenuOption;
}

} // verus!
