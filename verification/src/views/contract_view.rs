//! The contract menu and what a contract view offers.

use vstd::prelude::*;
use crate::models::domain::contract::Contract;
use crate::views::Options;

verus! {

/// All options of the contract menu.
#[derive(Debug, Clone, Copy, PartialEq, Eq, Structural)]
pub enum ContractOption {
    /// Displays a single contract in a simple format.
    DisplayContractSimple,
    /// Creates a new contract.
    CreateContract,
    /// Edits the information of a contract.
    EditContract,
    /// Goes back to the previous page.
    Back,
    /// Quits the application.
    Quit,
    /// Any other choice made by the user.
    Other,
}

impl ContractOption {
    /// The name of the option.
    pub open spec fn name(self) -> Seq<char> {
        match self {
            ContractOption::DisplayContractSimple => "DisplayContractSimple"@,
            ContractOption::CreateContract => "CreateContract"@,
            ContractOption::EditContract => "EditContract"@,
            ContractOption::Back => "Back"@,
            ContractOption::Quit => "Quit"@,
            ContractOption::Other => "Other"@,
        }
    }

    /// The option that a text names; a text that names none stands for
    /// `Other`.
    pub open spec fn named(text: Seq<char>) -> Self {
        if text == "DisplayContractSimple"@ {
            ContractOption::DisplayContractSimple
        } else if text == "CreateContract"@ {
            ContractOption::CreateContract
        } else if text == "EditContract"@ {
            ContractOption::EditContract
        } else if text == "Back"@ {
            ContractOption::Back
        } else if text == "Quit"@ {
            ContractOption::Quit
        } else {
            ContractOption::Other
        }
    }

    /// The option at a place of the menu; a place beyond the menu stands
    /// for `Other`.
    pub open spec fn chosen(choice: usize) -> Self {
        if choice == 0 {
            ContractOption::DisplayContractSimple
        } else if choice == 1 {
            ContractOption::CreateContract
        } else if choice == 2 {
            ContractOption::EditContract
        } else if choice == 3 {
            ContractOption::Back
        } else if choice == 4 {
            ContractOption::Quit
        } else {
            ContractOption::Other
        }
    }

    /// The names of the options of the menu, in order.
    pub open spec fn menu() -> Seq<Seq<char>> {
        seq!["DisplayContractSimple"@, "CreateContract"@, "EditContract"@, "Back"@, "Quit"@]
    }

    /// Writes the name of the option.
    pub fn to_text(&self) -> (text: String)
        ensures
            text@ == self.name(),
    {
        match self {
            ContractOption::DisplayContractSimple => "DisplayContractSimple".to_owned(),
            ContractOption::CreateContract => "CreateContract".to_owned(),
            ContractOption::EditContract => "EditContract".to_owned(),
            ContractOption::Back => "Back".to_owned(),
            ContractOption::Quit => "Quit".to_owned(),
            ContractOption::Other => "Other".to_owned(),
        }
    }

    /// Reads an option from its name.
    pub fn from_text(text: &str) -> (option: Self)
        ensures
            option == Self::named(text@),
    {
        if crate::text::same_text(text, "DisplayContractSimple") {
            ContractOption::DisplayContractSimple
        } else if crate::text::same_text(text, "CreateContract") {
            ContractOption::CreateContract
        } else if crate::text::same_text(text, "EditContract") {
            ContractOption::EditContract
        } else if crate::text::same_text(text, "Back") {
            ContractOption::Back
        } else if crate::text::same_text(text, "Quit") {
            ContractOption::Quit
        } else {
            ContractOption::Other
        }
    }
}

/// Reading the name of an option gives the option back, and the option at
/// each place of the menu is the one that the menu names there.
pub proof fn lemma_contract_options(option: ContractOption, choice: usize)
    ensures
        ContractOption::named(option.name()) == option,
        choice < ContractOption::menu().len() ==> ContractOption::chosen(choice).name()
            == ContractOption::menu()[choice as int],
        choice >= ContractOption::menu().len() ==> ContractOption::chosen(choice) == ContractOption::Other,
{
    reveal_strlit("DisplayContractSimple");
    reveal_strlit("CreateContract");
    reveal_strlit("EditContract");
    reveal_strlit("Back");
    reveal_strlit("Quit");
    reveal_strlit("Other");
    assert("DisplayContractSimple"@.len() != "CreateContract"@.len());
    assert("DisplayContractSimple"@.len() != "EditContract"@.len());
    assert("CreateContract"@.len() != "EditContract"@.len());
    assert("DisplayContractSimple"@.len() != "Back"@.len());
    assert("CreateContract"@.len() != "Back"@.len());
    assert("EditContract"@.len() != "Back"@.len());
    assert("DisplayContractSimple"@.len() != "Quit"@.len());
    assert("CreateContract"@.len() != "Quit"@.len());
    assert("EditContract"@.len() != "Quit"@.len());
    assert("Back"@[0] != "Quit"@[0]);
    assert("DisplayContractSimple"@.len() != "Other"@.len());
    assert("CreateContract"@.len() != "Other"@.len());
    assert("EditContract"@.len() != "Other"@.len());
    assert("Back"@.len() != "Other"@.len());
    assert("Quit"@.len() != "Other"@.len());
}

impl Options for ContractOption {
    fn as_tuple(&self) -> (r: (String, Self))
        ensures
            r.0@ == self.name(),
            r.1 == Self::named(self.name()),
    {
        let text: String = self.to_text();
        let option: Self = Self::from_text(text.as_str());
        (text, option)
    }

    fn options() -> (names: Vec<String>)
        ensures
            names@.map_values(|s: String| s@) == Self::menu(),
    {
        let mut names: Vec<String> = Vec::new();
        names.push("DisplayContractSimple".to_owned());
        names.push("CreateContract".to_owned());
        names.push("EditContract".to_owned());
        names.push("Back".to_owned());
        names.push("Quit".to_owned());
        assert(names@.map_values(|s: String| s@) =~= Self::menu());
        names
    }

    fn from_choice(choice: usize) -> (option: Self)
        ensures
            option == Self::chosen(choice),
    {
        if choice == 0 {
            ContractOption::DisplayContractSimple
        } else if choice == 1 {
            ContractOption::CreateContract
        } else if choice == 2 {
            ContractOption::EditContract
        } else if choice == 3 {
            ContractOption::Back
        } else if choice == 4 {
            ContractOption::Quit
        } else {
            ContractOption::Other
        }
    }
}

/// All methods needed by a contract view.
pub trait ContractView {
    /// Lets the user select a contract.
    fn select_contract<'a>(&'a self, contracts: Vec<&'a Contract>) -> Option<&'a Contract>;

    /// Edits a single contract.
    fn edit_contract(&self, c: &Contract) -> Option<Contract>;

    /// Shows the contract menu and hands back the choice.
    fn contract_menu(&self) -> ContractOption;

    /// Gets the information for a new contract.
    fn get_contract_info(&self) -> Contract;

    /// Displays a contract in a simple format.
    fn display_contract_simple(&self, contract: &Contract);

    /// Displays a message and waits for the user.
    fn wait(&self, display: &str);
}

} // verus!
