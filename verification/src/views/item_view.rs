//! The item menu and what an item view offers.

use vstd::prelude::*;
use crate::models::domain::item::Item;
use crate::views::Options;

verus! {

/// All options of the item menu.
#[derive(Debug, Clone, Copy, PartialEq, Eq, Structural)]
pub enum ItemMenuOption {
    /// Displays a single item.
    DisplayItemInfo,
    /// Edits the information of an item.
    EditItemInfo,
    /// Creates a new item.
    CreateItem,
    /// Deletes an item.
    DeleteItem,
    /// Goes back to the previous page.
    Back,
    /// Quits the application.
    Quit,
    /// Any other choice made by the user.
    Other,
}

impl ItemMenuOption {
    /// The name of the option.
    pub open spec fn name(self) -> Seq<char> {
        match self {
            ItemMenuOption::DisplayItemInfo => "DisplayItemInfo"@,
            ItemMenuOption::EditItemInfo => "EditItemInfo"@,
            ItemMenuOption::CreateItem => "CreateItem"@,
            ItemMenuOption::DeleteItem => "DeleteItem"@,
            ItemMenuOption::Back => "Back"@,
            ItemMenuOption::Quit => "Quit"@,
            ItemMenuOption::Other => "Other"@,
        }
    }

    /// The option that a text names; a text that names none stands for
    /// `Other`.
    pub open spec fn named(text: Seq<char>) -> Self {
        if text == "DisplayItemInfo"@ {
            ItemMenuOption::DisplayItemInfo
        } else if text == "EditItemInfo"@ {
            ItemMenuOption::EditItemInfo
        } else if text == "CreateItem"@ {
            ItemMenuOption::CreateItem
        } else if text == "DeleteItem"@ {
            ItemMenuOption::DeleteItem
        } else if text == "Back"@ {
            ItemMenuOption::Back
        } else if text == "Quit"@ {
            ItemMenuOption::Quit
        } else {
            ItemMenuOption::Other
        }
    }

    /// The option at a place of the menu; a place beyond the menu stands
    /// for `Other`.
    pub open spec fn chosen(choice: usize) -> Self {
        if choice == 0 {
            ItemMenuOption::DisplayItemInfo
        } else if choice == 1 {
            ItemMenuOption::EditItemInfo
        } else if choice == 2 {
            ItemMenuOption::CreateItem
        } else if choice == 3 {
            ItemMenuOption::DeleteItem
        } else if choice == 4 {
            ItemMenuOption::Back
        } else if choice == 5 {
            ItemMenuOption::Quit
        } else {
            ItemMenuOption::Other
        }
    }

    /// The names of the options of the menu, in order.
    pub open spec fn menu() -> Seq<Seq<char>> {
        seq!["DisplayItemInfo"@, "EditItemInfo"@, "CreateItem"@, "DeleteItem"@, "Back"@, "Quit"@]
    }

    /// Writes the name of the option.
    pub fn to_text(&self) -> (text: String)
        ensures
            text@ == self.name(),
    {
        match self {
            ItemMenuOption::DisplayItemInfo => "DisplayItemInfo".to_owned(),
            ItemMenuOption::EditItemInfo => "EditItemInfo".to_owned(),
            ItemMenuOption::CreateItem => "CreateItem".to_owned(),
            ItemMenuOption::DeleteItem => "DeleteItem".to_owned(),
            ItemMenuOption::Back => "Back".to_owned(),
            ItemMenuOption::Quit => "Quit".to_owned(),
            ItemMenuOption::Other => "Other".to_owned(),
        }
    }

    /// Reads an option from its name.
    pub fn from_text(text: &str) -> (option: Self)
        ensures
            option == Self::named(text@),
    {
        if crate::text::same_text(text, "DisplayItemInfo") {
            ItemMenuOption::DisplayItemInfo
        } else if crate::text::same_text(text, "EditItemInfo") {
            ItemMenuOption::EditItemInfo
        } else if crate::text::same_text(text, "CreateItem") {
            ItemMenuOption::CreateItem
        } else if crate::text::same_text(text, "DeleteItem") {
            ItemMenuOption::DeleteItem
        } else if crate::text::same_text(text, "Back") {
            ItemMenuOption::Back
        } else if crate::text::same_text(text, "Quit") {
            ItemMenuOption::Quit
        } else {
            ItemMenuOption::Other
        }
    }
}

/// Reading the name of an option gives the option back, and the option at
/// each place of the menu is the one that the menu names there.
pub proof fn lemma_item_options(option: ItemMenuOption, choice: usize)
    ensures
        ItemMenuOption::named(option.name()) == option,
        choice < ItemMenuOption::menu().len() ==> ItemMenuOption::chosen(choice).name()
            == ItemMenuOption::menu()[choice as int],
        choice >= ItemMenuOption::menu().len() ==> ItemMenuOption::chosen(choice) == ItemMenuOption::Other,
{
    reveal_strlit("DisplayItemInfo");
    reveal_strlit("EditItemInfo");
    reveal_strlit("CreateItem");
    reveal_strlit("DeleteItem");
    reveal_strlit("Back");
    reveal_strlit("Quit");
    reveal_strlit("Other");
    assert("DisplayItemInfo"@.len() != "EditItemInfo"@.len());
    assert("DisplayItemInfo"@.len() != "CreateItem"@.len());
    assert("EditItemInfo"@.len() != "CreateItem"@.len());
    assert("DisplayItemInfo"@.len() != "DeleteItem"@.len());
    assert("EditItemInfo"@.len() != "DeleteItem"@.len());
    assert("CreateItem"@[0] != "DeleteItem"@[0]);
    assert("DisplayItemInfo"@.len() != "Back"@.len());
    assert("EditItemInfo"@.len() != "Back"@.len());
    assert("CreateItem"@.len() != "Back"@.len());
    assert("DeleteItem"@.len() != "Back"@.len());
    assert("DisplayItemInfo"@.len() != "Quit"@.len());
    assert("EditItemInfo"@.len() != "Quit"@.len());
    assert("CreateItem"@.len() != "Quit"@.len());
    assert("DeleteItem"@.len() != "Quit"@.len());
    assert("Back"@[0] != "Quit"@[0]);
    assert("DisplayItemInfo"@.len() != "Other"@.len());
    assert("EditItemInfo"@.len() != "Other"@.len());
    assert("CreateItem"@.len() != "Other"@.len());
    assert("DeleteItem"@.len() != "Other"@.len());
    assert("Back"@.len() != "Other"@.len());
    assert("Quit"@.len() != "Other"@.len());
}

impl Options for ItemMenuOption {
    fn as_tuple(&self) -> (r: (String, Self))
        ensures
            r.0@ == self.name(),
            r.1 == Self::named(self.name()),
    {
        let text: String = self.to_text();
        let option: Self = Self::from_text(text.as_str());
        (text, option)
    }

    fn options() -> (names: Vec<String>)
        ensures
            names@.map_values(|s: String| s@) == Self::menu(),
    {
        let mut names: Vec<String> = Vec::new();
        names.push("DisplayItemInfo".to_owned());
        names.push("EditItemInfo".to_owned());
        names.push("CreateItem".to_owned());
        names.push("DeleteItem".to_owned());
        names.push("Back".to_owned());
        names.push("Quit".to_owned());
        assert(names@.map_values(|s: String| s@) =~= Self::menu());
        names
    }

    fn from_choice(choice: usize) -> (option: Self)
        ensures
            option == Self::chosen(choice),
    {
        if choice == 0 {
            ItemMenuOption::DisplayItemInfo
        } else if choice == 1 {
            ItemMenuOption::EditItemInfo
        } else if choice == 2 {
            ItemMenuOption::CreateItem
        } else if choice == 3 {
            ItemMenuOption::DeleteItem
        } else if choice == 4 {
            ItemMenuOption::Back
        } else if choice == 5 {
            ItemMenuOption::Quit
        } else {
            ItemMenuOption::Other
        }
    }
}

/// All methods needed by an item view.
pub trait ItemView {
    /// Shows the item menu and hands back the choice.
    fn item_menu(&self) -> ItemMenuOption;

    /// Displays a single item.
    fn display_item_info(&self, item: &Item);

    /// Edits a single item.
    fn edit_item_info(&self, item: &Item) -> Option<Item>;

    /// Gets the information for a new item.
    fn get_item_info(&self) -> Item;

    /// Lets the user select an item.
    fn select_item<'a>(&'a self, items: Vec<&'a Item>) -> Option<&'a Item>;

    /// Displays the calendar of the item from the day `now` on.
    fn display_availability(&self, item: &Item, now: usize);

    /// Lets the user select a day.
    fn select_date(&self, item: &Item, now: usize) -> Option<usize>;

    /// Displays a message and waits for the user.
    fn wait(&self, display: &str);
}

} // verus!
