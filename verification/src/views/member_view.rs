//! The member menu and what a member view offers.

use vstd::prelude::*;
use crate::models::domain::item::Item;
use crate::models::domain::member::Member;
use crate::views::Options;

verus! {

/// All options of the member menu.
#[derive(Debug, Clone, Copy, PartialEq, Eq, Structural)]
pub enum MemberMenuOption {
    /// Displays a single member in a simple format.
    DisplayMemberSimple,
    /// Displays a single member in a verbose format.
    DisplayMemberVerbose,
    /// Displays all members in a simple format.
    ListAllMembersSimple,
    /// Displays all members in a verbose format.
    ListAllMembersVerbose,
    /// Creates a new member.
    CreateMember,
    /// Deletes a member.
    DeleteMember,
    /// Edits the information of a member.
    EditMember,
    /// Goes back to the previous page.
    Back,
    /// Quits the application.
    Quit,
    /// Any other choice made by the user.
    Other,
}

impl MemberMenuOption {
    /// The name of the option.
    pub open spec fn name(self) -> Seq<char> {
        match self {
            MemberMenuOption::DisplayMemberSimple => "DisplayMemberSimple"@,
            MemberMenuOption::DisplayMemberVerbose => "DisplayMemberVerbose"@,
            MemberMenuOption::ListAllMembersSimple => "ListAllMembersSimple"@,
            MemberMenuOption::ListAllMembersVerbose => "ListAllMembersVerbose"@,
            MemberMenuOption::CreateMember => "CreateMember"@,
            MemberMenuOption::DeleteMember => "DeleteMember"@,
            MemberMenuOption::EditMember => "EditMember"@,
            MemberMenuOption::Back => "Back"@,
            MemberMenuOption::Quit => "Quit"@,
            MemberMenuOption::Other => "Other"@,
        }
    }

    /// The option that a text names; a text that names none stands for
    /// `Other`.
    pub open spec fn named(text: Seq<char>) -> Self {
        if text == "DisplayMemberSimple"@ {
            MemberMenuOption::DisplayMemberSimple
        } else if text == "DisplayMemberVerbose"@ {
            MemberMenuOption::DisplayMemberVerbose
        } else if text == "ListAllMembersSimple"@ {
            MemberMenuOption::ListAllMembersSimple
        } else if text == "ListAllMembersVerbose"@ {
            MemberMenuOption::ListAllMembersVerbose
        } else if text == "CreateMember"@ {
            MemberMenuOption::CreateMember
        } else if text == "DeleteMember"@ {
            MemberMenuOption::DeleteMember
        } else if text == "EditMember"@ {
            MemberMenuOption::EditMember
        } else if text == "Back"@ {
            MemberMenuOption::Back
        } else if text == "Quit"@ {
            MemberMenuOption::Quit
        } else {
            MemberMenuOption::Other
        }
    }

    /// The option at a place of the menu; a place beyond the menu stands
    /// for `Other`.
    pub open spec fn chosen(choice: usize) -> Self {
        if choice == 0 {
            MemberMenuOption::DisplayMemberSimple
        } else if choice == 1 {
            MemberMenuOption::DisplayMemberVerbose
        } else if choice == 2 {
            MemberMenuOption::ListAllMembersSimple
        } else if choice == 3 {
            MemberMenuOption::ListAllMembersVerbose
        } else if choice == 4 {
            MemberMenuOption::CreateMember
        } else if choice == 5 {
            MemberMenuOption::DeleteMember
        } else if choice == 6 {
            MemberMenuOption::EditMember
        } else if choice == 7 {
            MemberMenuOption::Back
        } else if choice == 8 {
            MemberMenuOption::Quit
        } else {
            MemberMenuOption::Other
        }
    }

    /// The names of the options of the menu, in order.
    pub open spec fn menu() -> Seq<Seq<char>> {
        seq![
            "DisplayMemberSimple"@,
            "DisplayMemberVerbose"@,
            "ListAllMembersSimple"@,
            "ListAllMembersVerbose"@,
            "CreateMember"@,
            "DeleteMember"@,
            "EditMember"@,
            "Back"@,
            "Quit"@,
        ]
    }

    /// Writes the name of the option.
    pub fn to_text(&self) -> (text: String)
        ensures
            text@ == self.name(),
    {
        match self {
            MemberMenuOption::DisplayMemberSimple => "DisplayMemberSimple".to_owned(),
            MemberMenuOption::DisplayMemberVerbose => "DisplayMemberVerbose".to_owned(),
            MemberMenuOption::ListAllMembersSimple => "ListAllMembersSimple".to_owned(),
            MemberMenuOption::ListAllMembersVerbose => "ListAllMembersVerbose".to_owned(),
            MemberMenuOption::CreateMember => "CreateMember".to_owned(),
            MemberMenuOption::DeleteMember => "DeleteMember".to_owned(),
            MemberMenuOption::EditMember => "EditMember".to_owned(),
            MemberMenuOption::Back => "Back".to_owned(),
            MemberMenuOption::Quit => "Quit".to_owned(),
            MemberMenuOption::Other => "Other".to_owned(),
        }
    }

    /// Reads an option from its name.
    pub fn from_text(text: &str) -> (option: Self)
        ensures
            option == Self::named(text@),
    {
        if crate::text::same_text(text, "DisplayMemberSimple") {
            MemberMenuOption::DisplayMemberSimple
        } else if crate::text::same_text(text, "DisplayMemberVerbose") {
            MemberMenuOption::DisplayMemberVerbose
        } else if crate::text::same_text(text, "ListAllMembersSimple") {
            MemberMenuOption::ListAllMembersSimple
        } else if crate::text::same_text(text, "ListAllMembersVerbose") {
            MemberMenuOption::ListAllMembersVerbose
        } else if crate::text::same_text(text, "CreateMember") {
            MemberMenuOption::CreateMember
        } else if crate::text::same_text(text, "DeleteMember") {
            MemberMenuOption::DeleteMember
        } else if crate::text::same_text(text, "EditMember") {
            MemberMenuOption::EditMember
        } else if crate::text::same_text(text, "Back") {
            MemberMenuOption::Back
        } else if crate::text::same_text(text, "Quit") {
            MemberMenuOption::Quit
        } else {
            MemberMenuOption::Other
        }
    }
}

/// Reading the name of an option gives the option back, and the option at
/// each place of the menu is the one that the menu names there.
pub proof fn lemma_member_options(option: MemberMenuOption, choice: usize)
    ensures
        MemberMenuOption::named(option.name()) == option,
        choice < MemberMenuOption::menu().len() ==> MemberMenuOption::chosen(choice).name()
            == MemberMenuOption::menu()[choice as int],
        choice >= MemberMenuOption::menu().len() ==> MemberMenuOption::chosen(choice) == MemberMenuOption::Other,
{
    reveal_strlit("DisplayMemberSimple");
    reveal_strlit("DisplayMemberVerbose");
    reveal_strlit("ListAllMembersSimple");
    reveal_strlit("ListAllMembersVerbose");
    reveal_strlit("CreateMember");
    reveal_strlit("DeleteMember");
    reveal_strlit("EditMember");
    reveal_strlit("Back");
    reveal_strlit("Quit");
    reveal_strlit("Other");
    assert("DisplayMemberSimple"@.len() != "DisplayMemberVerbose"@.len());
    assert("DisplayMemberSimple"@.len() != "ListAllMembersSimple"@.len());
    assert("DisplayMemberVerbose"@[0] != "ListAllMembersSimple"@[0]);
    assert("DisplayMemberSimple"@.len() != "ListAllMembersVerbose"@.len());
    assert("DisplayMemberVerbose"@.len() != "ListAllMembersVerbose"@.len());
    assert("ListAllMembersSimple"@.len() != "ListAllMembersVerbose"@.len());
    assert("DisplayMemberSimple"@.len() != "CreateMember"@.len());
    assert("DisplayMemberVerbose"@.len() != "CreateMember"@.len());
    assert("ListAllMembersSimple"@.len() != "CreateMember"@.len());
    assert("ListAllMembersVerbose"@.len() != "CreateMember"@.len());
    assert("DisplayMemberSimple"@.len() != "DeleteMember"@.len());
    assert("DisplayMemberVerbose"@.len() != "DeleteMember"@.len());
    assert("ListAllMembersSimple"@.len() != "DeleteMember"@.len());
    assert("ListAllMembersVerbose"@.len() != "DeleteMember"@.len());
    assert("CreateMember"@[0] != "DeleteMember"@[0]);
    assert("DisplayMemberSimple"@.len() != "EditMember"@.len());
    assert("DisplayMemberVerbose"@.len() != "EditMember"@.len());
    assert("ListAllMembersSimple"@.len() != "EditMember"@.len());
    assert("ListAllMembersVerbose"@.len() != "EditMember"@.len());
    assert("CreateMember"@.len() != "EditMember"@.len());
    assert("DeleteMember"@.len() != "EditMember"@.len());
    assert("DisplayMemberSimple"@.len() != "Back"@.len());
    assert("DisplayMemberVerbose"@.len() != "Back"@.len());
    assert("ListAllMembersSimple"@.len() != "Back"@.len());
    assert("ListAllMembersVerbose"@.len() != "Back"@.len());
    assert("CreateMember"@.len() != "Back"@.len());
    assert("DeleteMember"@.len() != "Back"@.len());
    assert("EditMember"@.len() != "Back"@.len());
    assert("DisplayMemberSimple"@.len() != "Quit"@.len());
    assert("DisplayMemberVerbose"@.len() != "Quit"@.len());
    assert("ListAllMembersSimple"@.len() != "Quit"@.len());
    assert("ListAllMembersVerbose"@.len() != "Quit"@.len());
    assert("CreateMember"@.len() != "Quit"@.len());
    assert("DeleteMember"@.len() != "Quit"@.len());
    assert("EditMember"@.len() != "Quit"@.len());
    assert("Back"@[0] != "Quit"@[0]);
    assert("DisplayMemberSimple"@.len() != "Other"@.len());
    assert("DisplayMemberVerbose"@.len() != "Other"@.len());
    assert("ListAllMembersSimple"@.len() != "Other"@.len());
    assert("ListAllMembersVerbose"@.len() != "Other"@.len());
    assert("CreateMember"@.len() != "Other"@.len());
    assert("DeleteMember"@.len() != "Other"@.len());
    assert("EditMember"@.len() != "Other"@.len());
    assert("Back"@.len() != "Other"@.len());
    assert("Quit"@.len() != "Other"@.len());
}

impl Options for MemberMenuOption {
    fn as_tuple(&self) -> (r: (String, Self))
        ensures
            r.0@ == self.name(),
            r.1 == Self::named(self.name()),
    {
        let text: String = self.to_text();
        let option: Self = Self::from_text(text.as_str());
        (text, option)
    }

    fn options() -> (names: Vec<String>)
        ensures
            names@.map_values(|s: String| s@) == Self::menu(),
    {
        let mut names: Vec<String> = Vec::new();
        names.push("DisplayMemberSimple".to_owned());
        names.push("DisplayMemberVerbose".to_owned());
        names.push("ListAllMembersSimple".to_owned());
        names.push("ListAllMembersVerbose".to_owned());
        names.push("CreateMember".to_owned());
        names.push("DeleteMember".to_owned());
        names.push("EditMember".to_owned());
        names.push("Back".to_owned());
        names.push("Quit".to_owned());
        assert(names@.map_values(|s: String| s@) =~= Self::menu());
        names
    }

    fn from_choice(choice: usize) -> (option: Self)
        ensures
            option == Self::chosen(choice),
    {
        if choice == 0 {
            MemberMenuOption::DisplayMemberSimple
        } else if choice == 1 {
            MemberMenuOption::DisplayMemberVerbose
        } else if choice == 2 {
            MemberMenuOption::ListAllMembersSimple
        } else if choice == 3 {
            MemberMenuOption::ListAllMembersVerbose
        } else if choice == 4 {
            MemberMenuOption::CreateMember
        } else if choice == 5 {
            MemberMenuOption::DeleteMember
        } else if choice == 6 {
            MemberMenuOption::EditMember
        } else if choice == 7 {
            MemberMenuOption::Back
        } else if choice == 8 {
            MemberMenuOption::Quit
        } else {
            MemberMenuOption::Other
        }
    }
}

/// All methods needed by a member view.
pub trait MemberView {
    /// Shows the member menu and hands back the choice.
    fn member_menu(&self) -> MemberMenuOption;

    /// Displays a single member in a verbose format.
    fn display_member_verbose(&self, member: &Member, items: Vec<&Item>);

    /// Displays a single member in a simple format.
    fn display_member_simple(&self, member: &Member, number_of_items: usize);

    /// Displays all members in a simple format.
    fn display_all_simple(&self, members: Vec<(&Member, usize)>);

    /// Displays all members in a verbose format.
    fn display_all_verbose(&self, members: Vec<(&Member, Vec<&Item>)>);

    /// Gets the information for a new member.
    fn get_member_info(&self) -> Member;

    /// Edits a single member.
    fn edit_member_info(&self, member: &Member) -> Option<Member>;

    /// Lets the user select a member.
    fn select_member<'a>(&'a self, members: Vec<&'a Member>) -> Option<&'a Member>;

    /// Displays a message and waits for the user.
    fn wait(&self, display: &str);
}

} // verus!
