//! What the console decides without looking at the terminal: what a key
//! does on a page of records, and what a table shows for a field.

use vstd::prelude::*;
use crate::models::domain::member::{Member, MemberView};
use crate::models::uuid::{Uuid, UuidView};
use crate::text::{is_digit, same_text};

verus! {

/// The number of records on a page.
pub const PAGE_SIZE: usize = 10;

/// What the console does after a key was pressed on a page of records.
#[derive(Debug, Clone, Copy, PartialEq, Eq, Structural)]
pub enum PageAction {
    /// The record at this place of the whole list was selected.
    Select(usize),
    /// The page with this number is shown.
    Show(usize),
    /// The application ends.
    Quit,
    /// The user goes back to the menu without a record.
    Back,
    /// The same page is shown again.
    Stay,
}

/// What a key does on the page `page` of `page_count` pages, where the page
/// shows `page_len` records: a digit selects the record at that place of
/// the page, `n` and `p` move to the next and the previous page, `q` ends
/// the application, `e` goes back, and nothing else has an effect.
pub open spec fn page_action(key: char, page: usize, page_count: usize, page_len: usize) -> PageAction {
    if is_digit(key) {
        if (key as int - 48) < page_len && page * PAGE_SIZE + (key as int - 48) <= usize::MAX {
            PageAction::Select((page * PAGE_SIZE + (key as int - 48)) as usize)
        } else {
            PageAction::Stay
        }
    } else if key == 'n' {
        if page + 1 < page_count {
            PageAction::Show((page + 1) as usize)
        } else {
            PageAction::Stay
        }
    } else if key == 'p' {
        if page > 0 {
            PageAction::Show((page - 1) as usize)
        } else {
            PageAction::Stay
        }
    } else if key == 'q' {
        PageAction::Quit
    } else if key == 'e' {
        PageAction::Back
    } else {
        PageAction::Stay
    }
}

/// Decides what a key does on a page of records.
pub fn on_key(key: char, page: usize, page_count: usize, page_len: usize) -> (action: PageAction)
    ensures
        action == page_action(key, page, page_count, page_len),
{
    if crate::text::char_is_digit(key) {
        let place: usize = ((key as u8) - 48u8) as usize;
        if place < page_len && page <= (usize::MAX - place) / PAGE_SIZE {
            PageAction::Select(page * PAGE_SIZE + place)
        } else {
            PageAction::Stay
        }
    } else if key == 'n' {
        if page < usize::MAX && page + 1 < page_count {
            PageAction::Show(page + 1)
        } else {
            PageAction::Stay
        }
    } else if key == 'p' {
        if page > 0 {
            PageAction::Show(page - 1)
        } else {
            PageAction::Stay
        }
    } else if key == 'q' {
        PageAction::Quit
    } else if key == 'e' {
        PageAction::Back
    } else {
        PageAction::Stay
    }
}

/// What a table shows for the text of a field: the token of an identity,
/// the name of an owner or a lendee, a mark for a history, and any other
/// text as it is. A text that cannot be read is shown as it is.
pub open spec fn cell_view(key: Seq<char>, value: Seq<char>) -> Seq<char> {
    if key == "uuid"@ {
        match UuidView::from_text(value) {
            Some(id) => id.value,
            None => value,
        }
    } else if key == "owner"@ || key == "lendee"@ {
        match MemberView::from_text(value) {
            Some(member) => member.name,
            None => value,
        }
    } else if key == "history"@ {
        if value == "-"@ {
            "None"@
        } else {
            "..."@
        }
    } else {
        value
    }
}

/// Writes what a table shows for the text of a field.
pub fn cell_text(key: &str, value: &str) -> (text: String)
    ensures
        text@ == cell_view(key@, value@),
{
    if same_text(key, "uuid") {
        match Uuid::from_text(value) {
            Some(id) => id.get_value().clone(),
            None => value.to_owned(),
        }
    } else if same_text(key, "owner") || same_text(key, "lendee") {
        match Member::from_text(value) {
            Some(member) => member.get_name().clone(),
            None => value.to_owned(),
        }
    } else if same_text(key, "history") {
        if same_text(value, "-") {
            "None".to_owned()
        } else {
            "...".to_owned()
        }
    } else {
        value.to_owned()
    }
}

} // verus!
