//! The error values that the lending engine hands back to its callers.

use vstd::prelude::*;
use vstd::std_specs::cmp::PartialEqSpecImpl;

verus! {

/// Member validation error.
#[derive(Debug, Clone, Copy, PartialEq, Eq, Structural)]
pub enum MemValError {
    /// A negative amount of credits was given.
    NegativeCreditInput,
    /// The balance would go below zero.
    DeduceAmountToHigh,
    /// The id has the wrong length.
    Id,
    /// The id contains anything else than letters and digits.
    IdContainsNonAlphaNumeric,
    /// Email error.
    Email,
    /// The email does not match the validation pattern.
    EmailPattern,
    /// The phone number has the wrong length.
    PhoneNumber,
    /// The phone number contains anything but digits and blanks.
    PhoneNumberContainsNonNumeric,
    /// The phone number does not match the validation pattern.
    PhoneNumberPattern,
}

impl MemValError {
    /// The text shown to the user for each variant.
    pub open spec fn message_spec(self) -> Seq<char> {
        match self {
            MemValError::Id => "Invalid Id"@,
            MemValError::IdContainsNonAlphaNumeric => "Id contains non alpha-numeric characters."@,
            MemValError::Email => "Invalid Email"@,
            MemValError::EmailPattern => "Email doesnt match any valid patterns."@,
            MemValError::PhoneNumber => "Invalid Phone number"@,
            MemValError::PhoneNumberContainsNonNumeric => "Phone number contains non-numeric values."@,
            MemValError::PhoneNumberPattern => "Phone number doesnt match any valid patterns."@,
            MemValError::NegativeCreditInput => "Tried adding/substracting negative amount of credits."@,
            MemValError::DeduceAmountToHigh => "The amount of credits to deduce is higher than the amount that the member currently owns."@,
        }
    }

    /// Renders the error as text.
    pub fn message(&self) -> (text: String)
        ensures
            text@ == self.message_spec(),
    {
        match self {
            MemValError::Id => "Invalid Id".to_owned(),
            MemValError::IdContainsNonAlphaNumeric => "Id contains non alpha-numeric characters.".to_owned(),
            MemValError::Email => "Invalid Email".to_owned(),
            MemValError::EmailPattern => "Email doesnt match any valid patterns.".to_owned(),
            MemValError::PhoneNumber => "Invalid Phone number".to_owned(),
            MemValError::PhoneNumberContainsNonNumeric => "Phone number contains non-numeric values.".to_owned(),
            MemValError::PhoneNumberPattern => "Phone number doesnt match any valid patterns.".to_owned(),
            MemValError::NegativeCreditInput => "Tried adding/substracting negative amount of credits.".to_owned(),
            MemValError::DeduceAmountToHigh => "The amount of credits to deduce is higher than the amount that the member currently owns.".to_owned(),
        }
    }
}

/// The outcome of validating a record before it is built.
#[derive(Debug)]
pub enum Check {
    /// Every rule holds.
    Valid,
    /// A rule failed; the text names it.
    Invalid(String),
}

impl Clone for Check {
    fn clone(&self) -> (c: Self)
        ensures
            c.message_spec() == self.message_spec(),
            c is Valid <==> self is Valid,
    {
        match self {
            Check::Valid => Check::Valid,
            Check::Invalid(s) => Check::Invalid(s.clone()),
        }
    }
}

impl PartialEq for Check {
    fn eq(&self, other: &Self) -> (r: bool) {
        match (self, other) {
            (Check::Valid, Check::Valid) => true,
            (Check::Invalid(a), Check::Invalid(b)) => String::eq(a, b),
            _ => false,
        }
    }
}

impl Eq for Check {}

impl PartialEqSpecImpl for Check {
    open spec fn obeys_eq_spec() -> bool {
        true
    }

    open spec fn eq_spec(&self, other: &Self) -> bool {
        match (self, other) {
            (Check::Valid, Check::Valid) => true,
            (Check::Invalid(a), Check::Invalid(b)) => a@ == b@,
            _ => false,
        }
    }
}

impl Check {
    /// The text of the check: a fixed word when valid, or the reason it is invalid.
    pub open spec fn message_spec(self) -> Seq<char> {
        match self {
            Check::Valid => "Ok"@,
            Check::Invalid(s) => s@,
        }
    }

    /// Renders the check as text.
    pub fn message(&self) -> (text: String)
        ensures
            text@ == self.message_spec(),
    {
        match self {
            Check::Valid => "Ok".to_owned(),
            Check::Invalid(s) => s.clone(),
        }
    }
}

/// System error.
#[derive(Debug, Clone, Copy, PartialEq, Eq, Structural)]
pub enum SysError {
    /// An object already exists.
    AlreadyExists,
    /// An object does not exist.
    DoesntExist,
    /// An object cannot be inserted.
    CannotInsert,
    /// An object cannot be deleted.
    CannotDelete,
    /// An object cannot be updated.
    CannotUpdate,
}

impl SysError {
    /// The text shown to the user for each variant.
    pub open spec fn message_spec(self) -> Seq<char> {
        match self {
            SysError::AlreadyExists => "This object already exists."@,
            SysError::DoesntExist => "This object doesnt exists."@,
            SysError::CannotInsert => "There was an problem inserting this object."@,
            SysError::CannotDelete => "There was a problem deleting this object."@,
            SysError::CannotUpdate => "There was a problem updating this object."@,
        }
    }

    /// Renders the error as text.
    pub fn message(&self) -> (text: String)
        ensures
            text@ == self.message_spec(),
    {
        match self {
            SysError::AlreadyExists => "This object already exists.".to_owned(),
            SysError::DoesntExist => "This object doesnt exists.".to_owned(),
            SysError::CannotInsert => "There was an problem inserting this object.".to_owned(),
            SysError::CannotDelete => "There was a problem deleting this object.".to_owned(),
            SysError::CannotUpdate => "There was a problem updating this object.".to_owned(),
        }
    }
}

/// Why a loan could not be made.
#[derive(Debug, Clone, Copy, PartialEq, Eq, Structural)]
pub enum LendError {
    /// The lendee is the owner of the item.
    OwnItem,
    /// The loan has no days.
    NoDays,
    /// The end day or the price does not fit in a number.
    TooLong,
    /// A booking of the item meets the days asked for.
    Booked,
    /// The store does not hold the item.
    NotStored,
}

impl LendError {
    /// The text shown to the user for each variant.
    pub open spec fn message_spec(self) -> Seq<char> {
        match self {
            LendError::OwnItem => "Cannot lend to yourself."@,
            LendError::NoDays => "A contract lasts at least one day."@,
            LendError::TooLong => "The contract is too long."@,
            LendError::Booked => "Item already booked during that period."@,
            LendError::NotStored => "Failed to create contract."@,
        }
    }

    /// Renders the error as text.
    pub fn message(&self) -> (text: String)
        ensures
            text@ == self.message_spec(),
    {
        match self {
            LendError::OwnItem => "Cannot lend to yourself.".to_owned(),
            LendError::NoDays => "A contract lasts at least one day.".to_owned(),
            LendError::TooLong => "The contract is too long.".to_owned(),
            LendError::Booked => "Item already booked during that period.".to_owned(),
            LendError::NotStored => "Failed to create contract.".to_owned(),
        }
    }
}

} // verus!
