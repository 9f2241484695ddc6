//! Traits and result types shared by the models.

use vstd::prelude::*;
use crate::errors::{Check, MemValError, SysError};

verus! {

/// All domain models implement this trait.
pub trait Model {

}

/// All ui/ux related structs implement this trait.
pub trait View {

}

/// All controllers implement this trait.
pub trait Controller {

}

/// The result of a validation.
pub type ValResult<T> = Result<T, Check>;

/// The result of a member rule.
pub type MemValResult<T> = Result<T, MemValError>;

/// The result of a store operation.
pub type SysResult<T> = Result<T, SysError>;

/// A flat mapping from field names to their texts, in the order of the
/// fields. Where a name occurs twice, the last occurrence counts: a later
/// entry takes the place of an earlier one.
pub type StringMap = Vec<(String, String)>;

/// Building a record from a mapping of field names to texts.
pub trait FromMap: Sized {
    /// Builds the record from a mapping that holds every field. The answer
    /// is `None` where a field is missing or its text cannot be read.
    fn from_complete_map(data: StringMap) -> Option<Self>;

    /// A copy of the record in which every field that the mapping names
    /// has the value that the mapping gives. The answer is `None` where a
    /// text cannot be read.
    fn copy_with(&self, data: StringMap) -> Option<Self>;
}

/// Taking a record apart into a mapping of field names to texts.
pub trait ToMap {
    /// The mapping of every field.
    fn to_map(&self) -> StringMap;

    /// The mapping of the fields that a user may edit.
    fn to_map_allowed_mutable(&self) -> StringMap;
}

/// What every record offers for display and editing.
pub trait Data: FromMap + ToMap {
    /// The names of the fields, in order.
    fn head() -> Vec<String>;

    /// The names of the fields that a user may edit, in order.
    fn head_allowed_mutable() -> Vec<String>;
}

/// A record that can be checked against its rules before it is used.
pub trait Validate<T> {
    /// Checks every rule of the record.
    fn validate(&self) -> ValResult<()>;

    /// Hands the record back if every rule holds.
    fn validate_and_build(self) -> ValResult<T>;
}

} // verus!
