//! The data and functionality of the lending tracker.

/// Calendar days.
pub mod date_wrapper;
/// The domain models: members, items, contracts and the store.
pub mod domain;
/// Identifiers of members, items and contracts.
pub mod uuid;
/// A list that records its own length.
pub mod vec_wrapper;
