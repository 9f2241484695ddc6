//! The domain models.

/// Member model.
pub mod member;
/// Contract model.
pub mod contract;
/// Item model.
pub mod item;
/// The lending store.
pub mod system;
/// The day counter and its listeners.
pub mod time;
