//! A peer-to-peer lending tracker: members own items, items are lent to other
//! members under time-bounded contracts, and a logical day counter drives the
//! status of every contract.

pub mod controllers;
pub mod errors;
pub mod models;
pub mod record;
pub mod text;
pub mod types;
pub mod views;
