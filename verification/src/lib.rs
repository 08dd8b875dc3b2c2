//! One-time numeric codes bound to a phone number: issuing them no more often
//! than a minimum interval allows, and accepting them until they expire.
//!
//! The rules are plain functions over plain values. The collaborators that do
//! the outside work (the code generator, the notifier and the code store) are
//! traits; the services call them and hand every answer to the rules.

pub mod entities;
pub mod errors;
mod clock;
pub mod generator;
pub mod issuance;
pub mod laws;
pub mod locker;
pub mod locks;
pub mod registry;
pub mod rules;
pub mod sender;
pub mod service;
pub mod store;
