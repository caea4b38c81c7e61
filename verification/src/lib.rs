//! A ballot engine: polls, candidates and voters kept as records at derived
//! addresses, with the rules that govern how they change.
//!
//! `address` derives where a record lives from what identifies it, `store`
//! keeps records by address, `layout` bounds the texts that a record holds,
//! `window` judges when a vote counts, and `clock` tells the time. On these
//! stand two programs: `basic`, and `extended`, which adds administrators,
//! a count of voters and a winner. `error` names what can go wrong in
//! either.

pub mod address;
pub mod basic;
pub mod clock;
pub mod error;
pub mod extended;
pub mod layout;
pub mod store;
pub mod window;
