//! Issuing collections and their members on a ledger of derived accounts.
//!
//! A collection mint and a member mint are each checked against the program's records
//! ([`registry::Registry`]), turned into an ordered list of requests to the token program and
//! the metadata registry ([`requests::Request`]), and written back only once every request has
//! succeeded. Record addresses are derived from fixed seeds ([`address`]), records are stored
//! in an exact byte layout ([`records`]), and the properties that tie the steps together are
//! proved in [`laws`].

pub mod address;
pub mod codec;
pub mod collection;
pub mod instructions;
pub mod laws;
pub mod layout;
pub mod member;
pub mod records;
pub mod registry;
pub mod requests;
