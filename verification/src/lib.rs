//! Coordination core of a payment-channel node: the payment ledger, the
//! reactions to protocol events, and the validation and replies of the
//! operator commands.
//!
//! The channel engine, the wallet and the network stay outside. Where work
//! of theirs is needed, a function of this crate says what is to be asked of
//! them, and another takes their reply as plain values and says what
//! follows:
//!
//! * `ledger` keeps the payment attempts of both directions;
//! * `events`, `funding` and `sweep` react to the engine's events;
//! * `server` and `peer` check the operator's commands and word the answers;
//! * `cli` turns a command line into the fields of a request;
//! * `invoice` reads the amount in the prefix of an invoice text;
//! * `hex_utils` and `text` read and write the notations that these use;
//! * `bindings` holds the calls into other libraries, which are trusted;
//! * `laws` states what holds across commands and events.

pub mod bindings;
pub mod cli;
pub mod events;
pub mod funding;
pub mod hex_utils;
pub mod invoice;
pub mod laws;
pub mod ledger;
pub mod node_var;
pub mod peer;
pub mod server;
pub mod sweep;
pub mod text;
