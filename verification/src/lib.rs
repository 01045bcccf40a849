//! Decision core of a two-party token escrow.
//!
//! An initiating party locks a token account under an authority that only the
//! escrow program controls, and records the terms under which a counterparty
//! may later complete the trade. This crate holds the wire format of the
//! instruction, the fixed layout of the escrow record, and the initialization
//! transition with its checks.
pub mod account;
pub mod bytes;
pub mod error;
pub mod instruction;
pub mod le;
pub mod processor;
pub mod pubkey;
pub mod rent;
pub mod state;
pub mod token;
