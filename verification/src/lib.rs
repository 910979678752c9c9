//! Core of a pair of cooperating ledger contracts: a fungible-token facade
//! that keeps a companion reward contract's mirrored balances in sync, and
//! the owner-gated configuration state machine of that reward contract.
//!
//! Every balance-affecting operation of the base token ledger is answered
//! with an ordered list of outbound notification calls (`Decrease` /
//! `Increase` of the moved amount, plus a receiver notification for sends),
//! so that the reward contract can replay the movement on its own books.

pub mod addr;
pub mod contract;
pub mod ledger;
pub mod msg;
pub mod notifier;
pub mod owner;
pub mod state;
