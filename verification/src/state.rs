//! Persisted state owned by the token contract itself: the one-time
//! binding to the reward contract's canonical address, kept beside the
//! base ledger's own records.

use vstd::prelude::*;

use crate::ledger::Ledger;

verus! {

/// The token contract: its reward-contract binding and the base ledger
/// it delegates balance arithmetic to.
pub struct TokenContract {
    /// Canonical address of the reward contract every mirror notification
    /// is sent to.  Set once at instantiation.
    pub reward_contract: Vec<u8>,
    /// The base token ledger (balances, allowances, supply, minter).
    pub ledger: Ledger,
}

/// Overwrite the reward-contract binding, leaving the ledger untouched.
pub fn store_reward_contract(t: &mut TokenContract, reward_contract: Vec<u8>)
    ensures
        final(t).reward_contract@ == reward_contract@,
        final(t).ledger == old(t).ledger,
{
    t.reward_contract = reward_contract;
}

/// Read the bound reward contract's canonical address.
pub fn read_reward_contract(t: &TokenContract) -> (r: Vec<u8>)
    ensures
        r@ == t.reward_contract@,
{
    vstd::slice::slice_to_vec(t.reward_contract.as_slice())
}

} // verus!
