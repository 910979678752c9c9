//! The balance-mirror notifier: a pure mapping from a completed base-ledger
//! operation to the ordered list of outbound calls that keep the reward
//! contract's mirrored balances in step with the token ledger.

use vstd::prelude::*;

use crate::msg::{ActionView, BalanceDelta, CallView, DeltaKind, DeltaView, LedgerAction,
    OutboundCall};
use crate::msg::calls_view;

verus! {

/// A mirror call decreasing `address` by `amount` on the reward contract.
pub open spec fn decrease_call(reward: Seq<char>, address: Seq<char>, amount: u128) -> CallView {
    CallView::Mirror {
        reward_contract: reward,
        delta: DeltaView { kind: DeltaKind::Decrease, address: address, amount: amount },
    }
}

/// A mirror call increasing `address` by `amount` on the reward contract.
pub open spec fn increase_call(reward: Seq<char>, address: Seq<char>, amount: u128) -> CallView {
    CallView::Mirror {
        reward_contract: reward,
        delta: DeltaView { kind: DeltaKind::Increase, address: address, amount: amount },
    }
}

/// The ordered outbound call list owed for a completed base-ledger
/// operation: one `Decrease` and one `Increase` of equal amount for the
/// two-party moves, a single `Increase` for mint, a single `Decrease` for
/// burns, and for sends a trailing receiver notification carrying the
/// original payload.
pub open spec fn mirror_model(a: ActionView, reward: Seq<char>) -> Seq<CallView> {
    match a {
        ActionView::Transfer { from, to, amount } => seq![
            decrease_call(reward, from, amount),
            increase_call(reward, to, amount),
        ],
        ActionView::TransferFrom { owner, recipient, amount } => seq![
            decrease_call(reward, owner, amount),
            increase_call(reward, recipient, amount),
        ],
        ActionView::Send { from, contract, amount, payload } => seq![
            decrease_call(reward, from, amount),
            increase_call(reward, contract, amount),
            (CallView::Receive { contract: contract, sender: from, amount: amount, payload: payload }),
        ],
        ActionView::SendFrom { owner, caller, contract, amount, payload } => seq![
            decrease_call(reward, owner, amount),
            increase_call(reward, contract, amount),
            (CallView::Receive { contract: contract, sender: caller, amount: amount, payload: payload }),
        ],
        ActionView::Mint { to, amount } => seq![increase_call(reward, to, amount)],
        ActionView::Burn { from, amount } => seq![decrease_call(reward, from, amount)],
        ActionView::BurnFrom { owner, amount } => seq![decrease_call(reward, owner, amount)],
    }
}

/// Net balance movement a call list asks the reward contract to replay:
/// increases count positive, decreases negative, receiver notifications
/// move nothing.
pub open spec fn delta_sum(s: Seq<CallView>) -> int
    decreases s.len(),
{
    if s.len() == 0 {
        0
    } else {
        delta_sum(s.drop_last()) + (match s.last() {
            CallView::Mirror { delta, .. } => if delta.kind == DeltaKind::Increase {
                delta.amount as int
            } else {
                -(delta.amount as int)
            },
            CallView::Receive { .. } => 0,
        })
    }
}

/// How much an operation changes the token ledger's total supply.
pub open spec fn supply_delta(a: ActionView) -> int {
    match a {
        ActionView::Mint { amount, .. } => amount as int,
        ActionView::Burn { amount, .. } => -(amount as int),
        ActionView::BurnFrom { amount, .. } => -(amount as int),
        _ => 0,
    }
}

/// Law: the mirror calls of any completed operation net to exactly the
/// ledger's own supply change.  In particular every supply-conserving
/// two-party move emits one decrease and one increase of equal amount,
/// mint a single increase, and burns a single decrease.
pub proof fn lemma_mirror_conservation(a: ActionView, reward: Seq<char>)
    ensures
        delta_sum(mirror_model(a, reward)) == supply_delta(a),
{
    reveal_with_fuel(delta_sum, 4);
    let calls = mirror_model(a, reward);
    match a {
        ActionView::Transfer { from, to, amount } => {
            assert(calls.drop_last() =~= seq![decrease_call(reward, from, amount)]);
        },
        ActionView::TransferFrom { owner, recipient, amount } => {
            assert(calls.drop_last() =~= seq![decrease_call(reward, owner, amount)]);
        },
        ActionView::Send { from, contract, amount, payload } => {
            assert(calls.drop_last() =~= seq![
                decrease_call(reward, from, amount),
                increase_call(reward, contract, amount),
            ]);
            assert(calls.drop_last().drop_last() =~= seq![decrease_call(reward, from, amount)]);
        },
        ActionView::SendFrom { owner, caller, contract, amount, payload } => {
            assert(calls.drop_last() =~= seq![
                decrease_call(reward, owner, amount),
                increase_call(reward, contract, amount),
            ]);
            assert(calls.drop_last().drop_last() =~= seq![decrease_call(reward, owner, amount)]);
        },
        ActionView::Mint { .. } => {
        },
        ActionView::Burn { .. } => {
        },
        ActionView::BurnFrom { .. } => {
        },
    }
}

fn mirror_increase(reward_contract: &str, address: String, amount: u128) -> (r: OutboundCall)
    ensures
        r@ == increase_call(reward_contract@, address@, amount),
{
    OutboundCall::Mirror {
        reward_contract: reward_contract.to_string(),
        delta: BalanceDelta { kind: DeltaKind::Increase, address, amount },
    }
}

fn mirror_decrease(reward_contract: &str, address: String, amount: u128) -> (r: OutboundCall)
    ensures
        r@ == decrease_call(reward_contract@, address@, amount),
{
    OutboundCall::Mirror {
        reward_contract: reward_contract.to_string(),
        delta: BalanceDelta { kind: DeltaKind::Decrease, address, amount },
    }
}

/// Build the outbound call list for a completed operation.  This cannot
/// fail: its input is already a successful base-ledger outcome, and it
/// performs no validation and no side effect beyond producing the list.
pub fn mirror_calls(action: LedgerAction, reward_contract: &str) -> (r: Vec<OutboundCall>)
    ensures
        calls_view(r@) == mirror_model(action@, reward_contract@),
{
    let mut out: Vec<OutboundCall> = Vec::new();
    match action {
        LedgerAction::Transfer { from, to, amount } => {
            out.push(mirror_decrease(reward_contract, from, amount));
            out.push(mirror_increase(reward_contract, to, amount));
        },
        LedgerAction::TransferFrom { owner, recipient, amount } => {
            out.push(mirror_decrease(reward_contract, owner, amount));
            out.push(mirror_increase(reward_contract, recipient, amount));
        },
        LedgerAction::Send { from, contract, amount, payload } => {
            out.push(mirror_decrease(reward_contract, from.clone(), amount));
            out.push(mirror_increase(reward_contract, contract.clone(), amount));
            out.push(OutboundCall::Receive { contract, sender: from, amount, payload });
        },
        LedgerAction::SendFrom { owner, caller, contract, amount, payload } => {
            out.push(mirror_decrease(reward_contract, owner, amount));
            out.push(mirror_increase(reward_contract, contract.clone(), amount));
            out.push(OutboundCall::Receive { contract, sender: caller, amount, payload });
        },
        LedgerAction::Mint { to, amount } => {
            out.push(mirror_increase(reward_contract, to, amount));
        },
        LedgerAction::Burn { from, amount } => {
            out.push(mirror_decrease(reward_contract, from, amount));
        },
        LedgerAction::BurnFrom { owner, amount } => {
            out.push(mirror_decrease(reward_contract, owner, amount));
        },
    }
    proof {
        assert(calls_view(out@) =~= mirror_model(action@, reward_contract@));
    }
    out
}

} // verus!
