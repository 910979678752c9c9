//! The token ledger facade: top-level command dispatch that validates
//! addresses, invokes the base ledger, and on success appends the
//! balance-mirror notifications to the response.  Administrative
//! authorization lives in `owner`, not here; the facade enforces nothing
//! beyond what the base ledger itself enforces.

use vstd::prelude::*;

use crate::addr::{addr_valid, human_of, canon_of, canonicalize, humanize, validate};
use crate::ledger::{allowance_of, apply_move, bal_of, balances_from, expire_passed, expiry_of,
    instantiate_accepted, Ledger, ledger_allowance_amount, ledger_allowance_expiries,
    ledger_allowances, ledger_balances, ledger_burn, ledger_burn_from,
    ledger_decrease_allowance, ledger_increase_allowance, ledger_initialized, ledger_instantiate,
    ledger_minter, ledger_mint, ledger_query_allowance, ledger_query_balance, ledger_query_minter,
    ledger_query_token_info, ledger_supply, ledger_token_meta, ledger_transfer,
    ledger_transfer_from, minter_view, same_ledger_state, sum_amounts};
use crate::msg::{action_log, ActionView, ExecuteMsg, Expire, InitialBalance, LedgerAction,
    QueryAnswer, QueryMsg, Response, TokenError, TokenInstantiateMsg};
use crate::notifier::{mirror_calls, mirror_model};
use crate::state::TokenContract;

verus! {

/// The human-readable address every mirror call of `t` is sent to, if the
/// stored binding humanizes at all.
pub open spec fn reward_target(t: TokenContract) -> Option<Seq<char>> {
    human_of(t.reward_contract@)
}

/// The ledger states `a` and `b` agree on everything but balances.
pub open spec fn non_balance_same(a: Ledger, b: Ledger) -> bool {
    &&& ledger_supply(a) == ledger_supply(b)
    &&& ledger_minter(a) == ledger_minter(b)
    &&& ledger_token_meta(a) == ledger_token_meta(b)
    &&& ledger_allowances(a) == ledger_allowances(b)
    &&& ledger_allowance_expiries(a) == ledger_allowance_expiries(b)
    &&& ledger_initialized(a) == ledger_initialized(b)
}

/// The audit log consists of the single entry `action = <action>`.
pub open spec fn is_action_log(log: Seq<(String, String)>, action: Seq<char>) -> bool {
    &&& log.len() == 1
    &&& log[0].0@ == "action"@
    &&& log[0].1@ == action
}

/// The minter configuration admits `caller` minting `amount` on top of
/// supply `sup`.
pub open spec fn mint_allowed(
    m: Option<(Seq<char>, Option<u128>)>,
    caller: Seq<char>,
    sup: u128,
    amount: u128,
) -> bool {
    m matches Some((who, cap)) && who == caller && (cap matches Some(c) ==> sup + amount <= c)
}

/// The stored grant from `owner` to `caller` admits spending `amount`:
/// a record exists, has not expired, and covers the amount.
pub open spec fn spend_allowed(l: Ledger, owner: Seq<char>, caller: Seq<char>, amount: u128)
    -> bool {
    &&& ledger_allowances(l).contains_key((owner, caller))
    &&& !expire_passed(expiry_of(ledger_allowance_expiries(l), owner, caller))
    &&& amount <= allowance_of(ledger_allowances(l), owner, caller)
}

/// Everything a completed transfer owes: the error taxonomy, exactly when
/// success is owed, the balance move, and the two mirror calls in order.
pub open spec fn transfer_post(
    pre: TokenContract,
    post: TokenContract,
    caller: Seq<char>,
    recipient: Seq<char>,
    amount: u128,
    r: Result<Response, TokenError>,
) -> bool {
    let bals = ledger_balances(pre.ledger);
    let target = reward_target(pre);
    &&& post.reward_contract@ == pre.reward_contract@
    &&& (r matches Err(TokenError::InvalidAddress) <==> (!addr_valid(recipient) || target is None))
    &&& (r matches Err(TokenError::Overflow) <==> (addr_valid(recipient) && target is Some
        && caller != recipient && bal_of(bals, recipient) + amount > u128::MAX))
    &&& (r matches Err(TokenError::Ledger(_)) <==> (addr_valid(recipient) && target is Some && (
    caller != recipient ==> bal_of(bals, recipient) + amount <= u128::MAX) && amount > bal_of(
        bals,
        caller,
    )))
    &&& (r is Ok <==> (addr_valid(recipient) && target is Some && (caller != recipient
        ==> bal_of(bals, recipient) + amount <= u128::MAX) && amount <= bal_of(bals, caller)))
    &&& (r is Err ==> same_ledger_state(post.ledger, pre.ledger))
    &&& (r is Ok ==> ledger_balances(post.ledger) == apply_move(bals, caller, recipient, amount))
    &&& (r is Ok ==> non_balance_same(post.ledger, pre.ledger))
    &&& (r matches Ok(resp) ==> resp@.messages == mirror_model(
        (ActionView::Transfer { from: caller, to: recipient, amount }),
        target.unwrap(),
    ))
    &&& (r matches Ok(resp) ==> is_action_log(resp.log@, "transfer"@))
}

/// Everything a completed send owes: the transfer obligations, plus the
/// trailing receiver notification carrying the payload.
pub open spec fn send_post(
    pre: TokenContract,
    post: TokenContract,
    caller: Seq<char>,
    contract: Seq<char>,
    amount: u128,
    payload: Option<Seq<u8>>,
    r: Result<Response, TokenError>,
) -> bool {
    let bals = ledger_balances(pre.ledger);
    let target = reward_target(pre);
    &&& post.reward_contract@ == pre.reward_contract@
    &&& (r matches Err(TokenError::InvalidAddress) <==> (!addr_valid(contract) || target is None))
    &&& (r matches Err(TokenError::Overflow) <==> (addr_valid(contract) && target is Some
        && caller != contract && bal_of(bals, contract) + amount > u128::MAX))
    &&& (r matches Err(TokenError::Ledger(_)) <==> (addr_valid(contract) && target is Some && (
    caller != contract ==> bal_of(bals, contract) + amount <= u128::MAX) && amount > bal_of(
        bals,
        caller,
    )))
    &&& (r is Ok <==> (addr_valid(contract) && target is Some && (caller != contract ==> bal_of(
        bals,
        contract,
    ) + amount <= u128::MAX) && amount <= bal_of(bals, caller)))
    &&& (r is Err ==> same_ledger_state(post.ledger, pre.ledger))
    &&& (r is Ok ==> ledger_balances(post.ledger) == apply_move(bals, caller, contract, amount))
    &&& (r is Ok ==> non_balance_same(post.ledger, pre.ledger))
    &&& (r matches Ok(resp) ==> resp@.messages == mirror_model(
        (ActionView::Send { from: caller, contract, amount, payload }),
        target.unwrap(),
    ))
    &&& (r matches Ok(resp) ==> is_action_log(resp.log@, "send"@))
}

/// Everything a completed burn owes.
pub open spec fn burn_post(
    pre: TokenContract,
    post: TokenContract,
    caller: Seq<char>,
    amount: u128,
    r: Result<Response, TokenError>,
) -> bool {
    let bals = ledger_balances(pre.ledger);
    let sup = ledger_supply(pre.ledger);
    let init = ledger_initialized(pre.ledger);
    let target = reward_target(pre);
    &&& post.reward_contract@ == pre.reward_contract@
    &&& (r matches Err(TokenError::InvalidAddress) <==> target is None)
    &&& (r matches Err(TokenError::Overflow) <==> (target is Some && init && amount > sup))
    &&& (r matches Err(TokenError::Ledger(_)) <==> (target is Some && (!init || (amount <= sup
        && amount > bal_of(bals, caller)))))
    &&& (r is Ok <==> (target is Some && init && amount <= sup && amount <= bal_of(bals, caller)))
    &&& (r is Err ==> same_ledger_state(post.ledger, pre.ledger))
    &&& (r is Ok ==> ledger_balances(post.ledger) == bals.insert(
        caller,
        (bal_of(bals, caller) - amount) as u128,
    ))
    &&& (r is Ok ==> ledger_supply(post.ledger) == sup - amount)
    &&& (r is Ok ==> ledger_minter(post.ledger) == ledger_minter(pre.ledger)
        && ledger_token_meta(post.ledger) == ledger_token_meta(pre.ledger) && ledger_allowances(
        post.ledger,
    ) == ledger_allowances(pre.ledger) && ledger_allowance_expiries(post.ledger)
        == ledger_allowance_expiries(pre.ledger))
    &&& (r matches Ok(resp) ==> resp@.messages == mirror_model(
        (ActionView::Burn { from: caller, amount }),
        target.unwrap(),
    ))
    &&& (r matches Ok(resp) ==> is_action_log(resp.log@, "burn"@))
}

/// Everything a completed mint owes.
pub open spec fn mint_post(
    pre: TokenContract,
    post: TokenContract,
    caller: Seq<char>,
    recipient: Seq<char>,
    amount: u128,
    r: Result<Response, TokenError>,
) -> bool {
    let bals = ledger_balances(pre.ledger);
    let sup = ledger_supply(pre.ledger);
    let target = reward_target(pre);
    &&& post.reward_contract@ == pre.reward_contract@
    &&& (r matches Err(TokenError::InvalidAddress) <==> (!addr_valid(recipient) || target is None))
    &&& (r matches Err(TokenError::Overflow) <==> (addr_valid(recipient) && target is Some && (sup
        + amount > u128::MAX || bal_of(bals, recipient) + amount > u128::MAX)))
    &&& (r matches Err(TokenError::Ledger(_)) <==> (addr_valid(recipient) && target is Some && sup
        + amount <= u128::MAX && bal_of(bals, recipient) + amount <= u128::MAX && !mint_allowed(
        ledger_minter(pre.ledger),
        caller,
        sup,
        amount,
    )))
    &&& (r is Ok <==> (addr_valid(recipient) && target is Some && sup + amount <= u128::MAX
        && bal_of(bals, recipient) + amount <= u128::MAX && mint_allowed(
        ledger_minter(pre.ledger),
        caller,
        sup,
        amount,
    )))
    &&& (r is Err ==> same_ledger_state(post.ledger, pre.ledger))
    &&& (r is Ok ==> ledger_balances(post.ledger) == bals.insert(
        recipient,
        (bal_of(bals, recipient) + amount) as u128,
    ))
    &&& (r is Ok ==> ledger_supply(post.ledger) == sup + amount)
    &&& (r is Ok ==> ledger_minter(post.ledger) == ledger_minter(pre.ledger)
        && ledger_token_meta(post.ledger) == ledger_token_meta(pre.ledger) && ledger_allowances(
        post.ledger,
    ) == ledger_allowances(pre.ledger) && ledger_allowance_expiries(post.ledger)
        == ledger_allowance_expiries(pre.ledger))
    &&& (r matches Ok(resp) ==> resp@.messages == mirror_model(
        (ActionView::Mint { to: recipient, amount }),
        target.unwrap(),
    ))
    &&& (r matches Ok(resp) ==> is_action_log(resp.log@, "mint"@))
}

/// Everything a completed transfer-from owes.  Whether a stored allowance
/// has expired is the base ledger's own decision, so success is bounded
/// but not owed.
pub open spec fn transfer_from_post(
    pre: TokenContract,
    post: TokenContract,
    caller: Seq<char>,
    owner: Seq<char>,
    recipient: Seq<char>,
    amount: u128,
    r: Result<Response, TokenError>,
) -> bool {
    let bals = ledger_balances(pre.ledger);
    let alw = ledger_allowances(pre.ledger);
    let target = reward_target(pre);
    let valids = addr_valid(owner) && addr_valid(recipient);
    let fits = owner != recipient ==> bal_of(bals, recipient) + amount <= u128::MAX;
    &&& post.reward_contract@ == pre.reward_contract@
    &&& (r matches Err(TokenError::InvalidAddress) <==> (!valids || target is None))
    &&& (r matches Err(TokenError::Overflow) <==> (valids && target is Some && !fits))
    &&& (r matches Err(TokenError::Ledger(_)) <==> (valids && target is Some && fits && !(
    spend_allowed(pre.ledger, owner, caller, amount) && amount <= bal_of(bals, owner))))
    &&& (r is Ok <==> (valids && target is Some && fits && spend_allowed(
        pre.ledger,
        owner,
        caller,
        amount,
    ) && amount <= bal_of(bals, owner)))
    &&& (r is Err ==> same_ledger_state(post.ledger, pre.ledger))
    &&& (r is Ok ==> ledger_balances(post.ledger) == apply_move(bals, owner, recipient, amount))
    &&& (r is Ok ==> ledger_allowances(post.ledger) == alw.insert(
        (owner, caller),
        (allowance_of(alw, owner, caller) - amount) as u128,
    ))
    &&& (r is Ok ==> ledger_supply(post.ledger) == ledger_supply(pre.ledger) && ledger_minter(
        post.ledger,
    ) == ledger_minter(pre.ledger) && ledger_token_meta(post.ledger) == ledger_token_meta(
        pre.ledger,
    ))
    &&& ledger_allowance_expiries(post.ledger) == ledger_allowance_expiries(pre.ledger)
    &&& (r matches Ok(resp) ==> resp@.messages == mirror_model(
        (ActionView::TransferFrom { owner, recipient, amount }),
        target.unwrap(),
    ))
    &&& (r matches Ok(resp) ==> is_action_log(resp.log@, "transfer_from"@))
}

/// Everything a completed send-from owes: the transfer-from obligations,
/// plus the trailing receiver notification naming the caller as sender.
pub open spec fn send_from_post(
    pre: TokenContract,
    post: TokenContract,
    caller: Seq<char>,
    owner: Seq<char>,
    contract: Seq<char>,
    amount: u128,
    payload: Option<Seq<u8>>,
    r: Result<Response, TokenError>,
) -> bool {
    let bals = ledger_balances(pre.ledger);
    let alw = ledger_allowances(pre.ledger);
    let target = reward_target(pre);
    let valids = addr_valid(owner) && addr_valid(contract);
    let fits = owner != contract ==> bal_of(bals, contract) + amount <= u128::MAX;
    &&& post.reward_contract@ == pre.reward_contract@
    &&& (r matches Err(TokenError::InvalidAddress) <==> (!valids || target is None))
    &&& (r matches Err(TokenError::Overflow) <==> (valids && target is Some && !fits))
    &&& (r matches Err(TokenError::Ledger(_)) <==> (valids && target is Some && fits && !(
    spend_allowed(pre.ledger, owner, caller, amount) && amount <= bal_of(bals, owner))))
    &&& (r is Ok <==> (valids && target is Some && fits && spend_allowed(
        pre.ledger,
        owner,
        caller,
        amount,
    ) && amount <= bal_of(bals, owner)))
    &&& (r is Err ==> same_ledger_state(post.ledger, pre.ledger))
    &&& (r is Ok ==> ledger_balances(post.ledger) == apply_move(bals, owner, contract, amount))
    &&& (r is Ok ==> ledger_allowances(post.ledger) == alw.insert(
        (owner, caller),
        (allowance_of(alw, owner, caller) - amount) as u128,
    ))
    &&& (r is Ok ==> ledger_supply(post.ledger) == ledger_supply(pre.ledger) && ledger_minter(
        post.ledger,
    ) == ledger_minter(pre.ledger) && ledger_token_meta(post.ledger) == ledger_token_meta(
        pre.ledger,
    ))
    &&& ledger_allowance_expiries(post.ledger) == ledger_allowance_expiries(pre.ledger)
    &&& (r matches Ok(resp) ==> resp@.messages == mirror_model(
        (ActionView::SendFrom { owner, caller, contract, amount, payload }),
        target.unwrap(),
    ))
    &&& (r matches Ok(resp) ==> is_action_log(resp.log@, "send_from"@))
}

/// Everything a completed burn-from owes.
pub open spec fn burn_from_post(
    pre: TokenContract,
    post: TokenContract,
    caller: Seq<char>,
    owner: Seq<char>,
    amount: u128,
    r: Result<Response, TokenError>,
) -> bool {
    let bals = ledger_balances(pre.ledger);
    let alw = ledger_allowances(pre.ledger);
    let sup = ledger_supply(pre.ledger);
    let init = ledger_initialized(pre.ledger);
    let target = reward_target(pre);
    &&& post.reward_contract@ == pre.reward_contract@
    &&& (r matches Err(TokenError::InvalidAddress) <==> (!addr_valid(owner) || target is None))
    &&& (r matches Err(TokenError::Overflow) <==> (addr_valid(owner) && target is Some && init
        && amount > sup))
    &&& (r matches Err(TokenError::Ledger(_)) <==> (addr_valid(owner) && target is Some && (!init
        || (amount <= sup && !(spend_allowed(pre.ledger, owner, caller, amount) && amount
            <= bal_of(bals, owner))))))
    &&& (r is Ok <==> (addr_valid(owner) && target is Some && init && amount <= sup
        && spend_allowed(pre.ledger, owner, caller, amount) && amount <= bal_of(bals, owner)))
    &&& (r is Err ==> same_ledger_state(post.ledger, pre.ledger))
    &&& (r is Ok ==> ledger_balances(post.ledger) == bals.insert(
        owner,
        (bal_of(bals, owner) - amount) as u128,
    ))
    &&& (r is Ok ==> ledger_supply(post.ledger) == sup - amount)
    &&& (r is Ok ==> ledger_allowances(post.ledger) == alw.insert(
        (owner, caller),
        (allowance_of(alw, owner, caller) - amount) as u128,
    ))
    &&& (r is Ok ==> ledger_minter(post.ledger) == ledger_minter(pre.ledger)
        && ledger_token_meta(post.ledger) == ledger_token_meta(pre.ledger))
    &&& ledger_allowance_expiries(post.ledger) == ledger_allowance_expiries(pre.ledger)
    &&& (r matches Ok(resp) ==> resp@.messages == mirror_model(
        (ActionView::BurnFrom { owner, amount }),
        target.unwrap(),
    ))
    &&& (r matches Ok(resp) ==> is_action_log(resp.log@, "burn_from"@))
}

/// Everything a completed allowance increase owes.  Allowance changes
/// move no balances, so no mirror call is emitted.
pub open spec fn increase_allowance_post(
    pre: TokenContract,
    post: TokenContract,
    caller: Seq<char>,
    spender: Seq<char>,
    amount: u128,
    expires: Option<Expire>,
    r: Result<Response, TokenError>,
) -> bool {
    let alw = ledger_allowances(pre.ledger);
    let cur = allowance_of(alw, caller, spender);
    &&& post.reward_contract@ == pre.reward_contract@
    &&& (r matches Err(TokenError::InvalidAddress) <==> !addr_valid(spender))
    &&& (r matches Err(TokenError::Overflow) <==> (addr_valid(spender) && cur + amount
        > u128::MAX))
    &&& (r matches Err(TokenError::Ledger(_)) <==> (addr_valid(spender) && cur + amount
        <= u128::MAX && !(spender != caller && (expires matches Some(e) ==> !expire_passed(e)))))
    &&& (r is Ok <==> (addr_valid(spender) && cur + amount <= u128::MAX && spender != caller && (
    expires matches Some(e) ==> !expire_passed(e))))
    &&& (r is Err ==> same_ledger_state(post.ledger, pre.ledger) && ledger_allowance_expiries(
        post.ledger,
    ) == ledger_allowance_expiries(pre.ledger))
    &&& (r is Ok ==> ledger_allowances(post.ledger) == alw.insert(
        (caller, spender),
        (cur + amount) as u128,
    ))
    &&& (r is Ok ==> ledger_allowance_expiries(post.ledger) == ledger_allowance_expiries(
        pre.ledger,
    ).insert(
        (caller, spender),
        (match expires {
            Some(e) => e,
            None => expiry_of(ledger_allowance_expiries(pre.ledger), caller, spender),
        }),
    ))
    &&& (r is Ok ==> ledger_balances(post.ledger) == ledger_balances(pre.ledger) && ledger_supply(
        post.ledger,
    ) == ledger_supply(pre.ledger) && ledger_minter(post.ledger) == ledger_minter(pre.ledger)
        && ledger_token_meta(post.ledger) == ledger_token_meta(pre.ledger))
    &&& (r matches Ok(resp) ==> resp.messages@.len() == 0)
    &&& (r matches Ok(resp) ==> is_action_log(resp.log@, "increase_allowance"@))
}

/// Everything a completed allowance decrease owes.  Taking the whole
/// grant (or more) drops the record.
pub open spec fn decrease_allowance_post(
    pre: TokenContract,
    post: TokenContract,
    caller: Seq<char>,
    spender: Seq<char>,
    amount: u128,
    expires: Option<Expire>,
    r: Result<Response, TokenError>,
) -> bool {
    let alw = ledger_allowances(pre.ledger);
    let cur = allowance_of(alw, caller, spender);
    &&& post.reward_contract@ == pre.reward_contract@
    &&& (r matches Err(TokenError::InvalidAddress) <==> !addr_valid(spender))
    &&& !(r matches Err(TokenError::Overflow))
    &&& (r matches Err(TokenError::Ledger(_)) <==> (addr_valid(spender) && !(spender != caller
        && alw.contains_key((caller, spender)) && (amount < cur ==> (expires matches Some(e)
        ==> !expire_passed(e))))))
    &&& (r is Ok <==> (addr_valid(spender) && spender != caller && alw.contains_key(
        (caller, spender),
    ) && (amount < cur ==> (expires matches Some(e) ==> !expire_passed(e)))))
    &&& (r is Err ==> same_ledger_state(post.ledger, pre.ledger) && ledger_allowance_expiries(
        post.ledger,
    ) == ledger_allowance_expiries(pre.ledger))
    &&& (r is Ok && amount < cur ==> ledger_allowances(post.ledger) == alw.insert(
        (caller, spender),
        (cur - amount) as u128,
    ))
    &&& (r is Ok && amount >= cur ==> ledger_allowances(post.ledger) == alw.remove(
        (caller, spender),
    ))
    &&& (r is Ok && amount < cur ==> ledger_allowance_expiries(post.ledger)
        == ledger_allowance_expiries(pre.ledger).insert(
        (caller, spender),
        (match expires {
            Some(e) => e,
            None => expiry_of(ledger_allowance_expiries(pre.ledger), caller, spender),
        }),
    ))
    &&& (r is Ok && amount >= cur ==> ledger_allowance_expiries(post.ledger)
        == ledger_allowance_expiries(pre.ledger).remove((caller, spender)))
    &&& (r is Ok ==> ledger_balances(post.ledger) == ledger_balances(pre.ledger) && ledger_supply(
        post.ledger,
    ) == ledger_supply(pre.ledger) && ledger_minter(post.ledger) == ledger_minter(pre.ledger)
        && ledger_token_meta(post.ledger) == ledger_token_meta(pre.ledger))
    &&& (r matches Ok(resp) ==> resp.messages@.len() == 0)
    &&& (r matches Ok(resp) ==> is_action_log(resp.log@, "decrease_allowance"@))
}

/// Transfer `amount` from the caller to `recipient` and schedule the two
/// mirror calls.
pub fn execute_transfer(t: &mut TokenContract, caller: &str, recipient: &str, amount: u128) -> (r:
    Result<Response, TokenError>)
    ensures
        transfer_post(*old(t), *final(t), caller@, recipient@, amount, r),
{
    if !validate(recipient) {
        return Err(TokenError::InvalidAddress);
    }
    let reward = match humanize(t.reward_contract.as_slice()) {
        Some(h) => h,
        None => {
            return Err(TokenError::InvalidAddress);
        },
    };
    let rbal = match ledger_query_balance(&t.ledger, recipient) {
        Some(v) => v,
        None => {
            // Dead branch: the balance query answers every validated address.
            proof {
                assert(false);
            }
            return Err(TokenError::InvalidAddress);
        },
    };
    let distinct = !(caller.to_owned() == recipient.to_owned());
    if distinct && amount > u128::MAX - rbal {
        return Err(TokenError::Overflow);
    }
    match ledger_transfer(&mut t.ledger, caller, recipient, amount) {
        Err(e) => Err(TokenError::Ledger(e)),
        Ok(()) => {
            let action = LedgerAction::Transfer {
                from: caller.to_owned(),
                to: recipient.to_owned(),
                amount,
            };
            let messages = mirror_calls(action, reward.as_str());
            Ok(Response { messages, log: action_log("transfer") })
        },
    }
}

/// Move `amount` from the caller to the destination contract, schedule
/// the two mirror calls, and notify the destination with the payload.
pub fn execute_send(
    t: &mut TokenContract,
    caller: &str,
    contract: &str,
    amount: u128,
    payload: Option<Vec<u8>>,
) -> (r: Result<Response, TokenError>)
    ensures
        send_post(
            *old(t),
            *final(t),
            caller@,
            contract@,
            amount,
            crate::msg::payload_view(payload),
            r,
        ),
{
    if !validate(contract) {
        return Err(TokenError::InvalidAddress);
    }
    let reward = match humanize(t.reward_contract.as_slice()) {
        Some(h) => h,
        None => {
            return Err(TokenError::InvalidAddress);
        },
    };
    let rbal = match ledger_query_balance(&t.ledger, contract) {
        Some(v) => v,
        None => {
            // Dead branch: the balance query answers every validated address.
            proof {
                assert(false);
            }
            return Err(TokenError::InvalidAddress);
        },
    };
    let distinct = !(caller.to_owned() == contract.to_owned());
    if distinct && amount > u128::MAX - rbal {
        return Err(TokenError::Overflow);
    }
    match ledger_transfer(&mut t.ledger, caller, contract, amount) {
        Err(e) => Err(TokenError::Ledger(e)),
        Ok(()) => {
            let action = LedgerAction::Send {
                from: caller.to_owned(),
                contract: contract.to_owned(),
                amount,
                payload,
            };
            let messages = mirror_calls(action, reward.as_str());
            Ok(Response { messages, log: action_log("send") })
        },
    }
}

/// Burn `amount` from the caller and schedule the single mirror call.
pub fn execute_burn(t: &mut TokenContract, caller: &str, amount: u128) -> (r: Result<
    Response,
    TokenError,
>)
    ensures
        burn_post(*old(t), *final(t), caller@, amount, r),
{
    let reward = match humanize(t.reward_contract.as_slice()) {
        Some(h) => h,
        None => {
            return Err(TokenError::InvalidAddress);
        },
    };
    let supply = match ledger_query_token_info(&t.ledger) {
        Ok(ti) => ti.3,
        Err(e) => {
            return Err(TokenError::Ledger(e));
        },
    };
    if amount > supply {
        return Err(TokenError::Overflow);
    }
    match ledger_burn(&mut t.ledger, caller, amount) {
        Err(e) => Err(TokenError::Ledger(e)),
        Ok(()) => {
            let action = LedgerAction::Burn { from: caller.to_owned(), amount };
            let messages = mirror_calls(action, reward.as_str());
            Ok(Response { messages, log: action_log("burn") })
        },
    }
}

/// Mint `amount` to `recipient` and schedule the single mirror call.
pub fn execute_mint(t: &mut TokenContract, caller: &str, recipient: &str, amount: u128) -> (r:
    Result<Response, TokenError>)
    ensures
        mint_post(*old(t), *final(t), caller@, recipient@, amount, r),
{
    if !validate(recipient) {
        return Err(TokenError::InvalidAddress);
    }
    let reward = match humanize(t.reward_contract.as_slice()) {
        Some(h) => h,
        None => {
            return Err(TokenError::InvalidAddress);
        },
    };
    let supply = match ledger_query_token_info(&t.ledger) {
        Ok(ti) => ti.3,
        Err(_) => 0,
    };
    let rbal = match ledger_query_balance(&t.ledger, recipient) {
        Some(v) => v,
        None => {
            // Dead branch: the balance query answers every validated address.
            proof {
                assert(false);
            }
            return Err(TokenError::InvalidAddress);
        },
    };
    if amount > u128::MAX - supply || amount > u128::MAX - rbal {
        return Err(TokenError::Overflow);
    }
    match ledger_mint(&mut t.ledger, caller, recipient, amount) {
        Err(e) => Err(TokenError::Ledger(e)),
        Ok(()) => {
            let action = LedgerAction::Mint { to: recipient.to_owned(), amount };
            let messages = mirror_calls(action, reward.as_str());
            Ok(Response { messages, log: action_log("mint") })
        },
    }
}

/// Spend the caller's allowance to transfer `amount` from `owner` to
/// `recipient`, scheduling the two mirror calls.
pub fn execute_transfer_from(
    t: &mut TokenContract,
    caller: &str,
    owner: &str,
    recipient: &str,
    amount: u128,
) -> (r: Result<Response, TokenError>)
    ensures
        transfer_from_post(*old(t), *final(t), caller@, owner@, recipient@, amount, r),
{
    if !validate(owner) || !validate(recipient) {
        return Err(TokenError::InvalidAddress);
    }
    let reward = match humanize(t.reward_contract.as_slice()) {
        Some(h) => h,
        None => {
            return Err(TokenError::InvalidAddress);
        },
    };
    let rbal = match ledger_query_balance(&t.ledger, recipient) {
        Some(v) => v,
        None => {
            // Dead branch: the balance query answers every validated address.
            proof {
                assert(false);
            }
            return Err(TokenError::InvalidAddress);
        },
    };
    let distinct = !(owner.to_owned() == recipient.to_owned());
    if distinct && amount > u128::MAX - rbal {
        return Err(TokenError::Overflow);
    }
    match ledger_transfer_from(&mut t.ledger, caller, owner, recipient, amount) {
        Err(e) => Err(TokenError::Ledger(e)),
        Ok(()) => {
            let action = LedgerAction::TransferFrom {
                owner: owner.to_owned(),
                recipient: recipient.to_owned(),
                amount,
            };
            let messages = mirror_calls(action, reward.as_str());
            Ok(Response { messages, log: action_log("transfer_from") })
        },
    }
}

/// Spend the caller's allowance to move `amount` from `owner` to the
/// destination contract, scheduling the two mirror calls and the
/// receiver notification (naming the caller as sender).
pub fn execute_send_from(
    t: &mut TokenContract,
    caller: &str,
    owner: &str,
    contract: &str,
    amount: u128,
    payload: Option<Vec<u8>>,
) -> (r: Result<Response, TokenError>)
    ensures
        send_from_post(
            *old(t),
            *final(t),
            caller@,
            owner@,
            contract@,
            amount,
            crate::msg::payload_view(payload),
            r,
        ),
{
    if !validate(owner) || !validate(contract) {
        return Err(TokenError::InvalidAddress);
    }
    let reward = match humanize(t.reward_contract.as_slice()) {
        Some(h) => h,
        None => {
            return Err(TokenError::InvalidAddress);
        },
    };
    let rbal = match ledger_query_balance(&t.ledger, contract) {
        Some(v) => v,
        None => {
            // Dead branch: the balance query answers every validated address.
            proof {
                assert(false);
            }
            return Err(TokenError::InvalidAddress);
        },
    };
    let distinct = !(owner.to_owned() == contract.to_owned());
    if distinct && amount > u128::MAX - rbal {
        return Err(TokenError::Overflow);
    }
    match ledger_transfer_from(&mut t.ledger, caller, owner, contract, amount) {
        Err(e) => Err(TokenError::Ledger(e)),
        Ok(()) => {
            let action = LedgerAction::SendFrom {
                owner: owner.to_owned(),
                caller: caller.to_owned(),
                contract: contract.to_owned(),
                amount,
                payload,
            };
            let messages = mirror_calls(action, reward.as_str());
            Ok(Response { messages, log: action_log("send_from") })
        },
    }
}

/// Spend the caller's allowance to burn `amount` from `owner`,
/// scheduling the single mirror call.
pub fn execute_burn_from(t: &mut TokenContract, caller: &str, owner: &str, amount: u128) -> (r:
    Result<Response, TokenError>)
    ensures
        burn_from_post(*old(t), *final(t), caller@, owner@, amount, r),
{
    if !validate(owner) {
        return Err(TokenError::InvalidAddress);
    }
    let reward = match humanize(t.reward_contract.as_slice()) {
        Some(h) => h,
        None => {
            return Err(TokenError::InvalidAddress);
        },
    };
    let supply = match ledger_query_token_info(&t.ledger) {
        Ok(ti) => ti.3,
        Err(e) => {
            return Err(TokenError::Ledger(e));
        },
    };
    if amount > supply {
        return Err(TokenError::Overflow);
    }
    match ledger_burn_from(&mut t.ledger, caller, owner, amount) {
        Err(e) => Err(TokenError::Ledger(e)),
        Ok(()) => {
            let action = LedgerAction::BurnFrom { owner: owner.to_owned(), amount };
            let messages = mirror_calls(action, reward.as_str());
            Ok(Response { messages, log: action_log("burn_from") })
        },
    }
}

/// Raise the caller's allowance for `spender`.  No balance moves, so no
/// mirror call is scheduled.
pub fn execute_increase_allowance(
    t: &mut TokenContract,
    caller: &str,
    spender: &str,
    amount: u128,
    expires: Option<Expire>,
) -> (r: Result<Response, TokenError>)
    ensures
        increase_allowance_post(*old(t), *final(t), caller@, spender@, amount, expires, r),
{
    if !validate(spender) {
        return Err(TokenError::InvalidAddress);
    }
    let current = ledger_allowance_amount(&t.ledger, caller, spender);
    if amount > u128::MAX - current {
        return Err(TokenError::Overflow);
    }
    match ledger_increase_allowance(&mut t.ledger, caller, spender, amount, &expires) {
        Err(e) => Err(TokenError::Ledger(e)),
        Ok(()) => Ok(
            Response { messages: Vec::new(), log: action_log("increase_allowance") },
        ),
    }
}

/// Lower the caller's allowance for `spender`, dropping the record once
/// the whole grant is taken.  No balance moves, so no mirror call is
/// scheduled.
pub fn execute_decrease_allowance(
    t: &mut TokenContract,
    caller: &str,
    spender: &str,
    amount: u128,
    expires: Option<Expire>,
) -> (r: Result<Response, TokenError>)
    ensures
        decrease_allowance_post(*old(t), *final(t), caller@, spender@, amount, expires, r),
{
    if !validate(spender) {
        return Err(TokenError::InvalidAddress);
    }
    match ledger_decrease_allowance(&mut t.ledger, caller, spender, amount, &expires) {
        Err(e) => Err(TokenError::Ledger(e)),
        Ok(()) => Ok(
            Response { messages: Vec::new(), log: action_log("decrease_allowance") },
        ),
    }
}

/// Dispatch one inbound command: validate its addresses, run the base
/// ledger, and assemble the response with the mirror calls appended.
pub fn execute(t: &mut TokenContract, caller: &str, msg: ExecuteMsg) -> (r: Result<
    Response,
    TokenError,
>)
    ensures
        msg matches ExecuteMsg::Transfer { recipient, amount } ==> transfer_post(
            *old(t),
            *final(t),
            caller@,
            recipient@,
            amount,
            r,
        ),
        msg matches ExecuteMsg::Burn { amount } ==> burn_post(
            *old(t),
            *final(t),
            caller@,
            amount,
            r,
        ),
        msg matches ExecuteMsg::Send { contract, amount, msg: payload } ==> send_post(
            *old(t),
            *final(t),
            caller@,
            contract@,
            amount,
            crate::msg::payload_view(payload),
            r,
        ),
        msg matches ExecuteMsg::Mint { recipient, amount } ==> mint_post(
            *old(t),
            *final(t),
            caller@,
            recipient@,
            amount,
            r,
        ),
        msg matches ExecuteMsg::IncreaseAllowance { spender, amount, expires }
            ==> increase_allowance_post(
            *old(t),
            *final(t),
            caller@,
            spender@,
            amount,
            expires,
            r,
        ),
        msg matches ExecuteMsg::DecreaseAllowance { spender, amount, expires }
            ==> decrease_allowance_post(
            *old(t),
            *final(t),
            caller@,
            spender@,
            amount,
            expires,
            r,
        ),
        msg matches ExecuteMsg::TransferFrom { owner, recipient, amount } ==> transfer_from_post(
            *old(t),
            *final(t),
            caller@,
            owner@,
            recipient@,
            amount,
            r,
        ),
        msg matches ExecuteMsg::BurnFrom { owner, amount } ==> burn_from_post(
            *old(t),
            *final(t),
            caller@,
            owner@,
            amount,
            r,
        ),
        msg matches ExecuteMsg::SendFrom { owner, contract, amount, msg: payload }
            ==> send_from_post(
            *old(t),
            *final(t),
            caller@,
            owner@,
            contract@,
            amount,
            crate::msg::payload_view(payload),
            r,
        ),
{
    match msg {
        ExecuteMsg::Transfer { recipient, amount } => execute_transfer(
            t,
            caller,
            recipient.as_str(),
            amount,
        ),
        ExecuteMsg::Burn { amount } => execute_burn(t, caller, amount),
        ExecuteMsg::Send { contract, amount, msg } => execute_send(
            t,
            caller,
            contract.as_str(),
            amount,
            msg,
        ),
        ExecuteMsg::Mint { recipient, amount } => execute_mint(
            t,
            caller,
            recipient.as_str(),
            amount,
        ),
        ExecuteMsg::IncreaseAllowance { spender, amount, expires } => execute_increase_allowance(
            t,
            caller,
            spender.as_str(),
            amount,
            expires,
        ),
        ExecuteMsg::DecreaseAllowance { spender, amount, expires } => execute_decrease_allowance(
            t,
            caller,
            spender.as_str(),
            amount,
            expires,
        ),
        ExecuteMsg::TransferFrom { owner, recipient, amount } => execute_transfer_from(
            t,
            caller,
            owner.as_str(),
            recipient.as_str(),
            amount,
        ),
        ExecuteMsg::BurnFrom { owner, amount } => execute_burn_from(
            t,
            caller,
            owner.as_str(),
            amount,
        ),
        ExecuteMsg::SendFrom { owner, contract, amount, msg } => execute_send_from(
            t,
            caller,
            owner.as_str(),
            contract.as_str(),
            amount,
            msg,
        ),
    }
}

proof fn lemma_sum_take_succ(s: Seq<InitialBalance>, i: int)
    requires
        0 <= i < s.len(),
    ensures
        sum_amounts(s.take(i + 1)) == sum_amounts(s.take(i)) + s[i].amount,
{
    assert(s.take(i + 1).drop_last() =~= s.take(i));
    assert(s.take(i + 1).last() == s[i]);
}

proof fn lemma_sum_take_le(s: Seq<InitialBalance>, i: int)
    requires
        0 <= i <= s.len(),
    ensures
        sum_amounts(s.take(i)) <= sum_amounts(s),
    decreases s.len() - i,
{
    if i == s.len() {
        assert(s.take(i) =~= s);
    } else {
        lemma_sum_take_succ(s, i);
        lemma_sum_take_le(s, i + 1);
    }
}

/// Instantiate the token contract: bind the reward contract's canonical
/// address, then set up the base ledger with the token metadata, the
/// initial accounts, and the mint authority.
pub fn instantiate(msg: TokenInstantiateMsg) -> (r: Result<(TokenContract, Response), TokenError>)
    ensures
        r matches Err(TokenError::InvalidAddress) <==> canon_of(msg.reward_contract@) is None,
        r matches Err(TokenError::Overflow) <==> (canon_of(msg.reward_contract@) is Some
            && sum_amounts(msg.initial_balances@) > u128::MAX),
        r matches Err(TokenError::Ledger(_)) <==> (canon_of(msg.reward_contract@) is Some
            && sum_amounts(msg.initial_balances@) <= u128::MAX && !instantiate_accepted(
            msg.name@,
            msg.symbol@,
            msg.decimals,
            msg.initial_balances@,
            msg.mint,
        )),
        r is Ok <==> (canon_of(msg.reward_contract@) is Some && sum_amounts(
            msg.initial_balances@,
        ) <= u128::MAX && instantiate_accepted(
            msg.name@,
            msg.symbol@,
            msg.decimals,
            msg.initial_balances@,
            msg.mint,
        )),
        r matches Ok(p) ==> p.0.reward_contract@ == canon_of(msg.reward_contract@).unwrap(),
        r matches Ok(p) ==> ledger_token_meta(p.0.ledger) == (
            msg.name@,
            msg.symbol@,
            msg.decimals,
        ),
        r matches Ok(p) ==> ledger_supply(p.0.ledger) == sum_amounts(msg.initial_balances@),
        r matches Ok(p) ==> ledger_balances(p.0.ledger) == balances_from(msg.initial_balances@),
        r matches Ok(p) ==> ledger_minter(p.0.ledger) == minter_view(msg.mint),
        r matches Ok(p) ==> ledger_allowances(p.0.ledger) == (Map::<
            (Seq<char>, Seq<char>),
            u128,
        >::empty()),
        r matches Ok(p) ==> ledger_allowance_expiries(p.0.ledger) == (Map::<
            (Seq<char>, Seq<char>),
            Expire,
        >::empty()),
        r matches Ok(p) ==> p.1.messages@.len() == 0 && p.1.log@.len() == 0,
{
    let canon = match canonicalize(msg.reward_contract.as_str()) {
        Some(c) => c,
        None => {
            return Err(TokenError::InvalidAddress);
        },
    };
    let n = msg.initial_balances.len();
    let mut total: u128 = 0;
    let mut i: usize = 0;
    while i < n
        invariant
            n == msg.initial_balances.len(),
            i <= n,
            total == sum_amounts(msg.initial_balances@.take(i as int)),
            canon_of(msg.reward_contract@) is Some,
        decreases n - i,
    {
        let amt = msg.initial_balances[i].amount;
        proof {
            lemma_sum_take_succ(msg.initial_balances@, i as int);
        }
        total = match total.checked_add(amt) {
            Some(v) => v,
            None => {
                proof {
                    lemma_sum_take_le(msg.initial_balances@, i as int + 1);
                }
                return Err(TokenError::Overflow);
            },
        };
        i = i + 1;
    }
    proof {
        assert(msg.initial_balances@.take(n as int) =~= msg.initial_balances@);
    }
    let mut ledger = Ledger::new();
    match ledger_instantiate(
        &mut ledger,
        msg.name.as_str(),
        msg.symbol.as_str(),
        msg.decimals,
        &msg.initial_balances,
        &msg.mint,
    ) {
        Ok(()) => Ok(
            (
                TokenContract { reward_contract: canon, ledger },
                Response { messages: Vec::new(), log: Vec::new() },
            ),
        ),
        Err(e) => Err(TokenError::Ledger(e)),
    }
}

/// Answer one query, delegated to the base ledger's records.
pub fn query(t: &TokenContract, msg: QueryMsg) -> (r: Result<QueryAnswer, TokenError>)
    ensures
        msg matches QueryMsg::Balance { address } ==> (if addr_valid(address@) {
            r == Ok::<QueryAnswer, TokenError>(
                (QueryAnswer::Balance { balance: bal_of(ledger_balances(t.ledger), address@) }),
            )
        } else {
            r matches Err(TokenError::InvalidAddress)
        }),
        msg matches QueryMsg::TokenInfo ==> ({
            &&& (r is Ok <==> ledger_initialized(t.ledger))
            &&& (r matches Ok(a) ==> (a matches QueryAnswer::TokenInfo {
                name,
                symbol,
                decimals,
                total_supply,
            } && ledger_token_meta(t.ledger) == (name@, symbol@, decimals) && total_supply
                == ledger_supply(t.ledger)))
            &&& (r is Err ==> (r matches Err(TokenError::Ledger(_)) && ledger_minter(t.ledger)
                is None && ledger_supply(t.ledger) == 0))
        }),
        msg matches QueryMsg::Minter ==> ({
            &&& (r is Ok <==> ledger_initialized(t.ledger))
            &&& (r matches Ok(a) ==> (a matches QueryAnswer::Minter { minter } && minter_view(
                minter,
            ) == ledger_minter(t.ledger)))
            &&& (r is Err ==> (r matches Err(TokenError::Ledger(_)) && ledger_minter(t.ledger)
                is None))
        }),
        msg matches QueryMsg::Allowance { owner, spender } ==> (if addr_valid(owner@)
            && addr_valid(spender@) {
            r == Ok::<QueryAnswer, TokenError>(
                (QueryAnswer::Allowance {
                    allowance: allowance_of(ledger_allowances(t.ledger), owner@, spender@),
                }),
            )
        } else {
            r matches Err(TokenError::InvalidAddress)
        }),
{
    match msg {
        QueryMsg::Balance { address } => {
            match ledger_query_balance(&t.ledger, address.as_str()) {
                Some(balance) => Ok(QueryAnswer::Balance { balance }),
                None => Err(TokenError::InvalidAddress),
            }
        },
        QueryMsg::TokenInfo => {
            match ledger_query_token_info(&t.ledger) {
                Ok(ti) => Ok(
                    QueryAnswer::TokenInfo {
                        name: ti.0,
                        symbol: ti.1,
                        decimals: ti.2,
                        total_supply: ti.3,
                    },
                ),
                Err(e) => Err(TokenError::Ledger(e)),
            }
        },
        QueryMsg::Minter => {
            match ledger_query_minter(&t.ledger) {
                Ok(minter) => Ok(QueryAnswer::Minter { minter }),
                Err(e) => Err(TokenError::Ledger(e)),
            }
        },
        QueryMsg::Allowance { owner, spender } => {
            match ledger_query_allowance(&t.ledger, owner.as_str(), spender.as_str()) {
                Some(allowance) => Ok(QueryAnswer::Allowance { allowance }),
                None => Err(TokenError::InvalidAddress),
            }
        },
    }
}

} // verus!
