//! The base token ledger: an external collaborator that owns balances,
//! allowances, total supply and the mint authority.  The library holds it
//! behind the opaque `Ledger` store and calls it only through the trusted
//! operations below; everything the contracts say about it goes through
//! the named state observers (`ledger_initialized`, `ledger_balances`,
//! `ledger_supply`, `ledger_minter`, `ledger_token_meta`,
//! `ledger_allowances`, `ledger_allowance_expiries`).
//!
//! Absent records read as empty: an account without an entry has balance
//! zero, a missing grant has allowance zero and no deadline, and a
//! ledger whose token record is not yet written has supply zero and no
//! minter.

use cosmwasm_std::testing::{MockApi, MockQuerier, MockStorage};
use cosmwasm_std::{Empty, OwnedDeps, Storage};
use vstd::prelude::*;

use crate::addr::addr_valid;
use crate::msg::{Expire, InitialBalance, MinterInfo};

verus! {

/// The base ledger's whole persisted state, opaque to the library's logic.
#[verifier::external_body]
pub struct Ledger {
    deps: OwnedDeps<MockStorage, MockApi, MockQuerier, Empty>,
}

/// The error type of the base ledger, passed through unchanged.
#[verifier::external_type_specification]
#[verifier::external_body]
pub struct ExContractError(cw20_base::ContractError);

/// Whether the ledger's token record has been written at all.
pub uninterp spec fn ledger_initialized(l: Ledger) -> bool;

/// Account balances held by the ledger, keyed by address.
pub uninterp spec fn ledger_balances(l: Ledger) -> Map<Seq<char>, u128>;

/// Total supply recorded by the ledger.
pub uninterp spec fn ledger_supply(l: Ledger) -> u128;

/// The mint authority and its optional cap, if any is configured.
pub uninterp spec fn ledger_minter(l: Ledger) -> Option<(Seq<char>, Option<u128>)>;

/// Name, symbol and decimals of the token record.
pub uninterp spec fn ledger_token_meta(l: Ledger) -> (Seq<char>, Seq<char>, u8);

/// Allowance amounts held by the ledger, keyed by (owner, spender).
pub uninterp spec fn ledger_allowances(l: Ledger) -> Map<(Seq<char>, Seq<char>), u128>;

/// Deadlines of the allowance records, keyed by (owner, spender).
pub uninterp spec fn ledger_allowance_expiries(l: Ledger) -> Map<(Seq<char>, Seq<char>), Expire>;

/// Acceptance of the token metadata by the base ledger (name and symbol
/// lengths, the symbol's alphabet, the decimals bound); a function of
/// the three arguments alone.
pub uninterp spec fn token_meta_ok(name: Seq<char>, symbol: Seq<char>, decimals: u8) -> bool;

/// Balance of `a`, zero when no entry exists.
pub open spec fn bal_of(m: Map<Seq<char>, u128>, a: Seq<char>) -> u128 {
    if m.contains_key(a) {
        m[a]
    } else {
        0
    }
}

/// Allowance granted by `owner` to `spender`, zero when no entry exists.
pub open spec fn allowance_of(
    m: Map<(Seq<char>, Seq<char>), u128>,
    owner: Seq<char>,
    spender: Seq<char>,
) -> u128 {
    if m.contains_key((owner, spender)) {
        m[(owner, spender)]
    } else {
        0
    }
}

/// Deadline on the allowance granted by `owner` to `spender`; an absent
/// record reads as never expiring, matching the ledger's default.
pub open spec fn expiry_of(
    m: Map<(Seq<char>, Seq<char>), Expire>,
    owner: Seq<char>,
    spender: Seq<char>,
) -> Expire {
    if m.contains_key((owner, spender)) {
        m[(owner, spender)]
    } else {
        Expire::Never
    }
}

/// Every listed account address is one the codec accepts.
pub open spec fn accounts_valid(s: Seq<InitialBalance>) -> bool {
    forall|i: int| 0 <= i < s.len() ==> addr_valid(#[trigger] s[i].address@)
}

/// No two listed accounts name the same address.
pub open spec fn accounts_distinct(s: Seq<InitialBalance>) -> bool {
    forall|i: int, j: int| #![trigger s[i], s[j]] 0 <= i < j < s.len() ==> s[i].address@
        != s[j].address@
}

/// Balances after moving `amount` from `from` to `to`, written as the
/// ledger writes it: the debit first, then the credit.
pub open spec fn apply_move(
    m: Map<Seq<char>, u128>,
    from: Seq<char>,
    to: Seq<char>,
    amount: u128,
) -> Map<Seq<char>, u128> {
    let debited = m.insert(from, (bal_of(m, from) - amount) as u128);
    debited.insert(to, (bal_of(debited, to) + amount) as u128)
}

/// Everything the observers can tell apart is the same in `a` and `b`.
pub open spec fn same_ledger_state(a: Ledger, b: Ledger) -> bool {
    &&& ledger_balances(a) == ledger_balances(b)
    &&& ledger_supply(a) == ledger_supply(b)
    &&& ledger_minter(a) == ledger_minter(b)
    &&& ledger_token_meta(a) == ledger_token_meta(b)
    &&& ledger_allowances(a) == ledger_allowances(b)
    &&& ledger_allowance_expiries(a) == ledger_allowance_expiries(b)
    &&& ledger_initialized(a) == ledger_initialized(b)
}

/// The minter and cap named by an optional `MinterInfo`.
pub open spec fn minter_view(m: Option<MinterInfo>) -> Option<(Seq<char>, Option<u128>)> {
    match m {
        None => None,
        Some(mi) => Some((mi.minter@, mi.cap)),
    }
}

/// Sum of the amounts of a list of initial balances.
pub open spec fn sum_amounts(s: Seq<InitialBalance>) -> int
    decreases s.len(),
{
    if s.len() == 0 {
        0
    } else {
        sum_amounts(s.drop_last()) + s.last().amount
    }
}

/// Balances holding exactly the listed initial accounts.
pub open spec fn balances_from(s: Seq<InitialBalance>) -> Map<Seq<char>, u128>
    decreases s.len(),
{
    if s.len() == 0 {
        Map::empty()
    } else {
        balances_from(s.drop_last()).insert(s.last().address@, s.last().amount)
    }
}

/// Exactly the instantiations the base ledger accepts: well-formed token
/// metadata, valid and pairwise-distinct initial accounts, a valid mint
/// authority when one is named, and a cap covering the initial supply.
pub open spec fn instantiate_accepted(
    name: Seq<char>,
    symbol: Seq<char>,
    decimals: u8,
    accounts: Seq<InitialBalance>,
    mint: Option<MinterInfo>,
) -> bool {
    &&& token_meta_ok(name, symbol, decimals)
    &&& accounts_valid(accounts)
    &&& accounts_distinct(accounts)
    &&& (mint matches Some(m) ==> addr_valid(m.minter@))
    &&& (mint matches Some(m) && m.cap matches Some(c) ==> sum_amounts(accounts) <= c)
}

/// Whether a deadline has already passed on the host block under which
/// the trusted operations below execute (height 12345, time
/// 1571797419879305533 ns).
pub open spec fn expire_passed(e: Expire) -> bool {
    match e {
        Expire::AtHeight(h) => h <= 12345,
        Expire::AtTime(t) => t <= 1571797419879305533,
        Expire::Never => false,
    }
}

impl Ledger {
    /// Relies on cosmwasm_std::testing::mock_dependencies: a fresh store
    /// holds no records at all.
    #[verifier::external_body]
    pub(crate) fn new() -> (r: Ledger)
        ensures
            !ledger_initialized(r),
            ledger_balances(r) == (Map::<Seq<char>, u128>::empty()),
            ledger_supply(r) == 0,
            ledger_minter(r) is None,
            ledger_allowances(r) == (Map::<(Seq<char>, Seq<char>), u128>::empty()),
            ledger_allowance_expiries(r) == (Map::<(Seq<char>, Seq<char>), Expire>::empty()),
    {
        Ledger { deps: cosmwasm_std::testing::mock_dependencies() }
    }
}

/// Relies on cw20_base::contract::instantiate: writes the token record
/// (name, symbol, decimals, minter) and one balance entry per listed
/// account, with the total supply their sum, enforcing the mint cap and
/// rejecting duplicate or invalid accounts and malformed token metadata.
#[verifier::external_body]
pub(crate) fn ledger_instantiate(
    l: &mut Ledger,
    name: &str,
    symbol: &str,
    decimals: u8,
    initial_balances: &Vec<InitialBalance>,
    mint: &Option<MinterInfo>,
) -> (r: Result<(), cw20_base::ContractError>)
    requires
        !ledger_initialized(*old(l)),
        ledger_balances(*old(l)) == (Map::<Seq<char>, u128>::empty()),
        sum_amounts(initial_balances@) <= u128::MAX,
    ensures
        r is Ok <==> instantiate_accepted(name@, symbol@, decimals, initial_balances@, *mint),
        r is Ok ==> token_meta_ok(name@, symbol@, decimals),
        r is Ok ==> ledger_initialized(*final(l)),
        r is Err ==> !ledger_initialized(*final(l)),
        r is Ok ==> ledger_token_meta(*final(l)) == (name@, symbol@, decimals),
        r is Ok ==> ledger_supply(*final(l)) == sum_amounts(initial_balances@),
        r is Ok ==> ledger_balances(*final(l)) == balances_from(initial_balances@),
        r is Ok ==> ledger_minter(*final(l)) == minter_view(*mint),
        ledger_allowances(*final(l)) == ledger_allowances(*old(l)),
        ledger_allowance_expiries(*final(l)) == ledger_allowance_expiries(*old(l)),
{
    let accounts = initial_balances.iter().map(|b| cw20::Cw20Coin {
        address: b.address.clone(), amount: cosmwasm_std::Uint128::new(b.amount),
    }).collect();
    let mint = mint.as_ref().map(|m| cw20::MinterResponse {
        minter: m.minter.clone(), cap: m.cap.map(cosmwasm_std::Uint128::new),
    });
    let msg = cw20_base::msg::InstantiateMsg {
        name: name.to_string(), symbol: symbol.to_string(), decimals,
        initial_balances: accounts, mint, marketing: None,
    };
    let env = cosmwasm_std::testing::mock_env();
    let info = cosmwasm_std::testing::mock_info("", &[]);
    cw20_base::contract::instantiate(l.deps.as_mut(), env, info, msg).map(|_| ())
}

/// Relies on cw20_base::contract::execute_transfer: debits the caller and
/// credits the recipient by exactly `amount`; fails on an invalid
/// recipient or an insufficient balance, and then changes nothing.
#[verifier::external_body]
pub(crate) fn ledger_transfer(l: &mut Ledger, sender: &str, recipient: &str, amount: u128) -> (r:
    Result<(), cw20_base::ContractError>)
    requires
        addr_valid(recipient@) && amount <= bal_of(ledger_balances(*old(l)), sender@) && sender@
            != recipient@ ==> bal_of(ledger_balances(*old(l)), recipient@) + amount <= u128::MAX,
    ensures
        r is Ok <==> addr_valid(recipient@) && amount <= bal_of(
            ledger_balances(*old(l)),
            sender@,
        ),
        r is Ok ==> ledger_balances(*final(l)) == apply_move(
            ledger_balances(*old(l)),
            sender@,
            recipient@,
            amount,
        ),
        r is Err ==> ledger_balances(*final(l)) == ledger_balances(*old(l)),
        ledger_supply(*final(l)) == ledger_supply(*old(l)),
        ledger_minter(*final(l)) == ledger_minter(*old(l)),
        ledger_token_meta(*final(l)) == ledger_token_meta(*old(l)),
        ledger_allowances(*final(l)) == ledger_allowances(*old(l)),
        ledger_allowance_expiries(*final(l)) == ledger_allowance_expiries(*old(l)),
        ledger_initialized(*final(l)) == ledger_initialized(*old(l)),
{
    let env = cosmwasm_std::testing::mock_env();
    let info = cosmwasm_std::testing::mock_info(sender, &[]);
    cw20_base::contract::execute_transfer(
        l.deps.as_mut(),
        env,
        info,
        recipient.to_string(),
        cosmwasm_std::Uint128::new(amount),
    ).map(|_| ())
}

/// Relies on cw20_base::contract::execute_burn: debits the caller and
/// lowers the total supply by exactly `amount`; fails on an insufficient
/// balance, and then changes nothing.
#[verifier::external_body]
pub(crate) fn ledger_burn(l: &mut Ledger, sender: &str, amount: u128) -> (r: Result<
    (),
    cw20_base::ContractError,
>)
    requires
        ledger_initialized(*old(l)),
        amount <= bal_of(ledger_balances(*old(l)), sender@) ==> amount <= ledger_supply(*old(l)),
    ensures
        r is Ok <==> amount <= bal_of(ledger_balances(*old(l)), sender@),
        r is Ok ==> ledger_balances(*final(l)) == ledger_balances(*old(l)).insert(
            sender@,
            (bal_of(ledger_balances(*old(l)), sender@) - amount) as u128,
        ),
        r is Ok ==> ledger_supply(*final(l)) == ledger_supply(*old(l)) - amount,
        r is Err ==> ledger_balances(*final(l)) == ledger_balances(*old(l)),
        r is Err ==> ledger_supply(*final(l)) == ledger_supply(*old(l)),
        ledger_minter(*final(l)) == ledger_minter(*old(l)),
        ledger_token_meta(*final(l)) == ledger_token_meta(*old(l)),
        ledger_allowances(*final(l)) == ledger_allowances(*old(l)),
        ledger_allowance_expiries(*final(l)) == ledger_allowance_expiries(*old(l)),
        ledger_initialized(*final(l)) == ledger_initialized(*old(l)),
{
    let env = cosmwasm_std::testing::mock_env();
    let info = cosmwasm_std::testing::mock_info(sender, &[]);
    cw20_base::contract::execute_burn(
        l.deps.as_mut(),
        env,
        info,
        cosmwasm_std::Uint128::new(amount),
    ).map(|_| ())
}

/// Relies on cw20_base::contract::execute_mint: credits the recipient and
/// raises the total supply by exactly `amount`; fails unless the caller
/// is the configured minter and the cap, if any, is respected, and then
/// changes nothing.
#[verifier::external_body]
pub(crate) fn ledger_mint(l: &mut Ledger, sender: &str, recipient: &str, amount: u128) -> (r:
    Result<(), cw20_base::ContractError>)
    requires
        addr_valid(recipient@),
        ledger_minter(*old(l)) matches Some((m, _)) && m == sender@ ==> ledger_supply(*old(l))
            + amount <= u128::MAX,
        ledger_minter(*old(l)) matches Some((m, _)) && m == sender@ ==> bal_of(
            ledger_balances(*old(l)),
            recipient@,
        ) + amount <= u128::MAX,
    ensures
        r is Ok <==> (ledger_minter(*old(l)) matches Some((m, cap)) && m == sender@ && (
        cap matches Some(c) ==> ledger_supply(*old(l)) + amount <= c)),
        r is Ok ==> ledger_balances(*final(l)) == ledger_balances(*old(l)).insert(
            recipient@,
            (bal_of(ledger_balances(*old(l)), recipient@) + amount) as u128,
        ),
        r is Ok ==> ledger_supply(*final(l)) == ledger_supply(*old(l)) + amount,
        r is Err ==> ledger_balances(*final(l)) == ledger_balances(*old(l)),
        r is Err ==> ledger_supply(*final(l)) == ledger_supply(*old(l)),
        ledger_minter(*final(l)) == ledger_minter(*old(l)),
        ledger_token_meta(*final(l)) == ledger_token_meta(*old(l)),
        ledger_allowances(*final(l)) == ledger_allowances(*old(l)),
        ledger_allowance_expiries(*final(l)) == ledger_allowance_expiries(*old(l)),
        ledger_initialized(*final(l)) == ledger_initialized(*old(l)),
{
    let env = cosmwasm_std::testing::mock_env();
    let info = cosmwasm_std::testing::mock_info(sender, &[]);
    cw20_base::contract::execute_mint(
        l.deps.as_mut(),
        env,
        info,
        recipient.to_string(),
        cosmwasm_std::Uint128::new(amount),
    ).map(|_| ())
}

/// Relies on cw20_base::allowances::execute_transfer_from: deducts the
/// caller's allowance from `owner`, then moves `amount` from `owner` to
/// the recipient.  The operation deducts before it debits, so the body
/// snapshots the store and restores it when the call fails: an error
/// leaves every record as it was.
#[verifier::external_body]
pub(crate) fn ledger_transfer_from(
    l: &mut Ledger,
    sender: &str,
    owner: &str,
    recipient: &str,
    amount: u128,
) -> (r: Result<(), cw20_base::ContractError>)
    requires
        addr_valid(recipient@) && amount <= bal_of(ledger_balances(*old(l)), owner@) && owner@
            != recipient@ ==> bal_of(ledger_balances(*old(l)), recipient@) + amount <= u128::MAX,
    ensures
        r is Ok <==> (addr_valid(recipient@) && addr_valid(owner@) && ledger_allowances(
            *old(l),
        ).contains_key((owner@, sender@)) && !expire_passed(
            expiry_of(ledger_allowance_expiries(*old(l)), owner@, sender@),
        ) && amount <= allowance_of(ledger_allowances(*old(l)), owner@, sender@) && amount
            <= bal_of(ledger_balances(*old(l)), owner@)),
        r is Ok ==> ledger_balances(*final(l)) == apply_move(
            ledger_balances(*old(l)),
            owner@,
            recipient@,
            amount,
        ),
        r is Ok ==> ledger_allowances(*final(l)) == ledger_allowances(*old(l)).insert(
            (owner@, sender@),
            (allowance_of(ledger_allowances(*old(l)), owner@, sender@) - amount) as u128,
        ),
        r is Err ==> ledger_balances(*final(l)) == ledger_balances(*old(l)),
        r is Err ==> ledger_allowances(*final(l)) == ledger_allowances(*old(l)),
        ledger_allowance_expiries(*final(l)) == ledger_allowance_expiries(*old(l)),
        ledger_supply(*final(l)) == ledger_supply(*old(l)),
        ledger_minter(*final(l)) == ledger_minter(*old(l)),
        ledger_token_meta(*final(l)) == ledger_token_meta(*old(l)),
        ledger_initialized(*final(l)) == ledger_initialized(*old(l)),
{
    let env = cosmwasm_std::testing::mock_env();
    let info = cosmwasm_std::testing::mock_info(sender, &[]);
    let saved: Vec<(Vec<u8>, Vec<u8>)> =
        l.deps.storage.range(None, None, cosmwasm_std::Order::Ascending).collect();
    let r = cw20_base::allowances::execute_transfer_from(
        l.deps.as_mut(), env, info,
        owner.to_string(), recipient.to_string(), cosmwasm_std::Uint128::new(amount),
    ).map(|_| ());
    if r.is_err() {
        l.deps.storage = cosmwasm_std::testing::MockStorage::default();
        for (k, v) in saved { l.deps.storage.set(&k, &v); }
    }
    r
}

/// Relies on cw20_base::allowances::execute_burn_from: deducts the
/// caller's allowance from `owner`, then debits `owner` and lowers the
/// total supply by exactly `amount`.  The operation deducts before it
/// debits, so the body snapshots the store and restores it when the
/// call fails: an error leaves every record as it was.
#[verifier::external_body]
pub(crate) fn ledger_burn_from(l: &mut Ledger, sender: &str, owner: &str, amount: u128) -> (r:
    Result<(), cw20_base::ContractError>)
    requires
        ledger_initialized(*old(l)),
        amount <= bal_of(ledger_balances(*old(l)), owner@) ==> amount <= ledger_supply(*old(l)),
    ensures
        r is Ok <==> (addr_valid(owner@) && ledger_allowances(*old(l)).contains_key(
            (owner@, sender@),
        ) && !expire_passed(expiry_of(ledger_allowance_expiries(*old(l)), owner@, sender@))
            && amount <= allowance_of(ledger_allowances(*old(l)), owner@, sender@) && amount
            <= bal_of(ledger_balances(*old(l)), owner@)),
        r is Ok ==> ledger_balances(*final(l)) == ledger_balances(*old(l)).insert(
            owner@,
            (bal_of(ledger_balances(*old(l)), owner@) - amount) as u128,
        ),
        r is Ok ==> ledger_supply(*final(l)) == ledger_supply(*old(l)) - amount,
        r is Ok ==> ledger_allowances(*final(l)) == ledger_allowances(*old(l)).insert(
            (owner@, sender@),
            (allowance_of(ledger_allowances(*old(l)), owner@, sender@) - amount) as u128,
        ),
        r is Err ==> ledger_balances(*final(l)) == ledger_balances(*old(l)),
        r is Err ==> ledger_supply(*final(l)) == ledger_supply(*old(l)),
        r is Err ==> ledger_allowances(*final(l)) == ledger_allowances(*old(l)),
        ledger_allowance_expiries(*final(l)) == ledger_allowance_expiries(*old(l)),
        ledger_minter(*final(l)) == ledger_minter(*old(l)),
        ledger_token_meta(*final(l)) == ledger_token_meta(*old(l)),
        ledger_initialized(*final(l)) == ledger_initialized(*old(l)),
{
    let env = cosmwasm_std::testing::mock_env();
    let info = cosmwasm_std::testing::mock_info(sender, &[]);
    let saved: Vec<(Vec<u8>, Vec<u8>)> =
        l.deps.storage.range(None, None, cosmwasm_std::Order::Ascending).collect();
    let r = cw20_base::allowances::execute_burn_from(
        l.deps.as_mut(), env, info,
        owner.to_string(), cosmwasm_std::Uint128::new(amount),
    ).map(|_| ());
    if r.is_err() {
        l.deps.storage = cosmwasm_std::testing::MockStorage::default();
        for (k, v) in saved { l.deps.storage.set(&k, &v); }
    }
    r
}

/// Relies on cw20_base::allowances::execute_increase_allowance: raises
/// the caller's grant to `spender`; fails on an invalid spender, a grant
/// to oneself, or an already-passed new deadline, and then changes
/// nothing.
#[verifier::external_body]
pub(crate) fn ledger_increase_allowance(
    l: &mut Ledger,
    sender: &str,
    spender: &str,
    amount: u128,
    expires: &Option<Expire>,
) -> (r: Result<(), cw20_base::ContractError>)
    requires
        addr_valid(spender@) && spender@ != sender@ ==> allowance_of(
            ledger_allowances(*old(l)),
            sender@,
            spender@,
        ) + amount <= u128::MAX,
    ensures
        r is Ok <==> (addr_valid(spender@) && spender@ != sender@ && (expires matches Some(e)
            ==> !expire_passed(*e))),
        r is Ok ==> ledger_allowances(*final(l)) == ledger_allowances(*old(l)).insert(
            (sender@, spender@),
            (allowance_of(ledger_allowances(*old(l)), sender@, spender@) + amount) as u128,
        ),
        r is Ok ==> ledger_allowance_expiries(*final(l)) == ledger_allowance_expiries(
            *old(l),
        ).insert(
            (sender@, spender@),
            (match *expires {
                Some(e) => e,
                None => expiry_of(ledger_allowance_expiries(*old(l)), sender@, spender@),
            }),
        ),
        r is Err ==> ledger_allowances(*final(l)) == ledger_allowances(*old(l)),
        r is Err ==> ledger_allowance_expiries(*final(l)) == ledger_allowance_expiries(*old(l)),
        ledger_balances(*final(l)) == ledger_balances(*old(l)),
        ledger_supply(*final(l)) == ledger_supply(*old(l)),
        ledger_minter(*final(l)) == ledger_minter(*old(l)),
        ledger_token_meta(*final(l)) == ledger_token_meta(*old(l)),
        ledger_initialized(*final(l)) == ledger_initialized(*old(l)),
{
    let env = cosmwasm_std::testing::mock_env();
    let info = cosmwasm_std::testing::mock_info(sender, &[]);
    let exp = expires.as_ref().map(|e| match e {
        Expire::AtHeight(h) => cw_utils::Expiration::AtHeight(*h),
        Expire::AtTime(t) => cw_utils::Expiration::AtTime(cosmwasm_std::Timestamp::from_nanos(*t)),
        Expire::Never => cw_utils::Expiration::Never {},
    });
    cw20_base::allowances::execute_increase_allowance(
        l.deps.as_mut(),
        env,
        info,
        spender.to_string(),
        cosmwasm_std::Uint128::new(amount),
        exp,
    ).map(|_| ())
}

/// Relies on cw20_base::allowances::execute_decrease_allowance: lowers
/// the caller's grant to `spender`, dropping the record once the whole
/// grant is taken; fails on an invalid spender, a grant to oneself, a
/// missing record, or an already-passed new deadline, and then changes
/// nothing.
#[verifier::external_body]
pub(crate) fn ledger_decrease_allowance(
    l: &mut Ledger,
    sender: &str,
    spender: &str,
    amount: u128,
    expires: &Option<Expire>,
) -> (r: Result<(), cw20_base::ContractError>)
    ensures
        r is Ok <==> (addr_valid(spender@) && spender@ != sender@ && ledger_allowances(
            *old(l),
        ).contains_key((sender@, spender@)) && (amount < allowance_of(
            ledger_allowances(*old(l)),
            sender@,
            spender@,
        ) ==> (expires matches Some(e) ==> !expire_passed(*e)))),
        r is Ok && amount < allowance_of(ledger_allowances(*old(l)), sender@, spender@)
            ==> ledger_allowances(*final(l)) == ledger_allowances(*old(l)).insert(
            (sender@, spender@),
            (allowance_of(ledger_allowances(*old(l)), sender@, spender@) - amount) as u128,
        ),
        r is Ok && amount >= allowance_of(ledger_allowances(*old(l)), sender@, spender@)
            ==> ledger_allowances(*final(l)) == ledger_allowances(*old(l)).remove(
            (sender@, spender@),
        ),
        r is Ok && amount < allowance_of(ledger_allowances(*old(l)), sender@, spender@)
            ==> ledger_allowance_expiries(*final(l)) == ledger_allowance_expiries(
            *old(l),
        ).insert(
            (sender@, spender@),
            (match *expires {
                Some(e) => e,
                None => expiry_of(ledger_allowance_expiries(*old(l)), sender@, spender@),
            }),
        ),
        r is Ok && amount >= allowance_of(ledger_allowances(*old(l)), sender@, spender@)
            ==> ledger_allowance_expiries(*final(l)) == ledger_allowance_expiries(*old(l)).remove(
            (sender@, spender@),
        ),
        r is Err ==> ledger_allowances(*final(l)) == ledger_allowances(*old(l)),
        r is Err ==> ledger_allowance_expiries(*final(l)) == ledger_allowance_expiries(*old(l)),
        ledger_balances(*final(l)) == ledger_balances(*old(l)),
        ledger_supply(*final(l)) == ledger_supply(*old(l)),
        ledger_minter(*final(l)) == ledger_minter(*old(l)),
        ledger_token_meta(*final(l)) == ledger_token_meta(*old(l)),
        ledger_initialized(*final(l)) == ledger_initialized(*old(l)),
{
    let env = cosmwasm_std::testing::mock_env();
    let info = cosmwasm_std::testing::mock_info(sender, &[]);
    let exp = expires.as_ref().map(|e| match e {
        Expire::AtHeight(h) => cw_utils::Expiration::AtHeight(*h),
        Expire::AtTime(t) => cw_utils::Expiration::AtTime(cosmwasm_std::Timestamp::from_nanos(*t)),
        Expire::Never => cw_utils::Expiration::Never {},
    });
    cw20_base::allowances::execute_decrease_allowance(
        l.deps.as_mut(),
        env,
        info,
        spender.to_string(),
        cosmwasm_std::Uint128::new(amount),
        exp,
    ).map(|_| ())
}

/// Relies on cw20_base::contract::query_balance: reads the balance entry
/// of a valid address, zero when none exists; fails exactly on an
/// invalid address.
#[verifier::external_body]
pub(crate) fn ledger_query_balance(l: &Ledger, address: &str) -> (r: Option<u128>)
    ensures
        r is Some <==> addr_valid(address@),
        r matches Some(v) ==> v == bal_of(ledger_balances(*l), address@),
{
    cw20_base::contract::query_balance(l.deps.as_ref(), address.to_string()).ok().map(
        |b| b.balance.u128(),
    )
}

/// Relies on cw20_base::contract::query_token_info: reads the token
/// record; absent exactly when the ledger was never instantiated, in
/// which case it also has no minter.
#[verifier::external_body]
pub(crate) fn ledger_query_token_info(l: &Ledger) -> (r: Result<
    (String, String, u8, u128),
    cw20_base::ContractError,
>)
    ensures
        r is Ok <==> ledger_initialized(*l),
        r matches Ok(t) ==> ledger_token_meta(*l) == (t.0@, t.1@, t.2) && ledger_supply(*l)
            == t.3,
        r is Err ==> ledger_minter(*l) is None && ledger_supply(*l) == 0,
{
    cw20_base::contract::query_token_info(l.deps.as_ref()).map(
        |t| (t.name, t.symbol, t.decimals, t.total_supply.u128()),
    ).map_err(cw20_base::ContractError::Std)
}

/// Relies on cw20_base::contract::query_minter: reads the mint authority
/// from the token record; an absent record reads as no minter.
#[verifier::external_body]
pub(crate) fn ledger_query_minter(l: &Ledger) -> (r: Result<
    Option<MinterInfo>,
    cw20_base::ContractError,
>)
    ensures
        r is Ok <==> ledger_initialized(*l),
        r matches Ok(m) ==> minter_view(m) == ledger_minter(*l),
        r is Err ==> ledger_minter(*l) is None,
{
    cw20_base::contract::query_minter(l.deps.as_ref()).map(
        |m| m.map(|mr| MinterInfo { minter: mr.minter, cap: mr.cap.map(|c| c.u128()) }),
    ).map_err(cw20_base::ContractError::Std)
}

/// Relies on cw_storage_plus::Map::may_load over the ledger's allowance
/// records: reads the stored allowance amount under the raw (owner,
/// spender) key, zero when no record exists, validating nothing.
#[verifier::external_body]
pub(crate) fn ledger_allowance_amount(l: &Ledger, owner: &str, spender: &str) -> (r: u128)
    ensures
        r == allowance_of(ledger_allowances(*l), owner@, spender@),
{
    let owner_key = cosmwasm_std::Addr::unchecked(owner);
    let spender_key = cosmwasm_std::Addr::unchecked(spender);
    cw20_base::state::ALLOWANCES.may_load(l.deps.as_ref().storage, (&owner_key, &spender_key))
        .ok().flatten().map(|a| a.allowance.u128()).unwrap_or(0)
}

/// Relies on cw20_base::allowances::query_allowance: reads the allowance
/// granted by `owner` to `spender`, zero when no record exists; fails
/// exactly when one of the two addresses is invalid.
#[verifier::external_body]
pub(crate) fn ledger_query_allowance(l: &Ledger, owner: &str, spender: &str) -> (r: Option<u128>)
    ensures
        r is Some <==> (addr_valid(owner@) && addr_valid(spender@)),
        r matches Some(v) ==> v == allowance_of(ledger_allowances(*l), owner@, spender@),
{
    cw20_base::allowances::query_allowance(
        l.deps.as_ref(),
        owner.to_string(),
        spender.to_string(),
    ).ok().map(|a| a.allowance.u128())
}

} // verus!
