//! Data carried into and out of one invocation: commands, balance deltas,
//! outbound calls, responses, and the error taxonomy.

use vstd::prelude::*;

verus! {

/// Which way a mirrored balance moves on the reward contract.
#[derive(Clone, Copy, Debug, PartialEq, Eq, Structural)]
pub enum DeltaKind {
    Increase,
    Decrease,
}

/// One balance movement, to be replayed on the reward contract.
#[derive(Clone, Debug, PartialEq, Eq)]
pub struct BalanceDelta {
    pub kind: DeltaKind,
    pub address: String,
    pub amount: u128,
}

/// Mathematical value of a `BalanceDelta`.
pub struct DeltaView {
    pub kind: DeltaKind,
    pub address: Seq<char>,
    pub amount: u128,
}

impl View for BalanceDelta {
    type V = DeltaView;

    open spec fn view(&self) -> DeltaView {
        DeltaView { kind: self.kind, address: self.address@, amount: self.amount }
    }
}

/// An outbound cross-contract call scheduled by one invocation.  The host
/// dispatches these in list order after the invocation commits.
#[derive(Clone, Debug, PartialEq, Eq)]
pub enum OutboundCall {
    /// Balance-mirror notification addressed to the reward contract.
    Mirror { reward_contract: String, delta: BalanceDelta },
    /// Receiver notification for sends, addressed to the destination
    /// contract and carrying the original attached payload.
    Receive { contract: String, sender: String, amount: u128, payload: Option<Vec<u8>> },
}

/// Mathematical value of an `OutboundCall`.
pub enum CallView {
    Mirror { reward_contract: Seq<char>, delta: DeltaView },
    Receive { contract: Seq<char>, sender: Seq<char>, amount: u128, payload: Option<Seq<u8>> },
}

impl View for OutboundCall {
    type V = CallView;

    open spec fn view(&self) -> CallView {
        match self {
            OutboundCall::Mirror { reward_contract, delta } => (CallView::Mirror {
                reward_contract: reward_contract@,
                delta: delta@,
            }),
            OutboundCall::Receive { contract, sender, amount, payload } => (CallView::Receive {
                contract: contract@,
                sender: sender@,
                amount: *amount,
                payload: match payload {
                    Some(p) => Some(p@),
                    None => None,
                },
            }),
        }
    }
}

/// Values of a sequence of outbound calls.
pub open spec fn calls_view(s: Seq<OutboundCall>) -> Seq<CallView> {
    s.map_values(|c: OutboundCall| c@)
}

/// What one invocation hands back to the host: the ordered outbound call
/// list and the audit log.
#[derive(Clone, Debug, PartialEq, Eq)]
pub struct Response {
    pub messages: Vec<OutboundCall>,
    pub log: Vec<(String, String)>,
}

/// Mathematical value of a `Response`.
pub struct ResponseView {
    pub messages: Seq<CallView>,
    pub log: Seq<(Seq<char>, Seq<char>)>,
}

impl View for Response {
    type V = ResponseView;

    open spec fn view(&self) -> ResponseView {
        ResponseView {
            messages: calls_view(self.messages@),
            log: self.log@.map_values(|a: (String, String)| (a.0@, a.1@)),
        }
    }
}

/// A completed base-ledger operation, as handed to the notifier.
#[derive(Clone, Debug, PartialEq, Eq)]
pub enum LedgerAction {
    Transfer { from: String, to: String, amount: u128 },
    TransferFrom { owner: String, recipient: String, amount: u128 },
    Send { from: String, contract: String, amount: u128, payload: Option<Vec<u8>> },
    SendFrom {
        owner: String,
        caller: String,
        contract: String,
        amount: u128,
        payload: Option<Vec<u8>>,
    },
    Mint { to: String, amount: u128 },
    Burn { from: String, amount: u128 },
    BurnFrom { owner: String, amount: u128 },
}

/// Mathematical value of a `LedgerAction`.
pub enum ActionView {
    Transfer { from: Seq<char>, to: Seq<char>, amount: u128 },
    TransferFrom { owner: Seq<char>, recipient: Seq<char>, amount: u128 },
    Send { from: Seq<char>, contract: Seq<char>, amount: u128, payload: Option<Seq<u8>> },
    SendFrom {
        owner: Seq<char>,
        caller: Seq<char>,
        contract: Seq<char>,
        amount: u128,
        payload: Option<Seq<u8>>,
    },
    Mint { to: Seq<char>, amount: u128 },
    Burn { from: Seq<char>, amount: u128 },
    BurnFrom { owner: Seq<char>, amount: u128 },
}

pub open spec fn payload_view(p: Option<Vec<u8>>) -> Option<Seq<u8>> {
    match p {
        Some(b) => Some(b@),
        None => None,
    }
}

impl View for LedgerAction {
    type V = ActionView;

    open spec fn view(&self) -> ActionView {
        match self {
            LedgerAction::Transfer { from, to, amount } => (ActionView::Transfer {
                from: from@,
                to: to@,
                amount: *amount,
            }),
            LedgerAction::TransferFrom { owner, recipient, amount } => (ActionView::TransferFrom {
                owner: owner@,
                recipient: recipient@,
                amount: *amount,
            }),
            LedgerAction::Send { from, contract, amount, payload } => (ActionView::Send {
                from: from@,
                contract: contract@,
                amount: *amount,
                payload: payload_view(*payload),
            }),
            LedgerAction::SendFrom { owner, caller, contract, amount, payload } => (
            ActionView::SendFrom {
                owner: owner@,
                caller: caller@,
                contract: contract@,
                amount: *amount,
                payload: payload_view(*payload),
            }),
            LedgerAction::Mint { to, amount } => (ActionView::Mint { to: to@, amount: *amount }),
            LedgerAction::Burn { from, amount } => (ActionView::Burn {
                from: from@,
                amount: *amount,
            }),
            LedgerAction::BurnFrom { owner, amount } => (ActionView::BurnFrom {
                owner: owner@,
                amount: *amount,
            }),
        }
    }
}

/// When an allowance stops being usable, measured against the host block.
#[derive(Clone, Copy, Debug, PartialEq, Eq, Structural)]
pub enum Expire {
    /// Expired once the block height reaches the given height.
    AtHeight(u64),
    /// Expired once the block time reaches the given time (in nanoseconds).
    AtTime(u64),
    /// Never expires.
    Never,
}

/// One initial account balance at instantiation.
#[derive(Clone, Debug, PartialEq, Eq)]
pub struct InitialBalance {
    pub address: String,
    pub amount: u128,
}

/// The mint authority and its optional hard cap on total supply.
#[derive(Clone, Debug, PartialEq, Eq)]
pub struct MinterInfo {
    pub minter: String,
    pub cap: Option<u128>,
}

/// The instantiation command: binds the reward contract and sets up the
/// base token ledger.
#[derive(Clone, Debug, PartialEq, Eq)]
pub struct TokenInstantiateMsg {
    pub name: String,
    pub symbol: String,
    pub decimals: u8,
    pub initial_balances: Vec<InitialBalance>,
    pub mint: Option<MinterInfo>,
    pub reward_contract: String,
}

/// The executable commands of the token ledger facade.
#[derive(Clone, Debug, PartialEq, Eq)]
pub enum ExecuteMsg {
    Transfer { recipient: String, amount: u128 },
    Burn { amount: u128 },
    Send { contract: String, amount: u128, msg: Option<Vec<u8>> },
    Mint { recipient: String, amount: u128 },
    IncreaseAllowance { spender: String, amount: u128, expires: Option<Expire> },
    DecreaseAllowance { spender: String, amount: u128, expires: Option<Expire> },
    TransferFrom { owner: String, recipient: String, amount: u128 },
    BurnFrom { owner: String, amount: u128 },
    SendFrom { owner: String, contract: String, amount: u128, msg: Option<Vec<u8>> },
}

/// The query surface, delegated to the base ledger.
#[derive(Clone, Debug, PartialEq, Eq)]
pub enum QueryMsg {
    Balance { address: String },
    TokenInfo,
    Minter,
    Allowance { owner: String, spender: String },
}

/// Typed answers of the query surface.
#[derive(Clone, Debug, PartialEq, Eq)]
pub enum QueryAnswer {
    Balance { balance: u128 },
    TokenInfo { name: String, symbol: String, decimals: u8, total_supply: u128 },
    Minter { minter: Option<MinterInfo> },
    Allowance { allowance: u128 },
}

/// Failures of the token ledger facade.
#[derive(Debug)]
pub enum TokenError {
    /// An address argument failed validation; nothing was executed.
    InvalidAddress,
    /// The operation would overflow a 128-bit amount; nothing was executed.
    Overflow,
    /// The base ledger refused the operation; its error is passed through
    /// unchanged.
    Ledger(cw20_base::ContractError),
}

/// A single audit log entry naming the handled action.
pub(crate) fn action_log(action: &str) -> (r: Vec<(String, String)>)
    ensures
        r@.len() == 1,
        r@[0].0@ == "action"@,
        r@[0].1@ == action@,
{
    let mut log: Vec<(String, String)> = Vec::new();
    log.push(("action".to_owned(), action.to_owned()));
    log
}

/// Failures of the owner-gated configuration handlers.
#[derive(Clone, Copy, Debug, PartialEq, Eq, Structural)]
pub enum OwnerError {
    /// The caller is not the current owner.
    Unauthorized,
    /// An address failed validation or canonicalization.
    InvalidAddress,
}

} // verus!
