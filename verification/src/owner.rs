//! The owner-gated configuration state machine of the reward contract:
//! a single persisted `Config` record, mutable only by its current owner,
//! with a one-time (but unguarded, and therefore repeatable) handshake
//! that binds the token contract's address.

use vstd::prelude::*;

use crate::addr::{canon_of, human_of, canonicalize, humanize};
use crate::msg::{action_log, OwnerError, Response};

verus! {

/// The reward contract's configuration record.
#[derive(Clone, Debug, PartialEq, Eq)]
pub struct Config {
    /// Canonical address of the single account allowed to mutate this record.
    pub owner: Vec<u8>,
    /// Currency/unit identifier used elsewhere by the owning system.
    pub reward_denom: String,
    /// Canonical address of the token ledger contract; unset until the
    /// post-initialize handshake binds it.
    pub token_contract: Option<Vec<u8>>,
}

/// Mathematical value of a `Config`.
pub struct ConfigView {
    pub owner: Seq<u8>,
    pub reward_denom: Seq<char>,
    pub token_contract: Option<Seq<u8>>,
}

impl View for Config {
    type V = ConfigView;

    open spec fn view(&self) -> ConfigView {
        ConfigView {
            owner: self.owner@,
            reward_denom: self.reward_denom@,
            token_contract: match &self.token_contract {
                Some(t) => Some(t@),
                None => None,
            },
        }
    }
}

impl Config {
    /// Build a configuration record owned by `owner`, with no token
    /// contract bound yet.  Fails exactly where the codec rejects `owner`.
    pub fn new(owner: &str, reward_denom: String) -> (r: Option<Config>)
        ensures
            r is Some <==> canon_of(owner@) is Some,
            r matches Some(c) ==> c@ == (ConfigView {
                owner: canon_of(owner@).unwrap(),
                reward_denom: reward_denom@,
                token_contract: None::<Seq<u8>>,
            }),
    {
        match canonicalize(owner) {
            Some(canon) => Some(Config { owner: canon, reward_denom, token_contract: None }),
            None => None,
        }
    }
}

/// The caller-capability check: the caller is the owner exactly when it
/// equals the human-readable form of the stored canonical owner address.
pub open spec fn is_owner(sender: Seq<char>, c: ConfigView) -> bool {
    human_of(c.owner) == Some(sender)
}

/// Outcome of the post-initialize handshake on a configuration value:
/// rejected unless the caller is the owner and the new token contract
/// address canonicalizes; on success the canonical form is bound, and
/// everything else is left untouched.
pub open spec fn post_init_result(c: ConfigView, sender: Seq<char>, token_contract: Seq<char>)
    -> Result<ConfigView, OwnerError> {
    match human_of(c.owner) {
        None => Err(OwnerError::InvalidAddress),
        Some(cur) => if sender != cur {
            Err(OwnerError::Unauthorized)
        } else {
            match canon_of(token_contract) {
                None => Err(OwnerError::InvalidAddress),
                Some(tc) => Ok(ConfigView { token_contract: Some(tc), ..c }),
            }
        },
    }
}

/// Applying an optional new owner: the owner field is overwritten by the
/// canonical form of the provided address, or left alone when absent.
pub open spec fn apply_owner(c: ConfigView, owner: Option<Seq<char>>)
    -> Result<ConfigView, OwnerError> {
    match owner {
        None => Ok(c),
        Some(o) => match canon_of(o) {
            None => Err(OwnerError::InvalidAddress),
            Some(b) => Ok(ConfigView { owner: b, ..c }),
        },
    }
}

/// Applying an optional new reward denomination (infallible).
pub open spec fn apply_denom(c: ConfigView, reward_denom: Option<Seq<char>>) -> ConfigView {
    match reward_denom {
        None => c,
        Some(d) => ConfigView { reward_denom: d, ..c },
    }
}

/// Applying an optional new token contract address.
pub open spec fn apply_token_contract(c: ConfigView, token_contract: Option<Seq<char>>)
    -> Result<ConfigView, OwnerError> {
    match token_contract {
        None => Ok(c),
        Some(t) => match canon_of(t) {
            None => Err(OwnerError::InvalidAddress),
            Some(b) => Ok(ConfigView { token_contract: Some(b), ..c }),
        },
    }
}

/// Outcome of an owner-gated partial configuration update: authorization
/// is checked against the *current* owner before any field is applied;
/// provided fields overwrite, omitted fields stay; address fields are
/// canonicalized first, and any failure aborts the whole update.
pub open spec fn update_config_result(
    c: ConfigView,
    sender: Seq<char>,
    owner: Option<Seq<char>>,
    reward_denom: Option<Seq<char>>,
    token_contract: Option<Seq<char>>,
) -> Result<ConfigView, OwnerError> {
    match human_of(c.owner) {
        None => Err(OwnerError::InvalidAddress),
        Some(cur) => if sender != cur {
            Err(OwnerError::Unauthorized)
        } else {
            match apply_owner(c, owner) {
                Err(e) => Err(e),
                Ok(c1) => match apply_token_contract(apply_denom(c1, reward_denom), token_contract) {
                    Err(e) => Err(e),
                    Ok(c2) => Ok(c2),
                },
            }
        },
    }
}

/// Bind the token contract's address into the configuration.  Only the
/// owner may do this; nothing prevents re-invocation, so a later call
/// overwrites an earlier binding.  Emits a single audit log entry and no
/// outbound calls.
pub fn handle_post_initialize(config: &mut Config, sender: &str, token_contract: &str)
    -> (r: Result<Response, OwnerError>)
    ensures
        r matches Err(e) ==> post_init_result(old(config)@, sender@, token_contract@)
            == Err::<ConfigView, OwnerError>(e),
        r is Err ==> final(config)@ == old(config)@,
        r is Ok ==> post_init_result(old(config)@, sender@, token_contract@)
            == Ok::<ConfigView, OwnerError>(final(config)@),
        r matches Ok(resp) ==> resp.messages@.len() == 0,
        r matches Ok(resp) ==> resp.log@.len() == 1 && resp.log@[0].0@ == "action"@
            && resp.log@[0].1@ == "post_initialize"@,
{
    let owner_human = match humanize(config.owner.as_slice()) {
        Some(h) => h,
        None => {
            return Err(OwnerError::InvalidAddress);
        },
    };
    if !(sender.to_owned() == owner_human) {
        return Err(OwnerError::Unauthorized);
    }
    let canon = match canonicalize(token_contract) {
        Some(c) => c,
        None => {
            return Err(OwnerError::InvalidAddress);
        },
    };
    config.token_contract = Some(canon);
    Ok(Response { messages: Vec::new(), log: action_log("post_initialize") })
}

/// Partially update the configuration.  Only the current owner may do
/// this; provided fields overwrite, omitted fields stay, and a failing
/// address conversion aborts the whole update.  Emits a single audit log
/// entry and no outbound calls.
pub fn handle_update_config(
    config: &mut Config,
    sender: &str,
    owner: Option<String>,
    reward_denom: Option<String>,
    token_contract: Option<String>,
) -> (r: Result<Response, OwnerError>)
    ensures
        r matches Err(e) ==> update_config_result(
            old(config)@, sender@, opt_view(owner), opt_view(reward_denom), opt_view(token_contract),
        ) == Err::<ConfigView, OwnerError>(e),
        r is Err ==> final(config)@ == old(config)@,
        r is Ok ==> update_config_result(
            old(config)@, sender@, opt_view(owner), opt_view(reward_denom), opt_view(token_contract),
        ) == Ok::<ConfigView, OwnerError>(final(config)@),
        r matches Ok(resp) ==> resp.messages@.len() == 0,
        r matches Ok(resp) ==> resp.log@.len() == 1 && resp.log@[0].0@ == "action"@
            && resp.log@[0].1@ == "update_config"@,
{
    let owner_human = match humanize(config.owner.as_slice()) {
        Some(h) => h,
        None => {
            return Err(OwnerError::InvalidAddress);
        },
    };
    if !(sender.to_owned() == owner_human) {
        return Err(OwnerError::Unauthorized);
    }
    let new_owner = match owner {
        None => None,
        Some(o) => match canonicalize(o.as_str()) {
            Some(b) => Some(b),
            None => {
                return Err(OwnerError::InvalidAddress);
            },
        },
    };
    let new_token_contract = match token_contract {
        None => None,
        Some(t) => match canonicalize(t.as_str()) {
            Some(b) => Some(b),
            None => {
                return Err(OwnerError::InvalidAddress);
            },
        },
    };
    if let Some(b) = new_owner {
        config.owner = b;
    }
    if let Some(d) = reward_denom {
        config.reward_denom = d;
    }
    if let Some(b) = new_token_contract {
        config.token_contract = Some(b);
    }
    Ok(Response { messages: Vec::new(), log: action_log("update_config") })
}

/// View of an optional owned string.
pub open spec fn opt_view(s: Option<String>) -> Option<Seq<char>> {
    match s {
        Some(x) => Some(x@),
        None => None,
    }
}

/// Law: a caller other than the current owner is always rejected as
/// unauthorized, whatever fields it tries to update.
pub proof fn lemma_update_config_unauthorized(
    c: ConfigView,
    sender: Seq<char>,
    owner: Option<Seq<char>>,
    reward_denom: Option<Seq<char>>,
    token_contract: Option<Seq<char>>,
)
    ensures
        human_of(c.owner) is Some && !is_owner(sender, c)
            ==> update_config_result(c, sender, owner, reward_denom, token_contract)
                == Err::<ConfigView, OwnerError>(OwnerError::Unauthorized),
{
}

/// Law: an update that provides only the reward denomination changes that
/// field and leaves the owner and the token contract binding untouched.
pub proof fn lemma_update_config_denom_only(c: ConfigView, sender: Seq<char>, denom: Seq<char>)
    ensures
        is_owner(sender, c) ==> update_config_result(c, sender, None, Some(denom), None)
            == Ok::<ConfigView, OwnerError>(ConfigView { reward_denom: denom, ..c }),
{
}

/// Law: the handshake is unguarded.  After a successful post-initialize,
/// a second call by the same owner with another token contract address
/// succeeds as well, and the second binding wins.
pub proof fn lemma_post_initialize_rebinds(
    c: ConfigView,
    sender: Seq<char>,
    first: Seq<char>,
    second: Seq<char>,
)
    ensures
        ({
            let after_first = post_init_result(c, sender, first);
            after_first is Ok && canon_of(second) is Some ==> post_init_result(
                after_first.unwrap(), sender, second,
            ) == Ok::<ConfigView, OwnerError>(
                (ConfigView { token_contract: Some(canon_of(second).unwrap()), ..c }),
            )
        }),
{
}

} // verus!
