use beth::msg::OwnerError;
use beth::owner::{handle_post_initialize, handle_update_config, Config};
use cosmwasm_std::Api;

fn canonical(addr: &str) -> Vec<u8> {
    let api = cosmwasm_std::testing::MockApi::default();
    api.addr_canonicalize(addr).unwrap().as_slice().to_vec()
}

#[test]
fn post_initialize_binds_token_contract() {
    let mut config = Config::new("owner0000", "ukrt".to_string()).unwrap();
    assert_eq!(config.owner, canonical("owner0000"));
    assert_eq!(config.reward_denom, "ukrt");
    assert_eq!(config.token_contract, None);

    let res = handle_post_initialize(&mut config, "owner0000", "token0000").unwrap();
    assert_eq!(res.messages.len(), 0);
    assert_eq!(res.log, vec![("action".to_string(), "post_initialize".to_string())]);
    assert_eq!(config.token_contract, Some(canonical("token0000")));

    // A caller other than the owner is rejected and nothing changes.
    let err = handle_update_config(
        &mut config,
        "addr0001",
        None,
        Some("uusd".to_string()),
        None,
    )
    .unwrap_err();
    assert_eq!(err, OwnerError::Unauthorized);
    assert_eq!(config.reward_denom, "ukrt");
    assert_eq!(config.token_contract, Some(canonical("token0000")));
}

#[test]
fn post_initialize_by_non_owner_is_rejected() {
    let mut config = Config::new("owner0000", "ukrt".to_string()).unwrap();
    let err = handle_post_initialize(&mut config, "addr0001", "token0000").unwrap_err();
    assert_eq!(err, OwnerError::Unauthorized);
    assert_eq!(config.token_contract, None);
}

#[test]
fn post_initialize_twice_rebinds() {
    let mut config = Config::new("owner0000", "ukrt".to_string()).unwrap();
    handle_post_initialize(&mut config, "owner0000", "token0000").unwrap();
    assert_eq!(config.token_contract, Some(canonical("token0000")));

    // Nothing prevents re-invocation: the second binding wins.
    handle_post_initialize(&mut config, "owner0000", "token0001").unwrap();
    assert_eq!(config.token_contract, Some(canonical("token0001")));
}

#[test]
fn update_config_denom_only_changes_nothing_else() {
    let mut config = Config::new("owner0000", "ukrt".to_string()).unwrap();
    handle_post_initialize(&mut config, "owner0000", "token0000").unwrap();

    let res = handle_update_config(
        &mut config,
        "owner0000",
        None,
        Some("uusd".to_string()),
        None,
    )
    .unwrap();
    assert_eq!(res.messages.len(), 0);
    assert_eq!(res.log, vec![("action".to_string(), "update_config".to_string())]);
    assert_eq!(config.reward_denom, "uusd");
    assert_eq!(config.owner, canonical("owner0000"));
    assert_eq!(config.token_contract, Some(canonical("token0000")));
}

#[test]
fn update_config_changes_owner() {
    let mut config = Config::new("owner0000", "ukrt".to_string()).unwrap();
    handle_update_config(
        &mut config,
        "owner0000",
        Some("owner0001".to_string()),
        None,
        None,
    )
    .unwrap();
    assert_eq!(config.owner, canonical("owner0001"));

    // The previous owner lost its authority.
    let err = handle_update_config(
        &mut config,
        "owner0000",
        None,
        Some("uusd".to_string()),
        None,
    )
    .unwrap_err();
    assert_eq!(err, OwnerError::Unauthorized);
    assert_eq!(config.reward_denom, "ukrt");
}

#[test]
fn update_config_invalid_address_aborts_whole_update() {
    let mut config = Config::new("owner0000", "ukrt".to_string()).unwrap();
    let err = handle_update_config(
        &mut config,
        "owner0000",
        Some("ab".to_string()),
        Some("uusd".to_string()),
        None,
    )
    .unwrap_err();
    assert_eq!(err, OwnerError::InvalidAddress);
    // The update is atomic: the valid denom field was not applied either.
    assert_eq!(config.reward_denom, "ukrt");
    assert_eq!(config.owner, canonical("owner0000"));
}

#[test]
fn config_new_rejects_invalid_owner() {
    assert!(Config::new("ab", "ukrt".to_string()).is_none());
}
