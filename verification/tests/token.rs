use beth::contract::{execute, instantiate, query};
use beth::msg::{
    BalanceDelta, DeltaKind, ExecuteMsg, Expire, InitialBalance, MinterInfo, OutboundCall,
    QueryAnswer, QueryMsg, TokenError, TokenInstantiateMsg,
};
use beth::state::{read_reward_contract, TokenContract};
use cosmwasm_std::Api;

const MOCK_REWARD_CONTRACT_ADDR: &str = "bethreward0000";
const MOCK_MINTER_ADDR: &str = "minter0000";

fn init_msg(mint: Option<MinterInfo>) -> TokenInstantiateMsg {
    TokenInstantiateMsg {
        name: "bluna".to_string(),
        symbol: "BLUNA".to_string(),
        decimals: 6,
        initial_balances: vec![],
        mint,
        reward_contract: MOCK_REWARD_CONTRACT_ADDR.to_string(),
    }
}

fn assert_expected_token_info(t: &TokenContract) {
    match query(t, QueryMsg::TokenInfo).unwrap() {
        QueryAnswer::TokenInfo { name, symbol, decimals, total_supply } => {
            assert_eq!(name, "bluna");
            assert_eq!(symbol, "BLUNA");
            assert_eq!(decimals, 6);
            assert_eq!(total_supply, 0u128);
        }
        other => panic!("unexpected answer: {:?}", other),
    }
}

// this will set up the init for other tests
fn do_init_with_minter(minter: &str, cap: Option<u128>) -> TokenContract {
    let mint = Some(MinterInfo { minter: minter.to_string(), cap });
    let (t, res) = instantiate(init_msg(mint.clone())).unwrap();
    assert_eq!(0, res.messages.len());
    assert_expected_token_info(&t);
    match query(&t, QueryMsg::Minter).unwrap() {
        QueryAnswer::Minter { minter } => assert_eq!(minter, mint),
        other => panic!("unexpected answer: {:?}", other),
    }
    t
}

pub fn do_mint(t: &mut TokenContract, addr: &str, amount: u128) {
    let msg = ExecuteMsg::Mint { recipient: addr.to_string(), amount };
    let res = execute(t, MOCK_MINTER_ADDR, msg).unwrap();
    assert_eq!(1, res.messages.len());
}

fn mirror(kind: DeltaKind, address: &str, amount: u128) -> OutboundCall {
    OutboundCall::Mirror {
        reward_contract: MOCK_REWARD_CONTRACT_ADDR.to_string(),
        delta: BalanceDelta { kind, address: address.to_string(), amount },
    }
}

fn balance_of(t: &TokenContract, address: &str) -> u128 {
    match query(t, QueryMsg::Balance { address: address.to_string() }).unwrap() {
        QueryAnswer::Balance { balance } => balance,
        other => panic!("unexpected answer: {:?}", other),
    }
}

fn dummy_payload() -> Vec<u8> {
    let inner = cw20_base::msg::ExecuteMsg::Transfer {
        recipient: "addr0001".to_string(),
        amount: cosmwasm_std::Uint128::new(1),
    };
    cosmwasm_std::to_json_binary(&inner).unwrap().as_slice().to_vec()
}

#[test]
fn proper_initialization() {
    let api = cosmwasm_std::testing::MockApi::default();
    let reward_contract_raw = api.addr_canonicalize(MOCK_REWARD_CONTRACT_ADDR).unwrap();

    let (t, res) = instantiate(init_msg(None)).unwrap();
    assert_eq!(0, res.messages.len());
    assert_expected_token_info(&t);
    assert_eq!(read_reward_contract(&t), reward_contract_raw.as_slice().to_vec());
}

#[test]
fn transfer() {
    let mut t = do_init_with_minter(MOCK_MINTER_ADDR, None);
    do_mint(&mut t, "addr0001", 12340000u128);

    let msg = ExecuteMsg::Transfer { recipient: "addr0002".to_string(), amount: 1u128 };
    let res = execute(&mut t, "addr0001", msg).unwrap();
    assert_eq!(
        res.messages,
        vec![
            mirror(DeltaKind::Decrease, "addr0001", 1u128),
            mirror(DeltaKind::Increase, "addr0002", 1u128),
        ]
    );
}

#[test]
fn transfer_from() {
    let mut t = do_init_with_minter(MOCK_MINTER_ADDR, None);
    do_mint(&mut t, "addr0001", 12340000u128);

    let msg = ExecuteMsg::IncreaseAllowance {
        spender: "addr0003".to_string(),
        amount: 1u128,
        expires: None,
    };
    let _ = execute(&mut t, "addr0001", msg).unwrap();

    let msg = ExecuteMsg::TransferFrom {
        owner: "addr0001".to_string(),
        recipient: "addr0002".to_string(),
        amount: 1u128,
    };
    let res = execute(&mut t, "addr0003", msg).unwrap();
    assert_eq!(
        res.messages,
        vec![
            mirror(DeltaKind::Decrease, "addr0001", 1u128),
            mirror(DeltaKind::Increase, "addr0002", 1u128),
        ]
    );
}

#[test]
fn mint() {
    let mut t = do_init_with_minter(MOCK_MINTER_ADDR, None);

    let msg = ExecuteMsg::Mint { recipient: "addr0000".to_string(), amount: 1u128 };
    let res = execute(&mut t, MOCK_MINTER_ADDR, msg).unwrap();
    assert_eq!(res.messages, vec![mirror(DeltaKind::Increase, "addr0000", 1u128)]);
}

#[test]
fn burn() {
    let mut t = do_init_with_minter(MOCK_MINTER_ADDR, None);
    do_mint(&mut t, "addr0000", 12340000u128);

    let msg = ExecuteMsg::Burn { amount: 1u128 };
    let res = execute(&mut t, "addr0000", msg).unwrap();
    assert_eq!(res.messages, vec![mirror(DeltaKind::Decrease, "addr0000", 1u128)]);
}

#[test]
fn burn_from() {
    let mut t = do_init_with_minter(MOCK_MINTER_ADDR, None);
    do_mint(&mut t, "addr0000", 12340000u128);

    let msg = ExecuteMsg::IncreaseAllowance {
        spender: "addr0001".to_string(),
        amount: 1u128,
        expires: None,
    };
    let _ = execute(&mut t, "addr0000", msg).unwrap();

    let msg = ExecuteMsg::BurnFrom { owner: "addr0000".to_string(), amount: 1u128 };
    let res = execute(&mut t, "addr0001", msg).unwrap();
    assert_eq!(res.messages, vec![mirror(DeltaKind::Decrease, "addr0000", 1u128)]);
}

#[test]
fn send() {
    let mut t = do_init_with_minter(MOCK_MINTER_ADDR, None);
    do_mint(&mut t, "addr0001", 12340000u128);

    let payload = dummy_payload();
    let msg = ExecuteMsg::Send {
        contract: "dummy".to_string(),
        amount: 1u128,
        msg: Some(payload.clone()),
    };
    let res = execute(&mut t, "addr0001", msg).unwrap();
    assert_eq!(res.messages.len(), 3);
    assert_eq!(
        res.messages[0..2].to_vec(),
        vec![
            mirror(DeltaKind::Decrease, "addr0001", 1u128),
            mirror(DeltaKind::Increase, "dummy", 1u128),
        ]
    );
    assert_eq!(
        res.messages[2],
        OutboundCall::Receive {
            contract: "dummy".to_string(),
            sender: "addr0001".to_string(),
            amount: 1u128,
            payload: Some(payload),
        }
    );
}

#[test]
fn send_from() {
    let mut t = do_init_with_minter(MOCK_MINTER_ADDR, None);
    do_mint(&mut t, "addr0001", 12340000u128);

    let msg = ExecuteMsg::IncreaseAllowance {
        spender: "addr0002".to_string(),
        amount: 1u128,
        expires: None,
    };
    let _ = execute(&mut t, "addr0001", msg).unwrap();

    let payload = dummy_payload();
    let msg = ExecuteMsg::SendFrom {
        owner: "addr0001".to_string(),
        contract: "dummy".to_string(),
        amount: 1u128,
        msg: Some(payload.clone()),
    };
    let res = execute(&mut t, "addr0002", msg).unwrap();
    assert_eq!(res.messages.len(), 3);
    assert_eq!(
        res.messages[0..2].to_vec(),
        vec![
            mirror(DeltaKind::Decrease, "addr0001", 1u128),
            mirror(DeltaKind::Increase, "dummy", 1u128),
        ]
    );
    assert_eq!(
        res.messages[2],
        OutboundCall::Receive {
            contract: "dummy".to_string(),
            sender: "addr0002".to_string(),
            amount: 1u128,
            payload: Some(payload),
        }
    );
}

#[test]
fn transfer_moves_balances() {
    let mut t = do_init_with_minter(MOCK_MINTER_ADDR, None);
    do_mint(&mut t, "addra", 100u128);

    let msg = ExecuteMsg::Transfer { recipient: "addrb".to_string(), amount: 40u128 };
    let res = execute(&mut t, "addra", msg).unwrap();
    assert_eq!(
        res.messages,
        vec![
            mirror(DeltaKind::Decrease, "addra", 40u128),
            mirror(DeltaKind::Increase, "addrb", 40u128),
        ]
    );
    assert_eq!(balance_of(&t, "addra"), 60u128);
    assert_eq!(balance_of(&t, "addrb"), 40u128);
}

#[test]
fn transfer_insufficient_funds_is_ledger_error() {
    let mut t = do_init_with_minter(MOCK_MINTER_ADDR, None);
    do_mint(&mut t, "addr0001", 5u128);

    let msg = ExecuteMsg::Transfer { recipient: "addr0002".to_string(), amount: 6u128 };
    let err = execute(&mut t, "addr0001", msg).unwrap_err();
    assert!(matches!(err, TokenError::Ledger(_)));
    assert_eq!(balance_of(&t, "addr0001"), 5u128);
    assert_eq!(balance_of(&t, "addr0002"), 0u128);
}

#[test]
fn transfer_invalid_recipient_is_rejected() {
    let mut t = do_init_with_minter(MOCK_MINTER_ADDR, None);
    do_mint(&mut t, "addr0001", 5u128);

    // Too short for the codec.
    let msg = ExecuteMsg::Transfer { recipient: "ab".to_string(), amount: 1u128 };
    let err = execute(&mut t, "addr0001", msg).unwrap_err();
    assert!(matches!(err, TokenError::InvalidAddress));

    // Not normalized (upper case).
    let msg = ExecuteMsg::Transfer { recipient: "Addr0002".to_string(), amount: 1u128 };
    let err = execute(&mut t, "addr0001", msg).unwrap_err();
    assert!(matches!(err, TokenError::InvalidAddress));

    assert_eq!(balance_of(&t, "addr0001"), 5u128);
}

#[test]
fn mint_beyond_cap_is_ledger_error() {
    let mut t = do_init_with_minter(MOCK_MINTER_ADDR, Some(100u128));
    do_mint(&mut t, "addr0001", 100u128);

    let msg = ExecuteMsg::Mint { recipient: "addr0001".to_string(), amount: 1u128 };
    let err = execute(&mut t, MOCK_MINTER_ADDR, msg).unwrap_err();
    assert!(matches!(err, TokenError::Ledger(_)));
    assert_eq!(balance_of(&t, "addr0001"), 100u128);
}

#[test]
fn mint_by_non_minter_is_ledger_error() {
    let mut t = do_init_with_minter(MOCK_MINTER_ADDR, None);
    let msg = ExecuteMsg::Mint { recipient: "addr0001".to_string(), amount: 1u128 };
    let err = execute(&mut t, "addr0001", msg).unwrap_err();
    assert!(matches!(err, TokenError::Ledger(_)));
}

#[test]
fn mint_supply_overflow_is_rejected() {
    let mut t = do_init_with_minter(MOCK_MINTER_ADDR, None);
    do_mint(&mut t, "addr0001", u128::MAX);

    let msg = ExecuteMsg::Mint { recipient: "addr0002".to_string(), amount: 1u128 };
    let err = execute(&mut t, MOCK_MINTER_ADDR, msg).unwrap_err();
    assert!(matches!(err, TokenError::Overflow));
    assert_eq!(balance_of(&t, "addr0001"), u128::MAX);
}

#[test]
fn allowance_is_tracked_and_decreased() {
    let mut t = do_init_with_minter(MOCK_MINTER_ADDR, None);
    do_mint(&mut t, "addr0001", 10u128);

    let msg = ExecuteMsg::IncreaseAllowance {
        spender: "addr0002".to_string(),
        amount: 7u128,
        expires: None,
    };
    let res = execute(&mut t, "addr0001", msg).unwrap();
    assert_eq!(res.messages.len(), 0);

    let allowance = match query(
        &t,
        QueryMsg::Allowance { owner: "addr0001".to_string(), spender: "addr0002".to_string() },
    )
    .unwrap()
    {
        QueryAnswer::Allowance { allowance } => allowance,
        other => panic!("unexpected answer: {:?}", other),
    };
    assert_eq!(allowance, 7u128);

    let msg = ExecuteMsg::DecreaseAllowance {
        spender: "addr0002".to_string(),
        amount: 3u128,
        expires: None,
    };
    let res = execute(&mut t, "addr0001", msg).unwrap();
    assert_eq!(res.messages.len(), 0);

    let allowance = match query(
        &t,
        QueryMsg::Allowance { owner: "addr0001".to_string(), spender: "addr0002".to_string() },
    )
    .unwrap()
    {
        QueryAnswer::Allowance { allowance } => allowance,
        other => panic!("unexpected answer: {:?}", other),
    };
    assert_eq!(allowance, 4u128);
}

#[test]
fn failed_transfer_from_leaves_allowance_untouched() {
    let mut t = do_init_with_minter(MOCK_MINTER_ADDR, None);
    do_mint(&mut t, "addr0001", 5u128);

    let msg = ExecuteMsg::IncreaseAllowance {
        spender: "addr0002".to_string(),
        amount: 10u128,
        expires: None,
    };
    let _ = execute(&mut t, "addr0001", msg).unwrap();

    // Covered by the allowance but not by the owner's balance: the whole
    // operation fails and the allowance must not stay deducted.
    let msg = ExecuteMsg::TransferFrom {
        owner: "addr0001".to_string(),
        recipient: "addr0003".to_string(),
        amount: 7u128,
    };
    let err = execute(&mut t, "addr0002", msg).unwrap_err();
    assert!(matches!(err, TokenError::Ledger(_)));

    let allowance = match query(
        &t,
        QueryMsg::Allowance { owner: "addr0001".to_string(), spender: "addr0002".to_string() },
    )
    .unwrap()
    {
        QueryAnswer::Allowance { allowance } => allowance,
        other => panic!("unexpected answer: {:?}", other),
    };
    assert_eq!(allowance, 10u128);
    assert_eq!(balance_of(&t, "addr0001"), 5u128);
}

#[test]
fn invalid_spender_is_rejected_before_the_ledger() {
    let mut t = do_init_with_minter(MOCK_MINTER_ADDR, None);
    let msg = ExecuteMsg::IncreaseAllowance {
        spender: "ab".to_string(),
        amount: 1u128,
        expires: None,
    };
    let err = execute(&mut t, "addr0001", msg).unwrap_err();
    assert!(matches!(err, TokenError::InvalidAddress));

    let msg = ExecuteMsg::DecreaseAllowance {
        spender: "Addr0002".to_string(),
        amount: 1u128,
        expires: None,
    };
    let err = execute(&mut t, "addr0001", msg).unwrap_err();
    assert!(matches!(err, TokenError::InvalidAddress));
}

#[test]
fn allowance_with_passed_deadline_is_ledger_error() {
    let mut t = do_init_with_minter(MOCK_MINTER_ADDR, None);
    // The host block of the trusted ledger is at height 12345.
    let msg = ExecuteMsg::IncreaseAllowance {
        spender: "addr0002".to_string(),
        amount: 1u128,
        expires: Some(Expire::AtHeight(1u64)),
    };
    let err = execute(&mut t, "addr0001", msg).unwrap_err();
    assert!(matches!(err, TokenError::Ledger(_)));

    let msg = ExecuteMsg::IncreaseAllowance {
        spender: "addr0002".to_string(),
        amount: 1u128,
        expires: Some(Expire::AtHeight(999999u64)),
    };
    let res = execute(&mut t, "addr0001", msg).unwrap();
    assert_eq!(res.messages.len(), 0);
}

#[test]
fn instantiate_with_initial_balances() {
    let mut msg = init_msg(None);
    msg.initial_balances = vec![
        InitialBalance { address: "addr0001".to_string(), amount: 3u128 },
        InitialBalance { address: "addr0002".to_string(), amount: 4u128 },
    ];
    let (t, _) = instantiate(msg).unwrap();
    assert_eq!(balance_of(&t, "addr0001"), 3u128);
    assert_eq!(balance_of(&t, "addr0002"), 4u128);
    match query(&t, QueryMsg::TokenInfo).unwrap() {
        QueryAnswer::TokenInfo { total_supply, .. } => assert_eq!(total_supply, 7u128),
        other => panic!("unexpected answer: {:?}", other),
    }
}

#[test]
fn instantiate_invalid_reward_contract_is_rejected() {
    let mut msg = init_msg(None);
    msg.reward_contract = "ab".to_string();
    let err = match instantiate(msg) {
        Err(e) => e,
        Ok(_) => panic!("expected an error"),
    };
    assert!(matches!(err, TokenError::InvalidAddress));
}

#[test]
fn transfer_of_zero_is_mirrored_as_zero() {
    let mut t = do_init_with_minter(MOCK_MINTER_ADDR, None);
    do_mint(&mut t, "addr0001", 5u128);

    let msg = ExecuteMsg::Transfer { recipient: "addr0002".to_string(), amount: 0u128 };
    let res = execute(&mut t, "addr0001", msg).unwrap();
    assert_eq!(
        res.messages,
        vec![
            mirror(DeltaKind::Decrease, "addr0001", 0u128),
            mirror(DeltaKind::Increase, "addr0002", 0u128),
        ]
    );
    assert_eq!(balance_of(&t, "addr0001"), 5u128);
}

#[test]
fn send_without_payload() {
    let mut t = do_init_with_minter(MOCK_MINTER_ADDR, None);
    do_mint(&mut t, "addr0001", 10u128);

    let msg = ExecuteMsg::Send { contract: "dummy".to_string(), amount: 2u128, msg: None };
    let res = execute(&mut t, "addr0001", msg).unwrap();
    assert_eq!(res.messages.len(), 3);
    assert_eq!(
        res.messages[2],
        OutboundCall::Receive {
            contract: "dummy".to_string(),
            sender: "addr0001".to_string(),
            amount: 2u128,
            payload: None,
        }
    );
}

#[test]
fn action_is_logged() {
    let mut t = do_init_with_minter(MOCK_MINTER_ADDR, None);
    do_mint(&mut t, "addr0001", 10u128);

    let msg = ExecuteMsg::Transfer { recipient: "addr0002".to_string(), amount: 1u128 };
    let res = execute(&mut t, "addr0001", msg).unwrap();
    assert_eq!(res.log, vec![("action".to_string(), "transfer".to_string())]);
}
