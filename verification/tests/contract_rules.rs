use cosmwasm_std::testing::MockApi;
use cosmwasm_std::Api as HostApi;
use minting_luna::api::Api;
use minting_luna::contract::{mint_response, MintingContract, QueryAnswer};
use minting_luna::decimal::to_decimal_string;
use minting_luna::error::{ContractError, StdErr};
use minting_luna::response::{BankSend, CosmosMsg, WasmExecute};
use minting_luna::msg::{Coin, ExecuteMsg, InstantiateMsg, MessageInfo, QueryMsg, WhitelistInfo};
use minting_luna::state::{TokenIds, TokenWhitelist};

const OWNER: &str = "merlin";

fn answers(addrs: &[&str]) -> Api {
    let host = MockApi::default();
    Api {
        answers: addrs
            .iter()
            .map(|a| {
                let r = match host.addr_validate(a) {
                    Ok(v) => Ok(v.into_string()),
                    Err(e) => Err(StdErr::Host(e)),
                };
                (a.to_string(), r)
            })
            .collect(),
    }
}

fn info(sender: &str, funds: Vec<Coin>) -> MessageInfo {
    MessageInfo { sender: sender.to_string(), funds }
}

fn coin(amount: u128, denom: &str) -> Coin {
    Coin { denom: denom.to_string(), amount }
}

fn setup(fee: u128) -> MintingContract {
    let mut contract = MintingContract::default();
    let msg = InstantiateMsg {
        owner: Some(OWNER.to_string()),
        treasury: "treasury".to_string(),
        nft_contract_address: "astro_game".to_string(),
        collection_name: "astro_hero".to_string(),
        collection_symbol: "ASTRO".to_string(),
        fee,
    };
    contract
        .instantiate(answers(&[OWNER, "treasury", "astro_game"]), info("creator", vec![]), msg)
        .unwrap();
    contract
}

fn entry(owner: &str, token_id: &str) -> WhitelistInfo {
    WhitelistInfo { owner: owner.to_string(), token_id: token_id.to_string() }
}

fn add(contract: &mut MintingContract, sender: &str, entries: Vec<WhitelistInfo>) -> Result<minting_luna::response::Response, ContractError> {
    let owners: Vec<&str> = entries.iter().map(|w| w.owner.as_str()).collect();
    let api = answers(&owners);
    contract.execute(api, info(sender, vec![]), ExecuteMsg::AddWhiteList { whitelists: entries })
}

fn tokens_of(contract: &MintingContract, address: &str) -> Result<Vec<String>, StdErr> {
    match contract.query(answers(&[address]), QueryMsg::Whitelists { address: address.to_string() })? {
        QueryAnswer::Whitelists(t) => Ok(t.token_ids),
        other => panic!("unexpected answer {:?}", other),
    }
}

fn generic(msg: &str) -> ContractError {
    ContractError::Std(StdErr::GenericErr { msg: msg.to_string() })
}

fn strings(v: &[&str]) -> Vec<String> {
    v.iter().map(|s| s.to_string()).collect()
}

#[test]
fn decimal_strings() {
    assert_eq!(to_decimal_string(0), "0");
    assert_eq!(to_decimal_string(7), "7");
    assert_eq!(to_decimal_string(30000), "30000");
    assert_eq!(to_decimal_string(1234567890), "1234567890");
    assert_eq!(to_decimal_string(u128::MAX), u128::MAX.to_string());
}

#[test]
fn instantiate_without_owner_makes_sender_owner() {
    let mut contract = MintingContract::default();
    let msg = InstantiateMsg {
        owner: None,
        treasury: "treasury".to_string(),
        nft_contract_address: "astro_game".to_string(),
        collection_name: "n".to_string(),
        collection_symbol: "S".to_string(),
        fee: 5,
    };
    let res = contract.instantiate(answers(&["treasury", "astro_game"]), info("creator", vec![]), msg).unwrap();
    assert!(res.messages.is_empty());
    assert!(res.attributes.is_empty());
    assert_eq!(contract.config.as_ref().unwrap().owner.as_deref(), Some("creator"));
}

#[test]
fn instantiate_with_invalid_treasury_fails_and_keeps_state() {
    let mut contract = MintingContract::default();
    let msg = InstantiateMsg {
        owner: Some(OWNER.to_string()),
        treasury: "TR".to_string(),
        nft_contract_address: "astro_game".to_string(),
        collection_name: "n".to_string(),
        collection_symbol: "S".to_string(),
        fee: 5,
    };
    let err = contract
        .instantiate(answers(&[OWNER, "TR", "astro_game"]), info("creator", vec![]), msg)
        .unwrap_err();
    assert!(matches!(err, StdErr::Host(_)));
    assert!(contract.config.is_none());
}

#[test]
fn query_before_instantiate_is_not_found() {
    let contract = MintingContract::default();
    let err = contract.query(answers(&[]), QueryMsg::Config {}).unwrap_err();
    assert_eq!(err, StdErr::NotFound { kind: "minting_luna::state::Config".to_string() });
    let mut contract = MintingContract::default();
    let err = add(&mut contract, OWNER, vec![entry("owner_1", "t1")]).unwrap_err();
    assert_eq!(err, ContractError::Std(StdErr::NotFound { kind: "minting_luna::state::Config".to_string() }));
    let err = contract.execute(answers(&[]), info("owner_1", vec![coin(1, "uluna")]), ExecuteMsg::Mint {}).unwrap_err();
    assert_eq!(err, ContractError::Std(StdErr::NotFound { kind: "minting_luna::state::Config".to_string() }));
}

#[test]
fn whitelist_appends_in_order() {
    let mut contract = setup(10);
    let res = add(&mut contract, OWNER, vec![entry("alice", "a1"), entry("bobby", "b1"), entry("alice", "a2")]).unwrap();
    assert_eq!(res.attributes.len(), 1);
    assert_eq!(res.attributes[0].key, "action");
    assert_eq!(res.attributes[0].value, "add_whitelist");
    add(&mut contract, OWNER, vec![entry("alice", "a3")]).unwrap();
    assert_eq!(tokens_of(&contract, "alice").unwrap(), strings(&["a1", "a2", "a3"]));
    assert_eq!(tokens_of(&contract, "bobby").unwrap(), strings(&["b1"]));
    let err = tokens_of(&contract, "carol").unwrap_err();
    assert_eq!(err, StdErr::NotFound { kind: "minting_luna::state::TokenIds".to_string() });
}

#[test]
fn whitelist_stops_at_first_invalid_owner() {
    let mut contract = setup(10);
    let err = add(&mut contract, OWNER, vec![entry("alice", "a1"), entry("X", "x1"), entry("bobby", "b1")]).unwrap_err();
    assert!(matches!(err, ContractError::Std(StdErr::Host(_))));
    // the entries before the invalid one were written, the ones after it not
    assert_eq!(tokens_of(&contract, "alice").unwrap(), strings(&["a1"]));
    assert!(tokens_of(&contract, "bobby").is_err());
}

#[test]
fn refused_sender_gets_unauthorized_before_validation() {
    let mut contract = setup(10);
    let err = add(&mut contract, "random", vec![entry("X", "x1")]).unwrap_err();
    assert_eq!(err, ContractError::Unauthorized {});
}

#[test]
fn update_config_changes_owner() {
    let mut contract = setup(10);
    let err = contract
        .execute(answers(&["newowner"]), info("random", vec![]), ExecuteMsg::UpdateConfig { new_owner: Some("newowner".to_string()) })
        .unwrap_err();
    assert_eq!(err, ContractError::Unauthorized {});
    let res = contract
        .execute(answers(&["newowner"]), info(OWNER, vec![]), ExecuteMsg::UpdateConfig { new_owner: Some("newowner".to_string()) })
        .unwrap();
    assert_eq!(res.attributes[0].value, "update_config");
    assert_eq!(contract.config.as_ref().unwrap().owner.as_deref(), Some("newowner"));
    // the old owner is refused now
    let err = add(&mut contract, OWNER, vec![entry("alice", "a1")]).unwrap_err();
    assert_eq!(err, ContractError::Unauthorized {});
    add(&mut contract, "newowner", vec![entry("alice", "a1")]).unwrap();
}

#[test]
fn frozen_contract_refuses_everyone() {
    let mut contract = setup(10);
    contract
        .execute(answers(&[]), info(OWNER, vec![]), ExecuteMsg::UpdateConfig { new_owner: None })
        .unwrap();
    assert_eq!(contract.config.as_ref().unwrap().owner, None);
    let err = add(&mut contract, OWNER, vec![entry("alice", "a1")]).unwrap_err();
    assert_eq!(err, ContractError::Unauthorized {});
    let err = contract
        .execute(answers(&[OWNER]), info(OWNER, vec![]), ExecuteMsg::UpdateConfig { new_owner: Some(OWNER.to_string()) })
        .unwrap_err();
    assert_eq!(err, ContractError::Unauthorized {});
}

#[test]
fn update_config_with_invalid_owner_keeps_owner() {
    let mut contract = setup(10);
    let err = contract
        .execute(answers(&["NO"]), info(OWNER, vec![]), ExecuteMsg::UpdateConfig { new_owner: Some("NO".to_string()) })
        .unwrap_err();
    assert!(matches!(err, ContractError::Std(StdErr::Host(_))));
    assert_eq!(contract.config.as_ref().unwrap().owner.as_deref(), Some(OWNER));
}

#[test]
fn mint_checks_the_fee() {
    let mut contract = setup(30000);
    add(&mut contract, OWNER, vec![entry("alice", "a1"), entry("alice", "a2")]).unwrap();
    let mint = |c: &MintingContract, sender: &str, funds: Vec<Coin>| c.execute_mint(info(sender, funds));
    assert_eq!(mint(&contract, "bobby", vec![coin(60000, "uluna")]).unwrap_err(), ContractError::WhitelistError {});
    assert_eq!(mint(&contract, "alice", vec![]).unwrap_err(), generic("you need to send 60000"));
    assert_eq!(
        mint(&contract, "alice", vec![coin(60000, "uatom")]).unwrap_err(),
        generic("you need to send 60000 to contract")
    );
    assert_eq!(
        mint(&contract, "alice", vec![coin(30000, "uluna"), coin(30000, "uluna")]).unwrap_err(),
        generic("Only send 60000 to register")
    );
    assert_eq!(mint(&contract, "alice", vec![coin(0, "uluna")]).unwrap_err(), ContractError::ZeroAmount {});
    assert_eq!(mint(&contract, "alice", vec![coin(30000, "uluna")]).unwrap_err(), ContractError::WrongAmount {});
    let res = mint(&contract, "alice", vec![coin(60000, "uluna")]).unwrap();
    assert_eq!(res.messages.len(), 3);
    // minting does not use up the whitelist
    assert!(mint(&contract, "alice", vec![coin(60000, "uluna")]).is_ok());
}

#[test]
fn mint_transfers_each_token_to_the_sender() {
    let mut contract = setup(7);
    add(&mut contract, OWNER, vec![entry("owner_1", "token_id_1"), entry("owner_1", "token_id_9")]).unwrap();
    let res = contract
        .execute(answers(&[]), info("owner_1", vec![coin(14, "uluna")]), ExecuteMsg::Mint {})
        .unwrap();
    assert_eq!(res.messages.len(), 3);
    for (m, id) in res.messages.iter().zip(["token_id_1", "token_id_9"]) {
        let expected = cosmwasm_std::to_binary(&cw721::Cw721ExecuteMsg::TransferNft {
            recipient: "owner_1".to_string(),
            token_id: id.to_string(),
        })
        .unwrap();
        assert_eq!(
            m,
            &CosmosMsg::Wasm(WasmExecute { contract_addr: "astro_game".to_string(), msg: expected.0, funds: vec![] })
        );
    }
    match &res.messages[0] {
        CosmosMsg::Wasm(w) => assert_eq!(
            String::from_utf8(w.msg.clone()).unwrap(),
            r#"{"transfer_nft":{"recipient":"owner_1","token_id":"token_id_1"}}"#
        ),
        other => panic!("unexpected message {:?}", other),
    }
    assert_eq!(
        res.messages[2],
        CosmosMsg::Bank(BankSend { to_address: "treasury".to_string(), amount: vec![coin(14, "uluna")] })
    );
    assert_eq!(res.attributes.len(), 2);
    assert_eq!((res.attributes[0].key.as_str(), res.attributes[0].value.as_str()), ("action", "mint_nft"));
    assert_eq!((res.attributes[1].key.as_str(), res.attributes[1].value.as_str()), ("sender", "owner_1"));
}

#[test]
fn mint_response_keeps_the_order() {
    let r = mint_response(&"nft".to_string(), &"tre".to_string(), &"me".to_string(), 9, vec![vec![1u8], vec![2u8, 3u8]]);
    assert_eq!(r.messages.len(), 3);
    assert_eq!(r.messages[0], CosmosMsg::Wasm(WasmExecute { contract_addr: "nft".to_string(), msg: vec![1u8], funds: vec![] }));
    assert_eq!(r.messages[1], CosmosMsg::Wasm(WasmExecute { contract_addr: "nft".to_string(), msg: vec![2u8, 3u8], funds: vec![] }));
    assert_eq!(r.messages[2], CosmosMsg::Bank(BankSend { to_address: "tre".to_string(), amount: vec![coin(9, "uluna")] }));
    assert_eq!(r.attributes[1].value, "me");
}

#[test]
fn token_whitelist_save_and_load() {
    let mut w = TokenWhitelist::new();
    assert!(w.may_load(&"a".to_string()).is_none());
    w.save("a".to_string(), TokenIds { token_ids: strings(&["x"]) });
    w.append("a".to_string(), "y".to_string());
    w.append("b".to_string(), "z".to_string());
    w.save("b".to_string(), TokenIds { token_ids: strings(&["w"]) });
    assert_eq!(w.may_load(&"a".to_string()).unwrap().token_ids, strings(&["x", "y"]));
    assert_eq!(w.may_load(&"b".to_string()).unwrap().token_ids, strings(&["w"]));
    assert_eq!(w.entries().len(), 2);
}

#[test]
fn api_answers_first_listed() {
    let api = Api {
        answers: vec![
            ("a".to_string(), Ok("first".to_string())),
            ("a".to_string(), Ok("second".to_string())),
            ("b".to_string(), Err(StdErr::GenericErr { msg: "bad".to_string() })),
        ],
    };
    assert_eq!(api.addr_validate(&"a".to_string()), Ok("first".to_string()));
    let i = api.addr_validate(&"b".to_string()).unwrap_err();
    assert_eq!(api.into_error(i), StdErr::GenericErr { msg: "bad".to_string() });
}
