use cosmwasm_std::testing::MockApi;
use cosmwasm_std::Api as HostApi;
use minting_luna::api::Api;
use minting_luna::contract::{MintingContract, QueryAnswer};
use minting_luna::error::{ContractError, StdErr};
use minting_luna::msg::{Coin, ExecuteMsg, InstantiateMsg, MessageInfo, QueryMsg, WhitelistInfo};
use minting_luna::state::TokenIds;

const OWNER: &str = "merlin";
const TREASURY: &str = "treasury";
const NFT_CONTRACT_ADDRESS: &str = "astro_game";
const COLLECTION_NAME: &str = "astro_hero";
const COLLECTION_SYMBOL: &str = "ASTRO";

/// The mock host's answers for the given addresses.
fn answers(addrs: &[&str]) -> Api {
    let host = MockApi::default();
    Api {
        answers: addrs
            .iter()
            .map(|a| {
                let r = match host.addr_validate(a) {
                    Ok(v) => Ok(v.into_string()),
                    Err(e) => Err(StdErr::Host(e)),
                };
                (a.to_string(), r)
            })
            .collect(),
    }
}

fn info(sender: &str, funds: Vec<Coin>) -> MessageInfo {
    MessageInfo { sender: sender.to_string(), funds }
}

fn uluna(amount: u128) -> Coin {
    Coin { denom: "uluna".to_string(), amount }
}

fn instantiate_msg() -> InstantiateMsg {
    InstantiateMsg {
        owner: Some(OWNER.to_string()),
        treasury: TREASURY.to_string(),
        nft_contract_address: NFT_CONTRACT_ADDRESS.to_string(),
        collection_name: COLLECTION_NAME.to_string(),
        collection_symbol: COLLECTION_SYMBOL.to_string(),
        fee: 30000u128,
    }
}

fn setup_contract() -> MintingContract {
    let mut contract = MintingContract::default();
    let res = contract
        .instantiate(answers(&[OWNER, TREASURY, NFT_CONTRACT_ADDRESS]), info("creator", vec![]), instantiate_msg())
        .unwrap();
    assert_eq!(0, res.messages.len());
    contract
}

fn five_entries() -> Vec<WhitelistInfo> {
    (1..=5)
        .map(|i| WhitelistInfo { owner: format!("owner_{}", i), token_id: format!("token_id_{}", i) })
        .collect()
}

fn owners_of(wl: &[WhitelistInfo]) -> Vec<&str> {
    wl.iter().map(|w| w.owner.as_str()).collect()
}

fn whitelist(contract: &mut MintingContract, entries: Vec<WhitelistInfo>) {
    let api = answers(&owners_of(&entries));
    contract
        .execute(api, info(OWNER, vec![]), ExecuteMsg::AddWhiteList { whitelists: entries })
        .unwrap();
}

fn query_whitelist(contract: &MintingContract, address: &str) -> Result<QueryAnswer, StdErr> {
    contract.query(answers(&[address]), QueryMsg::Whitelists { address: address.to_string() })
}

#[test]
fn proper_instantiation() {
    let mut contract = MintingContract::default();
    let res = contract
        .instantiate(answers(&[OWNER, TREASURY, NFT_CONTRACT_ADDRESS]), info("creator", vec![]), instantiate_msg())
        .unwrap();
    assert_eq!(0, res.messages.len());

    let res = contract.query(answers(&[]), QueryMsg::Config {}).unwrap();
    let config = match res {
        QueryAnswer::Config(c) => c,
        other => panic!("unexpected answer {:?}", other),
    };
    assert_eq!("merlin", config.owner.unwrap().as_str());
    assert_eq!("treasury", config.treasury.as_str());
    assert_eq!("astro_game", config.nft_contract_address.as_str());
    assert_eq!("astro_hero", config.collection_name.as_str());
    assert_eq!("ASTRO", config.collection_symbol.as_str());
    assert_eq!(30000u128, config.fee);
}

#[test]
fn add_to_whitelist() {
    let mut contract = setup_contract();
    let entries = five_entries();
    let add_to_whitelist_msg = ExecuteMsg::AddWhiteList { whitelists: entries.clone() };

    // random cannot add to the whitelist
    let err = contract
        .execute(answers(&owners_of(&entries)), info("random", vec![]), add_to_whitelist_msg.clone())
        .unwrap_err();
    assert_eq!(err, ContractError::Unauthorized {});

    // the owner can
    let _ = contract
        .execute(answers(&owners_of(&entries)), info(OWNER, vec![]), add_to_whitelist_msg.clone())
        .unwrap();

    let res = query_whitelist(&contract, "owner_1").unwrap();
    let token_ids = TokenIds { token_ids: vec!["token_id_1".to_string()] };
    assert_eq!(res, QueryAnswer::Whitelists(token_ids));
}

#[test]
fn random_mint() {
    let mut contract = setup_contract();
    whitelist(&mut contract, five_entries());

    let res = contract
        .execute(answers(&[]), info("owner_1", vec![uluna(30000)]), ExecuteMsg::Mint {})
        .unwrap();
    println!("res:  {:?}", res);
    // one transfer of the whitelisted token, then the payment to the treasury
    assert_eq!(res.messages.len(), 2);
}
