use vstd::prelude::*;

verus! {

/// The message that sets the contract up.
#[derive(Debug, Clone, PartialEq)]
pub struct InstantiateMsg {
    /// The owner; where none is given, the sender becomes the owner.
    pub owner: Option<String>,
    /// The address that receives the Luna paid for minting.
    pub treasury: String,
    /// The address of the NFT contract.
    pub nft_contract_address: String,
    /// The collection's name.
    pub collection_name: String,
    /// The collection's symbol.
    pub collection_symbol: String,
    /// The price, in `uluna`, of each token.
    pub fee: u128,
}

/// The messages that change the contract's state.
#[derive(Debug, Clone, PartialEq)]
pub enum ExecuteMsg {
    /// Sets the owner; where `new_owner` is `None`, the contract is frozen.
    UpdateConfig { new_owner: Option<String> },
    /// Whitelists token ids for their owners (owner only).
    AddWhiteList { whitelists: Vec<WhitelistInfo> },
    /// Transfers to the sender the tokens whitelisted for it, against the fee.
    Mint {},
}

/// The messages that read the contract's state.
#[derive(Debug, Clone, PartialEq)]
pub enum QueryMsg {
    /// The configuration.
    Config {},
    /// The token ids whitelisted for `address`.
    Whitelists { address: String },
}

/// One token id to whitelist for an owner.
#[derive(Debug, Clone, PartialEq)]
pub struct WhitelistInfo {
    pub owner: String,
    pub token_id: String,
}

/// An amount of one denomination.
#[derive(Debug, Clone, PartialEq)]
pub struct Coin {
    pub denom: String,
    pub amount: u128,
}

impl View for Coin {
    type V = (Seq<char>, u128);

    open spec fn view(&self) -> (Seq<char>, u128) {
        (self.denom@, self.amount)
    }
}

/// Who sends a message, and the funds sent with it.
#[derive(Debug, Clone, PartialEq)]
pub struct MessageInfo {
    pub sender: String,
    pub funds: Vec<Coin>,
}

} // verus!
