use vstd::prelude::*;
use crate::api::Api;
use crate::error::{contract_err_is, std_err_is, ContractError, Failure, StdErr};
use crate::decimal::{decimal, to_decimal_string};
use crate::encode::{encode_transfer_nft, transfer_nft_encoding};
use crate::msg::{Coin, ExecuteMsg, InstantiateMsg, MessageInfo, QueryMsg, WhitelistInfo};
use crate::response::{
    empty_response, new_response, one_attribute, BankSend, CosmosMsg, CosmosMsgView, Response,
    ResponseView, WasmExecute, WasmExecuteView,
};
use crate::state::{
    ids_or_empty, opt_config_view, Config, ConfigView, TokenIds, TokenWhitelist,
};

verus! {

/// The contract's state: its configuration, absent before it is set up,
/// and the token whitelist.
pub struct MintingContract {
    pub config: Option<Config>,
    pub token_whitelist: TokenWhitelist,
}

/// The contract's state as plain values.
pub struct ContractView {
    pub config: Option<ConfigView>,
    pub whitelist: Map<Seq<char>, Seq<Seq<char>>>,
}

impl View for MintingContract {
    type V = ContractView;

    open spec fn view(&self) -> ContractView {
        ContractView { config: opt_config_view(self.config), whitelist: self.token_whitelist@ }
    }
}

/// The kind reported when the configuration is missing.
pub open spec fn config_kind() -> Seq<char> {
    "minting_luna::state::Config"@
}

/// The kind reported when an address has no whitelisted token ids.
pub open spec fn token_ids_kind() -> Seq<char> {
    "minting_luna::state::TokenIds"@
}

/// What a call does: the new state and the response; or a failure that
/// leaves the state as it was; or a failure after some writes, with the
/// state those writes left (the chain then discards the call's writes).
pub enum Outcome {
    Done(ContractView, ResponseView),
    Fail(Failure),
    Stopped(ContractView, Failure),
}

/// An execute call's result and state change are the outcome `o`.
pub open spec fn result_is(
    res: Result<Response, ContractError>,
    pre: ContractView,
    post: ContractView,
    o: Outcome,
) -> bool {
    match o {
        Outcome::Done(s, r) => res matches Ok(resp) && resp@ == r && post == s,
        Outcome::Fail(f) => res matches Err(e) && contract_err_is(e, f) && post == pre,
        Outcome::Stopped(s, f) => res matches Err(e) && contract_err_is(e, f) && post == s,
    }
}

/// A call's result with a standard error, and its state change, are the outcome `o`.
pub open spec fn std_result_is(
    res: Result<Response, StdErr>,
    pre: ContractView,
    post: ContractView,
    o: Outcome,
) -> bool {
    match o {
        Outcome::Done(s, r) => res matches Ok(resp) && resp@ == r && post == s,
        Outcome::Fail(f) => res matches Err(e) && std_err_is(e, f) && post == pre,
        Outcome::Stopped(s, f) => res matches Err(e) && std_err_is(e, f) && post == s,
    }
}

/// Why `sender` may not act as the owner, if it may not.
pub open spec fn refusal(cfg: Option<ConfigView>, sender: Seq<char>) -> Option<Failure> {
    match cfg {
        None => Some(Failure::NotFound(config_kind())),
        Some(c) => if c.owner == Some(sender) {
            None
        } else {
            Some(Failure::Unauthorized)
        },
    }
}

/// The host answers for each address the instantiate message names.
pub open spec fn covers_instantiate(api: Api, msg: InstantiateMsg) -> bool {
    &&& msg.owner matches Some(o) ==> api.answers_for(o@)
    &&& api.answers_for(msg.treasury@)
    &&& api.answers_for(msg.nft_contract_address@)
}

/// Setting the contract up: the owner is the validated `owner` of the
/// message, or the sender where none is given; the treasury and the NFT
/// contract are validated too, in that order, and the first error stops it.
pub open spec fn instantiate_outcome(
    pre: ContractView,
    api: Api,
    sender: Seq<char>,
    msg: InstantiateMsg,
) -> Outcome {
    let owner = match msg.owner {
        None => Ok::<Seq<char>, StdErr>(sender),
        Some(o) => api.validated(o@),
    };
    match owner {
        Err(e) => Outcome::Fail(Failure::Passed(e)),
        Ok(owner) => match api.validated(msg.treasury@) {
            Err(e) => Outcome::Fail(Failure::Passed(e)),
            Ok(treasury) => match api.validated(msg.nft_contract_address@) {
                Err(e) => Outcome::Fail(Failure::Passed(e)),
                Ok(nft) => Outcome::Done(
                    ContractView {
                        config: Some(
                            ConfigView {
                                owner: Some(owner),
                                treasury: treasury,
                                nft_contract_address: nft,
                                collection_name: msg.collection_name@,
                                collection_symbol: msg.collection_symbol@,
                                fee: msg.fee,
                            },
                        ),
                        whitelist: pre.whitelist,
                    },
                    empty_response(),
                ),
            },
        },
    }
}

/// The host answers for the new owner, if one is given.
pub open spec fn covers_owner(api: Api, new_owner: Option<String>) -> bool {
    new_owner matches Some(o) ==> api.answers_for(o@)
}

/// Changing the owner: only the owner may; the new owner is validated, and
/// where none is given the contract is frozen.
pub open spec fn update_config_outcome(
    pre: ContractView,
    api: Api,
    sender: Seq<char>,
    new_owner: Option<String>,
) -> Outcome {
    match refusal(pre.config, sender) {
        Some(f) => Outcome::Fail(f),
        None => {
            let c = pre.config.unwrap();
            let o = match new_owner {
                None => Ok::<Option<Seq<char>>, StdErr>(None),
                Some(a) => match api.validated(a@) {
                    Ok(v) => Ok(Some(v)),
                    Err(e) => Err(e),
                },
            };
            match o {
                Err(e) => Outcome::Fail(Failure::Passed(e)),
                Ok(o) => Outcome::Done(
                    ContractView {
                        config: Some(
                            ConfigView {
                                owner: o,
                                treasury: c.treasury,
                                nft_contract_address: c.nft_contract_address,
                                collection_name: c.collection_name,
                                collection_symbol: c.collection_symbol,
                                fee: c.fee,
                            },
                        ),
                        whitelist: pre.whitelist,
                    },
                    one_attribute("action"@, "update_config"@),
                ),
            }
        },
    }
}

/// The host answers for each owner that the whitelist entries name.
pub open spec fn covers_whitelists(api: Api, wl: Seq<WhitelistInfo>) -> bool {
    forall|i: int| 0 <= i < wl.len() ==> api.answers_for(#[trigger] wl[i].owner@)
}

/// The validated owners of the entries, in order, up to the first entry
/// whose owner fails to validate, with that failure's error.
pub open spec fn validate_prefix(api: Api, wl: Seq<WhitelistInfo>) -> (Seq<Seq<char>>, Option<StdErr>)
    decreases wl.len(),
{
    if wl.len() == 0 {
        (Seq::empty(), None)
    } else {
        let (ks, err) = validate_prefix(api, wl.drop_last());
        if err is Some {
            (ks, err)
        } else {
            match api.validated(wl.last().owner@) {
                Err(e) => (ks, Some(e)),
                Ok(k) => (ks.push(k), None),
            }
        }
    }
}

/// Once validation stops within a prefix of the entries, it stops there
/// for all of them.
pub proof fn lemma_validate_prefix_stop(api: Api, wl: Seq<WhitelistInfo>, i: int)
    requires
        0 <= i <= wl.len(),
        validate_prefix(api, wl.take(i)).1 is Some,
    ensures
        validate_prefix(api, wl) == validate_prefix(api, wl.take(i)),
    decreases wl.len(),
{
    if i == wl.len() {
        assert(wl.take(i) =~= wl);
    } else {
        assert(wl.drop_last().take(i) =~= wl.take(i));
        lemma_validate_prefix_stop(api, wl.drop_last(), i);
    }
}

/// Validation gives at most one address per entry, and one per entry when
/// none fails.
pub proof fn lemma_validate_prefix_len(api: Api, wl: Seq<WhitelistInfo>)
    ensures
        validate_prefix(api, wl).0.len() <= wl.len(),
        validate_prefix(api, wl).1 is None ==> validate_prefix(api, wl).0.len() == wl.len(),
    decreases wl.len(),
{
    if wl.len() > 0 {
        lemma_validate_prefix_len(api, wl.drop_last());
    }
}

/// The token ids of the entries, in order.
pub open spec fn token_ids_of(wl: Seq<WhitelistInfo>) -> Seq<Seq<char>> {
    wl.map_values(|w: WhitelistInfo| w.token_id@)
}

/// The whitelist after adding `ids[i]` for `keys[i]`, one after the other.
pub open spec fn appended(
    m: Map<Seq<char>, Seq<Seq<char>>>,
    keys: Seq<Seq<char>>,
    ids: Seq<Seq<char>>,
) -> Map<Seq<char>, Seq<Seq<char>>>
    decreases keys.len(),
{
    if keys.len() == 0 {
        m
    } else {
        let prev = appended(m, keys.drop_last(), ids.drop_last());
        prev.insert(keys.last(), ids_or_empty(prev, keys.last()).push(ids.last()))
    }
}

/// Whitelisting token ids: only the owner may; the entries are taken in
/// order, each owner validated and its token id added at the end of that
/// owner's list; the first owner that fails to validate stops it with the
/// host's error, the entries before it written.
pub open spec fn add_whitelist_outcome(
    pre: ContractView,
    api: Api,
    sender: Seq<char>,
    wl: Seq<WhitelistInfo>,
) -> Outcome {
    match refusal(pre.config, sender) {
        Some(f) => Outcome::Fail(f),
        None => {
            let (keys, err) = validate_prefix(api, wl);
            let post = ContractView {
                config: pre.config,
                whitelist: appended(pre.whitelist, keys, token_ids_of(wl).take(keys.len() as int)),
            };
            match err {
                None => Outcome::Done(post, one_attribute("action"@, "add_whitelist"@)),
                Some(e) => Outcome::Stopped(post, Failure::Passed(e)),
            }
        },
    }
}

/// The funds as plain values.
pub open spec fn funds_view(funds: Seq<Coin>) -> Seq<(Seq<char>, u128)> {
    funds.map_values(|c: Coin| c@)
}

/// The fee for the tokens whitelisted for `sender` fits in 128 bits; where
/// it does not, minting panics on the overflow.
pub open spec fn mint_fee_fits(pre: ContractView, sender: Seq<char>) -> bool {
    match pre.config {
        Some(c) => pre.whitelist.contains_key(sender) ==> c.fee * pre.whitelist[sender].len()
            <= u128::MAX,
        None => true,
    }
}

/// Messages that hand the encoded transfers to the NFT contract, with no funds.
pub open spec fn transfer_messages(nft: Seq<char>, encoded: Seq<Seq<u8>>) -> Seq<CosmosMsgView> {
    encoded.map_values(
        |b: Seq<u8>| CosmosMsgView::Wasm(WasmExecuteView { contract_addr: nft, msg: b, funds: Seq::empty() }),
    )
}

/// The payment of `fee` in `uluna` to the treasury.
pub open spec fn treasury_payment(treasury: Seq<char>, fee: u128) -> CosmosMsgView {
    CosmosMsgView::Bank { to_address: treasury, amount: seq![("uluna"@, fee)] }
}

/// The response to a mint: the transfers, then the payment to the treasury,
/// then what was done and for whom.
pub open spec fn mint_response_view(
    nft: Seq<char>,
    treasury: Seq<char>,
    sender: Seq<char>,
    fee: u128,
    encoded: Seq<Seq<u8>>,
) -> ResponseView {
    ResponseView {
        messages: transfer_messages(nft, encoded).push(treasury_payment(treasury, fee)),
        attributes: seq![("action"@, "mint_nft"@), ("sender"@, sender)],
    }
}

/// The encoded transfers of the token ids to `recipient`.
pub open spec fn encoded_transfers(recipient: Seq<char>, ids: Seq<Seq<char>>) -> Seq<Seq<u8>> {
    ids.map_values(|id: Seq<char>| transfer_nft_encoding(recipient, id))
}

/// Minting: the sender must be whitelisted and send exactly one coin, of
/// `uluna`, not zero, worth the fee times its number of tokens; then each of
/// its tokens is transferred to it by the NFT contract, and the payment goes
/// to the treasury. The state does not change, so the same tokens can be
/// minted again.
pub open spec fn mint_outcome(pre: ContractView, sender: Seq<char>, funds: Seq<(Seq<char>, u128)>) -> Outcome {
    match pre.config {
        None => Outcome::Fail(Failure::NotFound(config_kind())),
        Some(c) => if !pre.whitelist.contains_key(sender) {
            Outcome::Fail(Failure::Whitelist)
        } else {
            let ids = pre.whitelist[sender];
            let fee = decimal((c.fee * ids.len()) as nat);
            if funds.len() == 0 {
                Outcome::Fail(Failure::Generic("you need to send "@ + fee))
            } else if funds.len() > 1 {
                Outcome::Fail(Failure::Generic("Only send "@ + fee + " to register"@))
            } else if funds[0].0 != "uluna"@ {
                Outcome::Fail(Failure::Generic("you need to send "@ + fee + " to contract"@))
            } else if funds[0].1 == 0 {
                Outcome::Fail(Failure::ZeroAmount)
            } else if funds[0].1 != c.fee * ids.len() {
                Outcome::Fail(Failure::WrongAmount)
            } else {
                Outcome::Done(
                    pre,
                    mint_response_view(
                        c.nft_contract_address,
                        c.treasury,
                        sender,
                        funds[0].1,
                        encoded_transfers(sender, ids),
                    ),
                )
            }
        },
    }
}

/// Builds the response to a mint from the encoded transfers, in order, and
/// the fee paid to the treasury.
pub fn mint_response(
    nft_contract_address: &String,
    treasury: &String,
    sender: &String,
    fee: u128,
    encoded: Vec<Vec<u8>>,
) -> (r: Response)
    ensures
        r@ == mint_response_view(
            nft_contract_address@,
            treasury@,
            sender@,
            fee,
            encoded@.map_values(|b: Vec<u8>| b@),
        ),
{
    let ghost bytes = encoded@.map_values(|b: Vec<u8>| b@);
    let mut messages: Vec<CosmosMsg> = Vec::new();
    for b in it: encoded
        invariant
            bytes == it.seq().map_values(|b: Vec<u8>| b@),
            messages.len() == it.index(),
            forall|k: int| 0 <= k < messages.len() ==> #[trigger] messages@[k]@ == CosmosMsgView::Wasm(WasmExecuteView {
                contract_addr: nft_contract_address@,
                msg: bytes[k],
                funds: Seq::empty(),
            }),
    {
        let ghost k = messages.len() as int;
        let m = WasmExecute {
            contract_addr: nft_contract_address.clone(),
            msg: b,
            funds: Vec::new(),
        };
        assert(m@.funds =~= Seq::<(Seq<char>, u128)>::empty());
        let m = CosmosMsg::Wasm(m);
        messages.push(m);
        assert(messages@[k]@ == m@);
    }
    let ghost n = messages.len() as int;
    let mut amount: Vec<Coin> = Vec::new();
    amount.push(Coin { denom: String::from_str("uluna"), amount: fee });
    let pay = CosmosMsg::Bank(BankSend { to_address: treasury.clone(), amount });
    assert(pay@ == treasury_payment(treasury@, fee)) by {
        assert(amount@.map_values(|c: Coin| c@) =~= seq![("uluna"@, fee)]);
    }
    messages.push(pay);
    let r = Response { messages, attributes: Vec::new() };
    let r = r.add_attribute(String::from_str("action"), String::from_str("mint_nft"));
    let r = r.add_attribute(String::from_str("sender"), sender.clone());
    proof {
        let want = mint_response_view(nft_contract_address@, treasury@, sender@, fee, bytes);
        assert(r@.messages =~= want.messages);
        assert(r@.attributes =~= want.attributes);
    }
    r
}

/// The host answers for each address that the message names.
pub open spec fn covers_execute(api: Api, msg: ExecuteMsg) -> bool {
    match msg {
        ExecuteMsg::UpdateConfig { new_owner } => covers_owner(api, new_owner),
        ExecuteMsg::AddWhiteList { whitelists } => covers_whitelists(api, whitelists@),
        ExecuteMsg::Mint {  } => true,
    }
}

/// What an execute message does.
pub open spec fn execute_outcome(pre: ContractView, api: Api, info: MessageInfo, msg: ExecuteMsg) -> Outcome {
    match msg {
        ExecuteMsg::UpdateConfig { new_owner } => update_config_outcome(pre, api, info.sender@, new_owner),
        ExecuteMsg::AddWhiteList { whitelists } => add_whitelist_outcome(
            pre,
            api,
            info.sender@,
            whitelists@,
        ),
        ExecuteMsg::Mint {  } => mint_outcome(pre, info.sender@, funds_view(info.funds@)),
    }
}

/// The answer to a query.
#[derive(Debug, PartialEq)]
pub enum QueryAnswer {
    Config(Config),
    Whitelists(TokenIds),
}

/// What a query answers, as plain values.
pub enum QueryOutcome {
    Config(ConfigView),
    Whitelists(Seq<Seq<char>>),
    Fail(Failure),
}

/// A query's result is the outcome `o`.
pub open spec fn query_result_is(res: Result<QueryAnswer, StdErr>, o: QueryOutcome) -> bool {
    match o {
        QueryOutcome::Config(c) => res matches Ok(QueryAnswer::Config(a)) && a@ == c,
        QueryOutcome::Whitelists(ids) => res matches Ok(QueryAnswer::Whitelists(t)) && t@ == ids,
        QueryOutcome::Fail(f) => res matches Err(e) && std_err_is(e, f),
    }
}

/// The host answers for the address that the query names.
pub open spec fn covers_query(api: Api, msg: QueryMsg) -> bool {
    match msg {
        QueryMsg::Config {  } => true,
        QueryMsg::Whitelists { address } => api.answers_for(address@),
    }
}

/// Reading the state: the configuration, or the token ids whitelisted for
/// the validated address.
pub open spec fn query_outcome(pre: ContractView, api: Api, msg: QueryMsg) -> QueryOutcome {
    match msg {
        QueryMsg::Config {  } => match pre.config {
            None => QueryOutcome::Fail(Failure::NotFound(config_kind())),
            Some(c) => QueryOutcome::Config(c),
        },
        QueryMsg::Whitelists { address } => match api.validated(address@) {
            Err(e) => QueryOutcome::Fail(Failure::Passed(e)),
            Ok(a) => if pre.whitelist.contains_key(a) {
                QueryOutcome::Whitelists(pre.whitelist[a])
            } else {
                QueryOutcome::Fail(Failure::NotFound(token_ids_kind()))
            },
        },
    }
}

impl Default for MintingContract {
    fn default() -> (r: MintingContract)
        ensures
            r@.config is None,
            r@.whitelist == Map::<Seq<char>, Seq<Seq<char>>>::empty(),
    {
        MintingContract { config: None, token_whitelist: TokenWhitelist::new() }
    }
}

impl MintingContract {
    /// Refuses `sender` unless it is the owner.
    fn authorize(&self, sender: &String) -> (r: Result<(), ContractError>)
        ensures
            match refusal(self@.config, sender@) {
                None => r is Ok,
                Some(f) => r matches Err(e) && contract_err_is(e, f),
            },
    {
        match &self.config {
            None => Err(
                ContractError::Std(
                    StdErr::NotFound { kind: String::from_str("minting_luna::state::Config") },
                ),
            ),
            Some(c) => match &c.owner {
                None => Err(ContractError::Unauthorized {  }),
                Some(o) => if *o == *sender {
                    Ok(())
                } else {
                    Err(ContractError::Unauthorized {  })
                },
            },
        }
    }

    /// Sets the contract up, as `instantiate_outcome` says.
    pub fn instantiate(&mut self, api: Api, info: MessageInfo, msg: InstantiateMsg) -> (res: Result<
        Response,
        StdErr,
    >)
        requires
            covers_instantiate(api, msg),
        ensures
            std_result_is(res, old(self)@, final(self)@, instantiate_outcome(old(self)@, api, info.sender@, msg)),
    {
        let owner = match msg.owner {
            None => info.sender,
            Some(o) => match api.addr_validate(&o) {
                Ok(v) => v,
                Err(i) => return Err(api.into_error(i)),
            },
        };
        let treasury = match api.addr_validate(&msg.treasury) {
            Ok(v) => v,
            Err(i) => return Err(api.into_error(i)),
        };
        let nft_contract_address = match api.addr_validate(&msg.nft_contract_address) {
            Ok(v) => v,
            Err(i) => return Err(api.into_error(i)),
        };
        self.config = Some(
            Config {
                owner: Some(owner),
                treasury,
                nft_contract_address,
                collection_name: msg.collection_name,
                collection_symbol: msg.collection_symbol,
                fee: msg.fee,
            },
        );
        Ok(new_response())
    }

    /// Changes the owner, as `update_config_outcome` says.
    pub fn execute_update_config(
        &mut self,
        api: Api,
        info: MessageInfo,
        new_owner: Option<String>,
    ) -> (res: Result<Response, ContractError>)
        requires
            covers_owner(api, new_owner),
        ensures
            result_is(
                res,
                old(self)@,
                final(self)@,
                update_config_outcome(old(self)@, api, info.sender@, new_owner),
            ),
    {
        match self.authorize(&info.sender) {
            Err(e) => return Err(e),
            Ok(()) => {},
        }
        let mut tmp_owner: Option<String> = None;
        if let Some(addr) = new_owner {
            match api.addr_validate(&addr) {
                Ok(v) => {
                    tmp_owner = Some(v);
                },
                Err(i) => return Err(ContractError::Std(api.into_error(i))),
            }
        }
        let c = self.config.take().unwrap();
        self.config = Some(
            Config {
                owner: tmp_owner,
                treasury: c.treasury,
                nft_contract_address: c.nft_contract_address,
                collection_name: c.collection_name,
                collection_symbol: c.collection_symbol,
                fee: c.fee,
            },
        );
        let resp = new_response().add_attribute(
            String::from_str("action"),
            String::from_str("update_config"),
        );
        proof {
            assert(resp@.attributes =~= one_attribute("action"@, "update_config"@).attributes);
        }
        Ok(resp)
    }

    /// Whitelists token ids, as `add_whitelist_outcome` says.
    pub fn execute_add_to_whitelist(
        &mut self,
        api: Api,
        info: MessageInfo,
        whitelists: Vec<WhitelistInfo>,
    ) -> (res: Result<Response, ContractError>)
        requires
            covers_whitelists(api, whitelists@),
        ensures
            result_is(
                res,
                old(self)@,
                final(self)@,
                add_whitelist_outcome(old(self)@, api, info.sender@, whitelists@),
            ),
    {
        match self.authorize(&info.sender) {
            Err(e) => return Err(e),
            Ok(()) => {},
        }
        let n = whitelists.len();
        let ghost tv = token_ids_of(whitelists@);
        let ghost pre_wl = self.token_whitelist@;
        let ghost mut kv: Seq<Seq<char>> = Seq::empty();
        assert(whitelists@.take(0) =~= Seq::<WhitelistInfo>::empty());
        assert(tv.take(0) =~= Seq::<Seq<char>>::empty());
        for i in 0..n
            invariant
                n == whitelists.len(),
                tv == token_ids_of(whitelists@),
                pre_wl == old(self)@.whitelist,
                covers_whitelists(api, whitelists@),
                refusal(old(self)@.config, info.sender@) is None,
                self@.config == old(self)@.config,
                kv.len() == i,
                validate_prefix(api, whitelists@.take(i as int)) == (kv, None::<StdErr>),
                self.token_whitelist@ == appended(pre_wl, kv, tv.take(i as int)),
        {
            assert(whitelists@.take(i + 1).drop_last() =~= whitelists@.take(i as int));
            assert(tv.take(i + 1).drop_last() =~= tv.take(i as int));
            assert(whitelists@.take(i + 1).last() == whitelists@[i as int]);
            assert(api.answers_for(whitelists@[i as int].owner@));
            match api.addr_validate(&whitelists[i].owner) {
                Ok(v) => {
                    let ghost old_kv = kv;
                    proof {
                        kv = kv.push(v@);
                        assert(kv.drop_last() =~= old_kv);
                        assert(tv.take(i + 1).last() == tv[i as int]);
                        assert(tv[i as int] == whitelists@[i as int].token_id@);
                    }
                    self.token_whitelist.append(v, whitelists[i].token_id.clone());
                },
                Err(j) => {
                    proof {
                        assert(validate_prefix(api, whitelists@.take(i + 1)).1 is Some);
                        lemma_validate_prefix_stop(api, whitelists@, i + 1);
                    }
                    return Err(ContractError::Std(api.into_error(j)));
                },
            }
        }
        assert(whitelists@.take(n as int) =~= whitelists@);
        let resp = new_response().add_attribute(
            String::from_str("action"),
            String::from_str("add_whitelist"),
        );
        proof {
            assert(resp@.attributes =~= one_attribute("action"@, "add_whitelist"@).attributes);
        }
        Ok(resp)
    }

    /// Mints the sender's whitelisted tokens, as `mint_outcome` says.
    #[verifier::loop_isolation(false)]
    pub fn execute_mint(&self, info: MessageInfo) -> (res: Result<Response, ContractError>)
        requires
            mint_fee_fits(self@, info.sender@),
        ensures
            result_is(res, self@, self@, mint_outcome(self@, info.sender@, funds_view(info.funds@))),
    {
        let config = match &self.config {
            None => {
                return Err(
                    ContractError::Std(
                        StdErr::NotFound { kind: String::from_str("minting_luna::state::Config") },
                    ),
                )
            },
            Some(c) => c,
        };
        let whitelist = match self.token_whitelist.may_load(&info.sender) {
            None => return Err(ContractError::WhitelistError {  }),
            Some(t) => t,
        };
        let length = whitelist.token_ids.len() as u128;
        let cal_fee = config.fee * length;
        let sent: u128 = if info.funds.len() == 0 {
            let mut msg = String::from_str("you need to send ");
            msg.append(to_decimal_string(cal_fee).as_str());
            return Err(ContractError::Std(StdErr::GenericErr { msg }));
        } else if info.funds.len() == 1 {
            if info.funds[0].denom == String::from_str("uluna") {
                info.funds[0].amount
            } else {
                let mut msg = String::from_str("you need to send ");
                msg.append(to_decimal_string(cal_fee).as_str());
                msg.append(" to contract");
                return Err(ContractError::Std(StdErr::GenericErr { msg }));
            }
        } else {
            let mut msg = String::from_str("Only send ");
            msg.append(to_decimal_string(cal_fee).as_str());
            msg.append(" to register");
            return Err(ContractError::Std(StdErr::GenericErr { msg }));
        };
        if sent == 0 {
            return Err(ContractError::ZeroAmount {  });
        }
        if sent != cal_fee {
            return Err(ContractError::WrongAmount {  });
        }
        let ghost ids = whitelist@;
        let n = whitelist.token_ids.len();
        let mut encoded: Vec<Vec<u8>> = Vec::new();
        for i in 0..n
            invariant
                n == whitelist.token_ids.len(),
                ids == whitelist@,
                encoded.len() == i,
                forall|k: int| 0 <= k < i ==> transfer_nft_encoding(info.sender@, ids[k])
                    == #[trigger] encoded@[k]@,
        {
            match encode_transfer_nft(&info.sender, &whitelist.token_ids[i]) {
                Ok(b) => {
                    encoded.push(b);
                },
                Err(e) => {
                    proof {
                        assert(false);
                    }
                    return Err(ContractError::Std(StdErr::Host(e)));
                },
            }
        }
        let resp = mint_response(
            &config.nft_contract_address,
            &config.treasury,
            &info.sender,
            sent,
            encoded,
        );
        proof {
            assert(encoded@.map_values(|b: Vec<u8>| b@) =~= encoded_transfers(info.sender@, ids));
        }
        Ok(resp)
    }

    /// Handles an execute message, as `execute_outcome` says.
    pub fn execute(&mut self, api: Api, info: MessageInfo, msg: ExecuteMsg) -> (res: Result<
        Response,
        ContractError,
    >)
        requires
            covers_execute(api, msg),
            msg is Mint ==> mint_fee_fits(old(self)@, info.sender@),
        ensures
            result_is(res, old(self)@, final(self)@, execute_outcome(old(self)@, api, info, msg)),
    {
        match msg {
            ExecuteMsg::UpdateConfig { new_owner } => self.execute_update_config(api, info, new_owner),
            ExecuteMsg::AddWhiteList { whitelists } => self.execute_add_to_whitelist(
                api,
                info,
                whitelists,
            ),
            ExecuteMsg::Mint {  } => self.execute_mint(info),
        }
    }

    /// Answers a query, as `query_outcome` says.
    pub fn query(&self, api: Api, msg: QueryMsg) -> (res: Result<QueryAnswer, StdErr>)
        requires
            covers_query(api, msg),
        ensures
            query_result_is(res, query_outcome(self@, api, msg)),
    {
        match msg {
            QueryMsg::Config {  } => match &self.config {
                None => Err(StdErr::NotFound { kind: String::from_str("minting_luna::state::Config") }),
                Some(c) => Ok(QueryAnswer::Config(c.duplicate())),
            },
            QueryMsg::Whitelists { address } => match api.addr_validate(&address) {
                Err(i) => Err(api.into_error(i)),
                Ok(a) => match self.token_whitelist.may_load(&a) {
                    None => Err(
                        StdErr::NotFound { kind: String::from_str("minting_luna::state::TokenIds") },
                    ),
                    Some(t) => Ok(QueryAnswer::Whitelists(t.duplicate())),
                },
            },
        }
    }
}

} // verus!
