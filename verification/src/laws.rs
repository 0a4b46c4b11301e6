use vstd::prelude::*;
use crate::api::Api;
use crate::contract::{
    add_whitelist_outcome, appended, config_kind, covers_instantiate, covers_owner,
    execute_outcome, funds_view, instantiate_outcome, lemma_validate_prefix_len, mint_outcome,
    query_outcome, refusal, token_ids_kind, token_ids_of, treasury_payment,
    update_config_outcome, validate_prefix, ContractView, Outcome, QueryOutcome,
};
use crate::encode::transfer_nft_encoding;
use crate::error::{Failure, StdErr};
use crate::msg::{ExecuteMsg, InstantiateMsg, MessageInfo, QueryMsg, WhitelistInfo};
use crate::response::{CosmosMsgView, WasmExecuteView};
use crate::response::{empty_response, ResponseView};
use crate::state::{ids_or_empty, ConfigView};

verus! {

/// The token ids among `ids` whose key in `keys` is `a`, in order.
pub open spec fn ids_for(keys: Seq<Seq<char>>, ids: Seq<Seq<char>>, a: Seq<char>) -> Seq<Seq<char>>
    decreases keys.len(),
{
    if keys.len() == 0 {
        Seq::empty()
    } else {
        let rest = ids_for(keys.drop_last(), ids.drop_last(), a);
        if keys.last() == a {
            rest.push(ids.last())
        } else {
            rest
        }
    }
}

/// Adding token ids one after the other gives each address what it had,
/// followed by the ids added for it, in order; an address is present
/// afterwards when it was before or some id was added for it.
pub proof fn lemma_appended(
    m: Map<Seq<char>, Seq<Seq<char>>>,
    keys: Seq<Seq<char>>,
    ids: Seq<Seq<char>>,
    a: Seq<char>,
)
    requires
        keys.len() == ids.len(),
    ensures
        appended(m, keys, ids).contains_key(a) == (m.contains_key(a) || keys.contains(a)),
        ids_or_empty(appended(m, keys, ids), a) == ids_or_empty(m, a) + ids_for(keys, ids, a),
    decreases keys.len(),
{
    if keys.len() == 0 {
        assert(ids_or_empty(m, a) + Seq::<Seq<char>>::empty() =~= ids_or_empty(m, a));
    } else {
        let ks = keys.drop_last();
        lemma_appended(m, ks, ids.drop_last(), a);
        let prev = appended(m, ks, ids.drop_last());
        if keys.last() == a {
            assert(keys[keys.len() - 1] == a);
            assert((ids_or_empty(m, a) + ids_for(ks, ids.drop_last(), a)).push(ids.last()) =~= ids_or_empty(m, a)
                + ids_for(ks, ids.drop_last(), a).push(ids.last()));
        } else {
            assert(keys.contains(a) == ks.contains(a)) by {
                if keys.contains(a) {
                    let j = choose|j: int| 0 <= j < keys.len() && keys[j] == a;
                    assert(ks[j] == a);
                }
                if ks.contains(a) {
                    let j = choose|j: int| 0 <= j < ks.len() && ks[j] == a;
                    assert(keys[j] == a);
                }
            }
        }
    }
}

/// A read after setting up: querying the configuration gives back the
/// message's own addresses and values, with the sender as owner where the
/// message names none; the whitelist is left as it was and the response is
/// empty.
pub proof fn law_config_read_after_instantiate(
    pre: ContractView,
    api: Api,
    sender: Seq<char>,
    msg: InstantiateMsg,
    qapi: Api,
)
    requires
        covers_instantiate(api, msg),
        instantiate_outcome(pre, api, sender, msg) is Done,
    ensures
        ({
            let post = instantiate_outcome(pre, api, sender, msg)->Done_0;
            &&& instantiate_outcome(pre, api, sender, msg)->Done_1 == empty_response()
            &&& post.whitelist == pre.whitelist
            &&& query_outcome(post, qapi, QueryMsg::Config {  }) matches QueryOutcome::Config(c)
            &&& c.owner == Some(
                match msg.owner {
                    None => sender,
                    Some(o) => o@,
                },
            )
            &&& c.treasury == msg.treasury@
            &&& c.nft_contract_address == msg.nft_contract_address@
            &&& c.collection_name == msg.collection_name@
            &&& c.collection_symbol == msg.collection_symbol@
            &&& c.fee == msg.fee
        }),
{
}

/// A read after changing the owner: the configuration then names the
/// validated new owner, or none; nothing else changes.
pub proof fn law_owner_read_after_update(
    pre: ContractView,
    api: Api,
    sender: Seq<char>,
    new_owner: Option<String>,
    qapi: Api,
)
    requires
        covers_owner(api, new_owner),
        update_config_outcome(pre, api, sender, new_owner) is Done,
    ensures
        ({
            let post = update_config_outcome(pre, api, sender, new_owner)->Done_0;
            let c = pre.config.unwrap();
            &&& post.whitelist == pre.whitelist
            &&& query_outcome(post, qapi, QueryMsg::Config {  }) matches QueryOutcome::Config(d)
            &&& d.owner == match new_owner {
                None => None,
                Some(o) => Some(o@),
            }
            &&& d.treasury == c.treasury
            &&& d.nft_contract_address == c.nft_contract_address
            &&& d.collection_name == c.collection_name
            &&& d.collection_symbol == c.collection_symbol
            &&& d.fee == c.fee
        }),
{
}

/// Only the owner writes: anyone else is refused, before any address is
/// validated, and nothing changes.
pub proof fn law_only_owner_writes(
    pre: ContractView,
    api: Api,
    sender: Seq<char>,
    new_owner: Option<String>,
    wl: Seq<WhitelistInfo>,
)
    requires
        pre.config matches Some(c) ==> c.owner != Some(sender),
    ensures
        update_config_outcome(pre, api, sender, new_owner) == Outcome::Fail(
            refusal(pre.config, sender).unwrap(),
        ),
        add_whitelist_outcome(pre, api, sender, wl) == Outcome::Fail(
            refusal(pre.config, sender).unwrap(),
        ),
        pre.config is None ==> refusal(pre.config, sender) == Some(
            Failure::NotFound(config_kind()),
        ),
        pre.config is Some ==> refusal(pre.config, sender) == Some(Failure::Unauthorized),
{
}

/// A contract whose owner was set to none is frozen: from then on nobody
/// may change the owner or add to the whitelist.
pub proof fn law_frozen_contract_refuses(
    pre: ContractView,
    api: Api,
    sender: Seq<char>,
    api2: Api,
    sender2: Seq<char>,
    new_owner2: Option<String>,
    wl: Seq<WhitelistInfo>,
)
    requires
        update_config_outcome(pre, api, sender, None) is Done,
    ensures
        ({
            let post = update_config_outcome(pre, api, sender, None)->Done_0;
            &&& update_config_outcome(post, api2, sender2, new_owner2) == Outcome::Fail(
                Failure::Unauthorized,
            )
            &&& add_whitelist_outcome(post, api2, sender2, wl) == Outcome::Fail(
                Failure::Unauthorized,
            )
        }),
{
}

/// The state that an outcome leaves: the new state where the call went
/// through or stopped after some writes, the old one where it failed.
pub open spec fn left_state(pre: ContractView, o: Outcome) -> ContractView {
    match o {
        Outcome::Done(s, _) => s,
        Outcome::Stopped(s, _) => s,
        Outcome::Fail(_) => pre,
    }
}

/// A read after whitelisting: each address's token ids are those it had,
/// followed by the ids added for it, in the order given, up to the first
/// entry whose owner fails to validate; an address that had none and got
/// none is still not found.
pub proof fn law_whitelist_read_after_add(
    pre: ContractView,
    api: Api,
    sender: Seq<char>,
    wl: Seq<WhitelistInfo>,
    qapi: Api,
    address: String,
)
    requires
        refusal(pre.config, sender) is None,
        qapi.validated(address@) is Ok,
    ensures
        ({
            let post = left_state(pre, add_whitelist_outcome(pre, api, sender, wl));
            let keys = validate_prefix(api, wl).0;
            let ids = token_ids_of(wl).take(keys.len() as int);
            let a = qapi.validated(address@)->Ok_0;
            query_outcome(post, qapi, QueryMsg::Whitelists { address }) == if pre.whitelist.contains_key(a)
                || keys.contains(a) {
                QueryOutcome::Whitelists(ids_or_empty(pre.whitelist, a) + ids_for(keys, ids, a))
            } else {
                QueryOutcome::Fail(Failure::NotFound(token_ids_kind()))
            }
        }),
{
    let keys = validate_prefix(api, wl).0;
    let a = qapi.validated(address@)->Ok_0;
    lemma_validate_prefix_len(api, wl);
    lemma_appended(pre.whitelist, keys, token_ids_of(wl).take(keys.len() as int), a);
}

/// Validating two lists of entries that both pass gives the addresses of
/// the first, then those of the second.
pub proof fn lemma_validate_concat(api: Api, a: Seq<WhitelistInfo>, b: Seq<WhitelistInfo>)
    requires
        validate_prefix(api, a).1 is None,
        validate_prefix(api, b).1 is None,
    ensures
        validate_prefix(api, a + b) == (
            validate_prefix(api, a).0 + validate_prefix(api, b).0,
            None::<StdErr>,
        ),
    decreases b.len(),
{
    if b.len() == 0 {
        assert(a + b =~= a);
        assert(validate_prefix(api, a).0 + validate_prefix(api, b).0 =~= validate_prefix(api, a).0);
    } else {
        assert((a + b).drop_last() =~= a + b.drop_last());
        assert((a + b).last() == b.last());
        lemma_validate_concat(api, a, b.drop_last());
        let ka = validate_prefix(api, a).0;
        let kb = validate_prefix(api, b.drop_last()).0;
        let k = api.validated(b.last().owner@)->Ok_0;
        assert((ka + kb).push(k) =~= ka + kb.push(k));
    }
}

/// Adding two lists of token ids one after the other is adding the joined
/// list.
pub proof fn lemma_appended_concat(
    m: Map<Seq<char>, Seq<Seq<char>>>,
    k1: Seq<Seq<char>>,
    i1: Seq<Seq<char>>,
    k2: Seq<Seq<char>>,
    i2: Seq<Seq<char>>,
)
    requires
        k1.len() == i1.len(),
        k2.len() == i2.len(),
    ensures
        appended(m, k1 + k2, i1 + i2) == appended(appended(m, k1, i1), k2, i2),
    decreases k2.len(),
{
    if k2.len() == 0 {
        assert(k1 + k2 =~= k1);
        assert(i1 + i2 =~= i1);
    } else {
        assert((k1 + k2).drop_last() =~= k1 + k2.drop_last());
        assert((i1 + i2).drop_last() =~= i1 + i2.drop_last());
        assert((k1 + k2).last() == k2.last());
        assert((i1 + i2).last() == i2.last());
        lemma_appended_concat(m, k1, i1, k2.drop_last(), i2.drop_last());
    }
}

/// Whitelisting list `a` and then list `b`, both accepted, leaves the same
/// state and answer as whitelisting `a` followed by `b` at once.
pub proof fn law_whitelist_additions_compose(
    pre: ContractView,
    api: Api,
    sender: Seq<char>,
    a: Seq<WhitelistInfo>,
    b: Seq<WhitelistInfo>,
)
    requires
        add_whitelist_outcome(pre, api, sender, a) is Done,
        add_whitelist_outcome(add_whitelist_outcome(pre, api, sender, a)->Done_0, api, sender, b) is Done,
    ensures
        add_whitelist_outcome(pre, api, sender, a + b) == add_whitelist_outcome(
            add_whitelist_outcome(pre, api, sender, a)->Done_0,
            api,
            sender,
            b,
        ),
{
    lemma_validate_prefix_len(api, a);
    lemma_validate_prefix_len(api, b);
    lemma_validate_concat(api, a, b);
    lemma_validate_prefix_len(api, a + b);
    let ta = token_ids_of(a);
    let tb = token_ids_of(b);
    assert(token_ids_of(a + b) =~= ta + tb);
    assert(ta.take(a.len() as int) =~= ta);
    assert(tb.take(b.len() as int) =~= tb);
    assert(token_ids_of(a + b).take((a + b).len() as int) =~= ta + tb);
    lemma_appended_concat(pre.whitelist, validate_prefix(api, a).0, ta, validate_prefix(api, b).0, tb);
}

/// A mint that goes through was paid with exactly one coin of `uluna`,
/// not zero, worth the fee times the number of whitelisted tokens; it
/// transfers each of those tokens, in order, to the sender through the NFT
/// contract with no funds attached, pays the fee to the treasury, and
/// leaves the state as it was, so the whitelist is not used up.
pub proof fn law_mint_pays_exact_fee(pre: ContractView, sender: Seq<char>, funds: Seq<(Seq<char>, u128)>)
    requires
        mint_outcome(pre, sender, funds) is Done,
    ensures
        ({
            let post = mint_outcome(pre, sender, funds)->Done_0;
            let resp = mint_outcome(pre, sender, funds)->Done_1;
            let c = pre.config.unwrap();
            let ids = pre.whitelist[sender];
            &&& post == pre
            &&& pre.config is Some && pre.whitelist.contains_key(sender)
            &&& funds.len() == 1
            &&& funds[0].0 == "uluna"@
            &&& funds[0].1 == c.fee * ids.len()
            &&& funds[0].1 > 0
            &&& resp.messages.len() == ids.len() + 1
            &&& forall|i: int|
                0 <= i < ids.len() ==> #[trigger] resp.messages[i] == CosmosMsgView::Wasm(
                    WasmExecuteView {
                        contract_addr: c.nft_contract_address,
                        msg: transfer_nft_encoding(sender, ids[i]),
                        funds: Seq::empty(),
                    },
                )
            &&& resp.messages[ids.len() as int] == treasury_payment(c.treasury, funds[0].1)
            &&& resp.attributes == seq![("action"@, "mint_nft"@), ("sender"@, sender)]
            &&& mint_outcome(post, sender, funds) == mint_outcome(pre, sender, funds)
        }),
{
}

/// Minting never changes the state: it either fails or goes through with
/// the state as it was.
pub proof fn law_mint_keeps_state(pre: ContractView, sender: Seq<char>, funds: Seq<(Seq<char>, u128)>)
    ensures
        mint_outcome(pre, sender, funds) is Fail || (mint_outcome(pre, sender, funds) is Done
            && mint_outcome(pre, sender, funds)->Done_0 == pre),
{
}

/// Two configurations that agree on everything but the owner.
pub open spec fn same_but_owner(c1: Option<ConfigView>, c2: Option<ConfigView>) -> bool {
    match (c1, c2) {
        (None, None) => true,
        (Some(a), Some(b)) => {
            &&& a.treasury == b.treasury
            &&& a.nft_contract_address == b.nft_contract_address
            &&& a.collection_name == b.collection_name
            &&& a.collection_symbol == b.collection_symbol
            &&& a.fee == b.fee
        },
        _ => false,
    }
}

/// Minting does not depend on the owner: a frozen contract, or one with
/// another owner, answers a mint just the same, so whitelisted addresses
/// can still mint after the owner is locked out.
pub proof fn law_mint_ignores_owner(
    p1: ContractView,
    p2: ContractView,
    sender: Seq<char>,
    funds: Seq<(Seq<char>, u128)>,
)
    requires
        p1.whitelist == p2.whitelist,
        same_but_owner(p1.config, p2.config),
    ensures
        mint_outcome(p1, sender, funds) is Done <==> mint_outcome(p2, sender, funds) is Done,
        mint_outcome(p1, sender, funds) is Done ==> mint_outcome(p1, sender, funds)->Done_1
            == mint_outcome(p2, sender, funds)->Done_1,
        mint_outcome(p1, sender, funds) is Fail ==> mint_outcome(p1, sender, funds)
            == mint_outcome(p2, sender, funds),
{
}

/// An execute message does what the handler for its kind does.
pub proof fn law_execute_dispatches(pre: ContractView, api: Api, info: MessageInfo, msg: ExecuteMsg)
    ensures
        execute_outcome(pre, api, info, msg) == match msg {
            ExecuteMsg::UpdateConfig { new_owner } => update_config_outcome(
                pre,
                api,
                info.sender@,
                new_owner,
            ),
            ExecuteMsg::AddWhiteList { whitelists } => add_whitelist_outcome(
                pre,
                api,
                info.sender@,
                whitelists@,
            ),
            ExecuteMsg::Mint {  } => mint_outcome(pre, info.sender@, funds_view(info.funds@)),
        },
{
}

/// Minting goes through whenever the sender is whitelisted and pays, in
/// exactly one non-zero coin of `uluna`, the fee times the number of its
/// whitelisted tokens, however many tokens that is: the answer transfers
/// each token, in order, to the sender through the NFT contract, then pays
/// the amount to the treasury, and the state stays as it was.
pub proof fn law_mint_succeeds_when_paid(
    pre: ContractView,
    sender: Seq<char>,
    funds: Seq<(Seq<char>, u128)>,
)
    requires
        pre.config is Some,
        pre.whitelist.contains_key(sender),
        funds.len() == 1,
        funds[0].0 == "uluna"@,
        funds[0].1 != 0,
        funds[0].1 == pre.config.unwrap().fee * pre.whitelist[sender].len(),
    ensures
        ({
            let c = pre.config.unwrap();
            let ids = pre.whitelist[sender];
            let o = mint_outcome(pre, sender, funds);
            &&& o is Done
            &&& o->Done_0 == pre
            &&& o->Done_1.messages.len() == ids.len() + 1
            &&& forall|i: int|
                0 <= i < ids.len() ==> #[trigger] o->Done_1.messages[i] == CosmosMsgView::Wasm(
                    WasmExecuteView {
                        contract_addr: c.nft_contract_address,
                        msg: transfer_nft_encoding(sender, ids[i]),
                        funds: Seq::empty(),
                    },
                )
            &&& o->Done_1.messages[ids.len() as int] == CosmosMsgView::Bank {
                to_address: c.treasury,
                amount: seq![("uluna"@, funds[0].1)],
            }
            &&& o->Done_1.attributes == seq![("action"@, "mint_nft"@), ("sender"@, sender)]
        }),
{
}

/// When every entry's owner validates to itself, validation gives the
/// owners in order and does not stop.
pub proof fn lemma_validate_all_owners(api: Api, wl: Seq<WhitelistInfo>)
    requires
        forall|i: int| 0 <= i < wl.len() ==> api.validated(#[trigger] wl[i].owner@) == Ok::<
            Seq<char>,
            StdErr,
        >(wl[i].owner@),
    ensures
        validate_prefix(api, wl) == (
            wl.map_values(|w: WhitelistInfo| w.owner@),
            None::<StdErr>,
        ),
    decreases wl.len(),
{
    if wl.len() > 0 {
        let d = wl.drop_last();
        assert forall|i: int| 0 <= i < d.len() implies api.validated(#[trigger] d[i].owner@) == Ok::<
            Seq<char>,
            StdErr,
        >(d[i].owner@) by {
            assert(d[i] == wl[i]);
        }
        lemma_validate_all_owners(api, d);
        assert(api.validated(wl[wl.len() - 1].owner@) == Ok::<Seq<char>, StdErr>(
            wl[wl.len() - 1].owner@,
        ));
        assert(d.map_values(|w: WhitelistInfo| w.owner@).push(wl.last().owner@) =~= wl.map_values(
            |w: WhitelistInfo| w.owner@,
        ));
    } else {
        assert(wl.map_values(|w: WhitelistInfo| w.owner@) =~= Seq::<Seq<char>>::empty());
    }
}

/// The owner's whitelisting goes through whenever every entry's owner is a
/// valid address, whatever the whitelist already holds and whoever the
/// entries name (the owner itself too): the configuration stays, each
/// address keeps what it had and gets, in order, the token ids of the
/// entries that name it, and the answer is `action = add_whitelist`.
pub proof fn law_whitelist_succeeds_when_valid(
    pre: ContractView,
    api: Api,
    sender: Seq<char>,
    wl: Seq<WhitelistInfo>,
    a: Seq<char>,
)
    requires
        pre.config is Some,
        pre.config.unwrap().owner == Some(sender),
        forall|i: int| 0 <= i < wl.len() ==> api.validated(#[trigger] wl[i].owner@) == Ok::<
            Seq<char>,
            StdErr,
        >(wl[i].owner@),
    ensures
        ({
            let o = add_whitelist_outcome(pre, api, sender, wl);
            let owners = wl.map_values(|w: WhitelistInfo| w.owner@);
            let tokens = wl.map_values(|w: WhitelistInfo| w.token_id@);
            &&& o is Done
            &&& o->Done_0.config == pre.config
            &&& o->Done_1 == ResponseView {
                messages: Seq::empty(),
                attributes: seq![("action"@, "add_whitelist"@)],
            }
            &&& o->Done_0.whitelist.contains_key(a) == (pre.whitelist.contains_key(a)
                || owners.contains(a))
            &&& ids_or_empty(o->Done_0.whitelist, a) == ids_or_empty(pre.whitelist, a) + ids_for(
                owners,
                tokens,
                a,
            )
        }),
{
    lemma_validate_all_owners(api, wl);
    let owners = wl.map_values(|w: WhitelistInfo| w.owner@);
    let tokens = wl.map_values(|w: WhitelistInfo| w.token_id@);
    assert(token_ids_of(wl).take(wl.len() as int) =~= tokens);
    lemma_appended(pre.whitelist, owners, tokens, a);
}

/// Reading an address's token ids does not depend on the configuration:
/// in every state, the owner set, changed or gone (a frozen contract), and
/// even before set-up, an address that validates to `a` is answered with
/// exactly the ids stored for `a`, and is not found only where none are.
pub proof fn law_query_reads_stored_whitelist(pre: ContractView, qapi: Api, address: String)
    requires
        qapi.validated(address@) is Ok,
    ensures
        ({
            let a = qapi.validated(address@)->Ok_0;
            query_outcome(pre, qapi, QueryMsg::Whitelists { address }) == if pre.whitelist.contains_key(
                a,
            ) {
                QueryOutcome::Whitelists(pre.whitelist[a])
            } else {
                QueryOutcome::Fail(Failure::NotFound(token_ids_kind()))
            }
        }),
{
}

/// Setting up goes through whenever the addresses validate, with no other
/// condition between them (the treasury may be the owner): the configuration
/// holds the owner (the sender where the message names none), the validated
/// treasury and NFT contract, and the message's name, symbol and fee; the
/// whitelist stays and the answer is empty.
pub proof fn law_instantiate_succeeds_when_valid(
    pre: ContractView,
    api: Api,
    sender: Seq<char>,
    msg: InstantiateMsg,
)
    requires
        msg.owner matches Some(o) ==> api.validated(o@) is Ok,
        api.validated(msg.treasury@) is Ok,
        api.validated(msg.nft_contract_address@) is Ok,
    ensures
        ({
            let o = instantiate_outcome(pre, api, sender, msg);
            &&& o is Done
            &&& o->Done_1 == ResponseView { messages: Seq::empty(), attributes: Seq::empty() }
            &&& o->Done_0.whitelist == pre.whitelist
            &&& o->Done_0.config == Some(
                ConfigView {
                    owner: Some(
                        match msg.owner {
                            None => sender,
                            Some(x) => api.validated(x@)->Ok_0,
                        },
                    ),
                    treasury: api.validated(msg.treasury@)->Ok_0,
                    nft_contract_address: api.validated(msg.nft_contract_address@)->Ok_0,
                    collection_name: msg.collection_name@,
                    collection_symbol: msg.collection_symbol@,
                    fee: msg.fee,
                },
            )
        }),
{
}

/// The owner's change of owner goes through whenever the new owner, if one
/// is given, validates, whatever the whitelist holds: the configuration
/// then names the validated new owner, or none, and is otherwise as it was;
/// the whitelist stays and the answer is `action = update_config`.
pub proof fn law_update_config_succeeds_when_valid(
    pre: ContractView,
    api: Api,
    sender: Seq<char>,
    new_owner: Option<String>,
)
    requires
        pre.config is Some,
        pre.config.unwrap().owner == Some(sender),
        new_owner matches Some(x) ==> api.validated(x@) is Ok,
    ensures
        ({
            let o = update_config_outcome(pre, api, sender, new_owner);
            let c = pre.config.unwrap();
            &&& o is Done
            &&& o->Done_1 == ResponseView {
                messages: Seq::empty(),
                attributes: seq![("action"@, "update_config"@)],
            }
            &&& o->Done_0.whitelist == pre.whitelist
            &&& o->Done_0.config == Some(
                ConfigView {
                    owner: match new_owner {
                        None => None,
                        Some(x) => Some(api.validated(x@)->Ok_0),
                    },
                    treasury: c.treasury,
                    nft_contract_address: c.nft_contract_address,
                    collection_name: c.collection_name,
                    collection_symbol: c.collection_symbol,
                    fee: c.fee,
                },
            )
        }),
{
}

} // verus!
