use vstd::prelude::*;

verus! {

/// The view of a string that may be absent.
pub open spec fn opt_str_view(o: Option<String>) -> Option<Seq<char>> {
    match o {
        Some(s) => Some(s@),
        None => None,
    }
}

/// The contract's configuration.
#[derive(Debug, PartialEq)]
pub struct Config {
    /// The owner; where it is `None`, the contract is frozen.
    pub owner: Option<String>,
    /// The address that receives the Luna paid for minting.
    pub treasury: String,
    /// The address of the NFT contract whose tokens are handed out.
    pub nft_contract_address: String,
    /// The collection's name.
    pub collection_name: String,
    /// The collection's symbol.
    pub collection_symbol: String,
    /// The fee, in `uluna`, for each whitelisted token.
    pub fee: u128,
}

/// The configuration as plain mathematical values.
pub struct ConfigView {
    pub owner: Option<Seq<char>>,
    pub treasury: Seq<char>,
    pub nft_contract_address: Seq<char>,
    pub collection_name: Seq<char>,
    pub collection_symbol: Seq<char>,
    pub fee: u128,
}

impl View for Config {
    type V = ConfigView;

    open spec fn view(&self) -> ConfigView {
        ConfigView {
            owner: opt_str_view(self.owner),
            treasury: self.treasury@,
            nft_contract_address: self.nft_contract_address@,
            collection_name: self.collection_name@,
            collection_symbol: self.collection_symbol@,
            fee: self.fee,
        }
    }
}

/// The view of a configuration that may be absent.
pub open spec fn opt_config_view(c: Option<Config>) -> Option<ConfigView> {
    match c {
        Some(c) => Some(c@),
        None => None,
    }
}

/// Copies a string that may be absent.
pub fn copy_opt_string(s: &Option<String>) -> (r: Option<String>)
    ensures
        opt_str_view(r) == opt_str_view(*s),
{
    match s {
        Some(s) => Some(s.clone()),
        None => None,
    }
}

impl Config {
    /// A copy of the configuration with the same view.
    pub fn duplicate(&self) -> (r: Config)
        ensures
            r@ == self@,
    {
        Config {
            owner: copy_opt_string(&self.owner),
            treasury: self.treasury.clone(),
            nft_contract_address: self.nft_contract_address.clone(),
            collection_name: self.collection_name.clone(),
            collection_symbol: self.collection_symbol.clone(),
            fee: self.fee,
        }
    }
}

/// The token ids whitelisted for one address, in the order they were added.
#[derive(Debug, PartialEq)]
pub struct TokenIds {
    pub token_ids: Vec<String>,
}

/// The view of a sequence of strings.
pub open spec fn strs_view(s: Seq<String>) -> Seq<Seq<char>> {
    s.map_values(|x: String| x@)
}

impl View for TokenIds {
    type V = Seq<Seq<char>>;

    open spec fn view(&self) -> Seq<Seq<char>> {
        strs_view(self.token_ids@)
    }
}

impl TokenIds {
    /// A copy with the same token ids in the same order.
    pub fn duplicate(&self) -> (r: TokenIds)
        ensures
            r@ == self@,
    {
        let mut ids: Vec<String> = Vec::new();
        let n = self.token_ids.len();
        for i in 0..n
            invariant
                n == self.token_ids.len(),
                ids.len() == i,
                forall|k: int| 0 <= k < i ==> #[trigger] ids@[k]@ == self.token_ids@[k]@,
        {
            ids.push(self.token_ids[i].clone());
        }
        let r = TokenIds { token_ids: ids };
        assert(r@ =~= self@);
        r
    }
}

/// The token whitelist: for each address, the token ids it may mint.
/// No address occurs twice among the entries.
pub struct TokenWhitelist {
    entries: Vec<(String, TokenIds)>,
}

/// The entries' keys are pairwise distinct.
pub open spec fn keys_distinct(entries: Seq<(String, TokenIds)>) -> bool {
    forall|i: int, j: int|
        0 <= i < entries.len() && 0 <= j < entries.len() && i != j ==> #[trigger] entries[i].0@
            != #[trigger] entries[j].0@
}

/// Some entry has the key `k`.
pub open spec fn has_key(entries: Seq<(String, TokenIds)>, k: Seq<char>) -> bool {
    exists|i: int| 0 <= i < entries.len() && #[trigger] entries[i].0@ == k
}

/// The map that the entries stand for.
pub open spec fn entries_map(entries: Seq<(String, TokenIds)>) -> Map<Seq<char>, Seq<Seq<char>>> {
    Map::new(
        |k: Seq<char>| has_key(entries, k),
        |k: Seq<char>| entries[choose|i: int| 0 <= i < entries.len() && #[trigger] entries[i].0@ == k].1@,
    )
}

/// With distinct keys, the entry at `i` gives the map's value at its key.
pub proof fn lemma_entries_map_at(entries: Seq<(String, TokenIds)>, i: int)
    requires
        keys_distinct(entries),
        0 <= i < entries.len(),
    ensures
        entries_map(entries).contains_key(entries[i].0@),
        entries_map(entries)[entries[i].0@] == entries[i].1@,
{
    let k = entries[i].0@;
    assert(has_key(entries, k));
    let j = choose|j: int| 0 <= j < entries.len() && #[trigger] entries[j].0@ == k;
    assert(j == i);
}

/// Replacing the entry at `i` by one with the same key stores the new value there.
pub proof fn lemma_update_entry(entries: Seq<(String, TokenIds)>, i: int, e: (String, TokenIds))
    requires
        keys_distinct(entries),
        0 <= i < entries.len(),
        e.0@ == entries[i].0@,
    ensures
        keys_distinct(entries.update(i, e)),
        entries_map(entries.update(i, e)) == entries_map(entries).insert(e.0@, e.1@),
{
    let new = entries.update(i, e);
    let k = e.0@;
    assert forall|a: int, b: int|
        0 <= a < new.len() && 0 <= b < new.len() && a != b implies #[trigger] new[a].0@
        != #[trigger] new[b].0@ by {
        assert(new[a].0@ == entries[a].0@);
        assert(new[b].0@ == entries[b].0@);
    }
    assert forall|q: Seq<char>| #[trigger] has_key(new, q) == (has_key(entries, q) || q == k) by {
        if has_key(new, q) {
            let j = choose|j: int| 0 <= j < new.len() && #[trigger] new[j].0@ == q;
            assert(entries[j].0@ == q);
        }
        if has_key(entries, q) {
            let j = choose|j: int| 0 <= j < entries.len() && #[trigger] entries[j].0@ == q;
            assert(new[j].0@ == q);
        }
        if q == k {
            assert(new[i].0@ == q);
        }
    }
    assert forall|q: Seq<char>| #[trigger] entries_map(new).contains_key(q) implies entries_map(
        new,
    )[q] == entries_map(entries).insert(k, e.1@)[q] by {
        let j = choose|j: int| 0 <= j < new.len() && #[trigger] new[j].0@ == q;
        lemma_entries_map_at(new, j);
        if j != i {
            lemma_entries_map_at(entries, j);
        }
    }
    assert(entries_map(new) =~= entries_map(entries).insert(k, e.1@));
}

/// Adding an entry with a new key stores its value at that key.
pub proof fn lemma_push_entry(entries: Seq<(String, TokenIds)>, e: (String, TokenIds))
    requires
        keys_distinct(entries),
        !has_key(entries, e.0@),
    ensures
        keys_distinct(entries.push(e)),
        entries_map(entries.push(e)) == entries_map(entries).insert(e.0@, e.1@),
{
    let new = entries.push(e);
    let k = e.0@;
    let n = entries.len() as int;
    assert forall|a: int, b: int|
        0 <= a < new.len() && 0 <= b < new.len() && a != b implies #[trigger] new[a].0@
        != #[trigger] new[b].0@ by {
        if a < n && b < n {
            assert(new[a] == entries[a] && new[b] == entries[b]);
        } else if a < n {
            assert(new[a] == entries[a]);
            assert(entries[a].0@ != k);
        } else {
            assert(new[b] == entries[b]);
            assert(entries[b].0@ != k);
        }
    }
    assert forall|q: Seq<char>| #[trigger] has_key(new, q) == (has_key(entries, q) || q == k) by {
        if has_key(new, q) {
            let j = choose|j: int| 0 <= j < new.len() && #[trigger] new[j].0@ == q;
            if j < n {
                assert(entries[j].0@ == q);
            }
        }
        if has_key(entries, q) {
            let j = choose|j: int| 0 <= j < entries.len() && #[trigger] entries[j].0@ == q;
            assert(new[j].0@ == q);
        }
        if q == k {
            assert(new[n].0@ == q);
        }
    }
    assert forall|q: Seq<char>| #[trigger] entries_map(new).contains_key(q) implies entries_map(
        new,
    )[q] == entries_map(entries).insert(k, e.1@)[q] by {
        let j = choose|j: int| 0 <= j < new.len() && #[trigger] new[j].0@ == q;
        lemma_entries_map_at(new, j);
        if j != n {
            assert(new[j] == entries[j]);
            lemma_entries_map_at(entries, j);
        }
    }
    assert(entries_map(new) =~= entries_map(entries).insert(k, e.1@));
}

/// The position of the entry for `key` among `entries`, if there is one.
fn find_key(entries: &Vec<(String, TokenIds)>, key: &String) -> (r: Option<usize>)
    ensures
        r matches Some(i) ==> i < entries.len() && entries@[i as int].0@ == key@,
        r is None ==> !has_key(entries@, key@),
{
    let n = entries.len();
    for i in 0..n
        invariant
            n == entries.len(),
            forall|j: int| 0 <= j < i ==> #[trigger] entries@[j].0@ != key@,
    {
        if entries[i].0 == *key {
            return Some(i);
        }
    }
    None
}

/// The token ids stored for `k`, or none.
pub open spec fn ids_or_empty(m: Map<Seq<char>, Seq<Seq<char>>>, k: Seq<char>) -> Seq<Seq<char>> {
    if m.contains_key(k) {
        m[k]
    } else {
        Seq::empty()
    }
}

impl View for TokenWhitelist {
    type V = Map<Seq<char>, Seq<Seq<char>>>;

    closed spec fn view(&self) -> Map<Seq<char>, Seq<Seq<char>>> {
        entries_map(self.entries@)
    }
}

impl TokenWhitelist {
    #[verifier::type_invariant]
    spec fn inv(self) -> bool {
        keys_distinct(self.entries@)
    }

    /// An empty whitelist.
    pub fn new() -> (w: TokenWhitelist)
        ensures
            w@ == Map::<Seq<char>, Seq<Seq<char>>>::empty(),
    {
        let w = TokenWhitelist { entries: Vec::new() };
        assert(w@ =~= Map::<Seq<char>, Seq<Seq<char>>>::empty());
        w
    }

    /// The token ids stored for `key`, if any.
    pub fn may_load(&self, key: &String) -> (r: Option<&TokenIds>)
        ensures
            r is Some <==> self@.contains_key(key@),
            r matches Some(t) ==> t@ == self@[key@],
    {
        proof {
            use_type_invariant(self);
        }
        match find_key(&self.entries, key) {
            Some(i) => {
                proof {
                    lemma_entries_map_at(self.entries@, i as int);
                }
                Some(&self.entries[i].1)
            },
            None => None,
        }
    }

    /// Stores `ids` for `key`, in place of what was stored for it.
    pub fn save(&mut self, key: String, ids: TokenIds)
        ensures
            final(self)@ == old(self)@.insert(key@, ids@),
    {
        proof {
            use_type_invariant(&*self);
        }
        let mut entries: Vec<(String, TokenIds)> = Vec::new();
        std::mem::swap(&mut entries, &mut self.entries);
        let ghost old_entries = entries@;
        match find_key(&entries, &key) {
            Some(i) => {
                proof {
                    lemma_update_entry(old_entries, i as int, (key, ids));
                }
                entries.set(i, (key, ids));
            },
            None => {
                proof {
                    lemma_push_entry(old_entries, (key, ids));
                }
                entries.push((key, ids));
            },
        }
        self.entries = entries;
    }

    /// Adds `token_id` at the end of the token ids stored for `key`,
    /// starting a new list where there is none.
    pub fn append(&mut self, key: String, token_id: String)
        ensures
            final(self)@ == old(self)@.insert(key@, ids_or_empty(old(self)@, key@).push(token_id@)),
    {
        proof {
            use_type_invariant(&*self);
        }
        let mut entries: Vec<(String, TokenIds)> = Vec::new();
        std::mem::swap(&mut entries, &mut self.entries);
        let ghost old_entries = entries@;
        match find_key(&entries, &key) {
            Some(i) => {
                let mut slot = (String::new(), TokenIds { token_ids: Vec::new() });
                entries.set_and_swap(i, &mut slot);
                let (k, mut ids) = slot;
                proof {
                    lemma_entries_map_at(old_entries, i as int);
                }
                let ghost before = ids@;
                ids.token_ids.push(token_id);
                assert(ids@ =~= before.push(token_id@));
                proof {
                    lemma_update_entry(old_entries, i as int, (k, ids));
                }
                entries.set(i, (k, ids));
                assert(entries@ =~= old_entries.update(i as int, (k, ids)));
            },
            None => {
                let mut ids: Vec<String> = Vec::new();
                ids.push(token_id);
                let t = TokenIds { token_ids: ids };
                assert(t@ =~= Seq::<Seq<char>>::empty().push(token_id@));
                proof {
                    lemma_push_entry(old_entries, (key, t));
                }
                entries.push((key, t));
            },
        }
        self.entries = entries;
    }

    /// The entries, each address with its token ids; no address occurs twice.
    pub fn entries(&self) -> (r: &Vec<(String, TokenIds)>)
        ensures
            keys_distinct(r@),
            entries_map(r@) == self@,
    {
        proof {
            use_type_invariant(self);
        }
        &self.entries
    }
}

} // verus!
