//! The balance map: a persistent hash-indexed trie from account identifiers to
//! balances, kept in the content store and named by the hash of its root.
//!
//! What is said here of the trie takes a hash to stand for what was hashed: two
//! different blocks under one address, and two accounts with one hash, are left
//! out of account.

use crate::amount::storable;
use crate::amount::TokenAmount;
use crate::error::MapError;
use crate::store::block_cid;
use crate::store::content_addressed;
use crate::store::store_blocks;
use cid::Cid;
use fvm_ipld_blockstore::MemoryBlockstore;
use fvm_ipld_hamt::Hamt;
use fvm_shared::bigint::bigint_ser::BigIntDe;
use fvm_shared::bigint::BigInt;
use fvm_shared::bigint::Sign;
use vstd::prelude::*;

verus! {

/// The canonical, resolved identifier of an account.
pub type ActorID = u64;

/// `fvm_ipld_hamt::Error`, the failure of an operation on the trie.
#[verifier::external_type_specification]
#[verifier::external_body]
pub struct ExTrieError(fvm_ipld_hamt::Error);

/// The balances of the accounts, in a `fvm_ipld_hamt::Hamt` that owns the
/// content store it reads from and writes to.
#[verifier::external_body]
pub struct BalanceMap {
    trie: Hamt<MemoryBlockstore, BigIntDe, ActorID>,
}

/// What a trie holds, as its operations show it.
pub struct TrieView {
    /// The balance that a lookup finds for each account that it finds.
    pub entries: Map<ActorID, int>,
    /// The accounts and balances that a walk hands out, in the order of the
    /// walk: `None` where the walk fails.
    pub listing: Option<Seq<(ActorID, int)>>,
    /// The accounts whose lookup fails.
    pub unreadable: Set<ActorID>,
    /// The accounts to which a write fails.
    pub unwritable: Set<ActorID>,
    /// Whether the root node points to nothing.
    pub bare: bool,
}

/// Where a trie comes from: the blocks and the root that it was loaded from,
/// or none for a trie that was made empty, and the writes that it took since,
/// each with the account and the balance written.
pub struct TrieHistory {
    pub origin: Option<(Map<Cid, Seq<u8>>, Cid)>,
    pub writes: Seq<(ActorID, int)>,
}

/// What the map's trie holds.
pub uninterp spec fn balance_view(map: BalanceMap) -> TrieView;

/// Where the map's trie comes from.
pub uninterp spec fn balance_history(map: BalanceMap) -> TrieHistory;

/// The address of the root node of a trie with this history: what a flush of it
/// gives, on machines of one byte order.
pub uninterp spec fn history_root(history: TrieHistory) -> Cid;

/// The blocks of the store that the map owns.
pub uninterp spec fn balance_blocks(map: BalanceMap) -> Map<Cid, Seq<u8>>;

/// The address of the root node of the map's trie: what a flush of the map
/// gives, where it succeeds.
pub uninterp spec fn balance_root(map: BalanceMap) -> Cid;

/// Whether the map holds a change that no flush has written yet. A map that was
/// just made counts as changed.
pub uninterp spec fn balance_pending(map: BalanceMap) -> bool;

/// Whether a flush of the map succeeds.
pub uninterp spec fn balance_flushable(map: BalanceMap) -> bool;

/// Whether no write to the map has failed since it was made or loaded.
pub uninterp spec fn balance_intact(map: BalanceMap) -> bool;

/// What the trie holds once it is loaded from these blocks at this root: what
/// `Hamt::set_root` makes of them, on machines of one byte order (the trie
/// hashes an account's identifier in the machine's byte order). `None` where
/// the root node cannot be had.
pub uninterp spec fn stored_trie(blocks: Map<Cid, Seq<u8>>, root: Cid) -> Option<TrieView>;

impl View for BalanceMap {
    type V = Map<ActorID, int>;

    open spec fn view(&self) -> Map<ActorID, int> {
        balance_view(*self).entries
    }
}

/// A map without accounts.
pub open spec fn no_balances() -> Map<ActorID, int> {
    Map::empty()
}

/// The bytes of a root node that points to nothing.
pub open spec fn empty_node() -> Seq<u8> {
    seq![0x82u8, 0x40u8, 0x80u8]
}

/// What a trie without accounts holds: every lookup finds nothing, a walk hands
/// nothing out, and every account can be written to.
pub open spec fn empty_view() -> TrieView {
    TrieView {
        entries: Map::empty(),
        listing: Some(Seq::empty()),
        unreadable: Set::empty(),
        unwritable: Set::empty(),
        bare: true,
    }
}

/// The history of a trie that was just made empty.
pub open spec fn fresh_history() -> TrieHistory {
    TrieHistory { origin: None, writes: Seq::empty() }
}

/// The history of a trie that was just loaded from `blocks` at `root`.
pub open spec fn loaded_history(blocks: Map<Cid, Seq<u8>>, root: Cid) -> TrieHistory {
    TrieHistory { origin: Some((blocks, root)), writes: Seq::empty() }
}

/// The history after one more write.
pub open spec fn extended(history: TrieHistory, id: ActorID, amount: int) -> TrieHistory {
    TrieHistory { origin: history.origin, writes: history.writes.push((id, amount)) }
}

/// Whether every block that the trie was loaded from sat under the address of
/// its bytes.
pub open spec fn origin_keyed(history: TrieHistory) -> bool {
    match history.origin {
        Some(origin) => content_addressed(origin.0),
        None => true,
    }
}

/// The balance of `id`: an account that the map does not hold has none.
pub open spec fn balance_in(entries: Map<ActorID, int>, id: ActorID) -> int {
    if entries.contains_key(id) {
        entries[id]
    } else {
        0
    }
}

/// What a walk of the map hands out, each balance as the number it is.
pub open spec fn listing_view(listing: Seq<(ActorID, TokenAmount)>) -> Seq<(ActorID, int)> {
    Seq::new(listing.len(), |i: int| (listing[i].0, listing[i].1@))
}

/// The sum of the balances in a listing.
pub open spec fn listed_total(listing: Seq<(ActorID, int)>) -> int
    decreases listing.len(),
{
    if listing.len() == 0 {
        0
    } else {
        listed_total(listing.drop_last()) + listing.last().1
    }
}

/// The sum of the balances that a walk hands out, where it hands any out.
pub open spec fn listed_sum(listing: Option<Seq<(ActorID, int)>>) -> Option<int> {
    match listing {
        Some(listed) => Some(listed_total(listed)),
        None => None,
    }
}

/// Whether `listed` holds exactly the accounts of `entries`, each once and with
/// its balance.
pub open spec fn lists_exactly(entries: Map<ActorID, int>, listed: Seq<(ActorID, int)>) -> bool {
    &&& forall|i: int|
        0 <= i < listed.len() ==> entries.contains_key(#[trigger] listed[i].0) && entries[listed[i].0]
            == listed[i].1
    &&& forall|i: int, j: int|
        0 <= i < j < listed.len() ==> #[trigger] listed[i].0 != #[trigger] listed[j].0
    &&& forall|id: ActorID| #[trigger]
        entries.contains_key(id) ==> exists|i: int|
            0 <= i < listed.len() && #[trigger] listed[i].0 == id
}

/// Whether a walk of the trie hands out exactly what its lookups find: each
/// account once, with its balance. Every trie that was built by writes to an
/// empty one is of this kind.
pub open spec fn faithful(trie: TrieView) -> bool {
    trie.listing matches Some(listed) && lists_exactly(trie.entries, listed)
}

/// What a write of `amount` to `id` makes of a trie. The lookup of `id` finds
/// the amount, and no other lookup changes. A walk succeeds as it did before,
/// and the sum of what it hands out changes by what the balance of `id` changed
/// by. A walk that handed out exactly what the lookups found still does so.
/// Which accounts can be read and written stays as it was.
pub open spec fn written(before: TrieView, after: TrieView, id: ActorID, amount: int) -> bool {
    &&& after.entries == before.entries.insert(id, amount)
    &&& faithful(before) ==> faithful(after)
    &&& after.unreadable == before.unreadable
    &&& after.unwritable == before.unwritable
    &&& !after.bare
    &&& match listed_sum(before.listing) {
        Some(sum) => listed_sum(after.listing) == Some(sum - balance_in(before.entries, id) + amount),
        None => after.listing is None,
    }
}

/// `Hamt::new`: an empty trie over `store`, which it takes hold of. Its root
/// node points to nothing, a flush of it succeeds and gives the address of the
/// empty root node.
#[verifier::external_body]
#[allow(deprecated)]
fn trie_new(store: MemoryBlockstore) -> (map: BalanceMap)
    ensures
        balance_view(map) == empty_view(),
        balance_history(map) == fresh_history(),
        balance_blocks(map) == store_blocks(store),
        balance_root(map) == block_cid(empty_node()),
        balance_pending(map) && balance_flushable(map) && balance_intact(map),
{
    BalanceMap { trie: Hamt::new(store) }
}

/// `Hamt::set_root`: replaces what the trie holds in memory by the trie whose
/// root node the store holds under `root`. It succeeds where the store holds a
/// valid root node there. What the trie then holds depends on the store's
/// blocks and on the root alone; nothing in it is changed, so that a flush
/// gives `root` back. It only reads the store; where it fails, the trie stays
/// as it was.
#[verifier::external_body]
fn trie_set_root(map: &mut BalanceMap, root: &Cid) -> (loaded: Result<(), fvm_ipld_hamt::Error>)
    ensures
        balance_blocks(*final(map)) == balance_blocks(*old(map)),
        loaded is Ok <==> stored_trie(balance_blocks(*old(map)), *root) is Some,
        loaded is Ok ==> Some(balance_view(*final(map))) == stored_trie(
            balance_blocks(*old(map)),
            *root,
        ),
        loaded is Ok ==> balance_root(*final(map)) == *root && !balance_pending(*final(map))
            && balance_flushable(*final(map)) && balance_intact(*final(map)),
        loaded is Ok ==> balance_history(*final(map)) == loaded_history(
            balance_blocks(*old(map)),
            *root,
        ),
        loaded is Err ==> balance_history(*final(map)) == balance_history(*old(map)),
        loaded is Err ==> balance_view(*final(map)) == balance_view(*old(map)) && balance_root(
            *final(map),
        ) == balance_root(*old(map)) && balance_pending(*final(map)) == balance_pending(*old(map))
            && balance_flushable(*final(map)) == balance_flushable(*old(map)) && balance_intact(
            *final(map),
        ) == balance_intact(*old(map)),
{
    map.trie.set_root(root)
}

/// `Hamt::get`: the value that the trie finds under `key`, or that it finds
/// none. It fails where a node on the way to the key cannot be had.
#[verifier::external_body]
fn trie_get(map: &BalanceMap, key: ActorID) -> (found: Result<Option<TokenAmount>, fvm_ipld_hamt::Error>)
    ensures
        found is Err <==> balance_view(*map).unreadable.contains(key),
        found matches Ok(Some(amount)) ==> balance_view(*map).entries.contains_key(key)
            && balance_view(*map).entries[key] == amount@,
        found matches Ok(None) ==> !balance_view(*map).entries.contains_key(key),
{
    let held = map.trie.get(&key)?;
    Ok(held.map(|value| {
        let (sign, magnitude) = value.0.to_bytes_be();
        TokenAmount { negative: matches!(sign, Sign::Minus), magnitude }
    }))
}

/// `Hamt::set`: puts `amount` under `key`, in place of what was there. The
/// change is made in memory; the store is read at most. It fails where the
/// place of the key cannot be reached or cannot take another key. A key that
/// can be written can be read. A flush succeeds afterwards if it did before and
/// the amount can be stored. That the write leaves the other accounts as they
/// were takes no two accounts to have one hash.
#[verifier::external_body]
fn trie_set(map: &mut BalanceMap, key: ActorID, amount: &TokenAmount) -> (done: Result<(), fvm_ipld_hamt::Error>)
    ensures
        balance_blocks(*final(map)) == balance_blocks(*old(map)),
        done is Err <==> balance_view(*old(map)).unwritable.contains(key),
        done is Ok ==> written(balance_view(*old(map)), balance_view(*final(map)), key, amount@),
        done is Ok ==> !balance_view(*old(map)).unreadable.contains(key),
        done is Ok ==> balance_intact(*final(map)) == balance_intact(*old(map)),
        done is Ok ==> balance_history(*final(map)) == extended(
            balance_history(*old(map)),
            key,
            amount@,
        ),
        done is Ok && balance_flushable(*old(map)) && storable(amount@) ==> balance_flushable(
            *final(map),
        ),
{
    let sign = if amount.negative { Sign::Minus } else { Sign::Plus };
    let value = BigInt::from_bytes_be(sign, &amount.magnitude);
    map.trie.set(key, BigIntDe(value)).map(|_| ())
}

/// `Hamt::flush`: writes the nodes that changed to the store and gives the
/// address of the root node. It fails where a changed balance cannot be stored.
/// The store then holds a block under the root's address; every block that it
/// gains sits under the address of its bytes, and no address that it held is
/// lost. Where nothing had changed, the store stays as it is; an empty trie that
/// was just made writes its root node and no more. Where no write has failed and
/// the trie was loaded from blocks under the addresses of their bytes, the root
/// depends on where the trie was loaded from and on the writes since, and on
/// nothing else. Where every node of the trie can be had and the store keeps
/// its blocks under the addresses of their bytes, the trie holds after the
/// flush what it held before; where moreover no write has failed, a load of the
/// root from the store gives the same trie again, also after a further block
/// was put into the store. All this takes no two different blocks to have one
/// address.
#[verifier::external_body]
fn trie_flush(map: &mut BalanceMap) -> (root: Result<Cid, fvm_ipld_hamt::Error>)
    ensures
        root is Err <==> !balance_flushable(*old(map)),
        root matches Ok(address) ==> address == balance_root(*old(map)) && balance_root(
            *final(map),
        ) == address && !balance_pending(*final(map)) && balance_flushable(*final(map)),
        root is Ok ==> balance_intact(*final(map)) == balance_intact(*old(map)),
        root is Ok ==> balance_history(*final(map)) == balance_history(*old(map)),
        root matches Ok(address) ==> (balance_intact(*old(map)) && origin_keyed(
            balance_history(*old(map)),
        ) ==> address == history_root(balance_history(*old(map)))),
        root is Ok && balance_view(*old(map)).listing is Some && content_addressed(
            balance_blocks(*old(map)),
        ) ==> balance_view(*final(map)) == balance_view(*old(map)),
        root matches Ok(address) ==> balance_blocks(*final(map)).contains_key(address),
        forall|held: Cid| #[trigger]
            balance_blocks(*old(map)).contains_key(held) ==> balance_blocks(
                *final(map),
            ).contains_key(held),
        content_addressed(balance_blocks(*old(map))) ==> content_addressed(
            balance_blocks(*final(map)),
        ),
        !balance_pending(*old(map)) ==> balance_blocks(*final(map)) == balance_blocks(*old(map)),
        root matches Ok(address) ==> (balance_pending(*old(map)) && balance_view(*old(map)).bare
            ==> balance_blocks(*final(map)) == balance_blocks(*old(map)).insert(
            address,
            empty_node(),
        )),
        root matches Ok(address) ==> (balance_intact(*old(map)) && balance_view(
            *old(map),
        ).listing is Some && content_addressed(balance_blocks(*old(map))) ==> stored_trie(
            balance_blocks(*final(map)),
            address,
        ) == Some(balance_view(*old(map))) && forall|bytes: Seq<u8>| #[trigger]
            stored_trie(balance_blocks(*final(map)).insert(block_cid(bytes), bytes), address)
                == Some(balance_view(*old(map)))),
{
    map.trie.flush()
}

/// `Hamt::is_empty`: whether the root node of the trie points to nothing. Such
/// a trie holds no account.
#[verifier::external_body]
fn trie_is_empty(map: &BalanceMap) -> (empty: bool)
    ensures
        empty == balance_view(*map).bare,
        empty ==> balance_view(*map) == empty_view(),
{
    map.trie.is_empty()
}

/// `Hamt::into_store`: gives the store back and drops the trie.
#[verifier::external_body]
fn trie_into_store(map: BalanceMap) -> (store: MemoryBlockstore)
    ensures
        store_blocks(store) == balance_blocks(map),
{
    map.trie.into_store()
}

/// `Hamt::for_each`: walks the trie and hands out each key with its value. It
/// fails where a node cannot be had.
#[verifier::external_body]
fn trie_listing(map: &BalanceMap) -> (listing: Result<Vec<(ActorID, TokenAmount)>, fvm_ipld_hamt::Error>)
    ensures
        listing is Err <==> balance_view(*map).listing is None,
        listing matches Ok(entries) ==> balance_view(*map).listing == Some(listing_view(entries@)),
{
    let mut entries = Vec::new();
    map.trie.for_each(|key, value| {
        let (sign, magnitude) = value.0.to_bytes_be();
        entries.push((*key, TokenAmount { negative: matches!(sign, Sign::Minus), magnitude }));
        Ok(())
    })?;
    Ok(entries)
}

impl BalanceMap {
    /// What the map holds, as its operations show it.
    pub open spec fn model(&self) -> TrieView {
        balance_view(*self)
    }

    /// Where the map comes from: what it was loaded from, and the writes since.
    pub open spec fn history(&self) -> TrieHistory {
        balance_history(*self)
    }

    /// The blocks of the store that the map owns.
    pub open spec fn blocks(&self) -> Map<Cid, Seq<u8>> {
        balance_blocks(*self)
    }

    /// The hash of the map's root, as a flush gives it.
    pub open spec fn root_hash(&self) -> Cid {
        balance_root(*self)
    }

    /// Whether the map holds a change that no flush has written yet.
    pub open spec fn pending(&self) -> bool {
        balance_pending(*self)
    }

    /// Whether a flush of the map succeeds.
    pub open spec fn flushable(&self) -> bool {
        balance_flushable(*self)
    }

    /// Whether no write to the map has failed since it was made or loaded.
    pub open spec fn intact(&self) -> bool {
        balance_intact(*self)
    }

    /// An empty map over `store`.
    pub fn open(store: MemoryBlockstore) -> (map: BalanceMap)
        ensures
            map.model() == empty_view(),
            map.history() == fresh_history(),
            map.blocks() == store_blocks(store),
            map.root_hash() == block_cid(empty_node()),
            map.pending() && map.flushable() && map.intact(),
    {
        trie_new(store)
    }

    /// Loads the map whose root the store holds under `root`, in place of what
    /// this map held in memory. It succeeds where the store holds a map there. A
    /// flush of the loaded map gives `root` back. The store is not written to.
    /// Where the root does not resolve to a valid map, nothing changes.
    pub fn load(&mut self, root: &Cid) -> (loaded: Result<(), MapError>)
        ensures
            final(self).blocks() == old(self).blocks(),
            match loaded {
                Ok(()) => {
                    &&& stored_trie(old(self).blocks(), *root) == Some(final(self).model())
                    &&& final(self).history() == loaded_history(old(self).blocks(), *root)
                    &&& final(self).root_hash() == *root
                    &&& !final(self).pending()
                    &&& final(self).flushable()
                    &&& final(self).intact()
                },
                Err(e) => {
                    &&& e == MapError::StateCorruption
                    &&& stored_trie(old(self).blocks(), *root) is None
                    &&& final(self).model() == old(self).model()
                    &&& final(self).history() == old(self).history()
                    &&& final(self).root_hash() == old(self).root_hash()
                    &&& final(self).pending() == old(self).pending()
                    &&& final(self).flushable() == old(self).flushable()
                    &&& final(self).intact() == old(self).intact()
                },
            },
    {
        match trie_set_root(self, root) {
            Ok(()) => Ok(()),
            Err(_) => Err(MapError::StateCorruption),
        }
    }

    /// The balance stored for `id`, if there is one. Fails for the accounts that
    /// the map cannot read.
    pub fn get(&self, id: ActorID) -> (found: Result<Option<TokenAmount>, MapError>)
        ensures
            match found {
                Ok(Some(amount)) => !self.model().unreadable.contains(id) && self@.contains_key(id)
                    && self@[id] == amount@,
                Ok(None) => !self.model().unreadable.contains(id) && !self@.contains_key(id),
                Err(e) => e == MapError::StateCorruption && self.model().unreadable.contains(id),
            },
    {
        match trie_get(self, id) {
            Ok(found) => Ok(found),
            Err(_) => Err(MapError::StateCorruption),
        }
    }

    /// The balance of `id`: zero where none is stored. Fails for the accounts
    /// that the map cannot read.
    pub fn balance_of(&self, id: ActorID) -> (balance: Result<TokenAmount, MapError>)
        ensures
            match balance {
                Ok(amount) => !self.model().unreadable.contains(id) && amount@ == balance_in(
                    self@,
                    id,
                ),
                Err(e) => e == MapError::StateCorruption && self.model().unreadable.contains(id),
            },
    {
        match self.get(id) {
            Ok(Some(amount)) => Ok(amount),
            Ok(None) => Ok(TokenAmount::zero()),
            Err(e) => Err(e),
        }
    }

    /// Stores `amount` as the balance of `id`, in place of what was stored. No
    /// other account changes, and the store is not written to. Fails for the
    /// accounts that the map cannot write to.
    pub fn set(&mut self, id: ActorID, amount: &TokenAmount) -> (done: Result<(), MapError>)
        ensures
            final(self).blocks() == old(self).blocks(),
            match done {
                Ok(()) => {
                    &&& !old(self).model().unwritable.contains(id)
                    &&& !old(self).model().unreadable.contains(id)
                    &&& written(old(self).model(), final(self).model(), id, amount@)
                    &&& final(self).history() == extended(old(self).history(), id, amount@)
                    &&& final(self).intact() == old(self).intact()
                    &&& old(self).flushable() && storable(amount@) ==> final(self).flushable()
                },
                Err(e) => e == MapError::StorageWriteError && old(self).model().unwritable.contains(
                    id,
                ),
            },
    {
        match trie_set(self, id, amount) {
            Ok(()) => Ok(()),
            Err(_) => Err(MapError::StorageWriteError),
        }
    }

    /// Writes what changed to the store and gives the hash of the new root. It
    /// fails where a changed balance cannot be stored. The store then holds the
    /// root under that hash. Blocks are added under the hash of their bytes, and
    /// none is lost; a map without changes adds none, and an empty map that was
    /// just opened adds its root and no more. Where no write to the map has
    /// failed and it was loaded from a store that kept its blocks under the
    /// hashes of their bytes, the hash depends on what the map was loaded from
    /// and on the writes since, and on nothing else. Where the whole map can be
    /// walked and the store keeps its blocks under the hashes of their bytes,
    /// the map holds after the flush what it held before; where moreover no
    /// write has failed, a load of the root from the store gives the same map
    /// again, also after a further block was put into the store.
    pub fn flush(&mut self) -> (root: Result<Cid, MapError>)
        ensures
            forall|held: Cid| #[trigger]
                old(self).blocks().contains_key(held) ==> final(self).blocks().contains_key(held),
            content_addressed(old(self).blocks()) ==> content_addressed(final(self).blocks()),
            !old(self).pending() ==> final(self).blocks() == old(self).blocks(),
            match root {
                Ok(hash) => {
                    &&& old(self).flushable()
                    &&& hash == old(self).root_hash()
                    &&& final(self).root_hash() == hash
                    &&& !final(self).pending()
                    &&& final(self).flushable()
                    &&& final(self).intact() == old(self).intact()
                    &&& final(self).history() == old(self).history()
                    &&& old(self).intact() && origin_keyed(old(self).history()) ==> hash
                        == history_root(old(self).history())
                    &&& old(self).model().listing is Some && content_addressed(old(self).blocks())
                        ==> final(self).model() == old(self).model()
                    &&& final(self).blocks().contains_key(hash)
                    &&& old(self).pending() && old(self).model().bare ==> final(self).blocks()
                        == old(self).blocks().insert(hash, empty_node())
                    &&& old(self).intact() && old(self).model().listing is Some
                        && content_addressed(old(self).blocks()) ==> stored_trie(
                        final(self).blocks(),
                        hash,
                    ) == Some(old(self).model()) && forall|bytes: Seq<u8>| #[trigger]
                        stored_trie(final(self).blocks().insert(block_cid(bytes), bytes), hash)
                            == Some(old(self).model())
                },
                Err(e) => e == MapError::StorageWriteError && !old(self).flushable(),
            },
    {
        match trie_flush(self) {
            Ok(root) => Ok(root),
            Err(_) => Err(MapError::StorageWriteError),
        }
    }

    /// Whether the root of the map points to nothing. A map that was just opened
    /// is empty in this sense, and one that a balance was stored in is not. An
    /// empty map holds no account, and lists none.
    pub fn is_empty(&self) -> (empty: bool)
        ensures
            empty == self.model().bare,
            empty ==> self.model() == empty_view(),
    {
        trie_is_empty(self)
    }

    /// Gives the store back and drops what the map held in memory.
    pub fn into_store(self) -> (store: MemoryBlockstore)
        ensures
            store_blocks(store) == self.blocks(),
    {
        trie_into_store(self)
    }

    /// The sum of the balances that a walk of the map hands out. Fails where
    /// the map cannot be walked.
    pub fn listed_supply(&self) -> (total: Result<TokenAmount, MapError>)
        ensures
            match total {
                Ok(amount) => listed_sum(self.model().listing) == Some(amount@),
                Err(e) => e == MapError::StateCorruption && self.model().listing is None,
            },
    {
        let entries = match trie_listing(self) {
            Ok(entries) => entries,
            Err(_) => {
                return Err(MapError::StateCorruption);
            },
        };
        let ghost listing = listing_view(entries@);
        let mut total = TokenAmount::zero();
        let mut i: usize = 0;
        while i < entries.len()
            invariant
                i <= entries.len(),
                listing == listing_view(entries@),
                total@ == listed_total(listing.take(i as int)),
            decreases entries.len() - i,
        {
            proof {
                assert(listing.take(i + 1).drop_last() == listing.take(i as int));
                assert(listing.take(i + 1).last() == listing[i as int]);
            }
            total = total.plus(&entries[i].1);
            i += 1;
        }
        proof {
            assert(listing.take(i as int) == listing);
        }
        Ok(total)
    }
}

} // verus!
