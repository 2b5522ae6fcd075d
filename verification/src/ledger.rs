//! The ledger's durable world: the content store and the state root.

use crate::store::block_cid;
use crate::store::codec_of;
use crate::store::content_addressed;
use crate::store::no_blocks;
use crate::store::store_blocks;
use crate::store::store_get;
use crate::store::store_new;
use crate::store::store_put;
use crate::store::DAG_CBOR_CODEC;
use cid::Cid;
use fvm_ipld_blockstore::MemoryBlockstore;
use vstd::prelude::*;

verus! {

/// The content store together with the root that names the current state. A
/// call reads and writes the store as it goes; it commits by setting the root,
/// as its last step. Every block of the store sits under the hash of its bytes.
pub struct Ledger {
    store: MemoryBlockstore,
    root: Option<Cid>,
}

/// What a ledger holds: the blocks of its store, and its state root.
pub struct LedgerView {
    pub blocks: Map<Cid, Seq<u8>>,
    pub root: Option<Cid>,
}

impl View for Ledger {
    type V = LedgerView;

    closed spec fn view(&self) -> LedgerView {
        LedgerView { blocks: store_blocks(self.store), root: self.root }
    }
}

impl Ledger {
    #[verifier::type_invariant]
    spec fn keyed_by_content(self) -> bool {
        content_addressed(store_blocks(self.store))
    }

    /// A ledger with an empty store and no state root.
    pub fn new() -> (ledger: Ledger)
        ensures
            ledger@ == (LedgerView { blocks: no_blocks(), root: None }),
    {
        Ledger { store: store_new(), root: None }
    }

    /// The current state root, if one was set.
    pub fn root(&self) -> (root: Option<Cid>)
        ensures
            root == self@.root,
    {
        self.root
    }

    /// Makes `root` the state root. The store stays as it is.
    pub fn set_root(&mut self, root: Cid)
        ensures
            final(self)@ == (LedgerView { blocks: old(self)@.blocks, root: Some(root) }),
    {
        proof {
            use_type_invariant(&*self);
        }
        self.root = Some(root);
    }

    /// The block that the store holds under `cid`, if it holds one.
    pub fn get(&self, cid: &Cid) -> (block: Option<Vec<u8>>)
        ensures
            match block {
                Some(bytes) => self@.blocks.contains_key(*cid) && bytes@ == self@.blocks[*cid],
                None => !self@.blocks.contains_key(*cid),
            },
    {
        store_get(&self.store, cid)
    }

    /// Puts a block of structured data into the store and gives its hash. The
    /// hash depends on the bytes alone. The state root stays as it is.
    pub fn put(&mut self, bytes: &[u8]) -> (cid: Cid)
        ensures
            cid == block_cid(bytes@),
            codec_of(cid) == DAG_CBOR_CODEC,
            final(self)@ == (LedgerView {
                blocks: old(self)@.blocks.insert(cid, bytes@),
                root: old(self)@.root,
            }),
    {
        let mut store = self.take_store();
        let cid = store_put(&mut store, bytes);
        self.restore(store);
        cid.unwrap()
    }

    /// Gives up the ledger for its store, with every block that was put into it.
    pub fn into_store(self) -> (store: MemoryBlockstore)
        ensures
            store_blocks(store) == self@.blocks,
    {
        self.store
    }

    /// Takes the store out of the ledger, for a balance map to own during a call.
    pub(crate) fn take_store(&mut self) -> (store: MemoryBlockstore)
        ensures
            store_blocks(store) == old(self)@.blocks,
            content_addressed(store_blocks(store)),
            final(self)@.root == old(self)@.root,
    {
        proof {
            use_type_invariant(&*self);
        }
        let mut taken = store_new();
        core::mem::swap(&mut self.store, &mut taken);
        taken
    }

    /// Puts a store back into the ledger.
    pub(crate) fn restore(&mut self, store: MemoryBlockstore)
        requires
            content_addressed(store_blocks(store)),
        ensures
            final(self)@ == (LedgerView { blocks: store_blocks(store), root: old(self)@.root }),
    {
        self.store = store;
    }
}

} // verus!
