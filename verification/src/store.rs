//! The content store: blocks of bytes, each found again by the hash of what it holds.

use cid::Cid;
use fvm_ipld_blockstore::Block;
use fvm_ipld_blockstore::Blockstore;
use fvm_ipld_blockstore::MemoryBlockstore;
use fvm_ipld_encoding::DAG_CBOR;
use multihash_codetable::Code;
use vstd::prelude::*;

verus! {

/// `cid::CidGeneric`, the address of a block. Nothing is known of what is inside.
#[verifier::external_type_specification]
#[verifier::external_body]
pub struct ExCid<const S: usize>(cid::CidGeneric<S>);

/// `fvm_ipld_blockstore::MemoryBlockstore`, a store of blocks held in memory.
#[verifier::external_type_specification]
#[verifier::external_body]
pub struct ExMemoryBlockstore(MemoryBlockstore);

/// The blocks that a store holds, each under its address.
pub uninterp spec fn store_blocks(store: MemoryBlockstore) -> Map<Cid, Seq<u8>>;

/// The address that the store gives to a block of structured data with these bytes.
pub uninterp spec fn block_cid(bytes: Seq<u8>) -> Cid;

/// The codec of plain structured data.
pub const CBOR_CODEC: u64 = 0x51;

/// The codec of structured data whose links can be followed.
pub const DAG_CBOR_CODEC: u64 = 0x71;

/// The kind of a block's content, as its address records it.
pub uninterp spec fn codec_of(cid: Cid) -> u64;

/// A store without blocks.
pub open spec fn no_blocks() -> Map<Cid, Seq<u8>> {
    Map::empty()
}

/// Whether every block sits under the address that the store gives to its bytes.
pub open spec fn content_addressed(blocks: Map<Cid, Seq<u8>>) -> bool {
    forall|cid: Cid| #[trigger] blocks.contains_key(cid) ==> block_cid(blocks[cid]) == cid
}

/// `MemoryBlockstore::new`: a store that holds no block.
#[verifier::external_body]
pub(crate) fn store_new() -> (fresh: MemoryBlockstore)
    ensures
        store_blocks(fresh) == no_blocks(),
{
    MemoryBlockstore::new()
}

/// `Blockstore::get` on a `MemoryBlockstore`: the block under `cid`, if the store
/// holds one. The store in memory looks the address up and never fails.
#[verifier::external_body]
pub(crate) fn store_get(store: &MemoryBlockstore, cid: &Cid) -> (block: Option<Vec<u8>>)
    ensures
        block is Some <==> store_blocks(*store).contains_key(*cid),
        block matches Some(bytes) ==> bytes@ == store_blocks(*store)[*cid],
{
    store.get(cid).ok().flatten()
}

/// `Blockstore::put` on a `MemoryBlockstore`, with the Blake2b-256 hash and the
/// DAG-CBOR codec: the store derives the block's address from its bytes and
/// keeps the block under it. The store in memory never refuses a block.
#[verifier::external_body]
pub(crate) fn store_put(store: &mut MemoryBlockstore, bytes: &[u8]) -> (cid: Option<Cid>)
    ensures
        cid == Some(block_cid(bytes@)),
        cid matches Some(c) ==> codec_of(c) == DAG_CBOR_CODEC,
        store_blocks(*final(store)) == store_blocks(*old(store)).insert(block_cid(bytes@), bytes@),
{
    store.put(Code::Blake2b256, &Block::new(DAG_CBOR, bytes)).ok()
}

/// `Cid::codec`: the kind of content that the address records.
#[verifier::external_body]
pub(crate) fn cid_codec(cid: &Cid) -> (codec: u64)
    ensures
        codec == codec_of(*cid),
{
    cid.codec()
}

} // verus!
