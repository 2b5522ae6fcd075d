//! The ledger state: the one durable record, stored as a single block that the
//! state root names.

use crate::amount::TokenAmount;
use crate::amount::storable;
use crate::balances::empty_node;
use crate::balances::empty_view;
use crate::balances::listed_sum;
use crate::balances::no_balances;
use crate::balances::stored_trie;
use crate::balances::ActorID;
use crate::balances::BalanceMap;
use crate::balances::TrieView;
use crate::codec::constructor_params_decoding;
use crate::codec::decode_constructor_params;
use crate::codec::decode_state;
use crate::codec::decode_transfer_params;
use crate::codec::encode_state;
use crate::codec::state_decoding;
use crate::codec::state_encoding;
use crate::codec::transfer_params_decoding;
use crate::error::ActorError;
use crate::ledger::Ledger;
use crate::ledger::LedgerView;
use crate::store::block_cid;
use crate::store::cid_codec;
use crate::store::codec_of;
use crate::store::CBOR_CODEC;
use crate::store::DAG_CBOR_CODEC;
use cid::Cid;
use fvm_shared::address::Address;
use vstd::prelude::*;

verus! {

/// `fvm_shared::address::Address`, an account's address, which may still have
/// to be resolved to an identifier.
#[verifier::external_type_specification]
#[verifier::external_body]
pub struct ExAddress(Address);

/// The state object.
#[derive(Debug)]
pub struct State {
    pub name: String,
    pub symbol: String,
    pub max_supply: TokenAmount,
    pub owner: Address,
    pub balances: Cid,
}

/// What a state says.
pub struct StateView {
    pub name: Seq<char>,
    pub symbol: Seq<char>,
    pub max_supply: int,
    pub owner: Address,
    pub balances: Cid,
}

impl View for State {
    type V = StateView;

    open spec fn view(&self) -> StateView {
        StateView {
            name: self.name@,
            symbol: self.symbol@,
            max_supply: self.max_supply@,
            owner: self.owner,
            balances: self.balances,
        }
    }
}

/// The parameters of the constructor.
#[derive(Debug)]
pub struct ConstructorParams {
    pub name: String,
    pub symbol: String,
    pub max_supply: TokenAmount,
    pub owner: Address,
}

/// What the parameters of a constructor say.
pub struct ConstructorParamsView {
    pub name: Seq<char>,
    pub symbol: Seq<char>,
    pub max_supply: int,
    pub owner: Address,
}

impl View for ConstructorParams {
    type V = ConstructorParamsView;

    open spec fn view(&self) -> ConstructorParamsView {
        ConstructorParamsView {
            name: self.name@,
            symbol: self.symbol@,
            max_supply: self.max_supply@,
            owner: self.owner,
        }
    }
}

/// The input parameters for a transfer, and for a mint.
#[derive(Debug)]
pub struct TransferParams {
    pub recipient: Address,
    pub amount: TokenAmount,
}

/// What the parameters of a transfer say.
pub struct TransferParamsView {
    pub recipient: Address,
    pub amount: int,
}

impl View for TransferParams {
    type V = TransferParamsView;

    open spec fn view(&self) -> TransferParamsView {
        TransferParamsView { recipient: self.recipient, amount: self.amount@ }
    }
}

/// The constructor's parameters that the bytes hold, or `None` where they hold none.
pub open spec fn decoded_constructor_params(bytes: Seq<u8>) -> Option<ConstructorParamsView> {
    match constructor_params_decoding(bytes) {
        Some(fields) => Some(
            ConstructorParamsView {
                name: fields.0,
                symbol: fields.1,
                max_supply: fields.2,
                owner: fields.3,
            },
        ),
        None => None,
    }
}

/// The transfer's parameters that the bytes hold, or `None` where they hold none.
pub open spec fn decoded_transfer_params(bytes: Seq<u8>) -> Option<TransferParamsView> {
    match transfer_params_decoding(bytes) {
        Some(fields) => Some(TransferParamsView { recipient: fields.0, amount: fields.1 }),
        None => None,
    }
}

impl ConstructorParams {
    /// Decodes the parameter block of a constructor call.
    pub fn decode(bytes: &[u8]) -> (decoded: Result<ConstructorParams, ActorError>)
        ensures
            match decoded {
                Ok(params) => decoded_constructor_params(bytes@) == Some(params@),
                Err(e) => e == ActorError::SerializationError && decoded_constructor_params(
                    bytes@,
                ) is None,
            },
    {
        match decode_constructor_params(bytes) {
            Ok(params) => Ok(params),
            Err(_) => Err(ActorError::SerializationError),
        }
    }
}

impl TransferParams {
    /// Decodes the parameter block of a mint or of a transfer.
    pub fn decode(bytes: &[u8]) -> (decoded: Result<TransferParams, ActorError>)
        ensures
            match decoded {
                Ok(params) => decoded_transfer_params(bytes@) == Some(params@),
                Err(e) => e == ActorError::SerializationError && decoded_transfer_params(bytes@) is None,
            },
    {
        match decode_transfer_params(bytes) {
            Ok(params) => Ok(params),
            Err(_) => Err(ActorError::SerializationError),
        }
    }
}

impl Clone for State {
    fn clone(&self) -> (copy: State)
        ensures
            copy@ == self@,
    {
        State {
            name: self.name.clone(),
            symbol: self.symbol.clone(),
            max_supply: self.max_supply.clone(),
            owner: self.owner,
            balances: self.balances,
        }
    }
}

impl Clone for TransferParams {
    fn clone(&self) -> (copy: TransferParams)
        ensures
            copy@ == self@,
    {
        TransferParams { recipient: self.recipient, amount: self.amount.clone() }
    }
}

/// Whether a block under an address of this codec can hold a state.
pub open spec fn readable_codec(codec: u64) -> bool {
    codec == CBOR_CODEC || codec == DAG_CBOR_CODEC
}

/// The bytes that a state is stored as, or `None` where it cannot be encoded.
pub open spec fn encoded_state(state: StateView) -> Option<Seq<u8>> {
    state_encoding(state.name, state.symbol, state.max_supply, state.owner, state.balances)
}

/// The state that the bytes of a block hold, or `None` where they hold none.
pub open spec fn decoded_state(bytes: Seq<u8>) -> Option<StateView> {
    match state_decoding(bytes) {
        Some(fields) => Some(
            StateView {
                name: fields.0,
                symbol: fields.1,
                max_supply: fields.2,
                owner: fields.3,
                balances: fields.4,
            },
        ),
        None => None,
    }
}

/// The state that a ledger is committed to: what the block under its state root
/// holds. `None` where no root is set, or the root names no readable state.
pub open spec fn committed_state(ledger: LedgerView) -> Option<StateView> {
    match ledger.root {
        Some(root) => if readable_codec(codec_of(root)) && ledger.blocks.contains_key(root) {
            decoded_state(ledger.blocks[root])
        } else {
            None
        },
        None => None,
    }
}

/// The balance map that a ledger is committed to: what the map of the committed
/// state holds when it is loaded from the ledger's store. `None` where the
/// ledger is committed to no state, or the state's map cannot be loaded.
pub open spec fn committed_trie(ledger: LedgerView) -> Option<TrieView> {
    match committed_state(ledger) {
        Some(state) => stored_trie(ledger.blocks, state.balances),
        None => None,
    }
}

/// The balances that a ledger is committed to: what the lookups of the
/// committed balance map find.
pub open spec fn committed_balances(ledger: LedgerView) -> Map<ActorID, int> {
    match committed_trie(ledger) {
        Some(trie) => trie.entries,
        None => no_balances(),
    }
}

/// The sum of the balances that a walk of the committed balance map lists:
/// what the supply cap is held against. `None` where there is no such map, or
/// it cannot be walked.
pub open spec fn committed_listed_sum(ledger: LedgerView) -> Option<int> {
    match committed_trie(ledger) {
        Some(trie) => listed_sum(trie.listing),
        None => None,
    }
}

/// The state that a constructor's parameters make, with the balance map at `balances`.
pub open spec fn initial_state(params: ConstructorParamsView, balances: Cid) -> StateView {
    StateView {
        name: params.name,
        symbol: params.symbol,
        max_supply: params.max_supply,
        owner: params.owner,
        balances,
    }
}

impl State {
    /// The state that `params` make, with the balance map at `balances`.
    pub fn assemble(params: ConstructorParams, balances: Cid) -> (state: State)
        ensures
            state@ == initial_state(params@, balances),
    {
        State {
            name: params.name,
            symbol: params.symbol,
            max_supply: params.max_supply,
            owner: params.owner,
            balances,
        }
    }

    /// Loads the state that the ledger is committed to. Fails where no state
    /// root is set, where the root names no block of structured data in the
    /// store, and where the block does not decode to a state.
    pub fn load(ledger: &Ledger) -> (loaded: Result<State, ActorError>)
        ensures
            match loaded {
                Ok(state) => committed_state(ledger@) == Some(state@) && storable(
                    state.max_supply@,
                ),
                Err(e) => e == ActorError::IllegalState && committed_state(ledger@) is None,
            },
    {
        let root = match ledger.root() {
            Some(root) => root,
            None => {
                return Err(ActorError::IllegalState);
            },
        };
        let codec = cid_codec(&root);
        if codec != CBOR_CODEC && codec != DAG_CBOR_CODEC {
            return Err(ActorError::IllegalState);
        }
        let bytes = match ledger.get(&root) {
            Some(bytes) => bytes,
            None => {
                return Err(ActorError::IllegalState);
            },
        };
        match decode_state(bytes.as_slice()) {
            Ok(state) => Ok(state),
            Err(_) => Err(ActorError::IllegalState),
        }
    }

    /// Stores the state as one block and gives its hash, which depends on the
    /// state alone. The state root stays as it is: the ledger is committed to
    /// this state once the hash is made the root. It fails where the supply cap
    /// cannot be stored, and nowhere else; nothing changes then.
    pub fn store(&self, ledger: &mut Ledger) -> (stored: Result<Cid, ActorError>)
        ensures
            match stored {
                Ok(cid) => {
                    &&& storable(self.max_supply@)
                    &&& encoded_state(self@) matches Some(bytes)
                    &&& cid == block_cid(bytes)
                    &&& final(ledger)@ == (LedgerView {
                        blocks: old(ledger)@.blocks.insert(cid, bytes),
                        root: old(ledger)@.root,
                    })
                    &&& committed_state(
                        LedgerView { blocks: final(ledger)@.blocks, root: Some(cid) },
                    ) == Some(self@)
                },
                Err(e) => e == ActorError::SerializationError && !storable(self.max_supply@)
                    && final(ledger)@ == old(ledger)@,
            },
    {
        let bytes = match encode_state(self) {
            Ok(bytes) => bytes,
            Err(_) => {
                return Err(ActorError::SerializationError);
            },
        };
        Ok(ledger.put(bytes.as_slice()))
    }

    /// Stores the state as one block and makes its hash the state root: the
    /// ledger is then committed to this state, and a load gives it back. The
    /// hash depends on the state alone. It fails where the supply cap cannot be
    /// stored, and nowhere else; nothing changes then.
    pub fn save(&self, ledger: &mut Ledger) -> (saved: Result<Cid, ActorError>)
        ensures
            match saved {
                Ok(root) => {
                    &&& storable(self.max_supply@)
                    &&& encoded_state(self@) matches Some(bytes)
                    &&& root == block_cid(bytes)
                    &&& final(ledger)@ == (LedgerView {
                        blocks: old(ledger)@.blocks.insert(root, bytes),
                        root: Some(root),
                    })
                    &&& committed_state(final(ledger)@) == Some(self@)
                },
                Err(e) => e == ActorError::SerializationError && !storable(self.max_supply@)
                    && final(ledger)@ == old(ledger)@,
            },
    {
        let root = match self.store(ledger) {
            Ok(root) => root,
            Err(e) => {
                return Err(e);
            },
        };
        ledger.set_root(root);
        Ok(root)
    }

    /// The first state of a token: the fields of `p`, and an empty balance map,
    /// whose root node is written to the ledger's store under the hash of the
    /// empty map. No other block changes, and the state root stays as it is. A
    /// load of the balance map from the store gives an empty map, also after a
    /// further block was put into the store. It always succeeds.
    pub fn new(p: ConstructorParams, ledger: &mut Ledger) -> (made: Result<State, ActorError>)
        ensures
            made matches Ok(state) && state@ == initial_state(p@, block_cid(empty_node())),
            final(ledger)@ == (LedgerView {
                blocks: old(ledger)@.blocks.insert(block_cid(empty_node()), empty_node()),
                root: old(ledger)@.root,
            }),
            stored_trie(final(ledger)@.blocks, block_cid(empty_node())) == Some(empty_view()),
            forall|bytes: Seq<u8>| #[trigger]
                stored_trie(
                    final(ledger)@.blocks.insert(block_cid(bytes), bytes),
                    block_cid(empty_node()),
                ) == Some(empty_view()),
    {
        let store = ledger.take_store();
        let mut balances = BalanceMap::open(store);
        let flushed = balances.flush();
        ledger.restore(balances.into_store());
        Ok(State::assemble(p, flushed.unwrap()))
    }
}

} // verus!
