//! The ledger protocol: construct, mint and transfer, each of which loads the
//! committed state, works on the balance map, and commits a new state root as
//! its last step; and the dispatch of a call by its method number.
//!
//! Every failure comes before the first write to the store, so that a call
//! that fails leaves the ledger as it was.

use crate::amount::storable;
use crate::amount::TokenAmount;
use crate::balances::balance_in;
use crate::balances::empty_node;
use crate::balances::empty_view;
use crate::balances::extended;
use crate::balances::faithful;
use crate::balances::history_root;
use crate::balances::loaded_history;
use crate::balances::origin_keyed;
use crate::balances::TrieHistory;
use crate::balances::listed_sum;
use crate::balances::stored_trie;
use crate::balances::ActorID;
use crate::balances::BalanceMap;
use crate::balances::TrieView;
use crate::error::map_failure;
use crate::error::ActorError;
use crate::ledger::Ledger;
use crate::ledger::LedgerView;
use crate::state::committed_state;
use crate::state::committed_trie;
use crate::state::decoded_constructor_params;
use crate::state::decoded_transfer_params;
use crate::state::encoded_state;
use crate::state::initial_state;
use crate::state::ConstructorParams;
use crate::state::ConstructorParamsView;
use crate::state::State;
use crate::state::StateView;
use crate::state::TransferParams;
use crate::store::block_cid;
use crate::store::content_addressed;
use cid::Cid;
use fvm_shared::address::Address;
use vstd::prelude::*;

verus! {

/// The identifier of the system's init actor, the one caller that may construct.
pub const INIT_ACTOR_ID: ActorID = 1;

/// The method number of the constructor.
pub const METHOD_CONSTRUCTOR: u64 = 1;

/// The method number of a mint.
pub const METHOD_MINT: u64 = 2;

/// The method number of a transfer.
pub const METHOD_TRANSFER: u64 = 3;

/// The block identifier that stands for "no return value".
pub const NO_DATA_BLOCK_ID: u32 = 0;

/// Whether a transfer may go ahead, and to whom. The checks come in this
/// order: the sender holds the amount; the amount is not negative; the
/// recipient's address resolved; the recipient is not the sender.
pub open spec fn transfer_verdict(
    sender: ActorID,
    sender_balance: int,
    amount: int,
    recipient: Option<ActorID>,
) -> Result<ActorID, ActorError> {
    if sender_balance < amount {
        Err(ActorError::InsufficientFunds)
    } else if amount < 0 || recipient is None || recipient == Some(sender) {
        Err(ActorError::InvalidArgument)
    } else {
        Ok(recipient.unwrap())
    }
}

/// The balances after `amount` went from `sender` to `recipient`.
pub open spec fn transferred(
    entries: Map<ActorID, int>,
    sender: ActorID,
    recipient: ActorID,
    amount: int,
) -> Map<ActorID, int> {
    entries.insert(sender, balance_in(entries, sender) - amount).insert(
        recipient,
        balance_in(entries, recipient) + amount,
    )
}

/// Whether `caller` may mint: the owner's address resolved, and to the caller.
pub open spec fn minter_verdict(owner: Option<ActorID>, caller: ActorID) -> Result<
    ActorID,
    ActorError,
> {
    match owner {
        None => Err(ActorError::InvalidArgument),
        Some(id) => if id != caller {
            Err(ActorError::Forbidden)
        } else {
            Ok(id)
        },
    }
}

/// Whether `amount` may be minted while the balance map lists `listed` in all:
/// it is not negative, and the listed sum stays within the cap.
pub open spec fn mint_verdict(amount: int, listed: int, max_supply: int) -> Result<(), ActorError> {
    if amount < 0 {
        Err(ActorError::InvalidArgument)
    } else if listed + amount > max_supply {
        Err(ActorError::InsufficientSupplyCap)
    } else {
        Ok(())
    }
}

/// The balances after `amount` was credited to `owner`.
pub open spec fn minted(entries: Map<ActorID, int>, owner: ActorID, amount: int) -> Map<
    ActorID,
    int,
> {
    entries.insert(owner, balance_in(entries, owner) + amount)
}

/// How a transfer on a balance map ends: with the recipient, or with the
/// failure. In this order: the sender's balance cannot be read; a check refuses
/// the transfer; the recipient's balance cannot be read; one of the new
/// balances cannot be stored; one of the two accounts cannot be written to.
pub open spec fn transfer_outcome(
    map: TrieView,
    sender: ActorID,
    recipient: Option<ActorID>,
    amount: int,
) -> Result<ActorID, ActorError> {
    if map.unreadable.contains(sender) {
        Err(ActorError::IllegalState)
    } else {
        match transfer_verdict(sender, balance_in(map.entries, sender), amount, recipient) {
            Err(refusal) => Err(refusal),
            Ok(to) => if map.unreadable.contains(to) || !storable(
                balance_in(map.entries, sender) - amount,
            ) || !storable(balance_in(map.entries, to) + amount) || map.unwritable.contains(sender)
                || map.unwritable.contains(to) {
                Err(ActorError::IllegalState)
            } else {
                Ok(to)
            },
        }
    }
}

/// How a mint on a balance map ends. In this order: the map cannot be walked; a
/// check refuses the mint; the owner's balance cannot be read; the new balance
/// cannot be stored; the owner's account cannot be written to.
pub open spec fn mint_outcome(map: TrieView, owner: ActorID, amount: int, max_supply: int) -> Result<
    (),
    ActorError,
> {
    match listed_sum(map.listing) {
        None => Err(ActorError::IllegalState),
        Some(listed) => match mint_verdict(amount, listed, max_supply) {
            Err(refusal) => Err(refusal),
            Ok(()) => if map.unreadable.contains(owner) || !storable(
                balance_in(map.entries, owner) + amount,
            ) || map.unwritable.contains(owner) {
                Err(ActorError::IllegalState)
            } else {
                Ok(())
            },
        },
    }
}

/// What a transfer makes of a balance map: the balances of the two accounts
/// change by the amount and no other balance changes; a walk lists the same sum
/// as before, and still exactly what the lookups find if it did so before;
/// which accounts can be read and written stays as it was.
pub open spec fn moved(
    before: TrieView,
    after: TrieView,
    sender: ActorID,
    recipient: ActorID,
    amount: int,
) -> bool {
    &&& after.entries == transferred(before.entries, sender, recipient, amount)
    &&& faithful(before) ==> faithful(after)
    &&& after.unreadable == before.unreadable
    &&& after.unwritable == before.unwritable
    &&& !after.bare
    &&& listed_sum(after.listing) == listed_sum(before.listing)
}

/// What a mint makes of a balance map: the owner's balance grows by the amount
/// and no other balance changes; a walk lists the amount more than before, and
/// still exactly what the lookups find if it did so before; which accounts can
/// be read and written stays as it was.
pub open spec fn credited(before: TrieView, after: TrieView, owner: ActorID, amount: int) -> bool {
    &&& after.entries == minted(before.entries, owner, amount)
    &&& faithful(before) ==> faithful(after)
    &&& after.unreadable == before.unreadable
    &&& after.unwritable == before.unwritable
    &&& !after.bare
    &&& match listed_sum(before.listing) {
        Some(listed) => listed_sum(after.listing) == Some(listed + amount),
        None => after.listing is None,
    }
}

/// The history of a balance map after a transfer: the two writes, first the
/// sender's new balance, then the recipient's.
pub open spec fn transfer_history(
    history: TrieHistory,
    entries: Map<ActorID, int>,
    sender: ActorID,
    recipient: ActorID,
    amount: int,
) -> TrieHistory {
    extended(
        extended(history, sender, balance_in(entries, sender) - amount),
        recipient,
        balance_in(entries, recipient) + amount,
    )
}

/// The history of a balance map after a mint: the write of the owner's new
/// balance.
pub open spec fn mint_history(
    history: TrieHistory,
    entries: Map<ActorID, int>,
    owner: ActorID,
    amount: int,
) -> TrieHistory {
    extended(history, owner, balance_in(entries, owner) + amount)
}

/// The state with another balance map.
pub open spec fn rooted(state: StateView, balances: Cid) -> StateView {
    StateView {
        name: state.name,
        symbol: state.symbol,
        max_supply: state.max_supply,
        owner: state.owner,
        balances,
    }
}

/// Whether the ledger is committed to `state` under the hash of its bytes.
pub open spec fn committed_to(ledger: LedgerView, state: StateView) -> bool {
    &&& committed_state(ledger) == Some(state)
    &&& encoded_state(state) matches Some(bytes)
    &&& ledger.root == Some(block_cid(bytes))
}

/// Whether two states describe the same token: all but the balances agree.
pub open spec fn same_token(was: StateView, now: StateView) -> bool {
    &&& now.name == was.name
    &&& now.symbol == was.symbol
    &&& now.max_supply == was.max_supply
    &&& now.owner == was.owner
}

/// The failure of an outcome, if it is one.
pub open spec fn failure_of<T>(outcome: Result<T, ActorError>) -> Option<ActorError> {
    match outcome {
        Ok(_) => None,
        Err(e) => Some(e),
    }
}

/// How a transfer on a ledger ends: as the transfer on the committed balance
/// map, and as an illegal state where the ledger is committed to no state or
/// the balance map of the state cannot be loaded.
pub open spec fn transfer_result(
    ledger: LedgerView,
    caller: ActorID,
    recipient: Option<ActorID>,
    amount: int,
) -> Result<ActorID, ActorError> {
    match committed_trie(ledger) {
        None => Err(ActorError::IllegalState),
        Some(map) => transfer_outcome(map, caller, recipient, amount),
    }
}

/// How a mint on a ledger ends, where `owner` is what the address of the
/// committed state's owner resolved to. In this order: the ledger is committed
/// to no state; the caller is not the resolved owner; the balance map of the
/// state cannot be loaded; then as the mint on the committed balance map.
pub open spec fn mint_result(
    ledger: LedgerView,
    caller: ActorID,
    owner: Option<ActorID>,
    amount: int,
) -> Result<ActorID, ActorError> {
    match committed_state(ledger) {
        None => Err(ActorError::IllegalState),
        Some(state) => match minter_verdict(owner, caller) {
            Err(refusal) => Err(refusal),
            Ok(id) => match stored_trie(ledger.blocks, state.balances) {
                None => Err(ActorError::IllegalState),
                Some(map) => match mint_outcome(map, id, amount, state.max_supply) {
                    Err(failure) => Err(failure),
                    Ok(()) => Ok(id),
                },
            },
        },
    }
}

/// How a constructor call ends: a caller other than the init actor is refused,
/// and so is a supply cap that cannot be stored.
pub open spec fn constructor_result(caller: ActorID, params: ConstructorParamsView) -> Result<
    (),
    ActorError,
> {
    if caller != INIT_ACTOR_ID {
        Err(ActorError::Forbidden)
    } else if !storable(params.max_supply) {
        Err(ActorError::SerializationError)
    } else {
        Ok(())
    }
}

/// What a call that has changed the balances commits: a state of the same
/// token under a new state root, in a store that has lost no block.
pub open spec fn recommitted(before: LedgerView, after: LedgerView) -> bool {
    &&& after.root is Some
    &&& committed_state(before) matches Some(was)
    &&& committed_state(after) matches Some(now)
    &&& same_token(was, now)
    &&& forall|held: Cid| #[trigger]
        before.blocks.contains_key(held) ==> after.blocks.contains_key(held)
}

/// What a transfer of `amount` does to the ledger, from `caller` to the account
/// that the recipient's address resolved to. It succeeds exactly where
/// `transfer_result` says so; a transfer that fails leaves the ledger as it
/// was. On success the ledger is committed to a state of the same token, whose
/// balance map and whose own hash depend on the ledger before and on the
/// transfer alone. Where
/// the committed balance map could be walked, the new one is the old one with
/// the amount moved: the caller holds the amount less, the recipient the amount
/// more, and no other account changes.
pub open spec fn transfer_applied(
    before: LedgerView,
    after: LedgerView,
    caller: ActorID,
    recipient: Option<ActorID>,
    amount: int,
    failure: Option<ActorError>,
) -> bool {
    match transfer_result(before, caller, recipient, amount) {
        Err(e) => failure == Some(e) && after == before,
        Ok(to) => {
            &&& failure is None
            &&& recommitted(before, after)
            &&& committed_state(before) matches Some(state)
            &&& committed_trie(before) matches Some(was)
            &&& committed_to(
                after,
                rooted(
                    state,
                    history_root(
                        transfer_history(
                            loaded_history(before.blocks, state.balances),
                            was.entries,
                            caller,
                            to,
                            amount,
                        ),
                    ),
                ),
            )
            &&& was.listing is Some ==> (committed_trie(after) matches Some(now) && moved(
                was,
                now,
                caller,
                to,
                amount,
            ))
        },
    }
}

/// What a mint of `amount` does to the ledger, where `owner` is what the
/// address of the committed state's owner resolved to. It succeeds exactly
/// where `mint_result` says so; a mint that fails leaves the ledger as it was.
/// On success the ledger is committed to a state of the same token, whose
/// balance map and whose own hash depend on the ledger before and on the mint
/// alone, and to the
/// old balance map with the amount credited to the owner: no other account
/// changes, and a walk lists the amount more.
pub open spec fn mint_applied(
    before: LedgerView,
    after: LedgerView,
    caller: ActorID,
    owner: Option<ActorID>,
    amount: int,
    failure: Option<ActorError>,
) -> bool {
    match mint_result(before, caller, owner, amount) {
        Err(e) => failure == Some(e) && after == before,
        Ok(id) => {
            &&& failure is None
            &&& recommitted(before, after)
            &&& committed_state(before) matches Some(state)
            &&& committed_trie(before) matches Some(was)
            &&& committed_to(
                after,
                rooted(
                    state,
                    history_root(
                        mint_history(
                            loaded_history(before.blocks, state.balances),
                            was.entries,
                            id,
                            amount,
                        ),
                    ),
                ),
            )
            &&& committed_trie(after) matches Some(now)
            &&& credited(was, now, id, amount)
        },
    }
}

/// What the constructor does to the ledger. It succeeds exactly where
/// `constructor_result` says so; a call that fails leaves the ledger as it was.
/// On success the store has gained the root of the empty balance map and the
/// state that the parameters make, and the ledger is committed to that state, in
/// which nobody holds anything.
pub open spec fn constructed(
    before: LedgerView,
    after: LedgerView,
    caller: ActorID,
    params: ConstructorParamsView,
    failure: Option<ActorError>,
) -> bool {
    match constructor_result(caller, params) {
        Err(e) => failure == Some(e) && after == before,
        Ok(()) => {
            let state = initial_state(params, block_cid(empty_node()));
            &&& failure is None
            &&& committed_state(after) == Some(state)
            &&& committed_trie(after) == Some(empty_view())
            &&& encoded_state(state) matches Some(bytes)
            &&& after == (LedgerView {
                blocks: before.blocks.insert(block_cid(empty_node()), empty_node()).insert(
                    block_cid(bytes),
                    bytes,
                ),
                root: Some(block_cid(bytes)),
            })
        },
    }
}

/// Whether `method` is the number of one of the ledger's methods.
pub fn is_method(method: u64) -> (known: bool)
    ensures
        known == (method == METHOD_CONSTRUCTOR || method == METHOD_MINT || method
            == METHOD_TRANSFER),
{
    method == METHOD_CONSTRUCTOR || method == METHOD_MINT || method == METHOD_TRANSFER
}

/// Decides whether a transfer goes ahead, from the sender's balance and from
/// what the recipient's address resolved to. Gives the recipient.
pub fn check_transfer(
    sender: ActorID,
    sender_balance: &TokenAmount,
    amount: &TokenAmount,
    recipient: Option<ActorID>,
) -> (verdict: Result<ActorID, ActorError>)
    ensures
        verdict == transfer_verdict(sender, sender_balance@, amount@, recipient),
{
    if sender_balance.less_than(amount) {
        return Err(ActorError::InsufficientFunds);
    }
    if amount.is_negative() {
        return Err(ActorError::InvalidArgument);
    }
    match recipient {
        None => Err(ActorError::InvalidArgument),
        Some(id) => if id == sender {
            Err(ActorError::InvalidArgument)
        } else {
            Ok(id)
        },
    }
}

/// Decides whether `caller` may mint, from what the owner's address resolved to.
pub fn check_minter(owner: Option<ActorID>, caller: ActorID) -> (verdict: Result<
    ActorID,
    ActorError,
>)
    ensures
        verdict == minter_verdict(owner, caller),
{
    match owner {
        None => Err(ActorError::InvalidArgument),
        Some(id) => if id != caller {
            Err(ActorError::Forbidden)
        } else {
            Ok(id)
        },
    }
}

/// Decides whether `amount` may be minted while the balance map lists `listed`
/// in all.
pub fn check_mint(amount: &TokenAmount, listed: &TokenAmount, max_supply: &TokenAmount) -> (verdict:
    Result<(), ActorError>)
    ensures
        verdict == mint_verdict(amount@, listed@, max_supply@),
{
    if amount.is_negative() {
        return Err(ActorError::InvalidArgument);
    }
    let issued = listed.plus(amount);
    if max_supply.less_than(&issued) {
        return Err(ActorError::InsufficientSupplyCap);
    }
    Ok(())
}

/// Moves `amount` from `sender` to what the recipient's address resolved to. It
/// ends as `transfer_outcome` says. On success the balances of the two change
/// by the amount and nothing else changes. Where a check refuses the transfer,
/// the map stays as it is. The store is not written to; a flush succeeds
/// afterwards if it did before.
pub fn apply_transfer(
    balances: &mut BalanceMap,
    sender: ActorID,
    recipient: Option<ActorID>,
    amount: &TokenAmount,
) -> (outcome: Result<(), ActorError>)
    ensures
        final(balances).blocks() == old(balances).blocks(),
        match transfer_outcome(old(balances).model(), sender, recipient, amount@) {
            Ok(to) => {
                &&& outcome is Ok
                &&& moved(old(balances).model(), final(balances).model(), sender, to, amount@)
                &&& final(balances).history() == transfer_history(
                    old(balances).history(),
                    old(balances)@,
                    sender,
                    to,
                    amount@,
                )
                &&& final(balances).intact() == old(balances).intact()
                &&& old(balances).flushable() ==> final(balances).flushable()
            },
            Err(e) => {
                &&& outcome == Err::<(), ActorError>(e)
                &&& e != ActorError::IllegalState ==> final(balances).model() == old(
                    balances,
                ).model()
            },
        },
{
    let sender_balance = match balances.balance_of(sender) {
        Ok(balance) => balance,
        Err(e) => {
            return Err(map_failure(e));
        },
    };
    let to = match check_transfer(sender, &sender_balance, amount, recipient) {
        Ok(to) => to,
        Err(e) => {
            return Err(e);
        },
    };
    let recipient_balance = match balances.balance_of(to) {
        Ok(balance) => balance,
        Err(e) => {
            return Err(map_failure(e));
        },
    };
    let sender_after = sender_balance.minus(amount);
    let recipient_after = recipient_balance.plus(amount);
    if !sender_after.is_storable() || !recipient_after.is_storable() {
        return Err(ActorError::IllegalState);
    }
    match balances.set(sender, &sender_after) {
        Ok(()) => {},
        Err(e) => {
            return Err(map_failure(e));
        },
    }
    match balances.set(to, &recipient_after) {
        Ok(()) => Ok(()),
        Err(e) => Err(map_failure(e)),
    }
}

/// Credits `amount` to `owner`, unless the sum that the map lists would then
/// pass `max_supply`. It ends as `mint_outcome` says. On success the owner's
/// balance grows by the amount and nothing else changes. Where a check refuses
/// the mint, the map stays as it is. The store is not written to; a flush
/// succeeds afterwards if it did before.
pub fn apply_mint(
    balances: &mut BalanceMap,
    owner: ActorID,
    amount: &TokenAmount,
    max_supply: &TokenAmount,
) -> (outcome: Result<(), ActorError>)
    ensures
        final(balances).blocks() == old(balances).blocks(),
        match mint_outcome(old(balances).model(), owner, amount@, max_supply@) {
            Ok(()) => {
                &&& outcome is Ok
                &&& credited(old(balances).model(), final(balances).model(), owner, amount@)
                &&& final(balances).history() == mint_history(
                    old(balances).history(),
                    old(balances)@,
                    owner,
                    amount@,
                )
                &&& final(balances).intact() == old(balances).intact()
                &&& old(balances).flushable() ==> final(balances).flushable()
            },
            Err(e) => {
                &&& outcome == Err::<(), ActorError>(e)
                &&& e != ActorError::IllegalState ==> final(balances).model() == old(
                    balances,
                ).model()
            },
        },
{
    let listed = match balances.listed_supply() {
        Ok(listed) => listed,
        Err(e) => {
            return Err(map_failure(e));
        },
    };
    match check_mint(amount, &listed, max_supply) {
        Ok(()) => {},
        Err(e) => {
            return Err(e);
        },
    }
    let balance = match balances.balance_of(owner) {
        Ok(balance) => balance,
        Err(e) => {
            return Err(map_failure(e));
        },
    };
    let balance_after = balance.plus(amount);
    if !balance_after.is_storable() {
        return Err(ActorError::IllegalState);
    }
    match balances.set(owner, &balance_after) {
        Ok(()) => Ok(()),
        Err(e) => Err(map_failure(e)),
    }
}

/// Loads the balance map at `root` from the ledger's store. The map then owns
/// the store, until it is committed or abandoned. Where the map cannot be
/// loaded, the ledger stays as it was.
fn open_balances(ledger: &mut Ledger, root: &Cid) -> (opened: Result<BalanceMap, ActorError>)
    ensures
        final(ledger)@.root == old(ledger)@.root,
        match opened {
            Ok(balances) => {
                &&& balances.blocks() == old(ledger)@.blocks
                &&& content_addressed(balances.blocks())
                &&& stored_trie(old(ledger)@.blocks, *root) == Some(balances.model())
                &&& balances.history() == loaded_history(old(ledger)@.blocks, *root)
                &&& balances.flushable()
                &&& balances.intact()
            },
            Err(e) => {
                &&& e == ActorError::IllegalState
                &&& stored_trie(old(ledger)@.blocks, *root) is None
                &&& final(ledger)@ == old(ledger)@
            },
        },
{
    let store = ledger.take_store();
    let mut balances = BalanceMap::open(store);
    match balances.load(root) {
        Ok(()) => Ok(balances),
        Err(e) => {
            ledger.restore(balances.into_store());
            Err(map_failure(e))
        },
    }
}

/// Gives the store back to the ledger and drops the map's changes.
fn abandon(ledger: &mut Ledger, balances: BalanceMap)
    requires
        content_addressed(balances.blocks()),
    ensures
        final(ledger)@ == (LedgerView { blocks: balances.blocks(), root: old(ledger)@.root }),
{
    ledger.restore(balances.into_store());
}

/// The one step that commits. Flushes the map, gives the store back to the
/// ledger, stores `state` with the map's new root, and sets the state root.
/// None of it fails for a map that can be flushed and a supply cap that can be
/// stored.
fn commit(ledger: &mut Ledger, state: State, balances: BalanceMap) -> (root: Cid)
    requires
        balances.flushable(),
        balances.intact(),
        origin_keyed(balances.history()),
        content_addressed(balances.blocks()),
        storable(state.max_supply@),
    ensures
        final(ledger)@.root == Some(root),
        committed_to(final(ledger)@, rooted(state@, history_root(balances.history()))),
        forall|held: Cid| #[trigger]
            balances.blocks().contains_key(held) ==> final(ledger)@.blocks.contains_key(held),
        balances.model().listing is Some ==> committed_trie(final(ledger)@) == Some(
            balances.model(),
        ),
{
    let mut balances = balances;
    let mut state = state;
    let flushed = balances.flush();
    ledger.restore(balances.into_store());
    state.balances = flushed.unwrap();
    let root = state.store(ledger).unwrap();
    ledger.set_root(root);
    root
}

/// The constructor populates the initial state: the fields of `params`, and an
/// empty balance map. Only the init actor may call it, and the supply cap has
/// to be one that can be stored. It does not look at what the ledger was
/// committed to before: a second call starts the token anew. Gives the new
/// state root.
pub fn constructor(ledger: &mut Ledger, caller: ActorID, params: ConstructorParams) -> (outcome:
    Result<Cid, ActorError>)
    ensures
        constructed(old(ledger)@, final(ledger)@, caller, params@, failure_of(outcome)),
        outcome matches Ok(root) ==> final(ledger)@.root == Some(root),
{
    if caller != INIT_ACTOR_ID {
        return Err(ActorError::Forbidden);
    }
    if !params.max_supply.is_storable() {
        return Err(ActorError::SerializationError);
    }
    let state = match State::new(params, ledger) {
        Ok(state) => state,
        Err(e) => {
            return Err(e);
        },
    };
    state.save(ledger)
}

/// Credits `params.amount` to the owner, within the supply cap. `owner` is what
/// the address of the committed state's owner resolved to; only that account
/// may mint. Gives the new state root.
pub fn mint(ledger: &mut Ledger, caller: ActorID, owner: Option<ActorID>, params: &TransferParams) -> (outcome:
    Result<Cid, ActorError>)
    ensures
        mint_applied(
            old(ledger)@,
            final(ledger)@,
            caller,
            owner,
            params.amount@,
            failure_of(outcome),
        ),
        outcome matches Ok(root) ==> final(ledger)@.root == Some(root),
{
    let state = match State::load(ledger) {
        Ok(state) => state,
        Err(e) => {
            return Err(e);
        },
    };
    let owner_id = match check_minter(owner, caller) {
        Ok(id) => id,
        Err(e) => {
            return Err(e);
        },
    };
    let mut balances = match open_balances(ledger, &state.balances) {
        Ok(balances) => balances,
        Err(e) => {
            return Err(e);
        },
    };
    match apply_mint(&mut balances, owner_id, &params.amount, &state.max_supply) {
        Ok(()) => Ok(commit(ledger, state, balances)),
        Err(e) => {
            abandon(ledger, balances);
            Err(e)
        },
    }
}

/// Transfer a token amount from `caller` to the account that the address of
/// `params.recipient` resolved to, which `recipient` holds. Gives the new state
/// root.
pub fn transfer(
    ledger: &mut Ledger,
    caller: ActorID,
    recipient: Option<ActorID>,
    params: &TransferParams,
) -> (outcome: Result<Cid, ActorError>)
    ensures
        transfer_applied(
            old(ledger)@,
            final(ledger)@,
            caller,
            recipient,
            params.amount@,
            failure_of(outcome),
        ),
        outcome matches Ok(root) ==> final(ledger)@.root == Some(root),
{
    let state = match State::load(ledger) {
        Ok(state) => state,
        Err(e) => {
            return Err(e);
        },
    };
    let mut balances = match open_balances(ledger, &state.balances) {
        Ok(balances) => balances,
        Err(e) => {
            return Err(e);
        },
    };
    match apply_transfer(&mut balances, caller, recipient, &params.amount) {
        Ok(()) => Ok(commit(ledger, state, balances)),
        Err(e) => {
            abandon(ledger, balances);
            Err(e)
        },
    }
}

/// The address that the host has to resolve before it invokes `method` with
/// `params`: for a mint the owner of the committed state, for a transfer the
/// recipient. `None` where the call needs none, or will fail before it asks.
pub open spec fn address_of_interest(ledger: LedgerView, method: u64, params: Seq<u8>) -> Option<
    Address,
> {
    if method == METHOD_MINT {
        match committed_state(ledger) {
            Some(state) => Some(state.owner),
            None => None,
        }
    } else if method == METHOD_TRANSFER {
        match decoded_transfer_params(params) {
            Some(decoded) => Some(decoded.recipient),
            None => None,
        }
    } else {
        None
    }
}

/// What an invocation does to the ledger: what the operation that the method
/// number selects does with the decoded parameters. Parameters that do not
/// decode, and a method number that selects nothing, fail the call and change
/// nothing.
pub open spec fn dispatched(
    before: LedgerView,
    after: LedgerView,
    method: u64,
    params: Seq<u8>,
    caller: ActorID,
    resolved: Option<ActorID>,
    failure: Option<ActorError>,
) -> bool {
    if method == METHOD_CONSTRUCTOR {
        match decoded_constructor_params(params) {
            Some(decoded) => constructed(before, after, caller, decoded, failure),
            None => failure == Some(ActorError::SerializationError) && after == before,
        }
    } else if method == METHOD_MINT {
        match decoded_transfer_params(params) {
            Some(decoded) => mint_applied(before, after, caller, resolved, decoded.amount, failure),
            None => failure == Some(ActorError::SerializationError) && after == before,
        }
    } else if method == METHOD_TRANSFER {
        match decoded_transfer_params(params) {
            Some(decoded) => transfer_applied(
                before,
                after,
                caller,
                resolved,
                decoded.amount,
                failure,
            ),
            None => failure == Some(ActorError::SerializationError) && after == before,
        }
    } else {
        failure == Some(ActorError::UnhandledMethod) && after == before
    }
}

/// The address that the host has to resolve before it invokes `method` with
/// `params`.
pub fn address_to_resolve(ledger: &Ledger, method: u64, params: &[u8]) -> (address: Option<Address>)
    ensures
        address == address_of_interest(ledger@, method, params@),
{
    if method == METHOD_MINT {
        match State::load(ledger) {
            Ok(state) => Some(state.owner),
            Err(_) => None,
        }
    } else if method == METHOD_TRANSFER {
        match TransferParams::decode(params) {
            Ok(decoded) => Some(decoded.recipient),
            Err(_) => None,
        }
    } else {
        None
    }
}

/// The entry point of a call: decodes the parameter block and runs the
/// operation that the method number selects, 1 for the constructor, 2 for a
/// mint, 3 for a transfer. `resolved` is what the host resolved the call's
/// address to (see `address_to_resolve`). No operation returns data: on success
/// the result is the block identifier that stands for none.
pub fn invoke(
    ledger: &mut Ledger,
    method: u64,
    params: &[u8],
    caller: ActorID,
    resolved: Option<ActorID>,
) -> (outcome: Result<u32, ActorError>)
    ensures
        dispatched(
            old(ledger)@,
            final(ledger)@,
            method,
            params@,
            caller,
            resolved,
            failure_of(outcome),
        ),
        outcome matches Ok(id) ==> id == NO_DATA_BLOCK_ID,
{
    let committed = if method == METHOD_CONSTRUCTOR {
        match ConstructorParams::decode(params) {
            Ok(decoded) => constructor(ledger, caller, decoded),
            Err(e) => Err(e),
        }
    } else if method == METHOD_MINT {
        match TransferParams::decode(params) {
            Ok(decoded) => mint(ledger, caller, resolved, &decoded),
            Err(e) => Err(e),
        }
    } else if method == METHOD_TRANSFER {
        match TransferParams::decode(params) {
            Ok(decoded) => transfer(ledger, caller, resolved, &decoded),
            Err(e) => Err(e),
        }
    } else {
        Err(ActorError::UnhandledMethod)
    };
    match committed {
        Ok(_) => Ok(NO_DATA_BLOCK_ID),
        Err(e) => Err(e),
    }
}

/// The balance of `id` in the balance map that the ledger is committed to: zero
/// for an account that the map does not hold. It fails where the ledger is
/// committed to no balance map, or the map cannot read the account. The ledger
/// stays as it is.
pub fn balance_of(ledger: &mut Ledger, id: ActorID) -> (balance: Result<TokenAmount, ActorError>)
    ensures
        final(ledger)@ == old(ledger)@,
        match committed_trie(old(ledger)@) {
            Some(map) => if map.unreadable.contains(id) {
                balance == Err::<TokenAmount, ActorError>(ActorError::IllegalState)
            } else {
                balance matches Ok(amount) && amount@ == balance_in(map.entries, id)
            },
            None => balance == Err::<TokenAmount, ActorError>(ActorError::IllegalState),
        },
{
    let state = match State::load(ledger) {
        Ok(state) => state,
        Err(e) => {
            return Err(e);
        },
    };
    let balances = match open_balances(ledger, &state.balances) {
        Ok(balances) => balances,
        Err(e) => {
            return Err(e);
        },
    };
    let balance = balances.balance_of(id);
    abandon(ledger, balances);
    match balance {
        Ok(amount) => Ok(amount),
        Err(e) => Err(map_failure(e)),
    }
}

/// The sum of the balances that a walk of the committed balance map lists: the
/// sum that a mint holds against the supply cap. It fails where the ledger is
/// committed to no balance map, or the map cannot be walked. The ledger stays
/// as it is.
pub fn listed_supply(ledger: &mut Ledger) -> (listed: Result<TokenAmount, ActorError>)
    ensures
        final(ledger)@ == old(ledger)@,
        match crate::state::committed_listed_sum(old(ledger)@) {
            Some(sum) => listed matches Ok(amount) && amount@ == sum,
            None => listed == Err::<TokenAmount, ActorError>(ActorError::IllegalState),
        },
{
    let state = match State::load(ledger) {
        Ok(state) => state,
        Err(e) => {
            return Err(e);
        },
    };
    let balances = match open_balances(ledger, &state.balances) {
        Ok(balances) => balances,
        Err(e) => {
            return Err(e);
        },
    };
    let listed = balances.listed_supply();
    abandon(ledger, balances);
    match listed {
        Ok(amount) => Ok(amount),
        Err(e) => Err(map_failure(e)),
    }
}

} // verus!
