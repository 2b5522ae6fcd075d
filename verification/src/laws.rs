//! What holds of the protocol's rules for every balance map and every call.

use crate::amount::storable;
use crate::balances::balance_in;
use crate::balances::empty_view;
use crate::balances::faithful;
use crate::balances::listed_sum;
use crate::balances::listed_total;
use crate::balances::lists_exactly;
use crate::balances::TrieView;
use crate::balances::no_balances;
use crate::balances::ActorID;
use crate::error::ActorError;
use crate::ledger::LedgerView;
use crate::protocol::constructed;
use crate::protocol::dispatched;
use crate::protocol::mint_applied;
use crate::protocol::mint_verdict;
use crate::protocol::minted;
use crate::protocol::minter_verdict;
use crate::protocol::transfer_applied;
use crate::protocol::transfer_verdict;
use crate::protocol::transferred;
use crate::protocol::INIT_ACTOR_ID;
use crate::protocol::METHOD_CONSTRUCTOR;
use crate::state::committed_balances;
use crate::state::committed_listed_sum;
use crate::state::committed_state;
use crate::state::committed_trie;
use crate::state::ConstructorParamsView;
use vstd::prelude::*;

verus! {

/// The sum of all balances of a map with finitely many accounts. (This is the
/// sum over what lookups find; what a walk lists is summed by `listed_total`.)
pub open spec fn sum_of_balances(entries: Map<ActorID, int>) -> int
    decreases entries.dom().len(),
    when entries.dom().finite()
{
    if entries.dom().len() == 0 {
        0
    } else {
        let id = entries.dom().choose();
        entries[id] + sum_of_balances(entries.remove(id))
    }
}

/// A transfer that the checks let pass takes the amount from the sender and
/// gives it to the recipient: what the two hold together stays the same.
pub proof fn transfer_moves_the_amount(
    entries: Map<ActorID, int>,
    sender: ActorID,
    recipient: Option<ActorID>,
    amount: int,
)
    requires
        transfer_verdict(sender, balance_in(entries, sender), amount, recipient) is Ok,
    ensures
        recipient matches Some(to) && to != sender && amount <= balance_in(entries, sender) && ({
            let after = transferred(entries, sender, to, amount);
            &&& balance_in(after, sender) == balance_in(entries, sender) - amount
            &&& balance_in(after, to) == balance_in(entries, to) + amount
            &&& balance_in(after, sender) + balance_in(after, to) == balance_in(entries, sender)
                + balance_in(entries, to)
            &&& 0 <= balance_in(after, sender)
        }),
{
}

/// Whenever the sender differs from the recipient, a transfer of any amount
/// changes their two balances by that amount, in opposite directions.
pub proof fn transfer_conserves_the_pair(
    entries: Map<ActorID, int>,
    sender: ActorID,
    recipient: ActorID,
    amount: int,
)
    requires
        sender != recipient,
    ensures
        balance_in(transferred(entries, sender, recipient, amount), sender) == balance_in(
            entries,
            sender,
        ) - amount,
        balance_in(transferred(entries, sender, recipient, amount), recipient) == balance_in(
            entries,
            recipient,
        ) + amount,
{
}

/// An amount above the sender's balance is refused for insufficient funds,
/// whoever the recipient is.
pub proof fn transfer_above_balance_is_refused(
    sender: ActorID,
    sender_balance: int,
    amount: int,
    recipient: Option<ActorID>,
)
    requires
        amount > sender_balance,
    ensures
        transfer_verdict(sender, sender_balance, amount, recipient) == Err::<ActorID, ActorError>(
            ActorError::InsufficientFunds,
        ),
{
}

/// A transfer to the sender itself never goes ahead. Where the sender holds the
/// amount, it is refused as an invalid argument; where not, the balance check
/// comes first and refuses it for insufficient funds.
pub proof fn transfer_to_self_is_refused(sender: ActorID, sender_balance: int, amount: int)
    ensures
        transfer_verdict(sender, sender_balance, amount, Some(sender)) is Err,
        amount <= sender_balance ==> transfer_verdict(sender, sender_balance, amount, Some(sender))
            == Err::<ActorID, ActorError>(ActorError::InvalidArgument),
{
}

/// A caller other than the account that the owner's address resolved to may not mint.
pub proof fn mint_by_another_is_forbidden(owner: ActorID, caller: ActorID)
    requires
        caller != owner,
    ensures
        minter_verdict(Some(owner), caller) == Err::<ActorID, ActorError>(ActorError::Forbidden),
{
}

/// A mint never takes the supply above the cap.
pub proof fn mint_stays_within_the_cap(amount: int, issued: int, max_supply: int)
    requires
        mint_verdict(amount, issued, max_supply) is Ok,
    ensures
        0 <= amount,
        issued + amount <= max_supply,
{
}

/// Writing the balance of one account leaves every other account as it was: an
/// account that was never written has no balance, before and after.
pub proof fn other_accounts_are_untouched(
    entries: Map<ActorID, int>,
    id: ActorID,
    amount: int,
    other: ActorID,
)
    requires
        other != id,
    ensures
        entries.insert(id, amount).contains_key(other) == entries.contains_key(other),
        balance_in(entries.insert(id, amount), other) == balance_in(entries, other),
        !entries.contains_key(other) ==> balance_in(entries.insert(id, amount), other) == 0,
{
}

/// A transfer and a mint leave the accounts that take no part as they were.
pub proof fn bystanders_are_untouched(
    entries: Map<ActorID, int>,
    sender: ActorID,
    recipient: ActorID,
    amount: int,
    other: ActorID,
)
    requires
        other != sender,
        other != recipient,
    ensures
        balance_in(transferred(entries, sender, recipient, amount), other) == balance_in(
            entries,
            other,
        ),
        transferred(entries, sender, recipient, amount).contains_key(other) == entries.contains_key(
            other,
        ),
        balance_in(minted(entries, sender, amount), other) == balance_in(entries, other),
{
}

/// Whether the ledger is committed to a balance map that can be walked, and
/// that can read and write the two accounts.
pub open spec fn serves(ledger: LedgerView, first: ActorID, second: ActorID) -> bool {
    &&& committed_trie(ledger) matches Some(map)
    &&& map.listing is Some
    &&& !map.unreadable.contains(first)
    &&& !map.unreadable.contains(second)
    &&& !map.unwritable.contains(first)
    &&& !map.unwritable.contains(second)
}

/// A transfer between two accounts that the committed balance map serves
/// succeeds if the sender holds the amount, the amount is not negative, and the
/// new balances can be stored. The sender then holds the amount less and the
/// recipient the amount more, so that the two hold together what they held
/// before; no other account changes, and a walk lists the same sum as before.
pub proof fn committed_transfer_moves_the_amount(
    before: LedgerView,
    after: LedgerView,
    caller: ActorID,
    to: ActorID,
    amount: int,
    failure: Option<ActorError>,
)
    requires
        transfer_applied(before, after, caller, Some(to), amount, failure),
        serves(before, caller, to),
        to != caller,
        0 <= amount <= balance_in(committed_balances(before), caller),
        storable(balance_in(committed_balances(before), caller) - amount),
        storable(balance_in(committed_balances(before), to) + amount),
    ensures
        failure is None,
        after.root is Some,
        balance_in(committed_balances(after), caller) == balance_in(
            committed_balances(before),
            caller,
        ) - amount,
        balance_in(committed_balances(after), to) == balance_in(committed_balances(before), to)
            + amount,
        balance_in(committed_balances(after), caller) + balance_in(committed_balances(after), to)
            == balance_in(committed_balances(before), caller) + balance_in(
            committed_balances(before),
            to,
        ),
        forall|other: ActorID|
            other != caller && other != to ==> balance_in(committed_balances(after), other)
                == balance_in(committed_balances(before), other),
        committed_listed_sum(after) == committed_listed_sum(before),
{
}

/// A transfer succeeds only where the sender holds the amount, the amount is
/// not negative, the recipient resolved, and the recipient is not the sender.
pub proof fn committed_transfer_succeeds_only_if_allowed(
    before: LedgerView,
    after: LedgerView,
    caller: ActorID,
    recipient: Option<ActorID>,
    amount: int,
)
    requires
        transfer_applied(before, after, caller, recipient, amount, None),
    ensures
        recipient matches Some(to) && to != caller && 0 <= amount <= balance_in(
            committed_balances(before),
            caller,
        ),
{
}

/// A call that fails leaves the ledger as it was: the state root, the state,
/// and every balance read through it.
pub proof fn failed_call_changes_nothing(
    before: LedgerView,
    after: LedgerView,
    method: u64,
    params: Seq<u8>,
    caller: ActorID,
    resolved: Option<ActorID>,
    failure: Option<ActorError>,
)
    requires
        dispatched(before, after, method, params, caller, resolved, failure),
        failure is Some,
    ensures
        after == before,
{
}

/// Two runs of one call on equal ledgers end alike: both succeed, or both fail
/// in the same way and leave the ledger as it was. Either way they end with the
/// same state root and the same committed state. Two constructor calls leave
/// equal ledgers. Where the committed balance map could be walked, two mints or
/// transfers commit to the same balances and the same listed sum.
pub proof fn two_runs_end_alike(
    before: LedgerView,
    first: LedgerView,
    second: LedgerView,
    method: u64,
    params: Seq<u8>,
    caller: ActorID,
    resolved: Option<ActorID>,
    first_failure: Option<ActorError>,
    second_failure: Option<ActorError>,
)
    requires
        dispatched(before, first, method, params, caller, resolved, first_failure),
        dispatched(before, second, method, params, caller, resolved, second_failure),
    ensures
        first_failure == second_failure,
        first.root == second.root,
        committed_state(first) == committed_state(second),
        first_failure is Some ==> first == second,
        method == METHOD_CONSTRUCTOR ==> first == second,
        (committed_trie(before) matches Some(map) && map.listing is Some) ==> committed_balances(
            first,
        ) == committed_balances(second) && committed_listed_sum(first) == committed_listed_sum(
            second,
        ),
{
}

/// A transfer of more than the caller holds in the committed balances fails for
/// insufficient funds, whoever the recipient is, and leaves the ledger as it
/// was. This holds where the ledger is committed to a balance map that can read
/// the caller's balance.
pub proof fn committed_transfer_above_balance_fails(
    before: LedgerView,
    after: LedgerView,
    caller: ActorID,
    recipient: Option<ActorID>,
    amount: int,
    failure: Option<ActorError>,
)
    requires
        transfer_applied(before, after, caller, recipient, amount, failure),
        committed_trie(before) matches Some(map) && !map.unreadable.contains(caller),
        amount > balance_in(committed_balances(before), caller),
    ensures
        failure == Some(ActorError::InsufficientFunds),
        after == before,
{
}

/// A transfer to the caller's own account fails and leaves the ledger as it
/// was. Where the caller holds the amount and the committed balance map can
/// read the caller's balance, the failure is an invalid argument.
pub proof fn committed_transfer_to_self_fails(
    before: LedgerView,
    after: LedgerView,
    caller: ActorID,
    amount: int,
    failure: Option<ActorError>,
)
    requires
        transfer_applied(before, after, caller, Some(caller), amount, failure),
    ensures
        failure is Some,
        after == before,
        (committed_trie(before) matches Some(map) && !map.unreadable.contains(caller)) && amount
            <= balance_in(committed_balances(before), caller) ==> failure == Some(
            ActorError::InvalidArgument,
        ),
{
}

/// A constructor call by anyone but the init actor is forbidden, and leaves the
/// ledger as it was: where no state root was set, none is set.
pub proof fn constructor_by_another_is_forbidden(
    before: LedgerView,
    after: LedgerView,
    caller: ActorID,
    params: ConstructorParamsView,
    failure: Option<ActorError>,
)
    requires
        constructed(before, after, caller, params, failure),
        caller != INIT_ACTOR_ID,
    ensures
        failure == Some(ActorError::Forbidden),
        after == before,
        before.root is None ==> after.root is None,
{
}

/// A constructor call by the init actor with a supply cap that can be stored
/// succeeds. The ledger is then committed to the fields of the parameters, to
/// balances in which nobody holds anything, and to a listed sum of zero.
pub proof fn constructor_by_init_succeeds(
    before: LedgerView,
    after: LedgerView,
    params: ConstructorParamsView,
    failure: Option<ActorError>,
)
    requires
        constructed(before, after, INIT_ACTOR_ID, params, failure),
        storable(params.max_supply),
    ensures
        failure is None,
        after.root is Some,
        committed_state(after) matches Some(state) && state.name == params.name && state.symbol
            == params.symbol && state.max_supply == params.max_supply && state.owner
            == params.owner,
        committed_balances(after) == no_balances(),
        forall|id: ActorID| balance_in(committed_balances(after), id) == 0,
        committed_listed_sum(after) == Some(0int),
{
    reveal_with_fuel(crate::balances::listed_total, 1);
}

/// On a ledger that is committed to a state, a mint by anyone but the account
/// that the owner's address resolved to is forbidden, and leaves the ledger as
/// it was.
pub proof fn committed_mint_by_another_is_forbidden(
    before: LedgerView,
    after: LedgerView,
    caller: ActorID,
    owner: ActorID,
    amount: int,
    failure: Option<ActorError>,
)
    requires
        mint_applied(before, after, caller, Some(owner), amount, failure),
        committed_state(before) is Some,
        caller != owner,
    ensures
        failure == Some(ActorError::Forbidden),
        after == before,
{
}

/// A mint by the resolved owner, on a ledger whose committed balance map
/// serves the owner's account, succeeds if the amount is not negative, the
/// listed sum stays within the cap, and the new balance can be stored. The
/// owner then holds the amount more, no other account changes, and a walk
/// lists the amount more than before, which is within the cap.
pub proof fn committed_mint_credits_the_owner(
    before: LedgerView,
    after: LedgerView,
    owner: ActorID,
    amount: int,
    failure: Option<ActorError>,
)
    requires
        mint_applied(before, after, owner, Some(owner), amount, failure),
        serves(before, owner, owner),
        committed_state(before) matches Some(state) && committed_listed_sum(before) matches Some(
            listed,
        ) && 0 <= amount && listed + amount <= state.max_supply,
        storable(balance_in(committed_balances(before), owner) + amount),
    ensures
        failure is None,
        balance_in(committed_balances(after), owner) == balance_in(
            committed_balances(before),
            owner,
        ) + amount,
        forall|other: ActorID|
            other != owner ==> balance_in(committed_balances(after), other) == balance_in(
                committed_balances(before),
                other,
            ),
        committed_state(before) matches Some(state) && committed_listed_sum(before) matches Some(
            listed,
        ) && committed_listed_sum(after) == Some(listed + amount) && listed + amount
            <= state.max_supply,
{
}

/// A mint that would take the listed sum beyond the cap is refused for that,
/// and leaves the ledger as it was. This holds for the resolved owner, an
/// amount that is not negative, and a committed balance map that can be walked.
pub proof fn committed_mint_beyond_the_cap_is_refused(
    before: LedgerView,
    after: LedgerView,
    owner: ActorID,
    amount: int,
    failure: Option<ActorError>,
)
    requires
        mint_applied(before, after, owner, Some(owner), amount, failure),
        committed_state(before) matches Some(state) && committed_listed_sum(before) matches Some(
            listed,
        ) && 0 <= amount && listed + amount > state.max_supply,
    ensures
        failure == Some(ActorError::InsufficientSupplyCap),
        after == before,
{
}

/// The sum of all balances is the balance of any one account plus the sum of the rest.
pub proof fn sum_splits(entries: Map<ActorID, int>, id: ActorID)
    requires
        entries.dom().finite(),
        entries.contains_key(id),
    ensures
        sum_of_balances(entries) == entries[id] + sum_of_balances(entries.remove(id)),
    decreases entries.dom().len(),
{
    let first = entries.dom().choose();
    if first != id {
        let without_first = entries.remove(first);
        let without_id = entries.remove(id);
        sum_splits(without_first, id);
        sum_splits(without_id, first);
        assert(without_first.remove(id) == without_id.remove(first));
    }
}

/// Writing one balance changes the sum of all balances by the difference to
/// what the account held.
pub proof fn sum_after_write(entries: Map<ActorID, int>, id: ActorID, amount: int)
    requires
        entries.dom().finite(),
    ensures
        sum_of_balances(entries.insert(id, amount)) == sum_of_balances(entries) - balance_in(entries, id) + amount,
{
    let after = entries.insert(id, amount);
    sum_splits(after, id);
    assert(after.remove(id) == entries.remove(id));
    if entries.contains_key(id) {
        sum_splits(entries, id);
    } else {
        assert(entries.remove(id) == entries);
    }
}

/// A transfer between two accounts leaves the sum of all balances as it was.
pub proof fn transfer_conserves_the_sum(
    entries: Map<ActorID, int>,
    sender: ActorID,
    recipient: ActorID,
    amount: int,
)
    requires
        entries.dom().finite(),
        sender != recipient,
    ensures
        sum_of_balances(transferred(entries, sender, recipient, amount)) == sum_of_balances(entries),
{
    let debited = entries.insert(sender, balance_in(entries, sender) - amount);
    sum_after_write(entries, sender, balance_in(entries, sender) - amount);
    sum_after_write(debited, recipient, balance_in(entries, recipient) + amount);
}

/// A mint raises the sum of all balances by the amount.
pub proof fn mint_raises_the_sum(entries: Map<ActorID, int>, owner: ActorID, amount: int)
    requires
        entries.dom().finite(),
    ensures
        sum_of_balances(minted(entries, owner, amount)) == sum_of_balances(entries) + amount,
{
    sum_after_write(entries, owner, balance_in(entries, owner) + amount);
}

/// The sum of a listing that holds exactly the accounts of a map is the sum of
/// all balances of the map, which has as many accounts as the listing has
/// entries.
pub proof fn exact_listing_sums_the_balances(
    entries: Map<ActorID, int>,
    listed: Seq<(ActorID, int)>,
)
    requires
        lists_exactly(entries, listed),
    ensures
        entries.dom().finite(),
        entries.dom().len() == listed.len(),
        listed_total(listed) == sum_of_balances(entries),
    decreases listed.len(),
{
    if listed.len() == 0 {
        assert(entries.dom() =~= Set::<ActorID>::empty());
    } else {
        let last = listed.last();
        let rest = listed.drop_last();
        let smaller = entries.remove(last.0);
        assert(listed[listed.len() - 1].0 == last.0);
        assert(entries.contains_key(last.0));
        assert forall|i: int| 0 <= i < rest.len() implies smaller.contains_key(
            #[trigger] rest[i].0,
        ) && smaller[rest[i].0] == rest[i].1 by {
            assert(rest[i] == listed[i]);
            assert(listed[i].0 != listed[listed.len() - 1].0);
        }
        assert forall|i: int, j: int| 0 <= i < j < rest.len() implies #[trigger] rest[i].0
            != #[trigger] rest[j].0 by {
            assert(rest[i] == listed[i]);
            assert(rest[j] == listed[j]);
        }
        assert forall|id: ActorID| #[trigger] smaller.contains_key(id) implies exists|i: int|
            0 <= i < rest.len() && #[trigger] rest[i].0 == id by {
            assert(entries.contains_key(id));
            let i = choose|i: int| 0 <= i < listed.len() && #[trigger] listed[i].0 == id;
            assert(i < listed.len() - 1);
            assert(rest[i] == listed[i]);
        }
        exact_listing_sums_the_balances(smaller, rest);
        assert(entries.dom() =~= smaller.dom().insert(last.0));
        sum_splits(entries, last.0);
    }
}

/// Where a walk of a trie hands out exactly what its lookups find, the sum that
/// it lists is the sum of all balances.
pub proof fn faithful_walk_sums_the_balances(trie: TrieView)
    requires
        faithful(trie),
    ensures
        trie.entries.dom().finite(),
        listed_sum(trie.listing) == Some(sum_of_balances(trie.entries)),
{
    exact_listing_sums_the_balances(trie.entries, trie.listing.unwrap());
}

/// A trie without accounts is one whose walk hands out exactly what its lookups
/// find.
pub proof fn empty_trie_is_faithful()
    ensures
        faithful(empty_view()),
{
}

/// A mint on a ledger whose committed balance map lists exactly what its
/// lookups find keeps the sum of all balances within the cap: the sum grows by
/// the amount, and the new map is of the same kind.
pub proof fn committed_mint_keeps_all_balances_within_the_cap(
    before: LedgerView,
    after: LedgerView,
    caller: ActorID,
    owner: Option<ActorID>,
    amount: int,
)
    requires
        mint_applied(before, after, caller, owner, amount, None),
        committed_trie(before) matches Some(was) && faithful(was),
    ensures
        committed_trie(before) matches Some(was) && committed_trie(after) matches Some(now)
            && committed_state(before) matches Some(state) && faithful(now) && sum_of_balances(
            now.entries,
        ) == sum_of_balances(was.entries) + amount && sum_of_balances(now.entries)
            <= state.max_supply,
{
    faithful_walk_sums_the_balances(committed_trie(before).unwrap());
    faithful_walk_sums_the_balances(committed_trie(after).unwrap());
}

/// A transfer on a ledger whose committed balance map lists exactly what its
/// lookups find leaves the sum of all balances as it was, and the new map is of
/// the same kind.
pub proof fn committed_transfer_conserves_all_balances(
    before: LedgerView,
    after: LedgerView,
    caller: ActorID,
    recipient: Option<ActorID>,
    amount: int,
)
    requires
        transfer_applied(before, after, caller, recipient, amount, None),
        committed_trie(before) matches Some(was) && faithful(was),
    ensures
        committed_trie(before) matches Some(was) && committed_trie(after) matches Some(now)
            && faithful(now) && sum_of_balances(now.entries) == sum_of_balances(was.entries),
{
    faithful_walk_sums_the_balances(committed_trie(before).unwrap());
    faithful_walk_sums_the_balances(committed_trie(after).unwrap());
}

} // verus!
