use fvm_ipld_blockstore::Blockstore;
use fvm_ipld_blockstore::MemoryBlockstore;
use token_ledger::amount::TokenAmount;
use token_ledger::balances::BalanceMap;
use token_ledger::error::ActorError;
use token_ledger::error::MapError;
use token_ledger::protocol::apply_mint;
use token_ledger::protocol::apply_transfer;
use token_ledger::protocol::check_mint;
use token_ledger::protocol::check_minter;
use token_ledger::protocol::check_transfer;

fn amount(value: u64) -> TokenAmount {
    TokenAmount::from_u64(value)
}

fn map_with(entries: &[(u64, u64)]) -> BalanceMap {
    let mut map = BalanceMap::open(MemoryBlockstore::new());
    for (id, balance) in entries {
        map.set(*id, &amount(*balance)).unwrap();
    }
    map
}

fn holds(map: &BalanceMap, id: u64, expected: u64) -> bool {
    map.balance_of(id).unwrap().same_value(&amount(expected))
}

#[test]
fn empty_map_holds_nobody() {
    let map = BalanceMap::open(MemoryBlockstore::new());
    assert!(map.get(1).unwrap().is_none());
    assert!(holds(&map, 1, 0));
    assert!(map.listed_supply().unwrap().same_value(&amount(0)));
}

#[test]
fn set_then_get_gives_what_was_set() {
    let mut map = BalanceMap::open(MemoryBlockstore::new());
    map.set(7, &amount(100)).unwrap();
    assert!(map.get(7).unwrap().unwrap().same_value(&amount(100)));
    map.set(7, &amount(60)).unwrap();
    assert!(map.get(7).unwrap().unwrap().same_value(&amount(60)));
}

#[test]
fn untouched_key_reads_as_absent_before_and_after_other_writes() {
    let mut map = BalanceMap::open(MemoryBlockstore::new());
    assert!(map.get(99).unwrap().is_none());
    assert!(holds(&map, 99, 0));
    map.set(1, &amount(10)).unwrap();
    map.set(2, &amount(20)).unwrap();
    map.set(1, &amount(5)).unwrap();
    assert!(map.get(99).unwrap().is_none());
    assert!(holds(&map, 99, 0));
    assert!(holds(&map, 2, 20));
}

#[test]
fn flushed_map_loads_back_from_its_root() {
    let mut map = map_with(&[(1, 10), (2, 20), (300, 30)]);
    let root = map.flush().unwrap();
    let store = map.into_store();
    let mut again = BalanceMap::open(store);
    assert!(again.get(1).unwrap().is_none());
    again.load(&root).unwrap();
    assert!(holds(&again, 1, 10));
    assert!(holds(&again, 2, 20));
    assert!(holds(&again, 300, 30));
    assert!(holds(&again, 4, 0));
}

#[test]
fn same_balances_flush_to_the_same_root() {
    let mut first = map_with(&[(1, 10), (2, 20)]);
    let mut second = map_with(&[(2, 20), (1, 10)]);
    let mut third = map_with(&[(1, 10), (2, 21)]);
    let root = first.flush().unwrap();
    assert_eq!(root, second.flush().unwrap());
    assert_ne!(root, third.flush().unwrap());
    assert_eq!(root, first.flush().unwrap());
}

#[test]
fn load_of_a_missing_root_is_state_corruption() {
    let mut map = map_with(&[(1, 10)]);
    let root = map.flush().unwrap();
    let mut elsewhere = map_with(&[(5, 50)]);
    assert_eq!(elsewhere.load(&root), Err(MapError::StateCorruption));
    assert!(holds(&elsewhere, 5, 50));
}

#[test]
fn listed_supply_sums_all_balances() {
    let mut map = map_with(&[(1, 10), (2, 20), (3, 30)]);
    assert!(map.listed_supply().unwrap().same_value(&amount(60)));
    map.set(2, &amount(0)).unwrap();
    assert!(map.listed_supply().unwrap().same_value(&amount(40)));
}

#[test]
fn listed_supply_of_many_accounts() {
    let mut map = BalanceMap::open(MemoryBlockstore::new());
    for id in 0..500u64 {
        map.set(id, &amount(id)).unwrap();
    }
    assert!(map.listed_supply().unwrap().same_value(&amount(124_750)));
    let root = map.flush().unwrap();
    let mut again = BalanceMap::open(map.into_store());
    again.load(&root).unwrap();
    assert!(again.listed_supply().unwrap().same_value(&amount(124_750)));
    assert!(holds(&again, 499, 499));
}

#[test]
fn check_transfer_lets_a_covered_transfer_pass() {
    assert_eq!(check_transfer(7, &amount(100), &amount(40), Some(9)), Ok(9));
    assert_eq!(check_transfer(7, &amount(40), &amount(40), Some(9)), Ok(9));
    assert_eq!(check_transfer(7, &amount(0), &amount(0), Some(9)), Ok(9));
}

#[test]
fn check_transfer_refuses_an_amount_above_the_balance() {
    assert_eq!(
        check_transfer(7, &amount(39), &amount(40), Some(9)),
        Err(ActorError::InsufficientFunds)
    );
    assert_eq!(check_transfer(7, &amount(0), &amount(1), None), Err(ActorError::InsufficientFunds));
}

#[test]
fn check_transfer_refuses_an_unresolved_recipient() {
    assert_eq!(check_transfer(7, &amount(100), &amount(40), None), Err(ActorError::InvalidArgument));
}

#[test]
fn check_transfer_refuses_the_sender_as_recipient() {
    assert_eq!(
        check_transfer(7, &amount(100), &amount(40), Some(7)),
        Err(ActorError::InvalidArgument)
    );
    assert_eq!(
        check_transfer(7, &amount(10), &amount(40), Some(7)),
        Err(ActorError::InsufficientFunds)
    );
}

#[test]
fn check_transfer_refuses_a_negative_amount() {
    let minus_one = amount(1).negated();
    assert_eq!(
        check_transfer(7, &amount(100), &minus_one, Some(9)),
        Err(ActorError::InvalidArgument)
    );
}

#[test]
fn check_minter_wants_the_resolved_owner() {
    assert_eq!(check_minter(Some(100), 100), Ok(100));
    assert_eq!(check_minter(Some(100), 101), Err(ActorError::Forbidden));
    assert_eq!(check_minter(None, 100), Err(ActorError::InvalidArgument));
}

#[test]
fn check_mint_keeps_the_supply_within_the_cap() {
    assert_eq!(check_mint(&amount(100), &amount(0), &amount(1000)), Ok(()));
    assert_eq!(check_mint(&amount(1000), &amount(0), &amount(1000)), Ok(()));
    assert_eq!(
        check_mint(&amount(1001), &amount(0), &amount(1000)),
        Err(ActorError::InsufficientSupplyCap)
    );
    assert_eq!(
        check_mint(&amount(1), &amount(1000), &amount(1000)),
        Err(ActorError::InsufficientSupplyCap)
    );
    assert_eq!(
        check_mint(&amount(1).negated(), &amount(0), &amount(1000)),
        Err(ActorError::InvalidArgument)
    );
}

#[test]
fn apply_transfer_moves_the_amount() {
    let mut map = map_with(&[(1, 100), (2, 5)]);
    assert_eq!(apply_transfer(&mut map, 1, Some(2), &amount(40)), Ok(()));
    assert!(holds(&map, 1, 60));
    assert!(holds(&map, 2, 45));
    assert!(map.listed_supply().unwrap().same_value(&amount(105)));
}

#[test]
fn apply_transfer_to_a_new_account_creates_it() {
    let mut map = map_with(&[(1, 100)]);
    assert!(map.get(2).unwrap().is_none());
    assert_eq!(apply_transfer(&mut map, 1, Some(2), &amount(100)), Ok(()));
    assert!(holds(&map, 1, 0));
    assert!(holds(&map, 2, 100));
    assert!(map.get(3).unwrap().is_none());
}

#[test]
fn apply_transfer_that_is_refused_changes_nothing() {
    let mut map = map_with(&[(1, 100), (2, 5)]);
    assert_eq!(
        apply_transfer(&mut map, 1, Some(2), &amount(101)),
        Err(ActorError::InsufficientFunds)
    );
    assert_eq!(apply_transfer(&mut map, 1, Some(1), &amount(10)), Err(ActorError::InvalidArgument));
    assert_eq!(apply_transfer(&mut map, 1, None, &amount(10)), Err(ActorError::InvalidArgument));
    assert_eq!(
        apply_transfer(&mut map, 3, Some(1), &amount(1)),
        Err(ActorError::InsufficientFunds)
    );
    assert!(holds(&map, 1, 100));
    assert!(holds(&map, 2, 5));
    assert!(map.get(3).unwrap().is_none());
}

#[test]
fn apply_mint_credits_the_owner() {
    let mut map = map_with(&[(2, 5)]);
    assert_eq!(apply_mint(&mut map, 1, &amount(100), &amount(1000)), Ok(()));
    assert!(holds(&map, 1, 100));
    assert!(holds(&map, 2, 5));
    assert_eq!(apply_mint(&mut map, 1, &amount(895), &amount(1000)), Ok(()));
    assert!(holds(&map, 1, 995));
    assert!(map.listed_supply().unwrap().same_value(&amount(1000)));
}

#[test]
fn apply_mint_above_the_cap_changes_nothing() {
    let mut map = map_with(&[(1, 600), (2, 400)]);
    assert_eq!(
        apply_mint(&mut map, 1, &amount(1), &amount(1000)),
        Err(ActorError::InsufficientSupplyCap)
    );
    assert_eq!(
        apply_mint(&mut map, 1, &amount(5).negated(), &amount(1000)),
        Err(ActorError::InvalidArgument)
    );
    assert!(holds(&map, 1, 600));
    assert!(holds(&map, 2, 400));
}

#[test]
fn is_empty_tells_an_empty_map() {
    let mut map = BalanceMap::open(MemoryBlockstore::new());
    assert!(map.is_empty());
    map.set(1, &amount(10)).unwrap();
    assert!(!map.is_empty());
    let root = map.flush().unwrap();
    let mut again = BalanceMap::open(map.into_store());
    assert!(again.is_empty());
    again.load(&root).unwrap();
    assert!(!again.is_empty());
}

fn root_without_children() -> (MemoryBlockstore, cid::Cid) {
    let mut map = BalanceMap::open(MemoryBlockstore::new());
    for id in 0..5000u64 {
        map.set(id, &amount(1)).unwrap();
    }
    let root = map.flush().unwrap();
    let full = map.into_store();
    let partial = MemoryBlockstore::new();
    partial.put_keyed(&root, &full.get(&root).unwrap().unwrap()).unwrap();
    (partial, root)
}

#[test]
fn map_with_missing_nodes_fails_on_what_it_cannot_reach() {
    let (store, root) = root_without_children();
    let mut map = BalanceMap::open(store);
    assert_eq!(map.load(&root), Ok(()));
    assert_eq!(map.get(7).err(), Some(MapError::StateCorruption));
    assert_eq!(map.balance_of(7).err(), Some(MapError::StateCorruption));
    assert_eq!(map.listed_supply().err(), Some(MapError::StateCorruption));
    assert_eq!(map.set(7, &amount(5)), Err(MapError::StorageWriteError));
    assert_eq!(apply_transfer(&mut map, 7, Some(8), &amount(1)), Err(ActorError::IllegalState));
    assert_eq!(apply_mint(&mut map, 7, &amount(1), &amount(10)), Err(ActorError::IllegalState));
}

#[test]
fn flush_fails_on_a_balance_too_large_to_store() {
    let mut map = BalanceMap::open(MemoryBlockstore::new());
    let huge = TokenAmount { negative: false, magnitude: vec![0xff; 200] };
    assert_eq!(map.set(1, &huge), Ok(()));
    assert!(map.get(1).unwrap().unwrap().same_value(&huge));
    assert_eq!(map.flush().err(), Some(MapError::StorageWriteError));
}

#[test]
fn flush_puts_the_root_into_the_store_and_keeps_what_was_there() {
    let store = MemoryBlockstore::new();
    let other = cid::Cid::default();
    store.put_keyed(&other, &[1, 2, 3]).unwrap();
    let mut map = BalanceMap::open(store);
    for id in 0..100u64 {
        map.set(id, &amount(id)).unwrap();
    }
    let root = map.flush().unwrap();
    assert_ne!(root, other);
    let store = map.into_store();
    assert!(store.has(&root).unwrap());
    assert_eq!(store.get(&other).unwrap(), Some(vec![1, 2, 3]));
}

#[test]
fn loaded_map_flushes_to_the_root_it_was_loaded_from() {
    let mut map = map_with(&[(1, 10), (2, 20)]);
    let root = map.flush().unwrap();
    assert_eq!(map.flush(), Ok(root));
    let mut again = BalanceMap::open(map.into_store());
    let empty_root = again.flush().unwrap();
    assert_ne!(empty_root, root);
    again.load(&root).unwrap();
    assert_eq!(again.flush(), Ok(root));
    assert!(holds(&again, 2, 20));
    again.set(2, &amount(21)).unwrap();
    let changed = again.flush().unwrap();
    assert_ne!(changed, root);
    assert_eq!(again.flush(), Ok(changed));
}

#[test]
fn flush_keeps_a_map_empty_or_not() {
    let mut map = BalanceMap::open(MemoryBlockstore::new());
    map.flush().unwrap();
    assert!(map.is_empty());
    assert!(map.listed_supply().unwrap().same_value(&amount(0)));
    map.set(3, &amount(0)).unwrap();
    assert!(!map.is_empty());
    map.flush().unwrap();
    assert!(!map.is_empty());
}

#[test]
fn empty_map_flushes_to_the_hash_of_the_empty_root_node() {
    let mut map = BalanceMap::open(MemoryBlockstore::new());
    let root = map.flush().unwrap();
    let store = map.into_store();
    assert_eq!(store.get(&root).unwrap(), Some(vec![0x82, 0x40, 0x80]));
    let mut ledger = token_ledger::ledger::Ledger::new();
    assert_eq!(ledger.put(&[0x82, 0x40, 0x80]), root);
    let mut other = BalanceMap::open(MemoryBlockstore::new());
    assert_eq!(other.flush(), Ok(root));
}

#[test]
fn apply_transfer_refuses_a_balance_too_large_to_store() {
    let limit = TokenAmount { negative: false, magnitude: vec![0xff; 127] };
    let mut map = BalanceMap::open(MemoryBlockstore::new());
    map.set(1, &amount(1)).unwrap();
    map.set(2, &limit).unwrap();
    assert_eq!(apply_transfer(&mut map, 1, Some(2), &amount(1)), Err(ActorError::IllegalState));
    assert!(holds(&map, 1, 1));
    assert!(map.balance_of(2).unwrap().same_value(&limit));
    assert_eq!(apply_transfer(&mut map, 2, Some(1), &amount(1)), Ok(()));
    assert!(holds(&map, 1, 2));
    assert!(map.flush().is_ok());
}

#[test]
fn apply_mint_refuses_a_balance_too_large_to_store() {
    let limit = TokenAmount { negative: false, magnitude: vec![0xff; 127] };
    let huge = TokenAmount { negative: false, magnitude: vec![0xff; 200] };
    let mut map = BalanceMap::open(MemoryBlockstore::new());
    assert_eq!(apply_mint(&mut map, 1, &limit, &huge), Ok(()));
    assert_eq!(apply_mint(&mut map, 1, &amount(1), &huge), Err(ActorError::IllegalState));
    assert!(map.balance_of(1).unwrap().same_value(&limit));
}
