//! The idempotency store: the state of every transaction id the switch has
//! seen, held in a `DashMap`.

use vstd::prelude::*;
use dashmap::DashMap;
use crate::types::TxnState;

verus! {

/// `dashmap::DashMap`, whose contents Verus sees only through `dashmap_entries`.
#[verifier::external_type_specification]
#[verifier::external_body]
#[verifier::reject_recursive_types(K)]
#[verifier::reject_recursive_types(V)]
#[verifier::reject_recursive_types(S)]
pub struct ExDashMap<K, V, S>(DashMap<K, V, S>);

/// The entries of a `DashMap` from transaction ids to states. The store
/// reaches the map only through `&mut` for changes, so the entries of a
/// map behind a shared reference stay what they were.
pub uninterp spec fn dashmap_entries(m: DashMap<u128, TxnState>) -> Map<u128, TxnState>;

/// The entries of an empty store.
pub open spec fn no_entries() -> Map<u128, TxnState> {
    Map::empty()
}

/// `DashMap::new`: a map with no entries.
#[verifier::external_body]
fn dashmap_new() -> (fresh: DashMap<u128, TxnState>)
    ensures
        dashmap_entries(fresh) == no_entries(),
{
    DashMap::new()
}

/// `DashMap::contains_key`: whether the map has an entry for `key`.
#[verifier::external_body]
fn dashmap_contains_key(m: &DashMap<u128, TxnState>, key: u128) -> (b: bool)
    ensures
        b == dashmap_entries(*m).contains_key(key),
{
    m.contains_key(&key)
}

/// `DashMap::insert`: the entry for `key` becomes `value`, other entries stay;
/// the value that `key` had before, if any, is handed back.
#[verifier::external_body]
fn dashmap_insert(m: &mut DashMap<u128, TxnState>, key: u128, value: TxnState) -> (prev: Option<TxnState>)
    ensures
        dashmap_entries(*final(m)) == dashmap_entries(*old(m)).insert(key, value),
        prev == (if dashmap_entries(*old(m)).contains_key(key) {
            Some(dashmap_entries(*old(m))[key])
        } else {
            None
        }),
{
    m.insert(key, value)
}

/// `DashMap::view`, with the value stored under `key` cloned out of the map
/// by the verified `TxnState::clone`: that value, if the key is present.
#[verifier::external_body]
fn dashmap_get_cloned(m: &DashMap<u128, TxnState>, key: u128) -> (r: Option<TxnState>)
    ensures
        r == (if dashmap_entries(*m).contains_key(key) {
            Some(dashmap_entries(*m)[key])
        } else {
            None
        }),
{
    m.view(&key, |_, v| TxnState::clone(v))
}

/// The state recorded for every transaction id the switch has accepted.
pub struct IdempotencyStore {
    map: DashMap<u128, TxnState>,
}

impl View for IdempotencyStore {
    type V = Map<u128, TxnState>;

    closed spec fn view(&self) -> Map<u128, TxnState> {
        dashmap_entries(self.map)
    }
}

/// The store after an attempt to begin `txn_id`: a new id is recorded as
/// processing, a known one leaves the store as it was.
pub open spec fn after_begin(m: Map<u128, TxnState>, txn_id: u128) -> Map<u128, TxnState> {
    if m.contains_key(txn_id) {
        m
    } else {
        m.insert(txn_id, TxnState::Processing)
    }
}

/// The store after `txn_id` is finalized with `state`.
pub open spec fn after_finalize(m: Map<u128, TxnState>, txn_id: u128, state: TxnState) -> Map<u128, TxnState> {
    m.insert(txn_id, state)
}

/// What the store holds for `txn_id`.
pub open spec fn lookup(m: Map<u128, TxnState>, txn_id: u128) -> Option<TxnState> {
    if m.contains_key(txn_id) {
        Some(m[txn_id])
    } else {
        None
    }
}

/// An empty store.
pub fn new_store() -> (store: IdempotencyStore)
    ensures
        store@ == no_entries(),
{
    IdempotencyStore { map: dashmap_new() }
}

/// Claims `txn_id` for processing. Returns `true` and records it as
/// processing when the store has never seen it; returns `false` and leaves
/// the store unchanged otherwise.
pub fn try_begin(store: &mut IdempotencyStore, txn_id: u128) -> (began: bool)
    ensures
        began == !old(store)@.contains_key(txn_id),
        final(store)@ == after_begin(old(store)@, txn_id),
{
    if dashmap_contains_key(&store.map, txn_id) {
        false
    } else {
        let _ = dashmap_insert(&mut store.map, txn_id, TxnState::Processing);
        true
    }
}

/// Records the final `state` of `txn_id`.
pub fn finalize(store: &mut IdempotencyStore, txn_id: u128, state: TxnState)
    ensures
        final(store)@ == after_finalize(old(store)@, txn_id, state),
{
    let _ = dashmap_insert(&mut store.map, txn_id, state);
}

/// The state recorded for `txn_id`, if any.
pub fn get_state(store: &IdempotencyStore, txn_id: &u128) -> (state: Option<TxnState>)
    ensures
        state == lookup(store@, *txn_id),
{
    dashmap_get_cloned(&store.map, *txn_id)
}

/// A transaction id can be begun only once: an attempt on an id the store
/// holds changes nothing, and after any attempt the store holds the id, so
/// every later attempt is refused.
/// A first attempt records the id as processing.
pub proof fn lemma_begin_is_exclusive(m: Map<u128, TxnState>, txn_id: u128)
    ensures
        m.contains_key(txn_id) ==> after_begin(m, txn_id) == m,
        after_begin(m, txn_id).contains_key(txn_id),
        after_begin(after_begin(m, txn_id), txn_id) == after_begin(m, txn_id),
        !m.contains_key(txn_id) ==> lookup(after_begin(m, txn_id), txn_id) == Some(TxnState::Processing),
{
}

/// A read gives back what finalizing wrote, leaves every other transaction
/// id as it was, and a finalized id stays claimed against new attempts.
pub proof fn lemma_read_after_finalize(m: Map<u128, TxnState>, txn_id: u128, state: TxnState, other: u128)
    ensures
        lookup(after_finalize(m, txn_id, state), txn_id) == Some(state),
        other != txn_id ==> lookup(after_finalize(m, txn_id, state), other) == lookup(m, other),
        after_begin(after_finalize(m, txn_id, state), txn_id) == after_finalize(m, txn_id, state),
{
}

/// Beginning one transaction id leaves what the store holds for every other
/// id unchanged.
pub proof fn lemma_begin_leaves_others(m: Map<u128, TxnState>, txn_id: u128, other: u128)
    requires
        other != txn_id,
    ensures
        lookup(after_begin(m, txn_id), other) == lookup(m, other),
{
}

} // verus!
