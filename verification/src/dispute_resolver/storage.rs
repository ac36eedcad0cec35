//! The dispute resolver's persistent storage and its typed accessors. The
//! dispute and ruling records are type parameters: the storage layout does not
//! depend on what they hold.

use std::collections::HashMap;
use vstd::prelude::*;

verus! {

broadcast use vstd::std_specs::hash::group_hash_axioms;

/// The dispute resolver contract: its persistent storage of disputes of type
/// `D` and rulings of type `R`.
pub struct DisputeResolverContract<D, R> {
    disputes: HashMap<u64, D>,
    dispute_count: u64,
    rulings: HashMap<u64, R>,
    resolution_window: u32,
    admin: Option<u64>,
    tx_disputes: Vec<([u8; 32], u64)>,
    public_keys: HashMap<u64, [u8; 32]>,
}

/// The dispute resolver's storage as a mathematical value.
pub struct DisputeResolverState<D, R> {
    /// Disputes keyed by dispute id.
    pub disputes: Map<u64, D>,
    /// The last dispute id handed out (0 before any).
    pub dispute_count: u64,
    /// Final rulings keyed by dispute id.
    pub rulings: Map<u64, R>,
    /// Number of ledgers allowed for a dispute response (0 until set).
    pub resolution_window: u32,
    /// The admin account, once set.
    pub admin: Option<u64>,
    /// Which dispute each disputed transaction id belongs to.
    pub tx_disputes: Map<[u8; 32], u64>,
    /// Raw 32-byte Ed25519 public keys keyed by account id.
    pub public_keys: Map<u64, [u8; 32]>,
}

/// The map that an association list stands for: later pairs override earlier ones.
pub open spec fn assoc_map(pairs: Seq<([u8; 32], u64)>) -> Map<[u8; 32], u64>
    decreases pairs.len(),
{
    if pairs.len() == 0 {
        Map::empty()
    } else {
        assoc_map(pairs.drop_last()).insert(pairs.last().0, pairs.last().1)
    }
}

impl<D, R> DisputeResolverState<D, R> {
    /// The next dispute id to hand out.
    pub open spec fn next_dispute_id(self) -> u64 {
        (self.dispute_count + 1) as u64
    }

    /// The storage after the next dispute id is handed out.
    pub open spec fn after_next_id(self) -> DisputeResolverState<D, R> {
        DisputeResolverState { dispute_count: self.next_dispute_id(), ..self }
    }

    /// The storage with transaction `tx_id` recorded as belonging to `dispute_id`.
    pub open spec fn with_tx_dispute(self, tx_id: [u8; 32], dispute_id: u64) -> DisputeResolverState<D, R> {
        DisputeResolverState { tx_disputes: self.tx_disputes.insert(tx_id, dispute_id), ..self }
    }
}

impl<D, R> View for DisputeResolverContract<D, R> {
    type V = DisputeResolverState<D, R>;

    closed spec fn view(&self) -> DisputeResolverState<D, R> {
        DisputeResolverState {
            disputes: self.disputes@,
            dispute_count: self.dispute_count,
            rulings: self.rulings@,
            resolution_window: self.resolution_window,
            admin: self.admin,
            tx_disputes: assoc_map(self.tx_disputes@),
            public_keys: self.public_keys@,
        }
    }
}

impl<D, R> DisputeResolverContract<D, R> {
    /// A freshly deployed contract, with empty storage.
    pub fn new() -> (c: Self)
        ensures
            c@.disputes == Map::<u64, D>::empty(),
            c@.dispute_count == 0,
            c@.rulings == Map::<u64, R>::empty(),
            c@.resolution_window == 0,
            c@.admin is None,
            c@.tx_disputes == Map::<[u8; 32], u64>::empty(),
            c@.public_keys == Map::<u64, [u8; 32]>::empty(),
    {
        let c = DisputeResolverContract {
            disputes: HashMap::new(),
            dispute_count: 0,
            rulings: HashMap::new(),
            resolution_window: 0,
            admin: None,
            tx_disputes: Vec::new(),
            public_keys: HashMap::new(),
        };
        assert(c.tx_disputes@.len() == 0);
        c
    }
}

/// Whether two 32-byte values are equal.
fn bytes_eq(a: &[u8; 32], b: &[u8; 32]) -> (r: bool)
    ensures
        r == (*a == *b),
{
    let mut i: usize = 0;
    while i < 32
        invariant
            i <= 32,
            forall|j: int| 0 <= j < i ==> a[j] == b[j],
        decreases 32 - i,
    {
        if a[i] != b[i] {
            return false;
        }
        i = i + 1;
    }
    assert(*a =~= *b);
    true
}

/// Load a dispute by its ID. Returns None if not found.
pub fn get_dispute<D, R>(store: &DisputeResolverContract<D, R>, dispute_id: u64) -> (r: Option<&D>)
    ensures
        match r {
            Some(d) => store@.disputes.contains_key(dispute_id) && *d == store@.disputes[dispute_id],
            None => !store@.disputes.contains_key(dispute_id),
        },
{
    store.disputes.get(&dispute_id)
}

/// Persist an updated dispute record to storage.
pub fn set_dispute<D, R>(store: &mut DisputeResolverContract<D, R>, dispute_id: u64, dispute: D)
    ensures
        final(store)@ == (DisputeResolverState {
            disputes: old(store)@.disputes.insert(dispute_id, dispute),
            ..old(store)@
        }),
{
    store.disputes.insert(dispute_id, dispute);
}

/// Get the current dispute count. Returns 0 if none exist.
pub fn get_dispute_count<D, R>(store: &DisputeResolverContract<D, R>) -> (r: u64)
    ensures
        r == store@.dispute_count,
{
    store.dispute_count
}

/// Increment and return the next available dispute ID.
pub fn get_next_dispute_id<D, R>(store: &mut DisputeResolverContract<D, R>) -> (r: u64)
    requires
        old(store)@.dispute_count < u64::MAX,
    ensures
        r == old(store)@.next_dispute_id(),
        final(store)@ == old(store)@.after_next_id(),
{
    let count = get_dispute_count(store) + 1;
    store.dispute_count = count;
    count
}

/// Load a ruling by the dispute ID. Returns None if no ruling exists.
pub fn get_ruling<D, R>(store: &DisputeResolverContract<D, R>, dispute_id: u64) -> (r: Option<&R>)
    ensures
        match r {
            Some(x) => store@.rulings.contains_key(dispute_id) && *x == store@.rulings[dispute_id],
            None => !store@.rulings.contains_key(dispute_id),
        },
{
    store.rulings.get(&dispute_id)
}

/// Persist a final ruling to storage.
pub fn set_ruling<D, R>(store: &mut DisputeResolverContract<D, R>, dispute_id: u64, ruling: R)
    ensures
        final(store)@ == (DisputeResolverState {
            rulings: old(store)@.rulings.insert(dispute_id, ruling),
            ..old(store)@
        }),
{
    store.rulings.insert(dispute_id, ruling);
}

/// Get the resolution window in ledgers (0 until set).
pub fn get_resolution_window<D, R>(store: &DisputeResolverContract<D, R>) -> (r: u32)
    ensures
        r == store@.resolution_window,
{
    store.resolution_window
}

/// Set the resolution window in ledgers.
pub fn set_resolution_window<D, R>(store: &mut DisputeResolverContract<D, R>, window_ledgers: u32)
    ensures
        final(store)@ == (DisputeResolverState { resolution_window: window_ledgers, ..old(store)@ }),
{
    store.resolution_window = window_ledgers;
}

/// Check if the admin address is set.
pub fn has_admin<D, R>(store: &DisputeResolverContract<D, R>) -> (r: bool)
    ensures
        r == store@.admin is Some,
{
    store.admin.is_some()
}

/// Get the admin address; it must have been set.
pub fn get_admin<D, R>(store: &DisputeResolverContract<D, R>) -> (r: u64)
    requires
        store@.admin is Some,
    ensures
        store@.admin == Some(r),
{
    store.admin.unwrap()
}

/// Set the admin address.
pub fn set_admin<D, R>(store: &mut DisputeResolverContract<D, R>, admin: u64)
    ensures
        final(store)@ == (DisputeResolverState { admin: Some(admin), ..old(store)@ }),
{
    store.admin = Some(admin);
}

/// Load the dispute ID associated with a tx_id. Returns None if none exists.
pub fn get_dispute_by_tx<D, R>(store: &DisputeResolverContract<D, R>, tx_id: &[u8; 32]) -> (r:
    Option<u64>)
    ensures
        r == store@.tx_disputes.get(*tx_id),
{
    let pairs = &store.tx_disputes;
    let mut i = pairs.len();
    assert(pairs@.take(i as int) == pairs@);
    while i > 0
        invariant
            i <= pairs@.len(),
            pairs@ == store.tx_disputes@,
            assoc_map(pairs@).get(*tx_id) == assoc_map(pairs@.take(i as int)).get(*tx_id),
        decreases i,
    {
        let ghost prefix = pairs@.take(i as int);
        assert(prefix.drop_last() == pairs@.take(i - 1));
        assert(prefix.last() == pairs@[i - 1]);
        i = i - 1;
        if bytes_eq(&pairs[i].0, tx_id) {
            assert(assoc_map(prefix) == assoc_map(prefix.drop_last()).insert(prefix.last().0, prefix.last().1));
            assert(assoc_map(prefix).contains_key(*tx_id));
            return Some(pairs[i].1);
        }
    }
    assert(pairs@.take(0).len() == 0);
    None
}

/// Record that a given tx_id maps to a specific dispute_id.
pub fn set_dispute_by_tx<D, R>(store: &mut DisputeResolverContract<D, R>, tx_id: &[u8; 32], dispute_id: u64)
    ensures
        final(store)@ == old(store)@.with_tx_dispute(*tx_id, dispute_id),
{
    store.tx_disputes.push((*tx_id, dispute_id));
    assert(store.tx_disputes@.drop_last() == old(store).tx_disputes@);
}

/// Load the raw 32-byte Ed25519 public key registered for an account; one
/// must have been registered.
pub fn get_public_key<D, R>(store: &DisputeResolverContract<D, R>, address: u64) -> (r: [u8; 32])
    requires
        store@.public_keys.contains_key(address),
    ensures
        r == store@.public_keys[address],
{
    *store.public_keys.get(&address).unwrap()
}

/// Register the raw 32-byte Ed25519 public key for an account.
pub fn set_public_key<D, R>(store: &mut DisputeResolverContract<D, R>, address: u64, public_key: &[u8; 32])
    ensures
        final(store)@ == (DisputeResolverState {
            public_keys: old(store)@.public_keys.insert(address, *public_key),
            ..old(store)@
        }),
{
    store.public_keys.insert(address, *public_key);
}

} // verus!
