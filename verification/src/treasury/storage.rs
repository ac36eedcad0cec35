//! The treasury's persistent storage and its typed accessors.

use std::collections::HashMap;
use vstd::prelude::*;

use super::types::{AdminCouncil, SpendingProgram, TreasuryEntry, TreasuryEntryView, TreasuryStats};
use crate::council::AdminCouncilView;

verus! {

broadcast use vstd::std_specs::hash::group_hash_axioms;

/// The protocol treasury contract: its persistent storage, on which the
/// entry points in the parent module operate.
pub struct TreasuryContract {
    balance: i128,
    entry_count: u64,
    entries: HashMap<u64, TreasuryEntry>,
    programs: HashMap<u64, SpendingProgram>,
    admin_council: Option<AdminCouncil>,
    token_address: Option<u64>,
    stats: TreasuryStats,
}

/// The treasury's storage as a mathematical value.
pub struct TreasuryState {
    /// Current treasury token balance (0 until set).
    pub balance: i128,
    /// Number of history entries recorded so far; entries are numbered from 1.
    pub entry_count: u64,
    /// History entries keyed by entry id.
    pub entries: Map<u64, TreasuryEntryView>,
    /// Spending programs keyed by program id.
    pub programs: Map<u64, SpendingProgram>,
    /// The council authorized to withdraw and allocate, once initialized.
    pub admin_council: Option<AdminCouncilView>,
    /// The treasury token contract, once set.
    pub token_address: Option<u64>,
    /// Lifetime totals (zero until set).
    pub stats: TreasuryStats,
}

impl TreasuryState {
    /// The storage with program `program_id` replaced by `program`.
    pub open spec fn with_program(self, program_id: u64, program: SpendingProgram) -> TreasuryState {
        TreasuryState { programs: self.programs.insert(program_id, program), ..self }
    }
}

impl View for TreasuryContract {
    type V = TreasuryState;

    closed spec fn view(&self) -> TreasuryState {
        TreasuryState {
            balance: self.balance,
            entry_count: self.entry_count,
            entries: self.entries@.map_values(|e: TreasuryEntry| e@),
            programs: self.programs@,
            admin_council: match self.admin_council {
                Some(c) => Some(c@),
                None => None,
            },
            token_address: self.token_address,
            stats: self.stats,
        }
    }
}

impl TreasuryContract {
    /// A freshly deployed contract, with empty storage.
    pub fn new() -> (c: Self)
        ensures
            c@.balance == 0,
            c@.entry_count == 0,
            c@.entries == Map::<u64, TreasuryEntryView>::empty(),
            c@.programs == Map::<u64, SpendingProgram>::empty(),
            c@.admin_council is None,
            c@.token_address is None,
            c@.stats == (TreasuryStats {
                current_balance: 0,
                lifetime_deposited: 0,
                lifetime_withdrawn: 0,
                lifetime_allocated: 0,
            }),
    {
        let c = TreasuryContract {
            balance: 0,
            entry_count: 0,
            entries: HashMap::new(),
            programs: HashMap::new(),
            admin_council: None,
            token_address: None,
            stats: TreasuryStats {
                current_balance: 0,
                lifetime_deposited: 0,
                lifetime_withdrawn: 0,
                lifetime_allocated: 0,
            },
        };
        assert(c@.entries =~= Map::<u64, TreasuryEntryView>::empty());
        c
    }
}

/// Load the current treasury balance (0 where never set).
pub fn get_balance(store: &TreasuryContract) -> (r: i128)
    ensures
        r == store@.balance,
{
    store.balance
}

/// Persist an updated balance.
pub fn set_balance(store: &mut TreasuryContract, balance: i128)
    ensures
        final(store)@ == (TreasuryState { balance, ..old(store)@ }),
{
    store.balance = balance;
}

/// Load a specific history entry.
pub fn get_entry(store: &TreasuryContract, entry_id: u64) -> (r: Option<TreasuryEntry>)
    ensures
        match r {
            Some(e) => store@.entries.contains_key(entry_id) && e@ == store@.entries[entry_id],
            None => !store@.entries.contains_key(entry_id),
        },
{
    match store.entries.get(&entry_id) {
        Some(e) => Some(e.duplicate()),
        None => None,
    }
}

/// Append a new entry under the next entry id and increment the entry counter.
pub fn set_entry(store: &mut TreasuryContract, entry: TreasuryEntry)
    requires
        old(store)@.entry_count < u64::MAX,
    ensures
        final(store)@ == (TreasuryState {
            entry_count: (old(store)@.entry_count + 1) as u64,
            entries: old(store)@.entries.insert((old(store)@.entry_count + 1) as u64, entry@),
            ..old(store)@
        }),
{
    let next_id = store.entry_count + 1;
    store.entries.insert(next_id, entry);
    store.entry_count = next_id;
    assert(store@.entries =~= old(store)@.entries.insert(next_id, entry@));
}

/// Return total number of entries in history.
pub fn get_entry_count(store: &TreasuryContract) -> (r: u64)
    ensures
        r == store@.entry_count,
{
    store.entry_count
}

/// Persist the entry counter.
pub fn set_entry_count(store: &mut TreasuryContract, count: u64)
    ensures
        final(store)@ == (TreasuryState { entry_count: count, ..old(store)@ }),
{
    store.entry_count = count;
}

/// Append a new entry and increment the entry counter.
pub fn append_entry(store: &mut TreasuryContract, entry: &TreasuryEntry)
    requires
        old(store)@.entry_count < u64::MAX,
    ensures
        final(store)@ == (TreasuryState {
            entry_count: (old(store)@.entry_count + 1) as u64,
            entries: old(store)@.entries.insert((old(store)@.entry_count + 1) as u64, entry@),
            ..old(store)@
        }),
{
    set_entry(store, entry.duplicate());
}

/// Load a spending program by ID.
pub fn get_spending_program(store: &TreasuryContract, program_id: u64) -> (r: Option<
    SpendingProgram,
>)
    ensures
        r == store@.programs.get(program_id),
{
    match store.programs.get(&program_id) {
        Some(p) => Some(p.duplicate()),
        None => None,
    }
}

/// Persist a spending program.
pub fn set_spending_program(store: &mut TreasuryContract, program_id: u64, program: SpendingProgram)
    ensures
        final(store)@ == old(store)@.with_program(program_id, program),
{
    store.programs.insert(program_id, program);
    assert(store@.entries =~= old(store)@.entries);
}

/// Load the treasury admin council; it must have been set.
pub fn get_admin_council(store: &TreasuryContract) -> (r: AdminCouncil)
    requires
        store@.admin_council is Some,
    ensures
        store@.admin_council == Some(r@),
{
    store.admin_council.as_ref().unwrap().duplicate()
}

/// Set the treasury admin council.
pub fn set_admin_council(store: &mut TreasuryContract, council: &AdminCouncil)
    ensures
        final(store)@ == (TreasuryState { admin_council: Some(council@), ..old(store)@ }),
{
    store.admin_council = Some(council.duplicate());
}

/// Check if the admin council is set.
pub fn has_admin_council(store: &TreasuryContract) -> (r: bool)
    ensures
        r == store@.admin_council is Some,
{
    store.admin_council.is_some()
}

/// Load the treasury token address; it must have been set.
pub fn get_token_address(store: &TreasuryContract) -> (r: u64)
    requires
        store@.token_address is Some,
    ensures
        store@.token_address == Some(r),
{
    store.token_address.unwrap()
}

/// Set the treasury token address.
pub fn set_token_address(store: &mut TreasuryContract, token_address: u64)
    ensures
        final(store)@ == (TreasuryState { token_address: Some(token_address), ..old(store)@ }),
{
    store.token_address = Some(token_address);
}

/// Load the lifetime statistics (zero where never set).
pub fn get_stats(store: &TreasuryContract) -> (r: TreasuryStats)
    ensures
        r == store@.stats,
{
    store.stats
}

/// Persist the lifetime statistics.
pub fn set_stats(store: &mut TreasuryContract, stats: &TreasuryStats)
    ensures
        final(store)@ == (TreasuryState { stats: *stats, ..old(store)@ }),
{
    store.stats = *stats;
}

/// Allocation records keyed by program name. The record type is a parameter:
/// nothing in the treasury reads a record's contents.
pub struct AllocationBook<A> {
    records: Vec<(String, A)>,
}

/// The map that a list of named records stands for: later records override
/// earlier ones of the same name.
pub open spec fn named_map<A>(records: Seq<(String, A)>) -> Map<Seq<char>, A>
    decreases records.len(),
{
    if records.len() == 0 {
        Map::empty()
    } else {
        named_map(records.drop_last()).insert(records.last().0@, records.last().1)
    }
}

impl<A> View for AllocationBook<A> {
    type V = Map<Seq<char>, A>;

    closed spec fn view(&self) -> Map<Seq<char>, A> {
        named_map(self.records@)
    }
}

impl<A> AllocationBook<A> {
    /// An empty book.
    pub fn new() -> (b: Self)
        ensures
            b@ == Map::<Seq<char>, A>::empty(),
    {
        let b = AllocationBook { records: Vec::new() };
        assert(b.records@.len() == 0);
        b
    }
}

/// Load the allocation record of a program, by program name.
pub fn get_allocation<'a, A>(book: &'a AllocationBook<A>, program: &String) -> (r: Option<&'a A>)
    ensures
        match r {
            Some(a) => book@.contains_key(program@) && *a == book@[program@],
            None => !book@.contains_key(program@),
        },
{
    let records = &book.records;
    let mut i = records.len();
    assert(records@.take(i as int) == records@);
    while i > 0
        invariant
            i <= records@.len(),
            records@ == book.records@,
            named_map(records@).contains_key(program@) == named_map(records@.take(i as int)).contains_key(
                program@,
            ),
            named_map(records@).contains_key(program@) ==> named_map(records@)[program@] == named_map(
                records@.take(i as int),
            )[program@],
        decreases i,
    {
        let ghost prefix = records@.take(i as int);
        assert(prefix.drop_last() == records@.take(i - 1));
        assert(prefix.last() == records@[i - 1]);
        i = i - 1;
        if records[i].0 == *program {
            assert(named_map(prefix) == named_map(prefix.drop_last()).insert(prefix.last().0@, prefix.last().1));
            return Some(&records[i].1);
        }
    }
    assert(records@.take(0).len() == 0);
    None
}

/// Persist the allocation record of a program, by program name.
pub fn set_allocation<A>(book: &mut AllocationBook<A>, program: &String, record: A)
    ensures
        final(book)@ == old(book)@.insert(program@, record),
{
    book.records.push((program.clone(), record));
    assert(book.records@.drop_last() == old(book).records@);
}

} // verus!
