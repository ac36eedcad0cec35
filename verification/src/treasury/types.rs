//! Data structures of the protocol treasury.

use vstd::prelude::*;

pub use crate::council::AdminCouncil;

verus! {

/// What kind of movement a history entry records.
#[derive(Clone, Copy, Debug, PartialEq, Eq, Structural)]
pub enum EntryKind {
    Deposit,
    Withdrawal,
    Allocation,
}

/// One entry of the treasury's on-chain history.
#[derive(Clone, Debug, PartialEq, Eq)]
pub struct TreasuryEntry {
    pub kind: EntryKind,
    pub amount: i128,
    /// Who moved the funds: the depositor, or the treasury itself for
    /// council-authorized withdrawals and allocations.
    pub actor: u64,
    /// Who received the funds, where someone outside the treasury did.
    pub recipient: Option<u64>,
    pub memo: String,
    /// Ledger sequence number at which the movement happened.
    pub ledger: u64,
}

/// A history entry as a mathematical value.
pub struct TreasuryEntryView {
    pub kind: EntryKind,
    pub amount: i128,
    pub actor: u64,
    pub recipient: Option<u64>,
    pub memo: Seq<char>,
    pub ledger: u64,
}

impl View for TreasuryEntry {
    type V = TreasuryEntryView;

    open spec fn view(&self) -> TreasuryEntryView {
        TreasuryEntryView {
            kind: self.kind,
            amount: self.amount,
            actor: self.actor,
            recipient: self.recipient,
            memo: self.memo@,
            ledger: self.ledger,
        }
    }
}

impl TreasuryEntry {
    /// A copy of this entry.
    pub fn duplicate(&self) -> (e: Self)
        ensures
            e@ == self@,
    {
        TreasuryEntry {
            kind: self.kind,
            amount: self.amount,
            actor: self.actor,
            recipient: self.recipient,
            memo: self.memo.clone(),
            ledger: self.ledger,
        }
    }
}

/// Aggregate statistics of the treasury.
#[derive(Clone, Copy, Debug, PartialEq, Eq)]
pub struct TreasuryStats {
    /// Current treasury token balance.
    pub current_balance: i128,
    /// Total tokens deposited over the treasury's lifetime.
    pub lifetime_deposited: i128,
    /// Total tokens withdrawn over the treasury's lifetime.
    pub lifetime_withdrawn: i128,
    /// Total tokens allocated to spending programs.
    pub lifetime_allocated: i128,
}

/// A named spending program with a budget that allocations draw down.
#[derive(Clone, Debug, PartialEq, Eq)]
pub struct SpendingProgram {
    pub program_id: u64,
    pub budget: i128,
    pub spent: i128,
    pub active: bool,
    pub name: String,
}

impl SpendingProgram {
    /// A copy of this program.
    pub fn duplicate(&self) -> (p: Self)
        ensures
            p == *self,
    {
        SpendingProgram {
            program_id: self.program_id,
            budget: self.budget,
            spent: self.spent,
            active: self.active,
            name: self.name.clone(),
        }
    }
}

} // verus!
