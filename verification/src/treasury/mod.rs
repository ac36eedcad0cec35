//! The protocol treasury: holds protocol funds, takes deposits, pays out
//! council-authorized withdrawals, allocates budget to spending programs, and
//! records every movement in an on-chain history.

pub mod errors;
pub mod laws;
pub mod storage;
pub mod types;

use vstd::prelude::*;

use self::errors::ContractError;
use self::storage::TreasuryState;
use self::types::{AdminCouncil, EntryKind, SpendingProgram, TreasuryEntry, TreasuryEntryView, TreasuryStats};
use crate::council::{signer_count, AdminCouncilView, CouncilApproval};
use crate::ledger::{LedgerContext, Transfer};

pub use self::storage::TreasuryContract;

verus! {

impl TreasuryState {
    /// The storage after `entry` is appended to the history.
    pub open spec fn recorded(self, entry: TreasuryEntryView) -> TreasuryState {
        TreasuryState {
            entry_count: (self.entry_count + 1) as u64,
            entries: self.entries.insert((self.entry_count + 1) as u64, entry),
            ..self
        }
    }

    /// The storage after a successful deposit of `amount` by `from`.
    pub open spec fn after_deposit(self, ctx: LedgerContext, from: u64, amount: i128) -> TreasuryState {
        TreasuryState {
            balance: (self.balance + amount) as i128,
            stats: TreasuryStats {
                lifetime_deposited: (self.stats.lifetime_deposited + amount) as i128,
                ..self.stats
            },
            ..self
        }.recorded(
            TreasuryEntryView {
                kind: EntryKind::Deposit,
                amount,
                actor: from,
                recipient: None,
                memo: "deposit"@,
                ledger: ctx.sequence as u64,
            },
        )
    }

    /// The storage after a successful withdrawal of `amount` to `to`.
    pub open spec fn after_withdrawal(
        self,
        ctx: LedgerContext,
        to: u64,
        amount: i128,
        memo: Seq<char>,
    ) -> TreasuryState {
        TreasuryState {
            balance: (self.balance - amount) as i128,
            stats: TreasuryStats {
                lifetime_withdrawn: (self.stats.lifetime_withdrawn + amount) as i128,
                ..self.stats
            },
            ..self
        }.recorded(
            TreasuryEntryView {
                kind: EntryKind::Withdrawal,
                amount,
                actor: ctx.current_contract,
                recipient: Some(to),
                memo,
                ledger: ctx.sequence as u64,
            },
        )
    }

    /// The storage after a successful allocation of `amount` to program `program_id`.
    pub open spec fn after_allocation(self, ctx: LedgerContext, program_id: u64, amount: i128) -> TreasuryState {
        let program = self.programs[program_id];
        TreasuryState {
            balance: (self.balance - amount) as i128,
            programs: self.programs.insert(
                program_id,
                SpendingProgram { spent: (program.spent + amount) as i128, ..program },
            ),
            stats: TreasuryStats {
                lifetime_allocated: (self.stats.lifetime_allocated + amount) as i128,
                ..self.stats
            },
            ..self
        }.recorded(
            TreasuryEntryView {
                kind: EntryKind::Allocation,
                amount,
                actor: ctx.current_contract,
                recipient: None,
                memo: "allocation"@,
                ledger: ctx.sequence as u64,
            },
        )
    }

    /// The error a deposit of `amount` is refused with, if any.
    pub open spec fn deposit_error(self, amount: i128) -> Option<ContractError> {
        if amount <= 0 {
            Some(ContractError::InvalidAmount)
        } else if self.balance + amount > i128::MAX || self.stats.lifetime_deposited + amount > i128::MAX {
            Some(ContractError::Overflow)
        } else {
            None
        }
    }

    /// The error a withdrawal of `amount` is refused with, if any, in the
    /// order in which the treasury checks.
    pub open spec fn withdrawal_error(self, amount: i128) -> Option<ContractError> {
        if amount <= 0 {
            Some(ContractError::InvalidAmount)
        } else if self.balance < amount {
            Some(ContractError::InsufficientBalance)
        } else if self.stats.lifetime_withdrawn + amount > i128::MAX {
            Some(ContractError::Overflow)
        } else {
            None
        }
    }

    /// The error an allocation of `amount` to `program_id` is refused with, if any,
    /// in the order in which the treasury checks.
    pub open spec fn allocation_error(self, program_id: u64, amount: i128) -> Option<ContractError> {
        let program = self.programs[program_id];
        if amount <= 0 {
            Some(ContractError::InvalidAmount)
        } else if !self.programs.contains_key(program_id) {
            Some(ContractError::ProgramNotFound)
        } else if !program.active {
            Some(ContractError::ProgramInactive)
        } else if program.spent + amount > i128::MAX {
            Some(ContractError::Overflow)
        } else if program.spent + amount > program.budget {
            Some(ContractError::ProgramOverBudget)
        } else if self.balance < amount {
            Some(ContractError::InsufficientBalance)
        } else if self.stats.lifetime_allocated + amount > i128::MAX {
            Some(ContractError::Overflow)
        } else {
            None
        }
    }
}

impl TreasuryContract {
    /// Which council members a council-gated call asks to authorize, in
    /// order, and whether their approvals suffice (see
    /// `AdminCouncil::required_signers`); the council must be set.
    pub fn council_signers(&self) -> (r: CouncilApproval)
        requires
            self@.admin_council is Some,
        ensures
            r.signers@ == self@.admin_council.unwrap().members.take(
                signer_count(
                    self@.admin_council.unwrap().members.len() as int,
                    self@.admin_council.unwrap().threshold,
                ),
            ),
            r.sufficient <==> self@.admin_council.unwrap().members.len()
                >= self@.admin_council.unwrap().threshold,
            !r.sufficient ==> r.signers@ == self@.admin_council.unwrap().members,
    {
        let council = storage::get_admin_council(self);
        council.required_signers()
    }

    /// Returns the current treasury token balance; 0 if never set.
    pub fn get_balance(&self) -> (r: i128)
        ensures
            r == self@.balance,
    {
        storage::get_balance(self)
    }

    /// Returns a specific history entry by its ID.
    ///
    /// # Errors
    /// - `ContractError::ProgramNotFound` when no entry has this ID.
    pub fn get_history(&self, entry_id: u64) -> (r: Result<TreasuryEntry, ContractError>)
        ensures
            match r {
                Ok(e) => self@.entries.contains_key(entry_id) && e@ == self@.entries[entry_id],
                Err(err) => !self@.entries.contains_key(entry_id) && err == ContractError::ProgramNotFound,
            },
    {
        match storage::get_entry(self, entry_id) {
            Some(e) => Ok(e),
            None => Err(ContractError::ProgramNotFound),
        }
    }

    /// One-time setup: the council becomes `admin` alone, the token address is
    /// stored and the balance set to 0. First caller wins; no auth required.
    ///
    /// # Errors
    /// - `ContractError::AlreadyInitialized` if the council is already set.
    pub fn initialize(&mut self, admin: u64, token_address: u64) -> (r: Result<(), ContractError>)
        ensures
            old(self)@.admin_council is Some ==> r == Err::<(), ContractError>(
                ContractError::AlreadyInitialized,
            ) && final(self)@ == old(self)@,
            old(self)@.admin_council is None ==> r is Ok && final(self)@ == (TreasuryState {
                admin_council: Some(AdminCouncilView { members: seq![admin], threshold: 1 }),
                token_address: Some(token_address),
                balance: 0,
                ..old(self)@
            }),
    {
        if storage::has_admin_council(self) {
            return Err(ContractError::AlreadyInitialized);
        }
        let council = AdminCouncil::single(admin);
        storage::set_admin_council(self, &council);
        storage::set_token_address(self, token_address);
        storage::set_balance(self, 0);
        Ok(())
    }

    /// Deposit funds into the protocol treasury; the returned transfer moves
    /// `amount` tokens from `from` to the treasury.
    ///
    /// # Errors
    /// - `ContractError::InvalidAmount` if `amount` is zero or negative.
    /// - `ContractError::Overflow` if the balance or the lifetime total overflows.
    pub fn deposit(&mut self, ctx: &LedgerContext, from: u64, amount: i128) -> (r: Result<
        Transfer,
        ContractError,
    >)
        requires
            old(self)@.entry_count < u64::MAX,
        ensures
            match old(self)@.deposit_error(amount) {
                Some(e) => r == Err::<Transfer, ContractError>(e) && final(self)@ == old(self)@,
                None => r == Ok::<Transfer, ContractError>(
                    Transfer { from, to: ctx.current_contract, amount },
                ) && final(self)@ == old(self)@.after_deposit(*ctx, from, amount),
            },
    {
        if amount <= 0 {
            return Err(ContractError::InvalidAmount);
        }
        let balance = storage::get_balance(self);
        let new_balance = match balance.checked_add(amount) {
            Some(v) => v,
            None => return Err(ContractError::Overflow),
        };
        let mut stats = storage::get_stats(self);
        let deposited = match stats.lifetime_deposited.checked_add(amount) {
            Some(v) => v,
            None => return Err(ContractError::Overflow),
        };
        storage::set_balance(self, new_balance);
        stats.lifetime_deposited = deposited;
        storage::set_stats(self, &stats);

        let entry = TreasuryEntry {
            kind: EntryKind::Deposit,
            amount,
            actor: from,
            recipient: None,
            memo: "deposit".to_owned(),
            ledger: ctx.sequence as u64,
        };
        storage::set_entry(self, entry);
        Ok(Transfer { from, to: ctx.current_contract, amount })
    }

    /// Withdraw funds from the protocol treasury (council only; the council's
    /// authorization is obtained beforehand, see `council_signers`); the
    /// returned transfer moves `amount` tokens from the treasury to `to`.
    ///
    /// # Errors
    /// - `ContractError::InvalidAmount` if `amount` is zero or negative.
    /// - `ContractError::InsufficientBalance` if treasury balance is too low.
    /// - `ContractError::Overflow` if the lifetime total overflows.
    pub fn withdraw(
        &mut self,
        ctx: &LedgerContext,
        to: u64,
        amount: i128,
        memo: String,
    ) -> (r: Result<Transfer, ContractError>)
        requires
            old(self)@.entry_count < u64::MAX,
            old(self)@.admin_council is Some,
        ensures
            match old(self)@.withdrawal_error(amount) {
                Some(e) => r == Err::<Transfer, ContractError>(e) && final(self)@ == old(self)@,
                None => r == Ok::<Transfer, ContractError>(
                    Transfer { from: ctx.current_contract, to, amount },
                ) && final(self)@ == old(self)@.after_withdrawal(*ctx, to, amount, memo@),
            },
    {
        if amount <= 0 {
            return Err(ContractError::InvalidAmount);
        }
        let balance = storage::get_balance(self);
        if balance < amount {
            return Err(ContractError::InsufficientBalance);
        }
        let new_balance = balance - amount;
        let mut stats = storage::get_stats(self);
        let withdrawn = match stats.lifetime_withdrawn.checked_add(amount) {
            Some(v) => v,
            None => return Err(ContractError::Overflow),
        };
        storage::set_balance(self, new_balance);
        stats.lifetime_withdrawn = withdrawn;
        storage::set_stats(self, &stats);

        let entry = TreasuryEntry {
            kind: EntryKind::Withdrawal,
            amount,
            actor: ctx.current_contract,
            recipient: Some(to),
            memo,
            ledger: ctx.sequence as u64,
        };
        storage::set_entry(self, entry);
        Ok(Transfer { from: ctx.current_contract, to, amount })
    }

    /// Allocate treasury funds to a spending program (council only; the
    /// council's authorization is obtained beforehand): the program's spent
    /// total grows and the treasury balance shrinks by `amount`.
    ///
    /// # Errors
    /// - `ContractError::InvalidAmount` if `amount` is zero or negative.
    /// - `ContractError::ProgramNotFound` if the program does not exist.
    /// - `ContractError::ProgramInactive` if the program is not active.
    /// - `ContractError::ProgramOverBudget` if the allocation exceeds budget.
    /// - `ContractError::InsufficientBalance` if treasury balance is too low.
    /// - `ContractError::Overflow` if arithmetic overflows.
    pub fn allocate(&mut self, ctx: &LedgerContext, program_id: u64, amount: i128) -> (r: Result<
        (),
        ContractError,
    >)
        requires
            old(self)@.admin_council is Some,
            old(self)@.entry_count < u64::MAX,
        ensures
            match old(self)@.allocation_error(program_id, amount) {
                Some(e) => r == Err::<(), ContractError>(e) && final(self)@ == old(self)@,
                None => r is Ok && final(self)@ == old(self)@.after_allocation(*ctx, program_id, amount),
            },
    {
        if amount <= 0 {
            return Err(ContractError::InvalidAmount);
        }
        let mut program = match storage::get_spending_program(self, program_id) {
            Some(p) => p,
            None => return Err(ContractError::ProgramNotFound),
        };
        if !program.active {
            return Err(ContractError::ProgramInactive);
        }
        let new_spent = match program.spent.checked_add(amount) {
            Some(v) => v,
            None => return Err(ContractError::Overflow),
        };
        if new_spent > program.budget {
            return Err(ContractError::ProgramOverBudget);
        }
        let balance = storage::get_balance(self);
        if balance < amount {
            return Err(ContractError::InsufficientBalance);
        }
        let mut stats = storage::get_stats(self);
        let allocated = match stats.lifetime_allocated.checked_add(amount) {
            Some(v) => v,
            None => return Err(ContractError::Overflow),
        };

        program.spent = new_spent;
        storage::set_spending_program(self, program_id, program);
        storage::set_balance(self, balance - amount);
        stats.lifetime_allocated = allocated;
        storage::set_stats(self, &stats);

        let entry = TreasuryEntry {
            kind: EntryKind::Allocation,
            amount,
            actor: ctx.current_contract,
            recipient: None,
            memo: "allocation".to_owned(),
            ledger: ctx.sequence as u64,
        };
        storage::set_entry(self, entry);
        Ok(())
    }

    /// Returns aggregate statistics: the lifetime totals, with the current
    /// balance read fresh.
    pub fn get_treasury_stats(&self) -> (r: TreasuryStats)
        ensures
            r == (TreasuryStats { current_balance: self@.balance, ..self@.stats }),
    {
        let mut stats = storage::get_stats(self);
        stats.current_balance = storage::get_balance(self);
        stats
    }
}

} // verus!
