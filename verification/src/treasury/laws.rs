//! Properties of the treasury that span its operations.

use vstd::prelude::*;

use super::errors::ContractError;
use super::storage::TreasuryState;
use super::types::{EntryKind, SpendingProgram, TreasuryEntryView, TreasuryStats};
use crate::ledger::LedgerContext;

verus! {

impl TreasuryState {
    /// The books balance: the treasury holds exactly what was deposited less
    /// what was withdrawn or allocated.
    pub open spec fn books_balance(self) -> bool {
        self.balance == self.stats.lifetime_deposited - self.stats.lifetime_withdrawn
            - self.stats.lifetime_allocated
    }

    /// Every spending program has spent no more than its budget.
    pub open spec fn programs_within_budget(self) -> bool {
        forall|id: u64| #[trigger] self.programs.contains_key(id) ==> self.programs[id].spent
            <= self.programs[id].budget
    }

    /// The history holds exactly the entries numbered 1 to `entry_count`.
    pub open spec fn history_complete(self) -> bool {
        forall|id: u64| #[trigger] self.entries.contains_key(id) <==> 1 <= id <= self.entry_count
    }
}

/// A fresh treasury is sound: its books balance, its balance is not
/// negative, its history is complete and no program exceeds its budget.
pub proof fn lemma_fresh_treasury(state: TreasuryState)
    requires
        state.balance == 0,
        state.entry_count == 0,
        state.entries == Map::<u64, TreasuryEntryView>::empty(),
        state.programs == Map::<u64, SpendingProgram>::empty(),
        state.stats == (TreasuryStats {
            current_balance: 0,
            lifetime_deposited: 0,
            lifetime_withdrawn: 0,
            lifetime_allocated: 0,
        }),
    ensures
        state.sound(),
{
}

/// A deposit keeps the books balanced, keeps the balance non-negative and
/// the history complete.
pub proof fn lemma_deposit_keeps_books(state: TreasuryState, ctx: LedgerContext, from: u64, amount: i128)
    requires
        state.books_balance(),
        state.history_complete(),
        state.entry_count < u64::MAX,
        amount > 0,
        state.balance + amount <= i128::MAX,
        state.stats.lifetime_deposited + amount <= i128::MAX,
    ensures
        state.after_deposit(ctx, from, amount).books_balance(),
        state.balance >= 0 ==> state.after_deposit(ctx, from, amount).balance >= 0,
        state.after_deposit(ctx, from, amount).history_complete(),
{
}

/// A withdrawal keeps the books balanced, the balance non-negative and the
/// history complete.
pub proof fn lemma_withdrawal_keeps_books(
    state: TreasuryState,
    ctx: LedgerContext,
    to: u64,
    amount: i128,
    memo: Seq<char>,
)
    requires
        state.books_balance(),
        state.history_complete(),
        state.entry_count < u64::MAX,
        amount > 0,
        state.balance >= amount,
        state.stats.lifetime_withdrawn + amount <= i128::MAX,
    ensures
        state.after_withdrawal(ctx, to, amount, memo).books_balance(),
        state.after_withdrawal(ctx, to, amount, memo).balance >= 0,
        state.after_withdrawal(ctx, to, amount, memo).history_complete(),
{
}

/// An allocation keeps the books balanced, the balance non-negative, the
/// history complete, and every program within its budget.
pub proof fn lemma_allocation_keeps_books(
    state: TreasuryState,
    ctx: LedgerContext,
    program_id: u64,
    amount: i128,
)
    requires
        state.books_balance(),
        state.history_complete(),
        state.programs_within_budget(),
        state.entry_count < u64::MAX,
        state.allocation_error(program_id, amount) is None,
    ensures
        state.after_allocation(ctx, program_id, amount).books_balance(),
        state.after_allocation(ctx, program_id, amount).balance >= 0,
        state.after_allocation(ctx, program_id, amount).history_complete(),
        state.after_allocation(ctx, program_id, amount).programs_within_budget(),
{
    let post = state.after_allocation(ctx, program_id, amount);
    assert forall|id: u64| #[trigger] post.programs.contains_key(id) implies post.programs[id].spent
        <= post.programs[id].budget by {
        if id != program_id {
            assert(state.programs.contains_key(id));
        }
    }
}

/// The history is append-only: a recorded movement gets the next id, and
/// every earlier entry stays as it was.
pub proof fn lemma_history_append_only(state: TreasuryState, entry: TreasuryEntryView, id: u64)
    requires
        state.entry_count < u64::MAX,
        state.entries.contains_key(id),
        state.history_complete(),
    ensures
        state.recorded(entry).entries[id] == state.entries[id],
        state.recorded(entry).entries[(state.entry_count + 1) as u64] == entry,
        state.recorded(entry).entry_count == state.entry_count + 1,
{
}

/// Depositing an amount and then withdrawing the same amount leaves the
/// balance where it was.
pub proof fn lemma_deposit_then_withdraw_restores_balance(
    state: TreasuryState,
    ctx: LedgerContext,
    from: u64,
    to: u64,
    amount: i128,
    memo: Seq<char>,
)
    requires
        amount > 0,
        state.balance + amount <= i128::MAX,
    ensures
        state.after_deposit(ctx, from, amount).after_withdrawal(ctx, to, amount, memo).balance
            == state.balance,
{
}

/// An allocation touches only its own program: every other program is
/// unchanged, and the allocated program's spending grows by the amount.
pub proof fn lemma_allocation_touches_only_program(
    state: TreasuryState,
    ctx: LedgerContext,
    program_id: u64,
    amount: i128,
    other: u64,
)
    requires
        state.allocation_error(program_id, amount) is None,
        other != program_id,
    ensures
        state.after_allocation(ctx, program_id, amount).programs.get(other) == state.programs.get(other),
        state.after_allocation(ctx, program_id, amount).programs[program_id] == (SpendingProgram {
            spent: (state.programs[program_id].spent + amount) as i128,
            ..state.programs[program_id]
        }),
{
}

/// `get_spending_program` after `set_spending_program` returns the program
/// written, and other programs are unaffected.
pub proof fn lemma_program_reads_back(
    state: TreasuryState,
    program_id: u64,
    program: SpendingProgram,
    other: u64,
)
    requires
        other != program_id,
    ensures
        state.with_program(program_id, program).programs.get(program_id) == Some(program),
        state.with_program(program_id, program).programs.get(other) == state.programs.get(other),
{
}


/// One balance-moving call on the treasury, with the ledger it is made in.
pub enum TreasuryCall {
    Deposit { ctx: LedgerContext, from: u64, amount: i128 },
    Withdraw { ctx: LedgerContext, to: u64, amount: i128, memo: Seq<char> },
    Allocate { ctx: LedgerContext, program_id: u64, amount: i128 },
}

impl TreasuryState {
    /// Whether the treasury accepts `call` in this state.
    pub open spec fn accepts(self, call: TreasuryCall) -> bool {
        &&& self.entry_count < u64::MAX
        &&& match call {
            TreasuryCall::Deposit { amount, .. } => self.deposit_error(amount) is None,
            TreasuryCall::Withdraw { amount, .. } => self.withdrawal_error(amount) is None,
            TreasuryCall::Allocate { program_id, amount, .. } => self.allocation_error(
                program_id,
                amount,
            ) is None,
        }
    }

    /// The storage after `call` succeeds.
    pub open spec fn after_call(self, call: TreasuryCall) -> TreasuryState {
        match call {
            TreasuryCall::Deposit { ctx, from, amount } => self.after_deposit(ctx, from, amount),
            TreasuryCall::Withdraw { ctx, to, amount, memo } => self.after_withdrawal(ctx, to, amount, memo),
            TreasuryCall::Allocate { ctx, program_id, amount } => self.after_allocation(ctx, program_id, amount),
        }
    }

    /// The storage after the calls, in order, each applied as it succeeds.
    pub open spec fn apply_all(self, calls: Seq<TreasuryCall>) -> TreasuryState
        decreases calls.len(),
    {
        if calls.len() == 0 {
            self
        } else {
            self.apply_all(calls.drop_last()).after_call(calls.last())
        }
    }

    /// Whether the treasury accepts each of the calls in turn.
    pub open spec fn accepts_all(self, calls: Seq<TreasuryCall>) -> bool
        decreases calls.len(),
    {
        calls.len() == 0 || (self.accepts_all(calls.drop_last()) && self.apply_all(
            calls.drop_last(),
        ).accepts(calls.last()))
    }

    /// The treasury's standing guarantees: balanced books, no negative
    /// balance, a complete history and every program within budget.
    pub open spec fn sound(self) -> bool {
        &&& self.books_balance()
        &&& self.balance >= 0
        &&& self.history_complete()
        &&& self.programs_within_budget()
    }
}

/// Over any history of accepted deposits, withdrawals and allocations from a
/// sound treasury (a fresh one, say), the treasury stays sound; in
/// particular the statistics it reports, whose current balance is the
/// balance, show that balance as deposited less withdrawn less allocated.
pub proof fn lemma_history_keeps_books(state: TreasuryState, calls: Seq<TreasuryCall>)
    requires
        state.sound(),
        state.accepts_all(calls),
    ensures
        state.apply_all(calls).sound(),
        ({
            let post = state.apply_all(calls);
            let stats = TreasuryStats { current_balance: post.balance, ..post.stats };
            stats.current_balance == stats.lifetime_deposited - stats.lifetime_withdrawn
                - stats.lifetime_allocated
        }),
    decreases calls.len(),
{
    if calls.len() > 0 {
        lemma_history_keeps_books(state, calls.drop_last());
        let pre = state.apply_all(calls.drop_last());
        match calls.last() {
            TreasuryCall::Deposit { ctx, from, amount } => {
                lemma_deposit_keeps_books(pre, ctx, from, amount);
                assert(pre.after_deposit(ctx, from, amount).programs == pre.programs);
            },
            TreasuryCall::Withdraw { ctx, to, amount, memo } => {
                lemma_withdrawal_keeps_books(pre, ctx, to, amount, memo);
                assert(pre.after_withdrawal(ctx, to, amount, memo).programs == pre.programs);
            },
            TreasuryCall::Allocate { ctx, program_id, amount } => {
                lemma_allocation_keeps_books(pre, ctx, program_id, amount);
            },
        }
    }
}

/// Any single accepted deposit, withdrawal or allocation keeps balanced
/// books balanced.
pub proof fn lemma_call_keeps_books(state: TreasuryState, call: TreasuryCall)
    requires
        state.books_balance(),
        state.accepts(call),
    ensures
        state.after_call(call).books_balance(),
{
}

/// From any start whose books balance, over any history of accepted
/// deposits, withdrawals and allocations, the books still balance: the
/// statistics the treasury reports show the current balance as deposited
/// less withdrawn less allocated.
pub proof fn lemma_history_keeps_books_balanced(state: TreasuryState, calls: Seq<TreasuryCall>)
    requires
        state.books_balance(),
        state.accepts_all(calls),
    ensures
        state.apply_all(calls).books_balance(),
        ({
            let post = state.apply_all(calls);
            let stats = TreasuryStats { current_balance: post.balance, ..post.stats };
            stats.current_balance == stats.lifetime_deposited - stats.lifetime_withdrawn
                - stats.lifetime_allocated
        }),
    decreases calls.len(),
{
    if calls.len() > 0 {
        lemma_history_keeps_books_balanced(state, calls.drop_last());
        lemma_call_keeps_books(state.apply_all(calls.drop_last()), calls.last());
    }
}

/// A deposit is accepted exactly when the amount is positive and neither the
/// balance nor the lifetime deposits overflow. An accepted deposit adds the
/// amount to the balance and to the lifetime deposits, leaves the other
/// totals, the programs, the council and the token alone, and appends one
/// history entry recording a deposit of exactly that amount by the depositor.
pub proof fn lemma_deposit_behaviour(state: TreasuryState, ctx: LedgerContext, from: u64, amount: i128)
    requires
        state.entry_count < u64::MAX,
    ensures
        amount <= 0 ==> state.deposit_error(amount) == Some(ContractError::InvalidAmount),
        amount > 0 && (state.balance + amount > i128::MAX || state.stats.lifetime_deposited + amount
            > i128::MAX) ==> state.deposit_error(amount) == Some(ContractError::Overflow),
        state.deposit_error(amount) is None <==> (amount > 0 && state.balance + amount <= i128::MAX
            && state.stats.lifetime_deposited + amount <= i128::MAX),
        state.deposit_error(amount) is None ==> ({
            let post = state.after_deposit(ctx, from, amount);
            let id = (state.entry_count + 1) as u64;
            &&& post.balance == state.balance + amount
            &&& post.stats.lifetime_deposited == state.stats.lifetime_deposited + amount
            &&& post.stats.lifetime_withdrawn == state.stats.lifetime_withdrawn
            &&& post.stats.lifetime_allocated == state.stats.lifetime_allocated
            &&& post.programs == state.programs
            &&& post.admin_council == state.admin_council
            &&& post.token_address == state.token_address
            &&& post.entry_count == state.entry_count + 1
            &&& post.entries.contains_key(id)
            &&& post.entries[id].kind == EntryKind::Deposit
            &&& post.entries[id].amount == amount
            &&& post.entries[id].actor == from
            &&& post.entries[id].recipient == None::<u64>
            &&& post.entries[id].memo == "deposit"@
            &&& post.entries[id].ledger == ctx.sequence as u64
            &&& forall|k: u64| k != id ==> post.entries.get(k) == state.entries.get(k)
        }),
{
}

/// A withdrawal is accepted exactly when the amount is positive, the balance
/// covers it (withdrawing the whole balance included) and the lifetime
/// withdrawals do not overflow. An accepted withdrawal takes exactly the
/// amount off the balance (so withdrawing the whole balance leaves 0), adds
/// it to the lifetime withdrawals, leaves everything else alone, and appends
/// one history entry recording a withdrawal of exactly that amount by the
/// treasury to the recipient, with the given memo.
pub proof fn lemma_withdrawal_behaviour(
    state: TreasuryState,
    ctx: LedgerContext,
    to: u64,
    amount: i128,
    memo: Seq<char>,
)
    requires
        state.entry_count < u64::MAX,
    ensures
        amount <= 0 ==> state.withdrawal_error(amount) == Some(ContractError::InvalidAmount),
        amount > 0 && state.balance < amount ==> state.withdrawal_error(amount) == Some(
            ContractError::InsufficientBalance,
        ),
        state.withdrawal_error(amount) is None <==> (0 < amount <= state.balance
            && state.stats.lifetime_withdrawn + amount <= i128::MAX),
        state.withdrawal_error(amount) is None ==> ({
            let post = state.after_withdrawal(ctx, to, amount, memo);
            let id = (state.entry_count + 1) as u64;
            &&& post.balance == state.balance - amount
            &&& (amount == state.balance ==> post.balance == 0)
            &&& post.stats.lifetime_withdrawn == state.stats.lifetime_withdrawn + amount
            &&& post.stats.lifetime_deposited == state.stats.lifetime_deposited
            &&& post.stats.lifetime_allocated == state.stats.lifetime_allocated
            &&& post.programs == state.programs
            &&& post.admin_council == state.admin_council
            &&& post.token_address == state.token_address
            &&& post.entry_count == state.entry_count + 1
            &&& post.entries.contains_key(id)
            &&& post.entries[id].kind == EntryKind::Withdrawal
            &&& post.entries[id].amount == amount
            &&& post.entries[id].actor == ctx.current_contract
            &&& post.entries[id].recipient == Some(to)
            &&& post.entries[id].memo == memo
            &&& post.entries[id].ledger == ctx.sequence as u64
            &&& forall|k: u64| k != id ==> post.entries.get(k) == state.entries.get(k)
        }),
{
}

/// An allocation is accepted exactly when the amount is positive, the
/// program exists and is active, its spending plus the amount stays within
/// its budget, the balance covers the amount and no total overflows; how the
/// budget compares with the balance plays no part. An accepted allocation
/// takes exactly the amount off the balance, adds it to the program's
/// spending and to the lifetime allocations, leaves the program's other
/// fields and every other program alone, and appends one history entry
/// recording an allocation of exactly that amount by the treasury.
pub proof fn lemma_allocation_behaviour(state: TreasuryState, ctx: LedgerContext, program_id: u64, amount: i128)
    requires
        state.entry_count < u64::MAX,
    ensures
        amount <= 0 ==> state.allocation_error(program_id, amount) == Some(ContractError::InvalidAmount),
        amount > 0 && !state.programs.contains_key(program_id) ==> state.allocation_error(program_id, amount)
            == Some(ContractError::ProgramNotFound),
        amount > 0 && state.programs.contains_key(program_id) && !state.programs[program_id].active
            ==> state.allocation_error(program_id, amount) == Some(ContractError::ProgramInactive),
        state.allocation_error(program_id, amount) is None <==> ({
            &&& amount > 0
            &&& state.programs.contains_key(program_id)
            &&& state.programs[program_id].active
            &&& state.programs[program_id].spent + amount <= state.programs[program_id].budget
            &&& state.programs[program_id].spent + amount <= i128::MAX
            &&& amount <= state.balance
            &&& state.stats.lifetime_allocated + amount <= i128::MAX
        }),
        state.allocation_error(program_id, amount) is None ==> ({
            let post = state.after_allocation(ctx, program_id, amount);
            let id = (state.entry_count + 1) as u64;
            let before = state.programs[program_id];
            &&& post.balance == state.balance - amount
            &&& post.stats.lifetime_allocated == state.stats.lifetime_allocated + amount
            &&& post.stats.lifetime_deposited == state.stats.lifetime_deposited
            &&& post.stats.lifetime_withdrawn == state.stats.lifetime_withdrawn
            &&& post.programs.contains_key(program_id)
            &&& post.programs[program_id].spent == before.spent + amount
            &&& post.programs[program_id].budget == before.budget
            &&& post.programs[program_id].active == before.active
            &&& post.programs[program_id].program_id == before.program_id
            &&& post.programs[program_id].name == before.name
            &&& forall|p: u64| p != program_id ==> post.programs.get(p) == state.programs.get(p)
            &&& post.admin_council == state.admin_council
            &&& post.token_address == state.token_address
            &&& post.entry_count == state.entry_count + 1
            &&& post.entries.contains_key(id)
            &&& post.entries[id].kind == EntryKind::Allocation
            &&& post.entries[id].amount == amount
            &&& post.entries[id].actor == ctx.current_contract
            &&& post.entries[id].recipient == None::<u64>
            &&& post.entries[id].memo == "allocation"@
            &&& post.entries[id].ledger == ctx.sequence as u64
            &&& forall|k: u64| k != id ==> post.entries.get(k) == state.entries.get(k)
        }),
{
}

} // verus!
