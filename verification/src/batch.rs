//! Batches: vault transactions that share one proposal and execute in the
//! order in which they were added.

use vstd::prelude::*;
use crate::errors::SmartAccountError;
use crate::keys::Pubkey;
use crate::proposal::{closable, Proposal, ProposalStatus, ProposalView};
use crate::permissions::Permission;
use crate::settings::{holds_permission, stamped, stamping, Settings, SettingsView};
use crate::transaction::{dispatch_for, has_signer, is_order, Dispatch, DispatchOutcome};

verus! {

/// One entry of a batch.
#[derive(Debug)]
pub struct BatchTransaction {
    /// The entry's place in the batch, from zero.
    pub index: u32,
    /// The compiled list of calls, in its serialized form.
    pub message: Vec<u8>,
    /// Whether the entry has been executed.
    pub executed: bool,
    /// Whether the entry's storage has been given back.
    pub closed: bool,
}

/// How many of the entries are not closed.
pub open spec fn open_count(entries: Seq<BatchTransaction>) -> nat
    decreases entries.len(),
{
    if entries.len() == 0 {
        0
    } else {
        open_count(entries.drop_last()) + if entries.last().closed {
            0nat
        } else {
            1nat
        }
    }
}

/// What a batch holds, with its entries as a sequence.
pub struct BatchView {
    pub settings: Pubkey,
    pub creator: Pubkey,
    pub rent_collector: Pubkey,
    pub index: u64,
    pub bump: u8,
    pub account_index: u8,
    pub size: u32,
    pub executed_count: u32,
    pub transactions: Seq<BatchTransaction>,
}

impl BatchView {
    /// The entries are numbered by their place, those before
    /// `executed_count` are the executed ones, and `size` counts the entries
    /// that are not closed.
    pub open spec fn wf(self) -> bool {
        &&& self.transactions.len() <= u32::MAX
        &&& self.executed_count <= self.transactions.len()
        &&& self.size == open_count(self.transactions)
        &&& forall|i: int|
            0 <= i < self.transactions.len() ==> (#[trigger] self.transactions[i]).index == i
                && self.transactions[i].executed == (i < self.executed_count)
    }

    /// The entry at `index` as executed.
    pub open spec fn executed_entry(self, index: int) -> BatchTransaction {
        BatchTransaction { executed: true, ..self.transactions[index] }
    }

    /// The entry at `index` as closed.
    pub open spec fn closed_entry(self, index: int) -> BatchTransaction {
        BatchTransaction { closed: true, ..self.transactions[index] }
    }
}

/// An ordered group of vault transactions under one proposal.
#[derive(Debug)]
pub struct Batch {
    /// The settings this belongs to.
    pub settings: Pubkey,
    /// The signer who created the batch.
    pub creator: Pubkey,
    /// Who gets the storage back when a record is closed.
    pub rent_collector: Pubkey,
    /// The stamp this batch was created under.
    pub index: u64,
    pub bump: u8,
    /// The sub-account in whose name the calls are made.
    pub account_index: u8,
    /// How many entries are not closed.
    pub size: u32,
    /// How many entries have been executed.
    pub executed_count: u32,
    /// Every entry that was added, in order.
    pub transactions: Vec<BatchTransaction>,
}

impl View for Batch {
    type V = BatchView;

    open spec fn view(&self) -> BatchView {
        BatchView {
            settings: self.settings,
            creator: self.creator,
            rent_collector: self.rent_collector,
            index: self.index,
            bump: self.bump,
            account_index: self.account_index,
            size: self.size,
            executed_count: self.executed_count,
            transactions: self.transactions@,
        }
    }
}

/// Changing one entry changes the count of open entries by that entry alone.
pub proof fn lemma_open_count_update(entries: Seq<BatchTransaction>, i: int, e: BatchTransaction)
    requires
        0 <= i < entries.len(),
    ensures
        open_count(entries.update(i, e)) + (if entries[i].closed {
            0nat
        } else {
            1nat
        }) == open_count(entries) + (if e.closed {
            0nat
        } else {
            1nat
        }),
    decreases entries.len(),
{
    let updated = entries.update(i, e);
    if i == entries.len() - 1 {
        assert(updated.drop_last() =~= entries.drop_last());
    } else {
        assert(updated.drop_last() =~= entries.drop_last().update(i, e));
        lemma_open_count_update(entries.drop_last(), i, e);
    }
}

/// What adding an entry comes to: `InvalidState` unless the proposal is a
/// draft or active and no entry has been closed; else `ArithmeticOverflow`
/// if the batch is full; else the batch with the entry at its end, numbered
/// by the size before.
pub open spec fn batch_addition(b: BatchView, p: ProposalView, message: Vec<u8>) -> Result<
    BatchView,
    SmartAccountError,
> {
    if p.status != ProposalStatus::Draft && p.status != ProposalStatus::Active {
        Err(SmartAccountError::InvalidState)
    } else if b.size != b.transactions.len() {
        Err(SmartAccountError::InvalidState)
    } else if b.size == u32::MAX {
        Err(SmartAccountError::ArithmeticOverflow)
    } else {
        Ok(
            BatchView {
                size: (b.size + 1) as u32,
                transactions: b.transactions.push(
                    BatchTransaction { index: b.size, message, executed: false, closed: false },
                ),
                ..b
            },
        )
    }
}

/// Why `executor` may not execute entry `index` of a batch at `now`, if so:
/// stale; else out of order unless it is the entry after the last executed
/// one; else unauthorized unless the executor is a signer who may execute;
/// else the proposal is not approved; else the time lock; else there is no
/// such entry left.
pub open spec fn batch_refusal(
    b: BatchView,
    p: ProposalView,
    s: SettingsView,
    index: u32,
    executor: Pubkey,
    now: i64,
) -> Option<SmartAccountError> {
    if s.is_stale(b.index) {
        Some(SmartAccountError::StaleProposal)
    } else if index != b.executed_count {
        Some(SmartAccountError::OutOfOrderExecution)
    } else if !holds_permission(s.signers, executor, Permission::Execute) {
        Some(SmartAccountError::Unauthorized)
    } else if p.status != ProposalStatus::Approved {
        Some(SmartAccountError::InvalidState)
    } else if !p.time_lock_elapsed(s, now) {
        Some(SmartAccountError::TimeLockNotElapsed)
    } else if index >= b.transactions.len() || b.transactions[index as int].closed {
        Some(SmartAccountError::InvalidState)
    } else {
        None
    }
}

/// What executing entry `index` comes to, once its calls have been tried:
/// refused as `batch_refusal` says; else refused with `ExecutionFailed` if a
/// call failed; else the entry is executed, and with the last entry the
/// proposal is.
pub open spec fn batch_execution(
    b: BatchView,
    p: ProposalView,
    s: SettingsView,
    index: u32,
    executor: Pubkey,
    now: i64,
    outcome: DispatchOutcome,
) -> Result<(BatchView, ProposalView), SmartAccountError> {
    match batch_refusal(b, p, s, index, executor, now) {
        Some(e) => Err(e),
        None => if outcome == DispatchOutcome::Succeeded {
            Ok(
                (
                    BatchView {
                        executed_count: (b.executed_count + 1) as u32,
                        transactions: b.transactions.update(
                            index as int,
                            b.executed_entry(index as int),
                        ),
                        ..b
                    },
                    if b.executed_count + 1 == b.transactions.len() {
                        ProposalView { status: ProposalStatus::Executed, ..p }
                    } else {
                        p
                    },
                ),
            )
        } else {
            Err(SmartAccountError::ExecutionFailed)
        },
    }
}

/// Whether entry `index` may be closed: it is there and open, and it has
/// been executed or the batch's records may be closed.
pub open spec fn entry_closable(b: BatchView, p: ProposalView, s: SettingsView, index: u32) -> bool {
    &&& index < b.transactions.len()
    &&& !b.transactions[index as int].closed
    &&& (b.transactions[index as int].executed || closable(p, s, b.index))
}

/// Whether the batch itself may be closed: no entry is open, and the
/// proposal is rejected, cancelled or executed, or the batch is stale and
/// the proposal not approved.
pub open spec fn batch_closable(b: BatchView, p: ProposalView, s: SettingsView) -> bool {
    b.size == 0 && closable(p, s, b.index)
}

impl Batch {
    /// The batch is well formed: see `BatchView::wf`.
    pub open spec fn wf(&self) -> bool {
        self@.wf()
    }

    /// Whether the batch is well formed.
    pub fn is_well_formed(&self) -> (r: bool)
        ensures
            r == self.wf(),
    {
        let n = self.transactions.len();
        if n > u32::MAX as usize || self.executed_count as usize > n {
            return false;
        }
        let mut open: usize = 0;
        let mut i: usize = 0;
        while i < n
            invariant
                i <= n,
                n == self.transactions@.len(),
                n <= u32::MAX,
                open <= i,
                open == open_count(self.transactions@.take(i as int)),
                forall|j: int|
                    0 <= j < i ==> (#[trigger] self.transactions@[j]).index == j
                        && self.transactions@[j].executed == (j < self.executed_count),
            decreases n - i,
        {
            assert(self.transactions@.take(i + 1).drop_last() =~= self.transactions@.take(
                i as int,
            ));
            let entry = &self.transactions[i];
            if entry.index as usize != i || entry.executed != (i < self.executed_count as usize) {
                return false;
            }
            if !entry.closed {
                open += 1;
            }
            i += 1;
        }
        assert(self.transactions@.take(i as int) =~= self.transactions@);
        self.size as usize == open
    }
}

/// Creates an empty batch that `creator` proposes, and its proposal, a
/// draft: both stamped with the settings' transaction counter, which moves
/// on. `Unauthorized` unless the creator is a signer who may propose; else
/// `ArithmeticOverflow` if the counter is at its end. On an error the
/// settings are as they were.
pub fn create_batch(
    settings: &mut Settings,
    settings_key: Pubkey,
    creator: Pubkey,
    rent_collector: Pubkey,
    bump: u8,
    proposal_bump: u8,
    account_index: u8,
) -> (r: Result<(Batch, Proposal), SmartAccountError>)
    ensures
        match r {
            Ok((batch, proposal)) => {
                &&& stamping(old(settings)@, creator) == Ok::<u64, SmartAccountError>(batch.index)
                &&& batch.wf()
                &&& batch@ == (BatchView {
                    settings: settings_key,
                    creator,
                    rent_collector,
                    index: old(settings).transaction_index,
                    bump,
                    account_index,
                    size: 0,
                    executed_count: 0,
                    transactions: Seq::empty(),
                })
                &&& proposal.wf()
                &&& proposal@ == (ProposalView {
                    settings: settings_key,
                    created_at_index: old(settings).transaction_index,
                    status: ProposalStatus::Draft,
                    approved_at: 0,
                    bump: proposal_bump,
                    approved: Set::empty(),
                    rejected: Set::empty(),
                    cancelled: Set::empty(),
                })
                &&& final(settings)@ == stamped(old(settings)@)
            },
            Err(e) => stamping(old(settings)@, creator) == Err::<u64, SmartAccountError>(e)
                && *final(settings) == *old(settings),
        },
{
    let index = match settings.stamp_transaction(&creator) {
        Ok(index) => index,
        Err(e) => {
            return Err(e);
        },
    };
    let batch = Batch {
        settings: settings_key,
        creator,
        rent_collector,
        index,
        bump,
        account_index,
        size: 0,
        executed_count: 0,
        transactions: Vec::new(),
    };
    let proposal = Proposal::new(settings_key, index, proposal_bump, true);
    Ok((batch, proposal))
}

/// Adds an entry at the end of a batch and gives its number. On an error
/// the batch is as it was.
pub fn add_transaction_to_batch(batch: &mut Batch, proposal: &Proposal, message: Vec<u8>) -> (r:
    Result<u32, SmartAccountError>)
    requires
        old(batch).wf(),
    ensures
        final(batch).wf(),
        match r {
            Ok(index) => batch_addition(old(batch)@, proposal@, message) == Ok::<
                BatchView,
                SmartAccountError,
            >(final(batch)@) && index == old(batch).size,
            Err(e) => batch_addition(old(batch)@, proposal@, message) == Err::<
                BatchView,
                SmartAccountError,
            >(e) && *final(batch) == *old(batch),
        },
{
    if proposal.status != ProposalStatus::Draft && proposal.status != ProposalStatus::Active {
        return Err(SmartAccountError::InvalidState);
    }
    if batch.size as usize != batch.transactions.len() {
        return Err(SmartAccountError::InvalidState);
    }
    if batch.size == u32::MAX {
        return Err(SmartAccountError::ArithmeticOverflow);
    }
    let index = batch.size;
    batch.transactions.push(BatchTransaction { index, message, executed: false, closed: false });
    batch.size = index + 1;
    proof {
        assert(batch.transactions@.drop_last() =~= old(batch).transactions@);
    }
    Ok(index)
}

/// The order to make the calls of entry `index`, if `executor` may execute
/// it at `now`; else the error that executing it would give, or `InvalidAccount`
/// if the sub-account has no identity to sign with.
pub fn batch_transaction_dispatch(
    settings: &Settings,
    proposal: &Proposal,
    batch: &Batch,
    index: u32,
    executor: &Pubkey,
    now: i64,
    program_id: &Pubkey,
) -> (r: Result<Dispatch, SmartAccountError>)
    ensures
        match r {
            Ok(order) => {
                &&& batch_refusal(batch@, proposal@, settings@, index, *executor, now) is None
                &&& is_order(
                    order,
                    batch.settings,
                    batch.account_index,
                    *program_id,
                    batch.transactions@[index as int].message@,
                )
            },
            Err(e) => match batch_refusal(batch@, proposal@, settings@, index, *executor, now) {
                Some(refusal) => e == refusal,
                None => e == SmartAccountError::InvalidAccount && !has_signer(
                    batch.settings,
                    batch.account_index,
                    *program_id,
                ),
            },
        },
{
    match check_entry(settings, proposal, batch, index, executor, now) {
        Err(e) => Err(e),
        Ok(()) => dispatch_for(
            batch.settings,
            batch.account_index,
            &batch.transactions[index as usize].message,
            program_id,
        ),
    }
}

fn check_entry(
    settings: &Settings,
    proposal: &Proposal,
    batch: &Batch,
    index: u32,
    executor: &Pubkey,
    now: i64,
) -> (r: Result<(), SmartAccountError>)
    ensures
        match r {
            Ok(()) => batch_refusal(batch@, proposal@, settings@, index, *executor, now) is None,
            Err(e) => batch_refusal(batch@, proposal@, settings@, index, *executor, now) == Some(e),
        },
{
    if settings.is_stale(batch.index) {
        return Err(SmartAccountError::StaleProposal);
    }
    if index != batch.executed_count {
        return Err(SmartAccountError::OutOfOrderExecution);
    }
    if !settings.signer_has_permission(executor, Permission::Execute) {
        return Err(SmartAccountError::Unauthorized);
    }
    if proposal.status != ProposalStatus::Approved {
        return Err(SmartAccountError::InvalidState);
    }
    if (now as i128) < proposal.approved_at as i128 + settings.time_lock as i128 {
        return Err(SmartAccountError::TimeLockNotElapsed);
    }
    if index as usize >= batch.transactions.len() || batch.transactions[index as usize].closed {
        return Err(SmartAccountError::InvalidState);
    }
    Ok(())
}

/// Executes entry `index` of a batch, whose calls have been tried with
/// `outcome`. On an error batch and proposal are as they were. Failed calls
/// are such an error, `ExecutionFailed`: the entry stays the next to
/// execute.
pub fn execute_batch_transaction(
    settings: &Settings,
    proposal: &mut Proposal,
    batch: &mut Batch,
    index: u32,
    executor: &Pubkey,
    now: i64,
    outcome: DispatchOutcome,
) -> (r: Result<(), SmartAccountError>)
    requires
        old(batch).wf(),
    ensures
        final(batch).wf(),
        old(proposal).wf() ==> final(proposal).wf(),
        match r {
            Ok(()) => batch_execution(
                old(batch)@,
                old(proposal)@,
                settings@,
                index,
                *executor,
                now,
                outcome,
            ) == Ok::<(BatchView, ProposalView), SmartAccountError>(
                (final(batch)@, final(proposal)@),
            ),
            Err(e) => batch_execution(
                old(batch)@,
                old(proposal)@,
                settings@,
                index,
                *executor,
                now,
                outcome,
            ) == Err::<(BatchView, ProposalView), SmartAccountError>(e) && *final(batch) == *old(
                batch,
            ) && *final(proposal) == *old(proposal),
        },
{
    match check_entry(settings, proposal, batch, index, executor, now) {
        Err(e) => {
            return Err(e);
        },
        Ok(()) => {},
    }
    if outcome == DispatchOutcome::Failed {
        return Err(SmartAccountError::ExecutionFailed);
    }
    let at = index as usize;
    let mut entry = batch.transactions.remove(at);
    entry.executed = true;
    batch.transactions.insert(at, entry);
    batch.executed_count = index + 1;
    proof {
        let before = old(batch).transactions@;
        assert(batch.transactions@ =~= before.update(
            index as int,
            old(batch)@.executed_entry(index as int),
        ));
        lemma_open_count_update(before, index as int, old(batch)@.executed_entry(index as int));
    }
    if batch.executed_count as usize == batch.transactions.len() {
        proposal.status = ProposalStatus::Executed;
    }
    Ok(())
}

/// Closes entry `index` of a batch: gives the key that its storage goes back
/// to. `InvalidState`, with the batch unchanged, unless the entry may be
/// closed.
pub fn close_batch_transaction(
    settings: &Settings,
    proposal: &Proposal,
    batch: &mut Batch,
    index: u32,
) -> (r: Result<Pubkey, SmartAccountError>)
    requires
        old(batch).wf(),
    ensures
        final(batch).wf(),
        match r {
            Ok(collector) => {
                &&& entry_closable(old(batch)@, proposal@, settings@, index)
                &&& collector == old(batch).rent_collector
                &&& final(batch)@ == (BatchView {
                    size: (old(batch).size - 1) as u32,
                    transactions: old(batch).transactions@.update(
                        index as int,
                        old(batch)@.closed_entry(index as int),
                    ),
                    ..old(batch)@
                })
            },
            Err(e) => e == SmartAccountError::InvalidState && !entry_closable(
                old(batch)@,
                proposal@,
                settings@,
                index,
            ) && *final(batch) == *old(batch),
        },
{
    let at = index as usize;
    if at >= batch.transactions.len() || batch.transactions[at].closed {
        return Err(SmartAccountError::InvalidState);
    }
    if !batch.transactions[at].executed && !proposal.may_close(settings, batch.index) {
        return Err(SmartAccountError::InvalidState);
    }
    proof {
        let before = batch.transactions@;
        lemma_open_count_update(before, index as int, batch@.closed_entry(index as int));
    }
    let mut entry = batch.transactions.remove(at);
    entry.closed = true;
    batch.transactions.insert(at, entry);
    batch.size = batch.size - 1;
    proof {
        assert(batch.transactions@ =~= old(batch).transactions@.update(
            index as int,
            old(batch)@.closed_entry(index as int),
        ));
    }
    Ok(batch.rent_collector)
}

/// Closes a batch and its proposal: gives the key that the storage goes back
/// to. `InvalidState` unless every entry has been closed and the batch's
/// records may be closed.
pub fn close_batch(settings: &Settings, proposal: &Proposal, batch: &Batch) -> (r: Result<
    Pubkey,
    SmartAccountError,
>)
    ensures
        match r {
            Ok(collector) => batch_closable(batch@, proposal@, settings@) && collector
                == batch.rent_collector,
            Err(e) => e == SmartAccountError::InvalidState && !batch_closable(
                batch@,
                proposal@,
                settings@,
            ),
        },
{
    if batch.size == 0 && proposal.may_close(settings, batch.index) {
        Ok(batch.rent_collector)
    } else {
        Err(SmartAccountError::InvalidState)
    }
}

/// An entry other than the one after the last executed entry is never
/// executed; unless the batch is stale, the refusal is
/// `OutOfOrderExecution`.
pub proof fn lemma_out_of_order(
    b: BatchView,
    p: ProposalView,
    s: SettingsView,
    index: u32,
    executor: Pubkey,
    now: i64,
    outcome: DispatchOutcome,
)
    requires
        index != b.executed_count,
    ensures
        batch_execution(b, p, s, index, executor, now, outcome) is Err,
        !s.is_stale(b.index) ==> batch_execution(b, p, s, index, executor, now, outcome) == Err::<
            (BatchView, ProposalView),
            SmartAccountError,
        >(SmartAccountError::OutOfOrderExecution),
{
}

/// Executing an entry of a batch that was created before the settings last
/// changed is refused as stale, even if its proposal is approved.
pub proof fn lemma_stale_batch(
    b: BatchView,
    p: ProposalView,
    s: SettingsView,
    index: u32,
    executor: Pubkey,
    now: i64,
    outcome: DispatchOutcome,
)
    requires
        s.is_stale(b.index),
    ensures
        batch_execution(b, p, s, index, executor, now, outcome) == Err::<
            (BatchView, ProposalView),
            SmartAccountError,
        >(SmartAccountError::StaleProposal),
{
}

/// The proposal of a batch is executed with the last entry and not before:
/// an execution that went through leaves it executed exactly if no entry is
/// left to execute.
pub proof fn lemma_batch_completes(
    b: BatchView,
    p: ProposalView,
    s: SettingsView,
    index: u32,
    executor: Pubkey,
    now: i64,
    after: BatchView,
    q: ProposalView,
)
    requires
        b.wf(),
        batch_execution(b, p, s, index, executor, now, DispatchOutcome::Succeeded) == Ok::<
            (BatchView, ProposalView),
            SmartAccountError,
        >((after, q)),
    ensures
        after.executed_count == b.executed_count + 1,
        after.transactions[index as int].executed,
        q.status == ProposalStatus::Executed <==> after.executed_count == after.transactions.len(),
        q.status == ProposalStatus::Executed || q.status == ProposalStatus::Approved,
{
}

/// An entry of a batch is executed at most once: once its calls have gone
/// through, executing it again is refused.
pub proof fn lemma_entry_once(
    b: BatchView,
    p: ProposalView,
    s: SettingsView,
    index: u32,
    executor: Pubkey,
    now: i64,
    after: BatchView,
    q: ProposalView,
    later_settings: SettingsView,
    later_executor: Pubkey,
    later: i64,
    outcome: DispatchOutcome,
)
    requires
        b.wf(),
        batch_execution(b, p, s, index, executor, now, DispatchOutcome::Succeeded) == Ok::<
            (BatchView, ProposalView),
            SmartAccountError,
        >((after, q)),
    ensures
        batch_execution(after, q, later_settings, index, later_executor, later, outcome) is Err,
{
}

/// Failed calls fail the execution of an entry and nothing else: where
/// nothing else refuses, it is refused with `ExecutionFailed`, and the same
/// execution with calls that go through is admitted.
pub proof fn lemma_failed_entry(
    b: BatchView,
    p: ProposalView,
    s: SettingsView,
    index: u32,
    executor: Pubkey,
    now: i64,
)
    requires
        batch_refusal(b, p, s, index, executor, now) is None,
    ensures
        batch_execution(b, p, s, index, executor, now, DispatchOutcome::Failed) == Err::<
            (BatchView, ProposalView),
            SmartAccountError,
        >(SmartAccountError::ExecutionFailed),
        batch_execution(b, p, s, index, executor, now, DispatchOutcome::Succeeded) is Ok,
        index == b.executed_count,
        p.status == ProposalStatus::Approved,
{
}

/// Execution of an entry with failed calls is never a success.
pub proof fn lemma_failed_entry_refused(
    b: BatchView,
    p: ProposalView,
    s: SettingsView,
    index: u32,
    executor: Pubkey,
    now: i64,
)
    ensures
        batch_execution(b, p, s, index, executor, now, DispatchOutcome::Failed) is Err,
{
}

} // verus!
