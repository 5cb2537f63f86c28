//! Vault transactions: calls that a smart account makes in its own name.

use vstd::prelude::*;
use crate::addresses::{program_address, vault_seeds, vault_signer};
use crate::copying::copy_of;
use crate::errors::SmartAccountError;
use crate::keys::Pubkey;
use crate::proposal::{
    admits,
    closable,
    execution_refusal,
    Proposal,
    ProposalStatus,
    ProposalView,
    Vote,
};
use crate::permissions::Permission;
use crate::settings::{holds_permission, stamped, stamping, Settings, SettingsView};
use crate::transaction_buffer::{RefusedBuffer, TransactionBuffer};

verus! {

/// The stored form of a proposed list of calls.
#[derive(Debug)]
pub struct Transaction {
    /// The settings this belongs to.
    pub settings: Pubkey,
    /// The signer who submitted the transaction.
    pub creator: Pubkey,
    /// Who gets the storage back when the record is closed.
    pub rent_collector: Pubkey,
    /// The stamp this transaction was created under.
    pub index: u64,
    pub bump: u8,
    /// The sub-account in whose name the calls are made.
    pub account_index: u8,
    /// The compiled list of calls, in its serialized form.
    pub message: Vec<u8>,
}

/// What the creator of a vault transaction hands in.
#[derive(Debug)]
pub struct CreateTransactionArgs {
    /// The sub-account in whose name the calls are made.
    pub account_index: u8,
    /// The compiled list of calls, in its serialized form.
    pub transaction_message: Vec<u8>,
}

/// An order to whoever makes the calls: make these, all or none, signing as
/// the sub-account `account_index` of `settings`.
#[derive(Debug, PartialEq, Eq)]
pub struct Dispatch {
    /// The settings whose sub-account signs.
    pub settings: Pubkey,
    /// The sub-account that signs.
    pub account_index: u8,
    /// The identity under which the sub-account signs: the address that
    /// settings and sub-account derive.
    pub signer: Pubkey,
    /// The bump of that address.
    pub signer_bump: u8,
    /// The compiled list of calls, in its serialized form.
    pub message: Vec<u8>,
}

/// Whether the sub-account has an identity to sign with under the program.
pub open spec fn has_signer(settings: Pubkey, account_index: u8, program_id: Pubkey) -> bool {
    program_address(vault_seeds(settings, account_index), program_id.bytes@) is Some
}

/// Whether `order` is the order to make the calls `message` in the name of
/// sub-account `account_index` of `settings`: it names them, and its signer
/// is the address that settings and sub-account derive under the program.
pub open spec fn is_order(
    order: Dispatch,
    settings: Pubkey,
    account_index: u8,
    program_id: Pubkey,
    message: Seq<u8>,
) -> bool {
    &&& order.settings == settings
    &&& order.account_index == account_index
    &&& order.message@ == message
    &&& program_address(vault_seeds(settings, account_index), program_id.bytes@) == Some(
        (order.signer.bytes@, order.signer_bump),
    )
}

/// How the calls of a dispatch went.
#[derive(Clone, Copy, Debug, PartialEq, Eq, Structural)]
pub enum DispatchOutcome {
    /// Every call went through.
    Succeeded,
    /// A call failed, and none took effect.
    Failed,
}

/// What executing a vault transaction comes to, once its calls have been
/// tried: refused as the proposal, the executor's permission and the clock
/// say; else refused with `ExecutionFailed` if a call failed; else the
/// proposal is executed.
pub open spec fn vault_execution(
    s: SettingsView,
    p: ProposalView,
    index: u64,
    executor: Pubkey,
    now: i64,
    outcome: DispatchOutcome,
) -> Result<ProposalView, SmartAccountError> {
    match execution_refusal(p, s, index, executor, now) {
        Some(e) => Err(e),
        None => if outcome == DispatchOutcome::Succeeded {
            Ok(ProposalView { status: ProposalStatus::Executed, ..p })
        } else {
            Err(SmartAccountError::ExecutionFailed)
        },
    }
}

/// The order to make the calls `message` as sub-account `account_index`,
/// given the identity that was derived for it. `InvalidAccount` if there is
/// none.
pub fn dispatch_with(
    settings: Pubkey,
    account_index: u8,
    message: &Vec<u8>,
    signer: Option<(Pubkey, u8)>,
) -> (r: Result<Dispatch, SmartAccountError>)
    ensures
        match r {
            Ok(order) => {
                &&& signer == Some((order.signer, order.signer_bump))
                &&& order.settings == settings
                &&& order.account_index == account_index
                &&& order.message@ == message@
            },
            Err(e) => e == SmartAccountError::InvalidAccount && signer is None,
        },
{
    match signer {
        Some((signer, signer_bump)) => Ok(
            Dispatch { settings, account_index, signer, signer_bump, message: copy_of(message.as_slice()) },
        ),
        None => Err(SmartAccountError::InvalidAccount),
    }
}

/// The order to make the calls `message` as sub-account `account_index`,
/// signing with the identity that settings and sub-account derive under the
/// program. `InvalidAccount` if they derive none.
pub fn dispatch_for(settings: Pubkey, account_index: u8, message: &Vec<u8>, program_id: &Pubkey) -> (r:
    Result<Dispatch, SmartAccountError>)
    ensures
        match r {
            Ok(order) => is_order(order, settings, account_index, *program_id, message@),
            Err(e) => e == SmartAccountError::InvalidAccount && !has_signer(
                settings,
                account_index,
                *program_id,
            ),
        },
{
    let signer = vault_signer(&settings, account_index, program_id);
    dispatch_with(settings, account_index, message, signer)
}

/// Creates a vault transaction that `creator` proposes: stamps it with the
/// settings' transaction counter, which moves on, and stores the payload as
/// it is. `Unauthorized` unless the creator is a signer who may propose; else
/// `ArithmeticOverflow` if the counter is at its end. On an error the
/// settings are as they were.
pub fn create_transaction(
    settings: &mut Settings,
    settings_key: Pubkey,
    creator: Pubkey,
    rent_collector: Pubkey,
    bump: u8,
    args: CreateTransactionArgs,
) -> (r: Result<Transaction, SmartAccountError>)
    ensures
        match r {
            Ok(transaction) => {
                &&& stamping(old(settings)@, creator) == Ok::<u64, SmartAccountError>(
                    transaction.index,
                )
                &&& transaction.settings == settings_key
                &&& transaction.creator == creator
                &&& transaction.rent_collector == rent_collector
                &&& transaction.bump == bump
                &&& transaction.account_index == args.account_index
                &&& transaction.message == args.transaction_message
                &&& final(settings)@ == stamped(old(settings)@)
            },
            Err(e) => stamping(old(settings)@, creator) == Err::<u64, SmartAccountError>(e)
                && *final(settings) == *old(settings),
        },
{
    match settings.stamp_transaction(&creator) {
        Ok(index) => Ok(
            Transaction {
                settings: settings_key,
                creator,
                rent_collector,
                index,
                bump,
                account_index: args.account_index,
                message: args.transaction_message,
            },
        ),
        Err(e) => Err(e),
    }
}

/// What creating a vault transaction from a buffer comes to, given the
/// digest of the staged bytes: `Unauthorized` unless the caller created the
/// buffer and is a signer who may propose; else `BufferHashMismatch` unless
/// the digest is the one announced; else `ArithmeticOverflow` if the
/// transaction counter is at its end; else the stamp of the new transaction.
pub open spec fn from_buffer_result(
    s: SettingsView,
    buffer: TransactionBuffer,
    caller: Pubkey,
    computed: Seq<u8>,
) -> Result<u64, SmartAccountError> {
    if caller != buffer.creator || !holds_permission(s.signers, caller, Permission::Initiate) {
        Err(SmartAccountError::Unauthorized)
    } else if computed != buffer.final_buffer_hash@ {
        Err(SmartAccountError::BufferHashMismatch)
    } else if s.transaction_index == u64::MAX {
        Err(SmartAccountError::ArithmeticOverflow)
    } else {
        Ok(s.transaction_index)
    }
}

/// Creates a vault transaction whose payload is the bytes staged in a
/// buffer, given the digest of those bytes. The buffer is used up. On an
/// error the settings are as they were, and the buffer comes back as it was.
pub fn create_transaction_from_buffer_with(
    settings: &mut Settings,
    settings_key: Pubkey,
    buffer: TransactionBuffer,
    caller: &Pubkey,
    rent_collector: Pubkey,
    bump: u8,
    computed: [u8; 32],
) -> (r: Result<Transaction, RefusedBuffer>)
    ensures
        match r {
            Ok(transaction) => {
                &&& from_buffer_result(old(settings)@, buffer, *caller, computed@) == Ok::<
                    u64,
                    SmartAccountError,
                >(transaction.index)
                &&& transaction.settings == settings_key
                &&& transaction.creator == caller
                &&& transaction.rent_collector == rent_collector
                &&& transaction.bump == bump
                &&& transaction.account_index == buffer.account_index
                &&& transaction.message@ == buffer.buffer@
                &&& final(settings)@ == stamped(old(settings)@)
            },
            Err(refused) => from_buffer_result(old(settings)@, buffer, *caller, computed@)
                == Err::<u64, SmartAccountError>(refused.error) && refused.buffer == buffer
                && *final(settings) == *old(settings),
        },
{
    if *caller != buffer.creator || !settings.signer_has_permission(
        caller,
        Permission::Initiate,
    ) {
        return Err(RefusedBuffer { error: SmartAccountError::Unauthorized, buffer });
    }
    if !buffer.digest_matches(&computed) {
        return Err(RefusedBuffer { error: SmartAccountError::BufferHashMismatch, buffer });
    }
    match settings.next_transaction_index() {
        Err(error) => Err(RefusedBuffer { error, buffer }),
        Ok(index) => Ok(
            Transaction {
                settings: settings_key,
                creator: buffer.creator,
                rent_collector,
                index,
                bump,
                account_index: buffer.account_index,
                message: buffer.buffer,
            },
        ),
    }
}

/// Creates a vault transaction whose payload is the bytes staged in a
/// buffer: as `create_transaction_from_buffer_with`, on the SHA-256 digest
/// of the staged bytes.
pub fn create_transaction_from_buffer(
    settings: &mut Settings,
    settings_key: Pubkey,
    buffer: TransactionBuffer,
    caller: &Pubkey,
    rent_collector: Pubkey,
    bump: u8,
) -> (r: Result<Transaction, RefusedBuffer>)
    ensures
        match r {
            Ok(transaction) => {
                &&& from_buffer_result(
                    old(settings)@,
                    buffer,
                    *caller,
                    crate::hashing::sha256(buffer.buffer@),
                ) == Ok::<u64, SmartAccountError>(transaction.index)
                &&& transaction.settings == settings_key
                &&& transaction.creator == caller
                &&& transaction.rent_collector == rent_collector
                &&& transaction.bump == bump
                &&& transaction.account_index == buffer.account_index
                &&& transaction.message@ == buffer.buffer@
                &&& final(settings)@ == stamped(old(settings)@)
            },
            Err(refused) => from_buffer_result(
                old(settings)@,
                buffer,
                *caller,
                crate::hashing::sha256(buffer.buffer@),
            ) == Err::<u64, SmartAccountError>(refused.error) && refused.buffer == buffer
                && *final(settings) == *old(settings),
        },
{
    let computed = crate::hashing::digest(buffer.buffer.as_slice());
    create_transaction_from_buffer_with(
        settings,
        settings_key,
        buffer,
        caller,
        rent_collector,
        bump,
        computed,
    )
}

/// The order to make the calls of a vault transaction, if `executor` may
/// execute it at `now`; else the error that executing it would give, or
/// `InvalidAccount` if the sub-account has no identity to sign with.
pub fn transaction_dispatch(
    settings: &Settings,
    proposal: &Proposal,
    transaction: &Transaction,
    executor: &Pubkey,
    now: i64,
    program_id: &Pubkey,
) -> (r: Result<Dispatch, SmartAccountError>)
    ensures
        match r {
            Ok(order) => {
                &&& execution_refusal(
                    proposal@,
                    settings@,
                    transaction.index,
                    *executor,
                    now,
                ) is None
                &&& is_order(
                    order,
                    transaction.settings,
                    transaction.account_index,
                    *program_id,
                    transaction.message@,
                )
            },
            Err(e) => match execution_refusal(
                proposal@,
                settings@,
                transaction.index,
                *executor,
                now,
            ) {
                Some(refusal) => e == refusal,
                None => e == SmartAccountError::InvalidAccount && !has_signer(
                    transaction.settings,
                    transaction.account_index,
                    *program_id,
                ),
            },
        },
{
    match proposal.check_executable(settings, transaction.index, executor, now) {
        Err(e) => Err(e),
        Ok(()) => dispatch_for(
            transaction.settings,
            transaction.account_index,
            &transaction.message,
            program_id,
        ),
    }
}

/// Executes a vault transaction whose calls have been tried with `outcome`.
/// On an error the proposal is as it was. Failed calls are such an error,
/// `ExecutionFailed`: the proposal stays approved, and the transaction may be
/// tried again or cancelled.
pub fn execute_transaction(
    settings: &Settings,
    proposal: &mut Proposal,
    transaction: &Transaction,
    executor: &Pubkey,
    now: i64,
    outcome: DispatchOutcome,
) -> (r: Result<(), SmartAccountError>)
    ensures
        match r {
            Ok(()) => vault_execution(
                settings@,
                old(proposal)@,
                transaction.index,
                *executor,
                now,
                outcome,
            ) == Ok::<ProposalView, SmartAccountError>(final(proposal)@),
            Err(e) => vault_execution(
                settings@,
                old(proposal)@,
                transaction.index,
                *executor,
                now,
                outcome,
            )
                == Err::<ProposalView, SmartAccountError>(e) && *final(proposal) == *old(proposal),
        },
        old(proposal).wf() ==> final(proposal).wf(),
{
    match proposal.check_executable(settings, transaction.index, executor, now) {
        Err(e) => {
            return Err(e);
        },
        Ok(()) => {},
    }
    if outcome == DispatchOutcome::Failed {
        return Err(SmartAccountError::ExecutionFailed);
    }
    proposal.status = ProposalStatus::Executed;
    Ok(())
}

/// Closes a vault transaction and its proposal: gives the key that the
/// storage goes back to. `InvalidState` unless the proposal is rejected,
/// cancelled or executed, or the transaction is stale and the proposal not
/// approved.
pub fn close_transaction(settings: &Settings, proposal: &Proposal, transaction: &Transaction) -> (r:
    Result<Pubkey, SmartAccountError>)
    ensures
        match r {
            Ok(collector) => closable(proposal@, settings@, transaction.index) && collector
                == transaction.rent_collector,
            Err(e) => e == SmartAccountError::InvalidState && !closable(
                proposal@,
                settings@,
                transaction.index,
            ),
        },
{
    if proposal.may_close(settings, transaction.index) {
        Ok(transaction.rent_collector)
    } else {
        Err(SmartAccountError::InvalidState)
    }
}

/// Executing a vault transaction that was created before the settings last
/// changed is refused as stale, even if its proposal is approved.
pub proof fn lemma_stale_transaction(
    s: SettingsView,
    p: ProposalView,
    index: u64,
    executor: Pubkey,
    now: i64,
    outcome: DispatchOutcome,
)
    requires
        s.is_stale(index),
    ensures
        vault_execution(s, p, index, executor, now, outcome) == Err::<ProposalView, SmartAccountError>(
            SmartAccountError::StaleProposal,
        ),
{
}

/// A vault transaction is executed at most once: once its calls have gone
/// through, its proposal is executed, and executing it again is refused.
pub proof fn lemma_transaction_once(
    s: SettingsView,
    p: ProposalView,
    index: u64,
    executor: Pubkey,
    now: i64,
    q: ProposalView,
    later_settings: SettingsView,
    later_executor: Pubkey,
    later: i64,
    outcome: DispatchOutcome,
)
    requires
        vault_execution(s, p, index, executor, now, DispatchOutcome::Succeeded) == Ok::<
            ProposalView,
            SmartAccountError,
        >(q),
    ensures
        q.status == ProposalStatus::Executed,
        vault_execution(later_settings, q, index, later_executor, later, outcome) is Err,
{
}

/// Failed calls fail the execution and nothing else: where nothing else
/// refuses, the execution is refused with `ExecutionFailed`; the proposal,
/// which no refusal changes, is approved as before, so that the same
/// execution with calls that go through is admitted, and so is a vote to
/// cancel.
pub proof fn lemma_failed_calls(
    s: SettingsView,
    p: ProposalView,
    index: u64,
    executor: Pubkey,
    now: i64,
)
    requires
        execution_refusal(p, s, index, executor, now) is None,
    ensures
        vault_execution(s, p, index, executor, now, DispatchOutcome::Failed) == Err::<
            ProposalView,
            SmartAccountError,
        >(SmartAccountError::ExecutionFailed),
        vault_execution(s, p, index, executor, now, DispatchOutcome::Succeeded) is Ok,
        p.status == ProposalStatus::Approved,
        admits(p.status, Vote::Cancel),
{
}

/// Execution with failed calls is never a success.
pub proof fn lemma_failed_calls_refused(
    s: SettingsView,
    p: ProposalView,
    index: u64,
    executor: Pubkey,
    now: i64,
)
    ensures
        vault_execution(s, p, index, executor, now, DispatchOutcome::Failed) is Err,
{
}

} // verus!
