//! Settings transactions: the edits of the settings that signers vote on, and
//! the space their stored record takes.

use vstd::prelude::*;
use crate::copying::copy_of;
use crate::errors::SmartAccountError;
use crate::keys::Pubkey;
use crate::permissions::SmartAccountSigner;
use crate::proposal::{closable, execution_refusal, Proposal, ProposalStatus, ProposalView};
use crate::settings::{apply_actions, stamped, stamping, Settings, SettingsView};

verus! {

/// After how long a spending limit fills up again.
#[derive(Clone, Copy, Debug, PartialEq, Eq, Structural)]
pub enum Period {
    /// It never fills up again.
    OneTime,
    Day,
    Week,
    Month,
}

/// One atomic edit of the settings.
#[derive(Debug)]
pub enum SettingsAction {
    /// Add a signer.
    AddSigner { new_signer: SmartAccountSigner },
    /// Remove the signer with this key.
    RemoveSigner { old_signer: Pubkey },
    /// Change the number of approvals needed.
    ChangeThreshold { new_threshold: u16 },
    /// Change the delay between approval and execution.
    SetTimeLock { new_time_lock: u32 },
    /// Grant a spending limit.
    AddSpendingLimit {
        /// The key the limit's record is addressed by.
        seed: Pubkey,
        /// The sub-account the limit draws on.
        account_index: u8,
        /// The asset the limit is counted in.
        mint: Pubkey,
        /// How much may be spent in one period.
        amount: u64,
        period: Period,
        /// Who may spend under the limit.
        signers: Vec<Pubkey>,
        /// Where funds may go; anywhere if empty.
        destinations: Vec<Pubkey>,
        /// When the limit ends.
        expiration: i64,
    },
    /// Withdraw the spending limit stored under this key.
    RemoveSpendingLimit { spending_limit: Pubkey },
    /// Set or clear the archival authority.
    SetArchivalAuthority { new_archival_authority: Option<Pubkey> },
}

/// A spending limit: what some signers may spend from a sub-account without
/// a vote. Its record is kept beside the settings; granting and withdrawing
/// it are settings actions, spending under it is not.
#[derive(Debug)]
pub struct SpendingLimit {
    /// The key the limit's record is addressed by.
    pub seed: Pubkey,
    /// The sub-account the limit draws on.
    pub account_index: u8,
    /// The asset the limit is counted in.
    pub mint: Pubkey,
    /// How much may be spent in one period.
    pub amount: u64,
    pub period: Period,
    /// Who may spend under the limit.
    pub signers: Vec<Pubkey>,
    /// Where funds may go; anywhere if empty.
    pub destinations: Vec<Pubkey>,
    /// When the limit ends.
    pub expiration: i64,
}

/// Bytes that a stored settings transaction takes before its actions: record
/// tag, three keys, index, bump and the length of the action list.
pub const SETTINGS_TRANSACTION_HEADER: usize = 117;

impl SettingsAction {
    /// The length of the action's serialized form: a tag byte, then each
    /// field, a list as a 4-byte count and its items, an optional key as a
    /// flag byte and the key if there is one.
    pub open spec fn serialized_len(self) -> nat {
        match self {
            SettingsAction::AddSigner { .. } => 34,
            SettingsAction::RemoveSigner { .. } => 33,
            SettingsAction::ChangeThreshold { .. } => 3,
            SettingsAction::SetTimeLock { .. } => 5,
            SettingsAction::AddSpendingLimit { signers, destinations, .. } => (91 + 32
                * signers@.len() + 32 * destinations@.len()) as nat,
            SettingsAction::RemoveSpendingLimit { .. } => 33,
            SettingsAction::SetArchivalAuthority { new_archival_authority } => if new_archival_authority is Some {
                34
            } else {
                2
            },
        }
    }

    /// The length of the action's serialized form, computed without
    /// serializing. `ArithmeticOverflow` if it does not fit in `usize`.
    pub fn borsh_size(&self) -> (r: Result<usize, SmartAccountError>)
        ensures
            match r {
                Ok(n) => n == self.serialized_len(),
                Err(e) => e == SmartAccountError::ArithmeticOverflow && self.serialized_len()
                    > usize::MAX,
            },
    {
        let wide = self.wide_size();
        if wide > usize::MAX as u128 {
            Err(SmartAccountError::ArithmeticOverflow)
        } else {
            Ok(wide as usize)
        }
    }

    /// The spending limit that the action grants, if it grants one: the
    /// record to store once the action has been executed.
    pub fn spending_limit(&self) -> (r: Option<SpendingLimit>)
        ensures
            r is Some <==> self is AddSpendingLimit,
            r matches Some(limit) ==> {
                &&& self matches SettingsAction::AddSpendingLimit {
                    seed,
                    account_index,
                    mint,
                    amount,
                    period,
                    signers,
                    destinations,
                    expiration,
                }
                &&& limit.seed == seed
                &&& limit.account_index == account_index
                &&& limit.mint == mint
                &&& limit.amount == amount
                &&& limit.period == period
                &&& limit.signers@ == signers@
                &&& limit.destinations@ == destinations@
                &&& limit.expiration == expiration
            },
    {
        match self {
            SettingsAction::AddSpendingLimit {
                seed,
                account_index,
                mint,
                amount,
                period,
                signers,
                destinations,
                expiration,
            } => Some(
                SpendingLimit {
                    seed: *seed,
                    account_index: *account_index,
                    mint: *mint,
                    amount: *amount,
                    period: *period,
                    signers: copy_of(signers.as_slice()),
                    destinations: copy_of(destinations.as_slice()),
                    expiration: *expiration,
                },
            ),
            _ => None,
        }
    }

    fn wide_size(&self) -> (n: u128)
        ensures
            n == self.serialized_len(),
            n <= 0x100_0000_0000_0000_0000,
    {
        match self {
            SettingsAction::AddSigner { .. } => 1 + 32 + 1,
            SettingsAction::RemoveSigner { .. } => 1 + 32,
            SettingsAction::ChangeThreshold { .. } => 1 + 2,
            SettingsAction::SetTimeLock { .. } => 1 + 4,
            SettingsAction::AddSpendingLimit { signers, destinations, .. } => {
                let s: u128 = signers.len() as u128;
                let d: u128 = destinations.len() as u128;
                1 + 32 + 1 + 32 + 8 + 1 + (4 + 32 * s) + (4 + 32 * d) + 8
            },
            SettingsAction::RemoveSpendingLimit { .. } => 1 + 32,
            SettingsAction::SetArchivalAuthority { new_archival_authority } => {
                1 + 1 + if new_archival_authority.is_some() {
                    32
                } else {
                    0
                }
            },
        }
    }
}

/// The serialized length of a list of actions, one after the other.
pub open spec fn actions_len(actions: Seq<SettingsAction>) -> nat
    decreases actions.len(),
{
    if actions.len() == 0 {
        0
    } else {
        actions_len(actions.drop_last()) + actions.last().serialized_len()
    }
}

/// A longer list of actions never takes less space than its beginning.
pub proof fn lemma_actions_len_monotone(actions: Seq<SettingsAction>, k: int)
    requires
        0 <= k <= actions.len(),
    ensures
        actions_len(actions.take(k)) <= actions_len(actions),
    decreases actions.len(),
{
    if k == actions.len() {
        assert(actions.take(k) =~= actions);
    } else {
        assert(actions.drop_last().take(k) =~= actions.take(k));
        lemma_actions_len_monotone(actions.drop_last(), k);
    }
}

/// The stored form of a proposed change of the settings.
#[derive(Debug)]
pub struct SettingsTransaction {
    /// The settings this belongs to.
    pub settings: Pubkey,
    /// The signer who submitted the transaction.
    pub creator: Pubkey,
    /// Who gets the storage back when the record is closed.
    pub rent_collector: Pubkey,
    /// The stamp this transaction was created under.
    pub index: u64,
    pub bump: u8,
    /// The edits to make, in order, all or none.
    pub actions: Vec<SettingsAction>,
}

impl SettingsTransaction {
    /// The space a stored transaction with these actions takes.
    pub open spec fn space(actions: Seq<SettingsAction>) -> nat {
        SETTINGS_TRANSACTION_HEADER as nat + actions_len(actions)
    }

    /// The space to reserve for a transaction with these actions: exactly
    /// what its stored form takes. `ArithmeticOverflow` if that does not fit
    /// in `usize`.
    pub fn size(actions: &[SettingsAction]) -> (r: Result<usize, SmartAccountError>)
        ensures
            match r {
                Ok(n) => n == Self::space(actions@),
                Err(e) => e == SmartAccountError::ArithmeticOverflow && Self::space(actions@)
                    > usize::MAX,
            },
    {
        let mut total: u128 = 8 + 32 + 32 + 32 + 8 + 1 + 4;
        let mut i: usize = 0;
        while i < actions.len()
            invariant
                i <= actions.len(),
                total == Self::space(actions@.take(i as int)),
                total <= usize::MAX,
            decreases actions.len() - i,
        {
            assert(actions@.take(i + 1).drop_last() =~= actions@.take(i as int));
            total = total + actions[i].wide_size();
            if total > usize::MAX as u128 {
                proof {
                    lemma_actions_len_monotone(actions@, i + 1);
                }
                return Err(SmartAccountError::ArithmeticOverflow);
            }
            i += 1;
        }
        assert(actions@.take(i as int) =~= actions@);
        Ok(total as usize)
    }
}

/// What executing a settings transaction comes to: refused as the proposal,
/// the executor's permission and the clock say; else `InvalidConfiguration`
/// if an action is refused; else the settings after all actions, with every
/// transaction created so far stale, and the proposal executed.
pub open spec fn settings_execution(
    s: SettingsView,
    p: ProposalView,
    index: u64,
    actions: Seq<SettingsAction>,
    executor: Pubkey,
    now: i64,
) -> Result<(SettingsView, ProposalView), SmartAccountError> {
    match execution_refusal(p, s, index, executor, now) {
        Some(e) => Err(e),
        None => match apply_actions(s, actions) {
            None => Err(SmartAccountError::InvalidConfiguration),
            Some(edited) => Ok(
                (
                    SettingsView { stale_transaction_index: edited.transaction_index, ..edited },
                    ProposalView { status: ProposalStatus::Executed, ..p },
                ),
            ),
        },
    }
}

/// Creates a settings transaction that `creator` proposes: stamps it with
/// the settings' transaction counter, which moves on, and stores the actions
/// as they are. They are validated when the transaction is executed, against
/// the settings of then. `Unauthorized` unless the creator is a signer who
/// may propose; else `ArithmeticOverflow` if the counter is at its end. On an
/// error the settings are as they were.
pub fn create_settings_transaction(
    settings: &mut Settings,
    settings_key: Pubkey,
    creator: Pubkey,
    rent_collector: Pubkey,
    bump: u8,
    actions: Vec<SettingsAction>,
) -> (r: Result<SettingsTransaction, SmartAccountError>)
    ensures
        match r {
            Ok(transaction) => {
                &&& stamping(old(settings)@, creator) == Ok::<u64, SmartAccountError>(
                    transaction.index,
                )
                &&& transaction.settings == settings_key
                &&& transaction.creator == creator
                &&& transaction.rent_collector == rent_collector
                &&& transaction.bump == bump
                &&& transaction.actions == actions
                &&& final(settings)@ == stamped(old(settings)@)
            },
            Err(e) => stamping(old(settings)@, creator) == Err::<u64, SmartAccountError>(e)
                && *final(settings) == *old(settings),
        },
{
    match settings.stamp_transaction(&creator) {
        Ok(index) => Ok(
            SettingsTransaction { settings: settings_key, creator, rent_collector, index, bump, actions },
        ),
        Err(e) => Err(e),
    }
}

/// Executes a settings transaction: all of its actions or none. On an error
/// settings and proposal are as they were.
pub fn execute_settings_transaction(
    settings: &mut Settings,
    proposal: &mut Proposal,
    transaction: &SettingsTransaction,
    executor: &Pubkey,
    now: i64,
) -> (r: Result<(), SmartAccountError>)
    ensures
        match r {
            Ok(()) => settings_execution(
                old(settings)@,
                old(proposal)@,
                transaction.index,
                transaction.actions@,
                *executor,
                now,
            ) == Ok::<(SettingsView, ProposalView), SmartAccountError>(
                (final(settings)@, final(proposal)@),
            ),
            Err(e) => settings_execution(
                old(settings)@,
                old(proposal)@,
                transaction.index,
                transaction.actions@,
                *executor,
                now,
            ) == Err::<(SettingsView, ProposalView), SmartAccountError>(e) && *final(settings)
                == *old(settings) && *final(proposal) == *old(proposal),
        },
        old(proposal).wf() ==> final(proposal).wf(),
{
    match proposal.check_executable(settings, transaction.index, executor, now) {
        Err(e) => {
            return Err(e);
        },
        Ok(()) => {},
    }
    match settings.apply_all(&transaction.actions) {
        Err(e) => {
            return Err(e);
        },
        Ok(()) => {},
    }
    settings.advance_stale_cursor();
    proposal.status = ProposalStatus::Executed;
    Ok(())
}

/// Closes a settings transaction and its proposal: gives the key that the
/// storage goes back to. `InvalidState` unless the proposal is rejected,
/// cancelled or executed, or the transaction is stale and the proposal not
/// approved.
pub fn close_settings_transaction(
    settings: &Settings,
    proposal: &Proposal,
    transaction: &SettingsTransaction,
) -> (r: Result<Pubkey, SmartAccountError>)
    ensures
        match r {
            Ok(collector) => closable(proposal@, settings@, transaction.index) && collector
                == transaction.rent_collector,
            Err(e) => e == SmartAccountError::InvalidState && !closable(
                proposal@,
                settings@,
                transaction.index,
            ),
        },
{
    if proposal.may_close(settings, transaction.index) {
        Ok(transaction.rent_collector)
    } else {
        Err(SmartAccountError::InvalidState)
    }
}

/// Executing a settings transaction that was created before the settings
/// last changed is refused as stale, even if its proposal is approved.
pub proof fn lemma_stale_settings_transaction(
    s: SettingsView,
    p: ProposalView,
    index: u64,
    actions: Seq<SettingsAction>,
    executor: Pubkey,
    now: i64,
)
    requires
        s.is_stale(index),
    ensures
        settings_execution(s, p, index, actions, executor, now) == Err::<
            (SettingsView, ProposalView),
            SmartAccountError,
        >(SmartAccountError::StaleProposal),
{
}

/// A settings transaction that was executed leaves valid settings, under
/// which it is stale itself, and an executed proposal.
pub proof fn lemma_settings_execution_result(
    s: SettingsView,
    p: ProposalView,
    index: u64,
    actions: Seq<SettingsAction>,
    executor: Pubkey,
    now: i64,
    after: SettingsView,
    q: ProposalView,
)
    requires
        s.valid(),
        index < s.transaction_index,
        settings_execution(s, p, index, actions, executor, now) == Ok::<
            (SettingsView, ProposalView),
            SmartAccountError,
        >((after, q)),
    ensures
        after.valid(),
        after.is_stale(index),
        after.stale_transaction_index == s.transaction_index,
        q.status == ProposalStatus::Executed,
{
    crate::settings::lemma_apply_actions_keep(s, actions);
    crate::settings::lemma_apply_actions_leave(s, actions);
}

/// A settings transaction is executed at most once: once it has been, it is
/// stale under the settings that it left, whatever the proposal and the
/// clock say.
pub proof fn lemma_settings_transaction_once(
    s: SettingsView,
    p: ProposalView,
    index: u64,
    actions: Seq<SettingsAction>,
    executor: Pubkey,
    now: i64,
    after: SettingsView,
    q: ProposalView,
    again: ProposalView,
    later_executor: Pubkey,
    later: i64,
)
    requires
        index < s.transaction_index,
        settings_execution(s, p, index, actions, executor, now) == Ok::<
            (SettingsView, ProposalView),
            SmartAccountError,
        >((after, q)),
    ensures
        settings_execution(after, again, index, actions, later_executor, later) == Err::<
            (SettingsView, ProposalView),
            SmartAccountError,
        >(SmartAccountError::StaleProposal),
{
    crate::settings::lemma_apply_actions_leave(s, actions);
}

/// The stale cursor only moves on: where it is not past the transaction
/// counter, an execution leaves it no lower than it was, and again not past
/// the counter, which stays.
pub proof fn lemma_cursor_moves_on(
    s: SettingsView,
    p: ProposalView,
    index: u64,
    actions: Seq<SettingsAction>,
    executor: Pubkey,
    now: i64,
    after: SettingsView,
    q: ProposalView,
)
    requires
        s.stale_transaction_index <= s.transaction_index,
        settings_execution(s, p, index, actions, executor, now) == Ok::<
            (SettingsView, ProposalView),
            SmartAccountError,
        >((after, q)),
    ensures
        after.stale_transaction_index >= s.stale_transaction_index,
        after.stale_transaction_index <= after.transaction_index,
        after.transaction_index == s.transaction_index,
{
    crate::settings::lemma_apply_actions_leave(s, actions);
}

} // verus!
