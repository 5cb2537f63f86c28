//! Proposals: the voting ledger of a transaction or a batch.

use vstd::prelude::*;
use crate::errors::SmartAccountError;
use crate::keys::Pubkey;
use crate::permissions::Permission;
use crate::settings::{holds_permission, is_eligible_voter, num_voters, Settings, SettingsView};

verus! {

/// Where a proposal stands in its life.
#[derive(Clone, Copy, Debug, PartialEq, Eq, Structural)]
pub enum ProposalStatus {
    /// Being put together; not open for votes yet.
    Draft,
    /// Open for approvals and rejections.
    Active,
    /// Approved; may be executed once the time lock has run out, or cancelled.
    Approved,
    /// Rejected: approval was out of reach.
    Rejected,
    /// Cancelled after approval.
    Cancelled,
    /// Executed.
    Executed,
}

impl ProposalStatus {
    /// Rejected, cancelled or executed: nothing follows.
    pub open spec fn is_terminal(self) -> bool {
        self == ProposalStatus::Rejected || self == ProposalStatus::Cancelled || self
            == ProposalStatus::Executed
    }

    pub fn terminal(&self) -> (r: bool)
        ensures
            r == self.is_terminal(),
    {
        match self {
            ProposalStatus::Rejected | ProposalStatus::Cancelled | ProposalStatus::Executed => true,
            _ => false,
        }
    }
}

/// What a voter says of a proposal.
#[derive(Clone, Copy, Debug, PartialEq, Eq, Structural)]
pub enum Vote {
    Approve,
    Reject,
    Cancel,
}

/// What a proposal holds, with its votes as sets of keys.
#[verifier::ext_equal]
pub struct ProposalView {
    pub settings: Pubkey,
    pub created_at_index: u64,
    pub status: ProposalStatus,
    pub approved_at: i64,
    pub bump: u8,
    pub approved: Set<Pubkey>,
    pub rejected: Set<Pubkey>,
    pub cancelled: Set<Pubkey>,
}

impl ProposalView {
    /// No voter stands in two of the three sets.
    pub open spec fn votes_disjoint(self) -> bool {
        &&& self.approved.disjoint(self.rejected)
        &&& self.approved.disjoint(self.cancelled)
        &&& self.rejected.disjoint(self.cancelled)
    }

    /// The approvals that the proposal can still come to: those it has, and
    /// one for every voter who has neither approved nor rejected.
    pub open spec fn approvals_in_reach(self, s: SettingsView) -> int {
        self.approved.len() + (num_voters(s.signers) - self.approved.len() - self.rejected.len())
    }

    /// The time lock since approval has run out at `now`.
    pub open spec fn time_lock_elapsed(self, s: SettingsView, now: i64) -> bool {
        now >= self.approved_at + s.time_lock
    }
}

/// The ledger of votes on one transaction or batch.
#[derive(Debug)]
pub struct Proposal {
    /// The settings the proposal belongs to.
    pub settings: Pubkey,
    /// The stamp of the transaction that is voted on.
    pub created_at_index: u64,
    pub status: ProposalStatus,
    /// When the proposal was approved; meaningful once it has been.
    pub approved_at: i64,
    pub bump: u8,
    /// Keys that approved, each once.
    pub approved: Vec<Pubkey>,
    /// Keys that rejected, each once.
    pub rejected: Vec<Pubkey>,
    /// Keys that voted to cancel, each once.
    pub cancelled: Vec<Pubkey>,
}

impl View for Proposal {
    type V = ProposalView;

    open spec fn view(&self) -> ProposalView {
        ProposalView {
            settings: self.settings,
            created_at_index: self.created_at_index,
            status: self.status,
            approved_at: self.approved_at,
            bump: self.bump,
            approved: self.approved@.to_set(),
            rejected: self.rejected@.to_set(),
            cancelled: self.cancelled@.to_set(),
        }
    }
}

/// The votes after `voter` has cast `vote`: the voter stands in the set of
/// that vote and in no other.
pub open spec fn cast(p: ProposalView, voter: Pubkey, vote: Vote) -> ProposalView {
    match vote {
        Vote::Approve => ProposalView {
            approved: p.approved.insert(voter),
            rejected: p.rejected.remove(voter),
            cancelled: p.cancelled.remove(voter),
            ..p
        },
        Vote::Reject => ProposalView {
            approved: p.approved.remove(voter),
            rejected: p.rejected.insert(voter),
            cancelled: p.cancelled.remove(voter),
            ..p
        },
        Vote::Cancel => ProposalView {
            approved: p.approved.remove(voter),
            rejected: p.rejected.remove(voter),
            cancelled: p.cancelled.insert(voter),
            ..p
        },
    }
}

/// The proposal after the votes have been counted at `now`.
///
/// After an approval or a rejection: approved, from `now`, if the approvals
/// fill the threshold; else rejected if the approvals in reach fall short of
/// it; else as it was. After a vote to cancel: cancelled if such votes fill
/// the threshold; else as it was.
pub open spec fn tally(p: ProposalView, s: SettingsView, vote: Vote, now: i64) -> ProposalView {
    if vote == Vote::Cancel {
        if p.cancelled.len() >= s.threshold {
            ProposalView { status: ProposalStatus::Cancelled, ..p }
        } else {
            p
        }
    } else if p.approved.len() >= s.threshold {
        ProposalView { status: ProposalStatus::Approved, approved_at: now, ..p }
    } else if p.approvals_in_reach(s) < s.threshold {
        ProposalView { status: ProposalStatus::Rejected, ..p }
    } else {
        p
    }
}

/// The status in which a vote is taken: active for an approval or a
/// rejection, approved for a vote to cancel.
pub open spec fn admits(status: ProposalStatus, vote: Vote) -> bool {
    if vote == Vote::Cancel {
        status == ProposalStatus::Approved
    } else {
        status == ProposalStatus::Active
    }
}

/// What a vote comes to. Refused as stale if the transaction was created
/// before the settings last changed; else as unauthorized unless the voter is
/// a signer who may vote; else for the state unless the status admits the
/// vote. Otherwise the vote is cast and counted.
pub open spec fn vote_result(
    p: ProposalView,
    s: SettingsView,
    voter: Pubkey,
    vote: Vote,
    now: i64,
) -> Result<ProposalView, SmartAccountError> {
    if s.is_stale(p.created_at_index) {
        Err(SmartAccountError::StaleProposal)
    } else if !is_eligible_voter(s.signers, voter) {
        Err(SmartAccountError::Unauthorized)
    } else if !admits(p.status, vote) {
        Err(SmartAccountError::InvalidState)
    } else {
        Ok(tally(cast(p, voter, vote), s, vote, now))
    }
}

/// Whether `executor` may execute a transaction stamped `index` under this
/// proposal at `now`, and if not, why: stale; else unauthorized unless the
/// executor is a signer who may execute; else not approved; else the time
/// lock.
pub open spec fn execution_refusal(
    p: ProposalView,
    s: SettingsView,
    index: u64,
    executor: Pubkey,
    now: i64,
) -> Option<SmartAccountError> {
    if s.is_stale(index) {
        Some(SmartAccountError::StaleProposal)
    } else if !holds_permission(s.signers, executor, Permission::Execute) {
        Some(SmartAccountError::Unauthorized)
    } else if p.status != ProposalStatus::Approved {
        Some(SmartAccountError::InvalidState)
    } else if !p.time_lock_elapsed(s, now) {
        Some(SmartAccountError::TimeLockNotElapsed)
    } else {
        None
    }
}

/// Whether the records of a transaction stamped `index` may be closed: the
/// proposal is rejected, cancelled or executed, or the transaction is stale
/// and the proposal not approved.
pub open spec fn closable(p: ProposalView, s: SettingsView, index: u64) -> bool {
    p.status.is_terminal() || (s.is_stale(index) && p.status != ProposalStatus::Approved)
}

/// Whether the list holds the key.
pub fn holds(list: &Vec<Pubkey>, key: &Pubkey) -> (r: bool)
    ensures
        r == list@.contains(*key),
{
    let mut i: usize = 0;
    while i < list.len()
        invariant
            i <= list.len(),
            forall|j: int| 0 <= j < i ==> list@[j] != *key,
        decreases list.len() - i,
    {
        if list[i] == *key {
            return true;
        }
        i += 1;
    }
    false
}

/// Takes the key out of a list that holds no key twice.
fn take_out(list: &mut Vec<Pubkey>, key: &Pubkey)
    requires
        old(list)@.no_duplicates(),
    ensures
        final(list)@.no_duplicates(),
        final(list)@.to_set() == old(list)@.to_set().remove(*key),
        !old(list)@.contains(*key) ==> final(list)@ == old(list)@,
{
    let mut i: usize = 0;
    while i < list.len()
        invariant
            i <= list.len(),
            *list == *old(list),
            list@.no_duplicates(),
            forall|j: int| 0 <= j < i ==> list@[j] != *key,
        decreases list.len() - i,
    {
        if list[i] == *key {
            let ghost before = list@;
            list.remove(i);
            proof {
                let after = list@;
                assert forall|x: Pubkey| after.to_set().contains(x) == before.to_set().remove(
                    *key,
                ).contains(x) by {
                    if after.contains(x) {
                        let j = choose|j: int| 0 <= j < after.len() && after[j] == x;
                        if j < i {
                            assert(before[j] == x);
                        } else {
                            assert(before[j + 1] == x);
                        }
                    }
                    if before.contains(x) && x != *key {
                        let j = choose|j: int| 0 <= j < before.len() && before[j] == x;
                        if j < i {
                            assert(after[j] == x);
                        } else {
                            assert(after[j - 1] == x);
                        }
                    }
                }
                assert(after.to_set() =~= before.to_set().remove(*key));
            }
            return ;
        }
        i += 1;
    }
    proof {
        assert(!list@.contains(*key));
        assert(list@.to_set() =~= list@.to_set().remove(*key));
    }
}

/// Puts the key into a list that holds no key twice, unless it is there.
pub(crate) fn put_in(list: &mut Vec<Pubkey>, key: Pubkey)
    requires
        old(list)@.no_duplicates(),
    ensures
        final(list)@.no_duplicates(),
        final(list)@.to_set() == old(list)@.to_set().insert(key),
        old(list)@.contains(key) ==> final(list)@ == old(list)@,
{
    if holds(list, &key) {
        proof {
            assert(list@.to_set() =~= list@.to_set().insert(key));
        }
    } else {
        let ghost before = list@;
        list.push(key);
        proof {
            let after = list@;
            assert forall|x: Pubkey| after.to_set().contains(x) == before.to_set().insert(
                key,
            ).contains(x) by {
                if after.contains(x) {
                    let j = choose|j: int| 0 <= j < after.len() && after[j] == x;
                    if j < before.len() {
                        assert(before[j] == x);
                    }
                }
                if before.contains(x) {
                    let j = choose|j: int| 0 <= j < before.len() && before[j] == x;
                    assert(after[j] == x);
                }
                if x == key {
                    assert(after[before.len() as int] == x);
                }
            }
            assert(after.to_set() =~= before.to_set().insert(key));
        }
    }
}

impl Proposal {
    /// No key stands twice in a list of votes, nor in two of them.
    pub open spec fn wf(&self) -> bool {
        &&& self.approved@.no_duplicates()
        &&& self.rejected@.no_duplicates()
        &&& self.cancelled@.no_duplicates()
        &&& self@.votes_disjoint()
    }

    /// A proposal without votes for the transaction stamped
    /// `created_at_index`: a draft if asked for, else active.
    pub fn new(settings: Pubkey, created_at_index: u64, bump: u8, draft: bool) -> (r: Proposal)
        ensures
            r.wf(),
            r@ == (ProposalView {
                settings,
                created_at_index,
                status: if draft {
                    ProposalStatus::Draft
                } else {
                    ProposalStatus::Active
                },
                approved_at: 0,
                bump,
                approved: Set::empty(),
                rejected: Set::empty(),
                cancelled: Set::empty(),
            }),
    {
        let r = Proposal {
            settings,
            created_at_index,
            status: if draft {
                ProposalStatus::Draft
            } else {
                ProposalStatus::Active
            },
            approved_at: 0,
            bump,
            approved: Vec::new(),
            rejected: Vec::new(),
            cancelled: Vec::new(),
        };
        assert(r.approved@.to_set() =~= Set::empty());
        assert(r.rejected@.to_set() =~= Set::empty());
        assert(r.cancelled@.to_set() =~= Set::empty());
        r
    }

    /// Casts and counts a vote. On an error the proposal is as it was.
    pub fn vote(&mut self, settings: &Settings, voter: &Pubkey, vote: Vote, now: i64) -> (r:
        Result<(), SmartAccountError>)
        requires
            old(self).wf(),
        ensures
            final(self).wf(),
            match r {
                Ok(()) => vote_result(old(self)@, settings@, *voter, vote, now) == Ok::<
                    ProposalView,
                    SmartAccountError,
                >(final(self)@),
                Err(e) => vote_result(old(self)@, settings@, *voter, vote, now) == Err::<
                    ProposalView,
                    SmartAccountError,
                >(e) && *final(self) == *old(self),
            },
    {
        if settings.is_stale(self.created_at_index) {
            return Err(SmartAccountError::StaleProposal);
        }
        if !settings.is_voter(voter) {
            return Err(SmartAccountError::Unauthorized);
        }
        match vote {
            Vote::Cancel => {
                if self.status != ProposalStatus::Approved {
                    return Err(SmartAccountError::InvalidState);
                }
            },
            _ => {
                if self.status != ProposalStatus::Active {
                    return Err(SmartAccountError::InvalidState);
                }
            },
        }
        match vote {
            Vote::Approve => {
                take_out(&mut self.rejected, voter);
                take_out(&mut self.cancelled, voter);
                put_in(&mut self.approved, *voter);
            },
            Vote::Reject => {
                take_out(&mut self.approved, voter);
                take_out(&mut self.cancelled, voter);
                put_in(&mut self.rejected, *voter);
            },
            Vote::Cancel => {
                take_out(&mut self.approved, voter);
                take_out(&mut self.rejected, voter);
                put_in(&mut self.cancelled, *voter);
            },
        }
        proof {
            self.approved@.unique_seq_to_set();
            self.rejected@.unique_seq_to_set();
            self.cancelled@.unique_seq_to_set();
            assert(self@ =~= cast(old(self)@, *voter, vote));
        }
        let threshold: u128 = settings.threshold as u128;
        match vote {
            Vote::Cancel => {
                if self.cancelled.len() as u128 >= threshold {
                    self.status = ProposalStatus::Cancelled;
                }
            },
            _ => {
                let voters: u128 = settings.num_voters() as u128;
                if self.approved.len() as u128 >= threshold {
                    self.status = ProposalStatus::Approved;
                    self.approved_at = now;
                } else if voters < threshold + self.rejected.len() as u128 {
                    self.status = ProposalStatus::Rejected;
                }
            },
        }
        assert(self@ =~= tally(cast(old(self)@, *voter, vote), settings@, vote, now));
        Ok(())
    }

    /// Opens a draft for votes. `InvalidState`, with the proposal unchanged,
    /// unless it is a draft.
    pub fn activate(&mut self) -> (r: Result<(), SmartAccountError>)
        ensures
            match r {
                Ok(()) => old(self).status == ProposalStatus::Draft && final(self)@ == (
                ProposalView { status: ProposalStatus::Active, ..old(self)@ }),
                Err(e) => e == SmartAccountError::InvalidState && old(self).status
                    != ProposalStatus::Draft && *final(self) == *old(self),
            },
            old(self).wf() ==> final(self).wf(),
    {
        if self.status != ProposalStatus::Draft {
            return Err(SmartAccountError::InvalidState);
        }
        self.status = ProposalStatus::Active;
        Ok(())
    }

    /// Whether `executor` may execute a transaction stamped `index` under
    /// this proposal at `now`; the error says why not.
    pub fn check_executable(
        &self,
        settings: &Settings,
        index: u64,
        executor: &Pubkey,
        now: i64,
    ) -> (r: Result<(), SmartAccountError>)
        ensures
            match r {
                Ok(()) => execution_refusal(self@, settings@, index, *executor, now) is None,
                Err(e) => execution_refusal(self@, settings@, index, *executor, now) == Some(e),
            },
    {
        if settings.is_stale(index) {
            return Err(SmartAccountError::StaleProposal);
        }
        if !settings.signer_has_permission(executor, Permission::Execute) {
            return Err(SmartAccountError::Unauthorized);
        }
        if self.status != ProposalStatus::Approved {
            return Err(SmartAccountError::InvalidState);
        }
        if (now as i128) < self.approved_at as i128 + settings.time_lock as i128 {
            return Err(SmartAccountError::TimeLockNotElapsed);
        }
        Ok(())
    }

    /// Whether the records of a transaction stamped `index` may be closed
    /// under this proposal.
    pub fn may_close(&self, settings: &Settings, index: u64) -> (r: bool)
        ensures
            r == closable(self@, settings@, index),
    {
        self.status.terminal() || (settings.is_stale(index) && self.status
            != ProposalStatus::Approved)
    }
}

/// Creates the proposal for the transaction stamped `created_at_index`: a
/// draft if asked for, else active, and without votes.
pub fn create_proposal(settings: Pubkey, created_at_index: u64, bump: u8, draft: bool) -> (r:
    Proposal)
    ensures
        r.wf(),
        r@ == (ProposalView {
            settings,
            created_at_index,
            status: if draft {
                ProposalStatus::Draft
            } else {
                ProposalStatus::Active
            },
            approved_at: 0,
            bump,
            approved: Set::empty(),
            rejected: Set::empty(),
            cancelled: Set::empty(),
        }),
{
    Proposal::new(settings, created_at_index, bump, draft)
}

/// Opens a draft for votes. `InvalidState`, with the proposal unchanged,
/// unless it is a draft.
pub fn activate_proposal(proposal: &mut Proposal) -> (r: Result<(), SmartAccountError>)
    ensures
        match r {
            Ok(()) => old(proposal).status == ProposalStatus::Draft && final(proposal)@ == (
            ProposalView { status: ProposalStatus::Active, ..old(proposal)@ }),
            Err(e) => e == SmartAccountError::InvalidState && old(proposal).status
                != ProposalStatus::Draft && *final(proposal) == *old(proposal),
        },
        old(proposal).wf() ==> final(proposal).wf(),
{
    proposal.activate()
}

/// Approves an active proposal in the name of `voter`.
pub fn approve_proposal(settings: &Settings, proposal: &mut Proposal, voter: &Pubkey, now: i64) -> (r:
    Result<(), SmartAccountError>)
    requires
        old(proposal).wf(),
    ensures
        final(proposal).wf(),
        match r {
            Ok(()) => vote_result(old(proposal)@, settings@, *voter, Vote::Approve, now) == Ok::<
                ProposalView,
                SmartAccountError,
            >(final(proposal)@),
            Err(e) => vote_result(old(proposal)@, settings@, *voter, Vote::Approve, now) == Err::<
                ProposalView,
                SmartAccountError,
            >(e) && *final(proposal) == *old(proposal),
        },
{
    proposal.vote(settings, voter, Vote::Approve, now)
}

/// Rejects an active proposal in the name of `voter`.
pub fn reject_proposal(settings: &Settings, proposal: &mut Proposal, voter: &Pubkey, now: i64) -> (r:
    Result<(), SmartAccountError>)
    requires
        old(proposal).wf(),
    ensures
        final(proposal).wf(),
        match r {
            Ok(()) => vote_result(old(proposal)@, settings@, *voter, Vote::Reject, now) == Ok::<
                ProposalView,
                SmartAccountError,
            >(final(proposal)@),
            Err(e) => vote_result(old(proposal)@, settings@, *voter, Vote::Reject, now) == Err::<
                ProposalView,
                SmartAccountError,
            >(e) && *final(proposal) == *old(proposal),
        },
{
    proposal.vote(settings, voter, Vote::Reject, now)
}

/// Votes to cancel an approved proposal in the name of `voter`.
pub fn cancel_proposal(settings: &Settings, proposal: &mut Proposal, voter: &Pubkey, now: i64) -> (r:
    Result<(), SmartAccountError>)
    requires
        old(proposal).wf(),
    ensures
        final(proposal).wf(),
        match r {
            Ok(()) => vote_result(old(proposal)@, settings@, *voter, Vote::Cancel, now) == Ok::<
                ProposalView,
                SmartAccountError,
            >(final(proposal)@),
            Err(e) => vote_result(old(proposal)@, settings@, *voter, Vote::Cancel, now) == Err::<
                ProposalView,
                SmartAccountError,
            >(e) && *final(proposal) == *old(proposal),
        },
{
    proposal.vote(settings, voter, Vote::Cancel, now)
}

/// Whether no key stands twice in the list.
pub fn all_different(list: &Vec<Pubkey>) -> (r: bool)
    ensures
        r == list@.no_duplicates(),
{
    let mut i: usize = 0;
    while i < list.len()
        invariant
            i <= list.len(),
            list@.take(i as int).no_duplicates(),
        decreases list.len() - i,
    {
        let mut j: usize = 0;
        while j < i
            invariant
                j <= i,
                i < list.len(),
                forall|k: int| 0 <= k < j ==> list@[k] != list@[i as int],
            decreases i - j,
        {
            if list[j] == list[i] {
                return false;
            }
            j += 1;
        }
        i += 1;
    }
    assert(list@.take(i as int) =~= list@);
    true
}

/// Whether no key of the first list stands in the second.
pub fn apart(a: &Vec<Pubkey>, b: &Vec<Pubkey>) -> (r: bool)
    ensures
        r == a@.to_set().disjoint(b@.to_set()),
{
    let mut i: usize = 0;
    while i < a.len()
        invariant
            i <= a.len(),
            forall|k: int| 0 <= k < i ==> !b@.contains(a@[k]),
        decreases a.len() - i,
    {
        if holds(b, &a[i]) {
            assert(a@.to_set().contains(a@[i as int]) && b@.to_set().contains(a@[i as int]));
            return false;
        }
        i += 1;
    }
    proof {
        assert forall|x: Pubkey| !(a@.to_set().contains(x) && b@.to_set().contains(x)) by {
            if a@.contains(x) {
                let k = choose|k: int| 0 <= k < a@.len() && a@[k] == x;
                assert(!b@.contains(a@[k]));
            }
        }
    }
    true
}

impl Proposal {
    /// Whether the proposal is well formed: no key stands twice in a list of
    /// votes, nor in two of them.
    pub fn is_well_formed(&self) -> (r: bool)
        ensures
            r == self.wf(),
    {
        all_different(&self.approved) && all_different(&self.rejected) && all_different(
            &self.cancelled,
        ) && apart(&self.approved, &self.rejected) && apart(&self.approved, &self.cancelled)
            && apart(&self.rejected, &self.cancelled)
    }
}

/// A proposal that is rejected, cancelled or executed takes no further vote.
pub proof fn lemma_terminal_takes_no_vote(
    p: ProposalView,
    s: SettingsView,
    voter: Pubkey,
    vote: Vote,
    now: i64,
)
    requires
        p.status.is_terminal(),
    ensures
        vote_result(p, s, voter, vote, now) is Err,
{
}

/// After a vote that was taken, the voter stands in the set of that vote and
/// in neither of the others; every other key stands where it stood.
pub proof fn lemma_vote_stands_once(
    p: ProposalView,
    s: SettingsView,
    voter: Pubkey,
    vote: Vote,
    now: i64,
    q: ProposalView,
)
    requires
        vote_result(p, s, voter, vote, now) == Ok::<ProposalView, SmartAccountError>(q),
    ensures
        q.approved.contains(voter) <==> vote == Vote::Approve,
        q.rejected.contains(voter) <==> vote == Vote::Reject,
        q.cancelled.contains(voter) <==> vote == Vote::Cancel,
        forall|other: Pubkey|
            other != voter ==> (q.approved.contains(other) <==> p.approved.contains(other)) && (
            q.rejected.contains(other) <==> p.rejected.contains(other)) && (q.cancelled.contains(
                other,
            ) <==> p.cancelled.contains(other)),
        p.votes_disjoint() ==> q.votes_disjoint(),
{
}

/// A signer who approves and then rejects ends with one vote, the
/// rejection.
pub proof fn lemma_vote_switch(
    p: ProposalView,
    s: SettingsView,
    voter: Pubkey,
    first: i64,
    second: i64,
    mid: ProposalView,
    q: ProposalView,
)
    requires
        vote_result(p, s, voter, Vote::Approve, first) == Ok::<ProposalView, SmartAccountError>(
            mid,
        ),
        vote_result(mid, s, voter, Vote::Reject, second) == Ok::<ProposalView, SmartAccountError>(
            q,
        ),
    ensures
        q.rejected.contains(voter),
        !q.approved.contains(voter),
        !q.cancelled.contains(voter),
{
}

/// After an approval or a rejection that was taken, the proposal is approved
/// exactly if the approvals fill the threshold, and rejected exactly if they
/// do not and the approvals in reach fall short of it, which is to say that
/// the rejections have come to the cutoff. Where no more votes are held than
/// there are voters, it is rejected exactly if the approvals in reach fall
/// short of the threshold.
pub proof fn lemma_vote_decides(
    p: ProposalView,
    s: SettingsView,
    voter: Pubkey,
    vote: Vote,
    now: i64,
    q: ProposalView,
)
    requires
        vote != Vote::Cancel,
        vote_result(p, s, voter, vote, now) == Ok::<ProposalView, SmartAccountError>(q),
    ensures
        q.status == ProposalStatus::Approved <==> q.approved.len() >= s.threshold,
        q.status == ProposalStatus::Rejected <==> q.approved.len() < s.threshold
            && q.approvals_in_reach(s) < s.threshold,
        q.approvals_in_reach(s) < s.threshold <==> q.rejected.len() >= s.cutoff(),
        q.approved.len() + q.rejected.len() <= num_voters(s.signers) ==> (q.status
            == ProposalStatus::Rejected <==> q.approvals_in_reach(s) < s.threshold),
        q.status == ProposalStatus::Approved || q.status == ProposalStatus::Rejected || q.status
            == ProposalStatus::Active,
{
}

/// After a vote to cancel that was taken, the proposal is cancelled exactly
/// if such votes fill the threshold, and approved as before if they do not.
pub proof fn lemma_cancel_decides(
    p: ProposalView,
    s: SettingsView,
    voter: Pubkey,
    now: i64,
    q: ProposalView,
)
    requires
        vote_result(p, s, voter, Vote::Cancel, now) == Ok::<ProposalView, SmartAccountError>(q),
    ensures
        p.status == ProposalStatus::Approved,
        q.status == ProposalStatus::Cancelled <==> q.cancelled.len() >= s.threshold,
        q.status == ProposalStatus::Cancelled || q.status == ProposalStatus::Approved,
        q.approved_at == p.approved_at,
{
}

/// Execution is for a signer who may execute: on a transaction that is not
/// stale, whoever may not is refused as unauthorized, whatever the proposal
/// and the clock say.
pub proof fn lemma_execution_wants_permission(
    p: ProposalView,
    s: SettingsView,
    index: u64,
    executor: Pubkey,
    now: i64,
)
    requires
        !s.is_stale(index),
        !holds_permission(s.signers, executor, Permission::Execute),
    ensures
        execution_refusal(p, s, index, executor, now) == Some(SmartAccountError::Unauthorized),
{
}

/// A vote on a transaction that was created before the settings last changed
/// is refused as stale, whatever else holds of it; and so is its execution.
pub proof fn lemma_stale_is_refused(
    p: ProposalView,
    s: SettingsView,
    voter: Pubkey,
    vote: Vote,
    executor: Pubkey,
    now: i64,
)
    requires
        s.is_stale(p.created_at_index),
    ensures
        vote_result(p, s, voter, vote, now) == Err::<ProposalView, SmartAccountError>(
            SmartAccountError::StaleProposal,
        ),
        execution_refusal(p, s, p.created_at_index, executor, now) == Some(
            SmartAccountError::StaleProposal,
        ),
{
}

} // verus!
