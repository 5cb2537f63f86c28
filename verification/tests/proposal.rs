use smart_account::errors::SmartAccountError;
use smart_account::keys::Pubkey;
use smart_account::permissions::{Permissions, SmartAccountSigner};
use smart_account::proposal::{
    activate_proposal, all_different, apart, approve_proposal, cancel_proposal, create_proposal,
    holds, reject_proposal, Proposal, ProposalStatus, Vote,
};
use smart_account::settings::Settings;

fn key(n: u8) -> Pubkey {
    Pubkey::new_from_array([n; 32])
}

fn signer(n: u8, mask: u8) -> SmartAccountSigner {
    SmartAccountSigner { key: key(n), permissions: Permissions { mask } }
}

fn settings(signers: Vec<SmartAccountSigner>, threshold: u16, time_lock: u32) -> Settings {
    Settings {
        seed: 1,
        settings_authority: Pubkey::default(),
        threshold,
        time_lock,
        transaction_index: 6,
        stale_transaction_index: 3,
        archival_authority: None,
        archivable_after: 0,
        bump: 255,
        signers,
        restricted_signers: vec![],
        account_utilization: 0,
        _reserved1: 0,
        _reserved2: 0,
    }
}

fn five() -> Settings {
    settings(
        vec![signer(1, 7), signer(2, 7), signer(3, 7), signer(4, 7), signer(5, 7), signer(6, 5)],
        3,
        0,
    )
}

fn sorted(list: &Vec<Pubkey>) -> Vec<Pubkey> {
    let mut v = list.clone();
    v.sort_by_key(|k| k.to_bytes());
    v
}

#[test]
fn a_new_proposal_is_active_or_a_draft() {
    let p = create_proposal(key(100), 5, 250, false);
    assert_eq!(p.status, ProposalStatus::Active);
    assert_eq!(p.settings, key(100));
    assert_eq!(p.created_at_index, 5);
    assert_eq!(p.bump, 250);
    assert!(p.approved.is_empty() && p.rejected.is_empty() && p.cancelled.is_empty());
    assert!(p.is_well_formed());
    let d = create_proposal(key(100), 5, 250, true);
    assert_eq!(d.status, ProposalStatus::Draft);
}

#[test]
fn drafts_are_activated_once() {
    let s = five();
    let mut p = create_proposal(key(100), 5, 250, true);
    assert_eq!(approve_proposal(&s, &mut p, &key(1), 10), Err(SmartAccountError::InvalidState));
    assert_eq!(activate_proposal(&mut p), Ok(()));
    assert_eq!(p.status, ProposalStatus::Active);
    assert_eq!(activate_proposal(&mut p), Err(SmartAccountError::InvalidState));
    assert_eq!(approve_proposal(&s, &mut p, &key(1), 10), Ok(()));
}

#[test]
fn approvals_fill_the_threshold() {
    let s = five();
    let mut p = create_proposal(key(100), 5, 250, false);
    assert_eq!(approve_proposal(&s, &mut p, &key(1), 10), Ok(()));
    assert_eq!(p.status, ProposalStatus::Active);
    assert_eq!(approve_proposal(&s, &mut p, &key(2), 11), Ok(()));
    assert_eq!(p.status, ProposalStatus::Active);
    assert_eq!(approve_proposal(&s, &mut p, &key(3), 12), Ok(()));
    assert_eq!(p.status, ProposalStatus::Approved);
    assert_eq!(p.approved_at, 12);
    assert_eq!(sorted(&p.approved), vec![key(1), key(2), key(3)]);
    // approved: no more approvals or rejections
    assert_eq!(approve_proposal(&s, &mut p, &key(4), 13), Err(SmartAccountError::InvalidState));
    assert_eq!(reject_proposal(&s, &mut p, &key(4), 13), Err(SmartAccountError::InvalidState));
    assert_eq!(p.approved.len(), 3);
}

#[test]
fn approving_twice_counts_once() {
    let s = five();
    let mut p = create_proposal(key(100), 5, 250, false);
    assert_eq!(approve_proposal(&s, &mut p, &key(1), 10), Ok(()));
    assert_eq!(approve_proposal(&s, &mut p, &key(1), 11), Ok(()));
    assert_eq!(approve_proposal(&s, &mut p, &key(1), 12), Ok(()));
    assert_eq!(p.approved, vec![key(1)]);
    assert_eq!(p.status, ProposalStatus::Active);
}

#[test]
fn rejection_as_soon_as_approval_is_out_of_reach() {
    // five voters, threshold three: three rejections leave two possible approvals
    let s = five();
    let mut p = create_proposal(key(100), 5, 250, false);
    assert_eq!(reject_proposal(&s, &mut p, &key(1), 10), Ok(()));
    assert_eq!(p.status, ProposalStatus::Active);
    assert_eq!(reject_proposal(&s, &mut p, &key(2), 10), Ok(()));
    assert_eq!(p.status, ProposalStatus::Active);
    assert_eq!(reject_proposal(&s, &mut p, &key(3), 10), Ok(()));
    assert_eq!(p.status, ProposalStatus::Rejected);
    assert_eq!(sorted(&p.rejected), vec![key(1), key(2), key(3)]);
}

#[test]
fn a_vote_moves_with_its_voter() {
    let s = five();
    let mut p = create_proposal(key(100), 5, 250, false);
    assert_eq!(approve_proposal(&s, &mut p, &key(1), 10), Ok(()));
    assert_eq!(reject_proposal(&s, &mut p, &key(1), 11), Ok(()));
    assert_eq!(p.approved, Vec::<Pubkey>::new());
    assert_eq!(p.rejected, vec![key(1)]);
    assert_eq!(p.cancelled, Vec::<Pubkey>::new());
    assert_eq!(approve_proposal(&s, &mut p, &key(1), 12), Ok(()));
    assert_eq!(p.approved, vec![key(1)]);
    assert_eq!(p.rejected, Vec::<Pubkey>::new());
    assert!(p.is_well_formed());
}

#[test]
fn only_voters_vote() {
    let s = five();
    let mut p = create_proposal(key(100), 5, 250, false);
    // a signer without the permission to vote
    assert_eq!(approve_proposal(&s, &mut p, &key(6), 10), Err(SmartAccountError::Unauthorized));
    // no signer at all
    assert_eq!(reject_proposal(&s, &mut p, &key(9), 10), Err(SmartAccountError::Unauthorized));
    assert!(p.approved.is_empty() && p.rejected.is_empty());
    assert_eq!(p.status, ProposalStatus::Active);
}

#[test]
fn cancelling_an_approved_proposal() {
    let s = settings(vec![signer(1, 7), signer(2, 7), signer(3, 7)], 2, 0);
    let mut p = create_proposal(key(100), 5, 250, false);
    assert_eq!(cancel_proposal(&s, &mut p, &key(1), 9), Err(SmartAccountError::InvalidState));
    assert_eq!(approve_proposal(&s, &mut p, &key(1), 10), Ok(()));
    assert_eq!(approve_proposal(&s, &mut p, &key(2), 10), Ok(()));
    assert_eq!(p.status, ProposalStatus::Approved);
    assert_eq!(cancel_proposal(&s, &mut p, &key(3), 11), Ok(()));
    assert_eq!(p.status, ProposalStatus::Approved);
    assert_eq!(p.cancelled, vec![key(3)]);
    assert_eq!(cancel_proposal(&s, &mut p, &key(1), 12), Ok(()));
    assert_eq!(p.status, ProposalStatus::Cancelled);
    assert_eq!(p.approved, vec![key(2)]);
    assert_eq!(sorted(&p.cancelled), vec![key(1), key(3)]);
    assert_eq!(p.approved_at, 10);
}

#[test]
fn terminal_proposals_take_no_vote() {
    let s = five();
    for status in [ProposalStatus::Rejected, ProposalStatus::Cancelled, ProposalStatus::Executed] {
        for vote in [Vote::Approve, Vote::Reject, Vote::Cancel] {
            let mut p = create_proposal(key(100), 5, 250, false);
            p.status = status;
            assert!(status.terminal());
            assert_eq!(p.vote(&s, &key(1), vote, 10), Err(SmartAccountError::InvalidState));
            assert_eq!(p.status, status);
            assert!(p.approved.is_empty() && p.rejected.is_empty() && p.cancelled.is_empty());
        }
    }
    assert!(!ProposalStatus::Draft.terminal());
    assert!(!ProposalStatus::Active.terminal());
    assert!(!ProposalStatus::Approved.terminal());
}

#[test]
fn stale_proposals_take_no_vote() {
    let s = five();
    let mut p = create_proposal(key(100), 2, 250, false);
    assert_eq!(approve_proposal(&s, &mut p, &key(1), 10), Err(SmartAccountError::StaleProposal));
    // stale comes before everything else: an unknown voter, a wrong state
    assert_eq!(reject_proposal(&s, &mut p, &key(9), 10), Err(SmartAccountError::StaleProposal));
    p.status = ProposalStatus::Approved;
    assert_eq!(cancel_proposal(&s, &mut p, &key(1), 10), Err(SmartAccountError::StaleProposal));
    assert_eq!(approve_proposal(&s, &mut p, &key(1), 10), Err(SmartAccountError::StaleProposal));
    // at the cursor itself a transaction is not stale
    let mut q = create_proposal(key(100), 3, 250, false);
    assert_eq!(approve_proposal(&s, &mut q, &key(1), 10), Ok(()));
}

#[test]
fn time_lock_gates_execution() {
    let s = settings(vec![signer(1, 7)], 1, 100);
    let mut p = create_proposal(key(100), 5, 250, false);
    assert_eq!(p.check_executable(&s, 5, &key(1), 1_000), Err(SmartAccountError::InvalidState));
    assert_eq!(approve_proposal(&s, &mut p, &key(1), 1_000), Ok(()));
    assert_eq!(p.status, ProposalStatus::Approved);
    assert_eq!(p.check_executable(&s, 5, &key(1), 1_000), Err(SmartAccountError::TimeLockNotElapsed));
    assert_eq!(p.check_executable(&s, 5, &key(1), 1_099), Err(SmartAccountError::TimeLockNotElapsed));
    assert_eq!(p.check_executable(&s, 5, &key(1), 1_100), Ok(()));
    assert_eq!(p.check_executable(&s, 2, &key(1), 1_100), Err(SmartAccountError::StaleProposal));
    // no overflow at the end of time
    p.approved_at = i64::MAX;
    assert_eq!(p.check_executable(&s, 5, &key(1), i64::MAX), Err(SmartAccountError::TimeLockNotElapsed));
}

#[test]
fn closing_waits_for_the_end_or_for_staleness() {
    let s = five();
    let mut p = create_proposal(key(100), 5, 250, false);
    assert!(!p.may_close(&s, 5));
    assert!(p.may_close(&s, 2));
    p.status = ProposalStatus::Approved;
    assert!(!p.may_close(&s, 5));
    assert!(!p.may_close(&s, 2));
    for status in [ProposalStatus::Rejected, ProposalStatus::Cancelled, ProposalStatus::Executed] {
        p.status = status;
        assert!(p.may_close(&s, 5));
    }
}

#[test]
fn well_formedness_is_checked() {
    let mut p: Proposal = create_proposal(key(100), 5, 250, false);
    p.approved = vec![key(1), key(2)];
    p.rejected = vec![key(3)];
    assert!(p.is_well_formed());
    p.rejected = vec![key(2)];
    assert!(!p.is_well_formed());
    p.rejected = vec![key(3), key(3)];
    assert!(!p.is_well_formed());
    assert!(all_different(&vec![key(1), key(2), key(3)]));
    assert!(!all_different(&vec![key(1), key(2), key(1)]));
    assert!(apart(&vec![key(1)], &vec![key(2)]));
    assert!(!apart(&vec![key(1), key(2)], &vec![key(2)]));
    assert!(holds(&vec![key(1), key(2)], &key(2)));
    assert!(!holds(&vec![key(1), key(2)], &key(3)));
}
