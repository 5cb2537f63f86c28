use smart_account::errors::{CustomError, SmartAccountError};
use smart_account::instructions::{
    close_transaction_buffer, emergency_exit, CloseTransactionBuffer, RestrictedEmergencyExit,
};
use smart_account::keys::Pubkey;
use smart_account::permissions::{
    Permissions, RestrictedPermission, RestrictedPermissions, RestrictedSmartAccountSigner,
    SmartAccountSigner,
};
use smart_account::program_config::ProgramConfig;
use smart_account::proposal::{approve_proposal, cancel_proposal, create_proposal, ProposalStatus};
use smart_account::settings::Settings;
use smart_account::transaction::{
    close_transaction, create_transaction, create_transaction_from_buffer,
    create_transaction_from_buffer_with, dispatch_with, execute_transaction, transaction_dispatch,
    CreateTransactionArgs, DispatchOutcome,
};
use smart_account::transaction_buffer::TransactionBuffer;

fn key(n: u8) -> Pubkey {
    Pubkey::new_from_array([n; 32])
}

fn settings(time_lock: u32) -> Settings {
    Settings {
        seed: 1,
        settings_authority: Pubkey::default(),
        threshold: 2,
        time_lock,
        transaction_index: 0,
        stale_transaction_index: 0,
        archival_authority: None,
        archivable_after: 0,
        bump: 255,
        signers: [1u8, 2, 3]
            .iter()
            .map(|n| SmartAccountSigner { key: key(*n), permissions: Permissions { mask: 7 } })
            .collect(),
        restricted_signers: vec![
            RestrictedSmartAccountSigner {
                key: key(70),
                restricted_permissions: RestrictedPermissions { mask: 1 },
            },
            RestrictedSmartAccountSigner {
                key: key(71),
                restricted_permissions: RestrictedPermissions { mask: 0 },
            },
        ],
        account_utilization: 0,
        _reserved1: 0,
        _reserved2: 0,
    }
}

/// SHA-256 of the three bytes "abc".
const ABC_DIGEST: [u8; 32] = [
    0xba, 0x78, 0x16, 0xbf, 0x8f, 0x01, 0xcf, 0xea, 0x41, 0x41, 0x40, 0xde, 0x5d, 0xae, 0x22,
    0x23, 0xb0, 0x03, 0x61, 0xa3, 0x96, 0x17, 0x7a, 0x9c, 0xb4, 0x10, 0xff, 0x61, 0xf2, 0x00,
    0x15, 0xad,
];

#[test]
fn vault_transaction_from_creation_to_execution() {
    let mut s = settings(20);
    let args = CreateTransactionArgs { account_index: 2, transaction_message: vec![9, 8, 7] };
    let t = create_transaction(&mut s, key(100), key(1), key(60), 250, args).unwrap();
    assert_eq!(t.index, 0);
    assert_eq!(s.transaction_index, 1);
    assert_eq!(t.settings, key(100));
    assert_eq!(t.creator, key(1));
    assert_eq!(t.rent_collector, key(60));
    assert_eq!(t.account_index, 2);
    assert_eq!(t.message, vec![9, 8, 7]);

    let mut p = create_proposal(key(100), t.index, 249, false);
    assert_eq!(
        transaction_dispatch(&s, &p, &t, &key(1), 100, &key(77)).err(),
        Some(SmartAccountError::InvalidState)
    );
    assert_eq!(approve_proposal(&s, &mut p, &key(1), 100), Ok(()));
    assert_eq!(approve_proposal(&s, &mut p, &key(3), 100), Ok(()));
    assert_eq!(
        transaction_dispatch(&s, &p, &t, &key(1), 119, &key(77)).err(),
        Some(SmartAccountError::TimeLockNotElapsed)
    );
    let order = transaction_dispatch(&s, &p, &t, &key(1), 120, &key(77)).unwrap();
    assert_eq!(order.settings, key(100));
    assert_eq!(order.account_index, 2);
    assert_eq!(order.message, vec![9, 8, 7]);
    let (signer, bump) = solana_sdk::pubkey::Pubkey::find_program_address(
        &[b"smart_account", &[100u8; 32], b"smart_account", &[2u8]],
        &solana_sdk::pubkey::Pubkey::new_from_array([77u8; 32]),
    );
    assert_eq!(order.signer.to_bytes(), signer.to_bytes());
    assert_eq!(order.signer_bump, bump);

    // the calls fail: the execution fails, and the proposal is approved as before
    assert_eq!(
        execute_transaction(&s, &mut p, &t, &key(1), 120, DispatchOutcome::Failed),
        Err(SmartAccountError::ExecutionFailed)
    );
    assert_eq!(p.status, ProposalStatus::Approved);
    assert_eq!(p.approved, vec![key(1), key(3)]);
    assert_eq!(p.approved_at, 100);
    assert_eq!(close_transaction(&s, &p, &t), Err(SmartAccountError::InvalidState));
    assert_eq!(
        execute_transaction(&s, &mut p, &t, &key(1), 119, DispatchOutcome::Succeeded),
        Err(SmartAccountError::TimeLockNotElapsed)
    );
    assert_eq!(execute_transaction(&s, &mut p, &t, &key(1), 121, DispatchOutcome::Succeeded), Ok(()));
    assert_eq!(p.status, ProposalStatus::Executed);
    // at most once
    assert_eq!(
        execute_transaction(&s, &mut p, &t, &key(1), 122, DispatchOutcome::Succeeded),
        Err(SmartAccountError::InvalidState)
    );
    assert_eq!(close_transaction(&s, &p, &t), Ok(key(60)));
}

#[test]
fn a_failed_transaction_may_be_cancelled() {
    let mut s = settings(0);
    let args = CreateTransactionArgs { account_index: 0, transaction_message: vec![1] };
    let t = create_transaction(&mut s, key(100), key(1), key(60), 250, args).unwrap();
    let mut p = create_proposal(key(100), t.index, 249, false);
    assert_eq!(approve_proposal(&s, &mut p, &key(1), 100), Ok(()));
    assert_eq!(approve_proposal(&s, &mut p, &key(2), 100), Ok(()));
    assert_eq!(
        execute_transaction(&s, &mut p, &t, &key(1), 100, DispatchOutcome::Failed),
        Err(SmartAccountError::ExecutionFailed)
    );
    assert_eq!(p.status, ProposalStatus::Approved);
    assert_eq!(cancel_proposal(&s, &mut p, &key(1), 101), Ok(()));
    assert_eq!(cancel_proposal(&s, &mut p, &key(2), 101), Ok(()));
    assert_eq!(p.status, ProposalStatus::Cancelled);
    assert_eq!(
        execute_transaction(&s, &mut p, &t, &key(1), 102, DispatchOutcome::Succeeded),
        Err(SmartAccountError::InvalidState)
    );
    assert_eq!(close_transaction(&s, &p, &t), Ok(key(60)));
}

#[test]
fn stale_vault_transactions() {
    let mut s = settings(0);
    let args = CreateTransactionArgs { account_index: 0, transaction_message: vec![1] };
    let t = create_transaction(&mut s, key(100), key(1), key(60), 250, args).unwrap();
    let mut p = create_proposal(key(100), t.index, 249, false);
    assert_eq!(approve_proposal(&s, &mut p, &key(1), 100), Ok(()));
    s.advance_stale_cursor();
    // stale and active: closes
    assert_eq!(close_transaction(&s, &p, &t), Ok(key(60)));
    p.status = ProposalStatus::Approved;
    assert_eq!(
        execute_transaction(&s, &mut p, &t, &key(1), 100, DispatchOutcome::Succeeded),
        Err(SmartAccountError::StaleProposal)
    );
    assert_eq!(p.status, ProposalStatus::Approved);
    // stale and approved: stays
    assert_eq!(close_transaction(&s, &p, &t), Err(SmartAccountError::InvalidState));
}

#[test]
fn the_counter_stops_at_its_end() {
    let mut s = settings(0);
    s.transaction_index = u64::MAX;
    let args = CreateTransactionArgs { account_index: 0, transaction_message: vec![1] };
    let r = create_transaction(&mut s, key(100), key(1), key(60), 250, args);
    assert_eq!(r.err(), Some(SmartAccountError::ArithmeticOverflow));
    assert_eq!(s.transaction_index, u64::MAX);
}

#[test]
fn a_transaction_from_a_buffer_holds_the_staged_bytes() {
    let mut s = settings(0);
    let creator = key(1);
    let mut buffer = TransactionBuffer::create(key(100), creator, 0, 5, ABC_DIGEST, vec![b'a']);
    assert_eq!(buffer.extend(&creator, &vec![b'b', b'c']), Ok(()));
    let t =
        create_transaction_from_buffer(&mut s, key(100), buffer, &creator, key(60), 250).unwrap();
    assert_eq!(t.message, b"abc".to_vec());
    assert_eq!(t.account_index, 5);
    assert_eq!(t.creator, creator);
    assert_eq!(t.rent_collector, key(60));
    assert_eq!(t.index, 0);
    assert_eq!(s.transaction_index, 1);
}

#[test]
fn a_transaction_from_a_buffer_wants_creator_and_digest() {
    let mut s = settings(0);
    let creator = key(1);
    let buffer = TransactionBuffer::create(key(100), creator, 0, 5, ABC_DIGEST, b"abc".to_vec());
    let refused =
        create_transaction_from_buffer(&mut s, key(100), buffer, &key(2), key(60), 250).unwrap_err();
    assert_eq!(refused.error, SmartAccountError::Unauthorized);
    assert_eq!(refused.buffer.buffer, b"abc".to_vec());

    let buffer = TransactionBuffer::create(key(100), creator, 0, 5, ABC_DIGEST, b"abd".to_vec());
    let refused =
        create_transaction_from_buffer(&mut s, key(100), buffer, &creator, key(60), 250).unwrap_err();
    assert_eq!(refused.error, SmartAccountError::BufferHashMismatch);
    assert_eq!(s.transaction_index, 0);
    // the buffer comes back as it was, and can be closed or extended
    let mut back = refused.buffer;
    assert_eq!(back.buffer, b"abd".to_vec());
    assert_eq!(back.creator, creator);
    assert_eq!(back.settings, key(100));
    assert_eq!(back.buffer_index, 0);
    assert_eq!(back.account_index, 5);
    assert_eq!(back.final_buffer_hash, ABC_DIGEST);
    assert_eq!(back.extend(&creator, &vec![1]), Ok(()));
    assert_eq!(back.close(&creator), Ok(creator));

    // the digest handed in decides, not the bytes
    let buffer = TransactionBuffer::create(key(100), creator, 0, 5, ABC_DIGEST, b"abd".to_vec());
    let t = create_transaction_from_buffer_with(
        &mut s, key(100), buffer, &creator, key(60), 250, ABC_DIGEST,
    )
    .unwrap();
    assert_eq!(t.message, b"abd".to_vec());
    let buffer = TransactionBuffer::create(key(100), creator, 0, 5, ABC_DIGEST, b"abc".to_vec());
    let refused = create_transaction_from_buffer_with(
        &mut s, key(100), buffer, &creator, key(60), 250, [0u8; 32],
    )
    .unwrap_err();
    assert_eq!(refused.error, SmartAccountError::BufferHashMismatch);
    assert_eq!(refused.buffer.buffer, b"abc".to_vec());

    s.transaction_index = u64::MAX;
    let buffer = TransactionBuffer::create(key(100), creator, 0, 5, ABC_DIGEST, b"abc".to_vec());
    let refused =
        create_transaction_from_buffer(&mut s, key(100), buffer, &creator, key(60), 250).unwrap_err();
    assert_eq!(refused.error, SmartAccountError::ArithmeticOverflow);
    assert_eq!(refused.buffer.buffer, b"abc".to_vec());
    assert_eq!(s.transaction_index, u64::MAX);
}

#[test]
fn only_the_creator_extends_a_buffer() {
    let creator = key(1);
    let mut buffer = TransactionBuffer::create(key(100), creator, 0, 5, ABC_DIGEST, vec![1]);
    assert_eq!(buffer.extend(&key(2), &vec![2]), Err(SmartAccountError::Unauthorized));
    assert_eq!(buffer.buffer, vec![1]);
    assert_eq!(buffer.extend(&creator, &vec![]), Ok(()));
    assert_eq!(buffer.buffer, vec![1]);
    assert!(buffer.digest_matches(&ABC_DIGEST));
    assert!(!buffer.digest_matches(&[0u8; 32]));
    assert_eq!(buffer.finalize_with(ABC_DIGEST).unwrap(), vec![1]);
}

fn config(collector: Pubkey) -> ProgramConfig {
    ProgramConfig {
        smart_account_index: 0,
        authority: key(200),
        smart_account_creation_fee: 0,
        treasury: key(201),
        buffer_rent_collector: collector,
        _reserved: [0u8; 32],
    }
}

#[test]
fn closing_a_buffer() {
    let creator = key(1);
    let mut ctx = CloseTransactionBuffer {
        program_config: config(Pubkey::default()),
        transaction_buffer: TransactionBuffer::create(key(100), creator, 0, 5, ABC_DIGEST, vec![1]),
        creator,
        buffer_rent_collector: key(201),
    };
    assert_eq!(ctx.validate(), Ok(()));
    assert_eq!(close_transaction_buffer(&ctx), Ok(creator));
    ctx.buffer_rent_collector = key(202);
    assert_eq!(ctx.validate(), Err(SmartAccountError::InvalidAccount));
    ctx.program_config = config(key(202));
    assert_eq!(ctx.validate(), Ok(()));
    ctx.creator = key(2);
    assert_eq!(close_transaction_buffer(&ctx), Err(SmartAccountError::Unauthorized));
}

#[test]
fn emergency_exit_is_for_restricted_signers_with_the_capability() {
    assert_eq!(RestrictedPermission::EmergencyExit.mask(), 1);
    let mut ctx = RestrictedEmergencyExit { settings: settings(0), restricted_signer: key(70) };
    assert_eq!(emergency_exit(&ctx), Ok(()));
    // a restricted signer without the capability
    ctx.restricted_signer = key(71);
    assert_eq!(emergency_exit(&ctx), Err(CustomError::UnauthorizedRestrictedSigner));
    // an ordinary signer
    ctx.restricted_signer = key(1);
    assert_eq!(emergency_exit(&ctx), Err(CustomError::UnauthorizedRestrictedSigner));
}

#[test]
fn an_order_wants_an_identity_to_sign_with() {
    let order = dispatch_with(key(100), 3, &vec![1, 2], Some((key(55), 254))).unwrap();
    assert_eq!(order.settings, key(100));
    assert_eq!(order.account_index, 3);
    assert_eq!(order.signer, key(55));
    assert_eq!(order.signer_bump, 254);
    assert_eq!(order.message, vec![1, 2]);
    assert_eq!(
        dispatch_with(key(100), 3, &vec![1, 2], None).err(),
        Some(SmartAccountError::InvalidAccount)
    );
}

fn mixed() -> Settings {
    // key 1 may propose and vote, key 2 may vote, key 3 may vote and execute
    let mut s = settings(0);
    s.signers[0].permissions = Permissions { mask: 3 };
    s.signers[1].permissions = Permissions { mask: 2 };
    s.signers[2].permissions = Permissions { mask: 6 };
    s
}

#[test]
fn only_a_signer_who_may_propose_creates() {
    let mut s = mixed();
    for creator in [2u8, 3, 9] {
        let args = CreateTransactionArgs { account_index: 0, transaction_message: vec![1] };
        let r = create_transaction(&mut s, key(100), key(creator), key(60), 250, args);
        assert_eq!(r.err(), Some(SmartAccountError::Unauthorized));
        let r = smart_account::settings_transaction::create_settings_transaction(
            &mut s, key(100), key(creator), key(60), 250, vec![],
        );
        assert_eq!(r.err(), Some(SmartAccountError::Unauthorized));
        let r = smart_account::batch::create_batch(
            &mut s, key(100), key(creator), key(60), 250, 249, 0,
        );
        assert_eq!(r.err(), Some(SmartAccountError::Unauthorized));
        let buffer =
            TransactionBuffer::create(key(100), key(creator), 0, 5, ABC_DIGEST, b"abc".to_vec());
        let refused = create_transaction_from_buffer(
            &mut s, key(100), buffer, &key(creator), key(60), 250,
        )
        .unwrap_err();
        assert_eq!(refused.error, SmartAccountError::Unauthorized);
        assert_eq!(refused.buffer.buffer, b"abc".to_vec());
    }
    assert_eq!(s.transaction_index, 0);
    let args = CreateTransactionArgs { account_index: 0, transaction_message: vec![1] };
    assert_eq!(create_transaction(&mut s, key(100), key(1), key(60), 250, args).unwrap().index, 0);
    assert_eq!(s.transaction_index, 1);
}

#[test]
fn only_a_signer_who_may_execute_executes() {
    let mut s = mixed();
    let args = CreateTransactionArgs { account_index: 0, transaction_message: vec![1] };
    let t = create_transaction(&mut s, key(100), key(1), key(60), 250, args).unwrap();
    let mut p = create_proposal(key(100), t.index, 249, false);
    // not approved yet: the permission is asked for before the state
    assert_eq!(
        execute_transaction(&s, &mut p, &t, &key(1), 100, DispatchOutcome::Succeeded),
        Err(SmartAccountError::Unauthorized)
    );
    assert_eq!(
        execute_transaction(&s, &mut p, &t, &key(3), 100, DispatchOutcome::Succeeded),
        Err(SmartAccountError::InvalidState)
    );
    assert_eq!(approve_proposal(&s, &mut p, &key(1), 100), Ok(()));
    assert_eq!(approve_proposal(&s, &mut p, &key(2), 100), Ok(()));
    for executor in [1u8, 2, 9] {
        assert_eq!(
            execute_transaction(&s, &mut p, &t, &key(executor), 100, DispatchOutcome::Succeeded),
            Err(SmartAccountError::Unauthorized)
        );
        assert_eq!(
            transaction_dispatch(&s, &p, &t, &key(executor), 100, &key(77)).err(),
            Some(SmartAccountError::Unauthorized)
        );
    }
    assert_eq!(p.status, ProposalStatus::Approved);
    assert!(transaction_dispatch(&s, &p, &t, &key(3), 100, &key(77)).is_ok());
    assert_eq!(
        execute_transaction(&s, &mut p, &t, &key(3), 100, DispatchOutcome::Succeeded),
        Ok(())
    );
    assert_eq!(p.status, ProposalStatus::Executed);
}

#[test]
fn staleness_comes_before_the_executor() {
    let mut s = mixed();
    let args = CreateTransactionArgs { account_index: 0, transaction_message: vec![1] };
    let t = create_transaction(&mut s, key(100), key(1), key(60), 250, args).unwrap();
    let mut p = create_proposal(key(100), t.index, 249, false);
    s.advance_stale_cursor();
    assert_eq!(
        execute_transaction(&s, &mut p, &t, &key(9), 100, DispatchOutcome::Succeeded),
        Err(SmartAccountError::StaleProposal)
    );
}

#[test]
fn only_a_signer_who_may_execute_changes_the_settings() {
    let mut s = mixed();
    let t = smart_account::settings_transaction::create_settings_transaction(
        &mut s,
        key(100),
        key(1),
        key(60),
        250,
        vec![smart_account::settings_transaction::SettingsAction::SetTimeLock { new_time_lock: 9 }],
    )
    .unwrap();
    let mut p = create_proposal(key(100), t.index, 249, false);
    assert_eq!(approve_proposal(&s, &mut p, &key(1), 100), Ok(()));
    assert_eq!(approve_proposal(&s, &mut p, &key(2), 100), Ok(()));
    assert_eq!(
        smart_account::settings_transaction::execute_settings_transaction(
            &mut s, &mut p, &t, &key(2), 100,
        ),
        Err(SmartAccountError::Unauthorized)
    );
    assert_eq!(s.time_lock, 0);
    assert_eq!(p.status, ProposalStatus::Approved);
    assert_eq!(
        smart_account::settings_transaction::execute_settings_transaction(
            &mut s, &mut p, &t, &key(3), 100,
        ),
        Ok(())
    );
    assert_eq!(s.time_lock, 9);
}
