use smart_account::addresses::vault_signer;
use smart_account::errors::SmartAccountError;
use smart_account::keys::Pubkey;
use smart_account::permissions::{Permissions, SmartAccountSigner};
use smart_account::settings::Settings;
use smart_account::settings_transaction::SettingsAction;
use smart_account::synchronous::{
    check_consensus, count_distinct, execute_settings_transaction_sync, execute_transaction_sync,
};

fn key(n: u8) -> Pubkey {
    Pubkey::new_from_array([n; 32])
}

fn settings(time_lock: u32) -> Settings {
    Settings {
        seed: 1,
        settings_authority: Pubkey::default(),
        threshold: 2,
        time_lock,
        transaction_index: 5,
        stale_transaction_index: 1,
        archival_authority: None,
        archivable_after: 0,
        bump: 255,
        signers: vec![
            SmartAccountSigner { key: key(1), permissions: Permissions { mask: 7 } },
            SmartAccountSigner { key: key(2), permissions: Permissions { mask: 7 } },
            SmartAccountSigner { key: key(3), permissions: Permissions { mask: 7 } },
            SmartAccountSigner { key: key(4), permissions: Permissions { mask: 5 } },
        ],
        restricted_signers: vec![],
        account_utilization: 0,
        _reserved1: 0,
        _reserved2: 0,
    }
}

#[test]
fn distinct_keys_are_counted_once() {
    assert_eq!(count_distinct(&vec![]), 0);
    assert_eq!(count_distinct(&vec![key(1), key(2), key(1), key(1), key(3), key(2)]), 3);
}

#[test]
fn enough_eligible_signers_carry_the_call() {
    let s = settings(0);
    let order =
        execute_transaction_sync(&s, key(100), &vec![key(1), key(3)], 6, &vec![4, 5], &key(77))
            .unwrap();
    assert_eq!(order.settings, key(100));
    assert_eq!(order.account_index, 6);
    assert_eq!(order.message, vec![4, 5]);
    assert_eq!(Some((order.signer, order.signer_bump)), vault_signer(&key(100), 6, &key(77)));
    assert_eq!(check_consensus(&s, &vec![key(1), key(2), key(3)]), Ok(()));
}

#[test]
fn every_co_signer_must_be_eligible() {
    let s = settings(0);
    // a key that is no signer
    assert_eq!(
        check_consensus(&s, &vec![key(1), key(2), key(9)]),
        Err(SmartAccountError::Unauthorized)
    );
    // a signer that may not vote
    assert_eq!(
        check_consensus(&s, &vec![key(1), key(2), key(4)]),
        Err(SmartAccountError::Unauthorized)
    );
}

#[test]
fn the_threshold_counts_different_signers() {
    let s = settings(0);
    assert_eq!(check_consensus(&s, &vec![key(1)]), Err(SmartAccountError::ThresholdNotMet));
    assert_eq!(check_consensus(&s, &vec![]), Err(SmartAccountError::ThresholdNotMet));
    assert_eq!(
        check_consensus(&s, &vec![key(1), key(1), key(1)]),
        Err(SmartAccountError::ThresholdNotMet)
    );
    let r = execute_transaction_sync(&s, key(100), &vec![key(2), key(2)], 0, &vec![1], &key(77));
    assert_eq!(r.err(), Some(SmartAccountError::ThresholdNotMet));
}

#[test]
fn a_time_lock_rules_immediate_execution_out() {
    let s = settings(1);
    assert_eq!(
        check_consensus(&s, &vec![key(1), key(2)]),
        Err(SmartAccountError::TimeLockNotElapsed)
    );
}

#[test]
fn settings_change_at_once() {
    let mut s = settings(0);
    let actions = vec![
        SettingsAction::RemoveSigner { old_signer: key(4) },
        SettingsAction::ChangeThreshold { new_threshold: 3 },
    ];
    assert_eq!(execute_settings_transaction_sync(&mut s, &vec![key(1), key(2)], &actions), Ok(()));
    assert_eq!(s.signers.len(), 3);
    assert_eq!(s.threshold, 3);
    // no transaction was created, and all earlier ones are stale
    assert_eq!(s.transaction_index, 5);
    assert_eq!(s.stale_transaction_index, 5);
}

#[test]
fn a_refused_change_leaves_the_settings() {
    let mut s = settings(0);
    let actions = vec![
        SettingsAction::SetTimeLock { new_time_lock: 9 },
        SettingsAction::ChangeThreshold { new_threshold: 4 },
    ];
    assert_eq!(
        execute_settings_transaction_sync(&mut s, &vec![key(1), key(2)], &actions),
        Err(SmartAccountError::InvalidConfiguration)
    );
    assert_eq!(
        execute_settings_transaction_sync(&mut s, &vec![key(1)], &actions),
        Err(SmartAccountError::ThresholdNotMet)
    );
    assert_eq!(
        execute_settings_transaction_sync(&mut s, &vec![key(1), key(8)], &actions),
        Err(SmartAccountError::Unauthorized)
    );
    assert_eq!(s.time_lock, 0);
    assert_eq!(s.threshold, 2);
    assert_eq!(s.stale_transaction_index, 1);
}
