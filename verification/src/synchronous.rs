//! Synchronous execution: one call that carries the operation and every
//! signer behind it, with no transaction or proposal left behind.

use vstd::prelude::*;
use crate::errors::SmartAccountError;
use crate::keys::Pubkey;
use crate::proposal::put_in;
use crate::settings::{apply_actions, is_eligible_voter, Settings, SettingsView};
use crate::settings_transaction::SettingsAction;
use crate::transaction::{dispatch_for, has_signer, is_order, Dispatch};

verus! {

/// Every one of the keys is a signer who may vote.
pub open spec fn all_eligible(s: SettingsView, signers: Seq<Pubkey>) -> bool {
    forall|i: int| 0 <= i < signers.len() ==> is_eligible_voter(s.signers, #[trigger] signers[i])
}

/// Why the co-signers do not carry a synchronous operation, if so:
/// `Unauthorized` unless each is a signer who may vote; else
/// `ThresholdNotMet` unless as many different keys as the threshold asks
/// have signed; else `TimeLockNotElapsed` if the settings set a time lock,
/// which an immediate execution cannot wait for.
pub open spec fn sync_refusal(s: SettingsView, signers: Seq<Pubkey>) -> Option<SmartAccountError> {
    if !all_eligible(s, signers) {
        Some(SmartAccountError::Unauthorized)
    } else if signers.to_set().len() < s.threshold {
        Some(SmartAccountError::ThresholdNotMet)
    } else if s.time_lock != 0 {
        Some(SmartAccountError::TimeLockNotElapsed)
    } else {
        None
    }
}

/// What a synchronous change of the settings comes to: refused as
/// `sync_refusal` says; else `InvalidConfiguration` if an action is refused;
/// else the settings after all actions, with every transaction created so
/// far stale.
pub open spec fn sync_settings_execution(
    s: SettingsView,
    signers: Seq<Pubkey>,
    actions: Seq<SettingsAction>,
) -> Result<SettingsView, SmartAccountError> {
    match sync_refusal(s, signers) {
        Some(e) => Err(e),
        None => match apply_actions(s, actions) {
            None => Err(SmartAccountError::InvalidConfiguration),
            Some(edited) => Ok(
                SettingsView { stale_transaction_index: edited.transaction_index, ..edited },
            ),
        },
    }
}

/// How many different keys the list holds.
pub fn count_distinct(keys: &Vec<Pubkey>) -> (n: usize)
    ensures
        n == keys@.to_set().len(),
{
    let mut seen: Vec<Pubkey> = Vec::new();
    let mut i: usize = 0;
    assert(keys@.take(0).to_set() =~= seen@.to_set());
    while i < keys.len()
        invariant
            i <= keys.len(),
            seen@.no_duplicates(),
            seen@.to_set() == keys@.take(i as int).to_set(),
        decreases keys.len() - i,
    {
        put_in(&mut seen, keys[i]);
        proof {
            let pre = keys@.take(i as int);
            let cur = keys@.take(i + 1);
            assert forall|x: Pubkey| cur.to_set().contains(x) == pre.to_set().insert(
                keys@[i as int],
            ).contains(x) by {
                if cur.contains(x) {
                    let j = choose|j: int| 0 <= j < cur.len() && cur[j] == x;
                    if j < i {
                        assert(pre[j] == x);
                    }
                }
                if pre.contains(x) {
                    let j = choose|j: int| 0 <= j < pre.len() && pre[j] == x;
                    assert(cur[j] == x);
                }
                if x == keys@[i as int] {
                    assert(cur[i as int] == x);
                }
            }
            assert(cur.to_set() =~= pre.to_set().insert(keys@[i as int]));
        }
        i += 1;
    }
    proof {
        assert(keys@.take(i as int) =~= keys@);
        seen@.unique_seq_to_set();
    }
    seen.len()
}

/// Whether the co-signers carry a synchronous operation; the error says why
/// not.
pub fn check_consensus(settings: &Settings, signers: &Vec<Pubkey>) -> (r: Result<
    (),
    SmartAccountError,
>)
    ensures
        match r {
            Ok(()) => sync_refusal(settings@, signers@) is None,
            Err(e) => sync_refusal(settings@, signers@) == Some(e),
        },
{
    let mut i: usize = 0;
    while i < signers.len()
        invariant
            i <= signers.len(),
            forall|j: int| 0 <= j < i ==> is_eligible_voter(settings.signers@, #[trigger] signers@[j]),
        decreases signers.len() - i,
    {
        if !settings.is_voter(&signers[i]) {
            return Err(SmartAccountError::Unauthorized);
        }
        i += 1;
    }
    if count_distinct(signers) < settings.threshold as usize {
        return Err(SmartAccountError::ThresholdNotMet);
    }
    if settings.time_lock != 0 {
        return Err(SmartAccountError::TimeLockNotElapsed);
    }
    Ok(())
}

/// Authorizes a list of calls that the co-signers make at once: gives the
/// order to make them as sub-account `account_index`. No record is created
/// or changed. `InvalidAccount` if the sub-account has no identity to sign
/// with.
pub fn execute_transaction_sync(
    settings: &Settings,
    settings_key: Pubkey,
    signers: &Vec<Pubkey>,
    account_index: u8,
    message: &Vec<u8>,
    program_id: &Pubkey,
) -> (r: Result<Dispatch, SmartAccountError>)
    ensures
        match r {
            Ok(order) => {
                &&& sync_refusal(settings@, signers@) is None
                &&& is_order(order, settings_key, account_index, *program_id, message@)
            },
            Err(e) => match sync_refusal(settings@, signers@) {
                Some(refusal) => e == refusal,
                None => e == SmartAccountError::InvalidAccount && !has_signer(
                    settings_key,
                    account_index,
                    *program_id,
                ),
            },
        },
{
    match check_consensus(settings, signers) {
        Err(e) => Err(e),
        Ok(()) => dispatch_for(settings_key, account_index, message, program_id),
    }
}

/// Changes the settings at once in the name of the co-signers: all of the
/// actions or none. On an error the settings are as they were.
pub fn execute_settings_transaction_sync(
    settings: &mut Settings,
    signers: &Vec<Pubkey>,
    actions: &Vec<SettingsAction>,
) -> (r: Result<(), SmartAccountError>)
    ensures
        match r {
            Ok(()) => sync_settings_execution(old(settings)@, signers@, actions@) == Ok::<
                SettingsView,
                SmartAccountError,
            >(final(settings)@),
            Err(e) => sync_settings_execution(old(settings)@, signers@, actions@) == Err::<
                SettingsView,
                SmartAccountError,
            >(e) && *final(settings) == *old(settings),
        },
{
    match check_consensus(settings, signers) {
        Err(e) => {
            return Err(e);
        },
        Ok(()) => {},
    }
    match settings.apply_all(actions) {
        Err(e) => {
            return Err(e);
        },
        Ok(()) => {},
    }
    settings.advance_stale_cursor();
    Ok(())
}

} // verus!
