//! The settings of a smart account: who may sign, how many approvals an
//! operation needs, and the counters that date transactions.

use vstd::prelude::*;
use crate::copying::copy_of;
use crate::errors::SmartAccountError;
use crate::keys::{
    lemma_lt_asymmetric,
    lemma_lt_irreflexive,
    lemma_lt_total,
    lemma_lt_transitive,
    Pubkey,
};
use crate::permissions::{Permission, RestrictedSmartAccountSigner, SmartAccountSigner};
use crate::settings_transaction::SettingsAction;

verus! {

/// Whether a signer may vote.
pub open spec fn is_voter(signer: SmartAccountSigner) -> bool {
    signer.permissions.allows(Permission::Vote)
}

/// How many of the signers may vote.
pub open spec fn num_voters(signers: Seq<SmartAccountSigner>) -> nat
    decreases signers.len(),
{
    if signers.len() == 0 {
        0
    } else {
        num_voters(signers.drop_last()) + if is_voter(signers.last()) {
            1nat
        } else {
            0nat
        }
    }
}

/// The signers stand in strictly ascending order of their keys, so no key
/// occurs twice.
pub open spec fn keys_ascending(signers: Seq<SmartAccountSigner>) -> bool {
    forall|i: int, j: int| 0 <= i < j < signers.len() ==> signers[i].key.lt(signers[j].key)
}

/// Whether some signer has the key.
pub open spec fn has_key(signers: Seq<SmartAccountSigner>, key: Pubkey) -> bool {
    exists|i: int| 0 <= i < signers.len() && signers[i].key == key
}

/// Whether some signer has the key and the permission.
pub open spec fn holds_permission(
    signers: Seq<SmartAccountSigner>,
    key: Pubkey,
    permission: Permission,
) -> bool {
    exists|i: int|
        0 <= i < signers.len() && signers[i].key == key && signers[i].permissions.allows(
            permission,
        )
}

/// Whether some signer has the key and may vote.
pub open spec fn is_eligible_voter(signers: Seq<SmartAccountSigner>, key: Pubkey) -> bool {
    exists|i: int| 0 <= i < signers.len() && signers[i].key == key && is_voter(signers[i])
}

/// How many of the signers have a key before `key`.
pub open spec fn rank(signers: Seq<SmartAccountSigner>, key: Pubkey) -> nat
    decreases signers.len(),
{
    if signers.len() == 0 {
        0
    } else {
        rank(signers.drop_last(), key) + if signers.last().key.lt(key) {
            1nat
        } else {
            0nat
        }
    }
}

/// The signers but those with the key, in their order.
pub open spec fn without_key(signers: Seq<SmartAccountSigner>, key: Pubkey) -> Seq<
    SmartAccountSigner,
>
    decreases signers.len(),
{
    if signers.len() == 0 {
        signers
    } else if signers.last().key == key {
        without_key(signers.drop_last(), key)
    } else {
        without_key(signers.drop_last(), key).push(signers.last())
    }
}

/// The signer policy is valid: there is a signer, the keys ascend strictly,
/// and the threshold is at least one and at most the number of voters.
pub open spec fn policy_valid(signers: Seq<SmartAccountSigner>, threshold: u16) -> bool {
    &&& signers.len() > 0
    &&& keys_ascending(signers)
    &&& 1 <= threshold
    &&& threshold <= num_voters(signers)
}

/// What a settings record holds, with its lists as sequences.
pub struct SettingsView {
    pub seed: u128,
    pub settings_authority: Pubkey,
    pub threshold: u16,
    pub time_lock: u32,
    pub transaction_index: u64,
    pub stale_transaction_index: u64,
    pub archival_authority: Option<Pubkey>,
    pub archivable_after: u64,
    pub bump: u8,
    pub signers: Seq<SmartAccountSigner>,
    pub restricted_signers: Seq<RestrictedSmartAccountSigner>,
    pub account_utilization: u8,
    pub reserved1: u8,
    pub reserved2: u8,
}

impl SettingsView {
    /// The invariant of every stored settings record.
    pub open spec fn valid(self) -> bool {
        policy_valid(self.signers, self.threshold)
    }

    /// A transaction stamped with `index` was created before these settings
    /// last changed.
    pub open spec fn is_stale(self, index: u64) -> bool {
        index < self.stale_transaction_index
    }

    /// The number of rejections from which approval is out of reach: with
    /// that many voters against, those left cannot fill the threshold.
    pub open spec fn cutoff(self) -> int {
        num_voters(self.signers) - self.threshold + 1
    }
}

/// What stamping a new transaction for `creator` comes to: `Unauthorized`
/// unless the creator is a signer who may propose; else `ArithmeticOverflow`
/// if the transaction counter is at its end; else the stamp, which is the
/// counter.
pub open spec fn stamping(s: SettingsView, creator: Pubkey) -> Result<u64, SmartAccountError> {
    if !holds_permission(s.signers, creator, Permission::Initiate) {
        Err(SmartAccountError::Unauthorized)
    } else if s.transaction_index == u64::MAX {
        Err(SmartAccountError::ArithmeticOverflow)
    } else {
        Ok(s.transaction_index)
    }
}

/// The settings after a transaction has been stamped: the counter has moved
/// on by one.
pub open spec fn stamped(s: SettingsView) -> SettingsView {
    SettingsView { transaction_index: (s.transaction_index + 1) as u64, ..s }
}

/// A transaction is stamped exactly for a signer who may propose, as long as
/// the counter has not come to its end; whoever may not propose is refused
/// as unauthorized.
pub proof fn lemma_stamping(s: SettingsView, creator: Pubkey)
    ensures
        stamping(s, creator) is Ok <==> holds_permission(s.signers, creator, Permission::Initiate)
            && s.transaction_index < u64::MAX,
        !holds_permission(s.signers, creator, Permission::Initiate) ==> stamping(s, creator)
            == Err::<u64, SmartAccountError>(SmartAccountError::Unauthorized),
        stamping(s, creator) matches Ok(index) ==> index == s.transaction_index && stamped(
            s,
        ).transaction_index == index + 1,
{
}

/// The authorization policy of one smart account.
#[derive(Debug)]
pub struct Settings {
    /// The number this smart account was created under.
    pub seed: u128,
    /// The key that may reconfigure the account directly; all zero if none.
    pub settings_authority: Pubkey,
    /// How many approvals an operation needs.
    pub threshold: u16,
    /// Seconds that must pass between approval and execution.
    pub time_lock: u32,
    /// The stamp that the next transaction gets.
    pub transaction_index: u64,
    /// Transactions stamped below this are stale.
    pub stale_transaction_index: u64,
    pub archival_authority: Option<Pubkey>,
    pub archivable_after: u64,
    pub bump: u8,
    /// The signers, in ascending order of their keys.
    pub signers: Vec<SmartAccountSigner>,
    /// Keys with narrow capabilities outside the voting flow.
    pub restricted_signers: Vec<RestrictedSmartAccountSigner>,
    pub account_utilization: u8,
    pub _reserved1: u8,
    pub _reserved2: u8,
}

impl View for Settings {
    type V = SettingsView;

    open spec fn view(&self) -> SettingsView {
        SettingsView {
            seed: self.seed,
            settings_authority: self.settings_authority,
            threshold: self.threshold,
            time_lock: self.time_lock,
            transaction_index: self.transaction_index,
            stale_transaction_index: self.stale_transaction_index,
            archival_authority: self.archival_authority,
            archivable_after: self.archivable_after,
            bump: self.bump,
            signers: self.signers@,
            restricted_signers: self.restricted_signers@,
            account_utilization: self.account_utilization,
            reserved1: self._reserved1,
            reserved2: self._reserved2,
        }
    }
}

/// The number of voters among the signers.
pub fn count_voters(signers: &Vec<SmartAccountSigner>) -> (n: usize)
    ensures
        n == num_voters(signers@),
{
    let mut n: usize = 0;
    let mut i: usize = 0;
    while i < signers.len()
        invariant
            i <= signers.len(),
            n <= i,
            n == num_voters(signers@.take(i as int)),
        decreases signers.len() - i,
    {
        assert(signers@.take(i + 1).drop_last() =~= signers@.take(i as int));
        if signers[i].permissions.has(Permission::Vote) {
            n += 1;
        }
        i += 1;
    }
    assert(signers@.take(i as int) =~= signers@);
    n
}

/// Whether the keys of the signers ascend strictly.
pub fn keys_in_order(signers: &Vec<SmartAccountSigner>) -> (r: bool)
    ensures
        r == keys_ascending(signers@),
{
    if signers.len() < 2 {
        return true;
    }
    let mut i: usize = 1;
    while i < signers.len()
        invariant
            1 <= i <= signers.len(),
            keys_ascending(signers@.take(i as int)),
        decreases signers.len() - i,
    {
        if !signers[i - 1].key.precedes(&signers[i].key) {
            return false;
        }
        proof {
            let pre = signers@.take(i as int);
            let cur = signers@.take(i + 1);
            assert forall|a: int, b: int| 0 <= a < b < cur.len() implies cur[a].key.lt(
                cur[b].key,
            ) by {
                if b < i {
                    assert(pre[a].key.lt(pre[b].key));
                } else if a < i - 1 {
                    assert(pre[a].key.lt(pre[i - 1].key));
                    lemma_lt_transitive(cur[a].key, cur[i - 1].key, cur[b].key);
                }
            }
        }
        i += 1;
    }
    assert(signers@.take(i as int) =~= signers@);
    true
}

/// Whether signers and threshold make a valid policy.
pub fn check_policy(signers: &Vec<SmartAccountSigner>, threshold: u16) -> (r: bool)
    ensures
        r == policy_valid(signers@, threshold),
{
    if signers.len() == 0 || threshold == 0 {
        return false;
    }
    if !keys_in_order(signers) {
        return false;
    }
    let voters = count_voters(signers);
    threshold as usize <= voters
}

/// The settings as an action leaves them, before they are validated again.
/// A new signer goes where its key keeps the keys in order; a removed key
/// takes its signer with it; an action on a spending limit leaves the
/// settings as they are.
pub open spec fn applied(v: SettingsView, action: SettingsAction) -> SettingsView {
    match action {
        SettingsAction::AddSigner { new_signer } => SettingsView {
            signers: v.signers.insert(rank(v.signers, new_signer.key) as int, new_signer),
            ..v
        },
        SettingsAction::RemoveSigner { old_signer } => SettingsView {
            signers: without_key(v.signers, old_signer),
            ..v
        },
        SettingsAction::ChangeThreshold { new_threshold } => SettingsView {
            threshold: new_threshold,
            ..v
        },
        SettingsAction::SetTimeLock { new_time_lock } => SettingsView {
            time_lock: new_time_lock,
            ..v
        },
        SettingsAction::SetArchivalAuthority { new_archival_authority } => SettingsView {
            archival_authority: new_archival_authority,
            ..v
        },
        SettingsAction::AddSpendingLimit { .. } => v,
        SettingsAction::RemoveSpendingLimit { .. } => v,
    }
}

/// What applying one action gives: the edited settings if they are a valid
/// policy, `None` if they are not or if the action removes a key that no
/// signer has.
pub open spec fn apply_action(v: SettingsView, action: SettingsAction) -> Option<SettingsView> {
    if action matches SettingsAction::RemoveSigner { old_signer } && !has_key(
        v.signers,
        old_signer,
    ) {
        None
    } else if applied(v, action).valid() {
        Some(applied(v, action))
    } else {
        None
    }
}

/// What applying a list of actions in order gives: `None` as soon as one of
/// them is refused.
pub open spec fn apply_actions(v: SettingsView, actions: Seq<SettingsAction>) -> Option<
    SettingsView,
>
    decreases actions.len(),
{
    if actions.len() == 0 {
        Some(v)
    } else {
        match apply_actions(v, actions.drop_last()) {
            Some(mid) => apply_action(mid, actions.last()),
            None => None,
        }
    }
}

/// Settings that an action was applied to are a valid policy: there is a
/// signer, no key occurs twice, and the threshold is at least one and at
/// most the number of signers who may vote.
pub proof fn lemma_apply_keeps(v: SettingsView, action: SettingsAction)
    ensures
        apply_action(v, action) matches Some(w) ==> w.valid() && 1 <= w.threshold <= num_voters(
            w.signers,
        ),
{
}

/// Valid settings that a list of actions was applied to are a valid policy.
pub proof fn lemma_apply_actions_keep(v: SettingsView, actions: Seq<SettingsAction>)
    requires
        v.valid(),
    ensures
        apply_actions(v, actions) matches Some(w) ==> w.valid() && 1 <= w.threshold <= num_voters(
            w.signers,
        ),
    decreases actions.len(),
{
    if actions.len() > 0 {
        lemma_apply_actions_keep(v, actions.drop_last());
    }
}

/// Among signers in the order of their keys, those with a key before `key`
/// are the first `rank` of them.
pub proof fn lemma_rank_splits(signers: Seq<SmartAccountSigner>, key: Pubkey)
    requires
        keys_ascending(signers),
    ensures
        rank(signers, key) <= signers.len(),
        forall|i: int|
            0 <= i < signers.len() ==> (#[trigger] signers[i].key.lt(key) <==> i < rank(
                signers,
                key,
            )),
    decreases signers.len(),
{
    if signers.len() > 0 {
        let rest = signers.drop_last();
        let n = rest.len() as int;
        assert(keys_ascending(rest)) by {
            assert forall|i: int, j: int| 0 <= i < j < rest.len() implies rest[i].key.lt(
                rest[j].key,
            ) by {
                assert(signers[i].key.lt(signers[j].key));
            }
        }
        lemma_rank_splits(rest, key);
        if signers.last().key.lt(key) {
            assert forall|i: int| 0 <= i < n implies #[trigger] rest[i].key.lt(key) by {
                assert(signers[i].key.lt(signers[n].key));
                lemma_lt_transitive(signers[i].key, signers[n].key, key);
            }
            if rank(rest, key) < n {
                assert(rest[n - 1].key.lt(key));
            }
        }
        assert forall|i: int| 0 <= i < signers.len() implies (#[trigger] signers[i].key.lt(key)
            <==> i < rank(signers, key)) by {
            if i < n {
                assert(rest[i].key.lt(key) <==> i < rank(rest, key));
            }
        }
    }
}

/// A signer put in counts as a voter if it is one.
pub proof fn lemma_num_voters_insert(signers: Seq<SmartAccountSigner>, at: int, new: SmartAccountSigner)
    requires
        0 <= at <= signers.len(),
    ensures
        num_voters(signers.insert(at, new)) == num_voters(signers) + if is_voter(new) {
            1nat
        } else {
            0nat
        },
    decreases signers.len(),
{
    let longer = signers.insert(at, new);
    if at == signers.len() {
        assert(longer.drop_last() =~= signers);
    } else {
        assert(longer.drop_last() =~= signers.drop_last().insert(at, new));
        lemma_num_voters_insert(signers.drop_last(), at, new);
    }
}

/// A signer taken out no longer counts as a voter.
pub proof fn lemma_num_voters_remove(signers: Seq<SmartAccountSigner>, at: int)
    requires
        0 <= at < signers.len(),
    ensures
        num_voters(signers.remove(at)) + (if is_voter(signers[at]) {
            1nat
        } else {
            0nat
        }) == num_voters(signers),
    decreases signers.len(),
{
    let shorter = signers.remove(at);
    if at == signers.len() - 1 {
        assert(shorter =~= signers.drop_last());
    } else {
        assert(shorter.drop_last() =~= signers.drop_last().remove(at));
        lemma_num_voters_remove(signers.drop_last(), at);
    }
}

/// Taking out a key that no signer has takes out nothing.
pub proof fn lemma_without_absent(signers: Seq<SmartAccountSigner>, key: Pubkey)
    requires
        !has_key(signers, key),
    ensures
        without_key(signers, key) == signers,
    decreases signers.len(),
{
    if signers.len() > 0 {
        let n = signers.len() - 1;
        assert(signers[n].key != key);
        assert(!has_key(signers.drop_last(), key)) by {
            if has_key(signers.drop_last(), key) {
                let w = choose|w: int|
                    0 <= w < signers.drop_last().len() && signers.drop_last()[w].key == key;
                assert(signers[w].key == key);
            }
        }
        lemma_without_absent(signers.drop_last(), key);
        assert(signers.drop_last().push(signers.last()) =~= signers);
    }
}

/// Among signers with different keys, taking out a key takes out the one
/// signer that has it.
pub proof fn lemma_without_removes(signers: Seq<SmartAccountSigner>, key: Pubkey, at: int)
    requires
        keys_ascending(signers),
        0 <= at < signers.len(),
        signers[at].key == key,
    ensures
        without_key(signers, key) == signers.remove(at),
    decreases signers.len(),
{
    let n = signers.len() - 1;
    let rest = signers.drop_last();
    if at == n {
        assert(!has_key(rest, key)) by {
            if has_key(rest, key) {
                let w = choose|w: int| 0 <= w < rest.len() && rest[w].key == key;
                assert(signers[w].key.lt(signers[n].key));
                lemma_lt_irreflexive(key);
            }
        }
        lemma_without_absent(rest, key);
        assert(signers.remove(at) =~= rest);
    } else {
        assert(signers[at].key.lt(signers[n].key));
        lemma_lt_asymmetric(signers[at].key, signers[n].key);
        assert(keys_ascending(rest)) by {
            assert forall|i: int, j: int| 0 <= i < j < rest.len() implies rest[i].key.lt(
                rest[j].key,
            ) by {
                assert(signers[i].key.lt(signers[j].key));
            }
        }
        lemma_without_removes(rest, key, at);
        assert(rest.remove(at).push(signers.last()) =~= signers.remove(at));
    }
}

/// Adding a signer to valid settings goes through exactly if no signer has
/// its key; the signer then stands among the others, where its key belongs.
pub proof fn lemma_add_signer(v: SettingsView, new_signer: SmartAccountSigner)
    requires
        v.valid(),
    ensures
        apply_action(v, SettingsAction::AddSigner { new_signer }) is Some <==> !has_key(
            v.signers,
            new_signer.key,
        ),
        apply_action(v, SettingsAction::AddSigner { new_signer }) matches Some(w) ==> w.signers.len()
            == v.signers.len() + 1 && has_key(w.signers, new_signer.key) && w.threshold
            == v.threshold,
{
    let s = v.signers;
    let k = new_signer.key;
    let r = rank(s, k) as int;
    let t = s.insert(r, new_signer);
    lemma_rank_splits(s, k);
    lemma_num_voters_insert(s, r, new_signer);
    if has_key(s, k) {
        let j = choose|j: int| 0 <= j < s.len() && s[j].key == k;
        lemma_lt_irreflexive(k);
        assert(!s[j].key.lt(k));
        if r < j {
            assert(s[r].key.lt(s[j].key));
        }
        assert(r == j);
        assert(t[r].key == k && t[r + 1].key == k);
        assert(!keys_ascending(t));
    } else {
        assert forall|a: int, b: int| 0 <= a < b < t.len() implies t[a].key.lt(t[b].key) by {
            if b < r {
                assert(s[a].key.lt(s[b].key));
            } else if b == r {
                assert(s[a].key.lt(k));
            } else if a < r {
                assert(s[a].key.lt(s[b - 1].key));
            } else if a == r {
                assert(!s[b - 1].key.lt(k));
                assert(s[b - 1].key != k);
                lemma_lt_total(k, s[b - 1].key);
            } else {
                assert(s[a - 1].key.lt(s[b - 1].key));
            }
        }
        assert(t[r].key == k);
    }
}

/// Removing a signer from valid settings goes through exactly if another
/// signer stays and the voters that stay fill the threshold; that signer
/// alone is then gone.
pub proof fn lemma_remove_signer(v: SettingsView, old_signer: Pubkey, at: int)
    requires
        v.valid(),
        0 <= at < v.signers.len(),
        v.signers[at].key == old_signer,
    ensures
        apply_action(v, SettingsAction::RemoveSigner { old_signer }) is Some <==> v.signers.len()
            >= 2 && v.threshold + (if is_voter(v.signers[at]) {
            1nat
        } else {
            0nat
        }) <= num_voters(v.signers),
        apply_action(v, SettingsAction::RemoveSigner { old_signer }) matches Some(w) ==> w.signers
            == v.signers.remove(at) && w.threshold == v.threshold,
{
    let s = v.signers;
    lemma_without_removes(s, old_signer, at);
    lemma_num_voters_remove(s, at);
    let t = s.remove(at);
    assert(keys_ascending(t)) by {
        assert forall|a: int, b: int| 0 <= a < b < t.len() implies t[a].key.lt(t[b].key) by {
            let a0 = if a < at {
                a
            } else {
                a + 1
            };
            let b0 = if b < at {
                b
            } else {
                b + 1
            };
            assert(s[a0].key.lt(s[b0].key));
        }
    }
    assert(has_key(s, old_signer));
}

/// Removing a key that no signer has is refused.
pub proof fn lemma_remove_unknown(v: SettingsView, old_signer: Pubkey)
    requires
        !has_key(v.signers, old_signer),
    ensures
        apply_action(v, SettingsAction::RemoveSigner { old_signer }) is None,
{
}

/// Changing the threshold of valid settings goes through exactly if the new
/// threshold is at least one and at most the number of voters.
pub proof fn lemma_change_threshold(v: SettingsView, new_threshold: u16)
    requires
        v.valid(),
    ensures
        apply_action(v, SettingsAction::ChangeThreshold { new_threshold }) is Some <==> 1
            <= new_threshold <= num_voters(v.signers),
        apply_action(v, SettingsAction::ChangeThreshold { new_threshold }) matches Some(w) ==> w
            == (SettingsView { threshold: new_threshold, ..v }),
{
}

/// Every other action goes through on valid settings: the time lock, the
/// archival authority, and the spending limits, which are kept outside the
/// settings.
pub proof fn lemma_other_actions(v: SettingsView, action: SettingsAction)
    requires
        v.valid(),
        action is SetTimeLock || action is SetArchivalAuthority || action is AddSpendingLimit
            || action is RemoveSpendingLimit,
    ensures
        apply_action(v, action) is Some,
        apply_action(v, action) matches Some(w) ==> w.signers == v.signers && w.threshold
            == v.threshold,
{
}

/// Actions change signers, threshold, time lock and archival authority, and
/// nothing else: the counters and the rest stay as they are.
pub proof fn lemma_apply_actions_leave(v: SettingsView, actions: Seq<SettingsAction>)
    ensures
        apply_actions(v, actions) matches Some(w) ==> w == (SettingsView {
            signers: w.signers,
            threshold: w.threshold,
            time_lock: w.time_lock,
            archival_authority: w.archival_authority,
            ..v
        }),
    decreases actions.len(),
{
    if actions.len() > 0 {
        lemma_apply_actions_leave(v, actions.drop_last());
    }
}

/// Once an action of the list is refused, the whole list is.
pub proof fn lemma_apply_actions_refused(v: SettingsView, actions: Seq<SettingsAction>, k: int)
    requires
        0 <= k <= actions.len(),
        apply_actions(v, actions.take(k)) is None,
    ensures
        apply_actions(v, actions) is None,
    decreases actions.len(),
{
    if k == actions.len() {
        assert(actions.take(k) =~= actions);
    } else {
        assert(actions.drop_last().take(k) =~= actions.take(k));
        lemma_apply_actions_refused(v, actions.drop_last(), k);
    }
}

/// How many signers have a key before `key`.
pub fn rank_of(signers: &Vec<SmartAccountSigner>, key: &Pubkey) -> (n: usize)
    ensures
        n == rank(signers@, *key),
        n <= signers@.len(),
{
    let mut n: usize = 0;
    let mut i: usize = 0;
    while i < signers.len()
        invariant
            i <= signers.len(),
            n <= i,
            n == rank(signers@.take(i as int), *key),
        decreases signers.len() - i,
    {
        assert(signers@.take(i + 1).drop_last() =~= signers@.take(i as int));
        if signers[i].key.precedes(key) {
            n += 1;
        }
        i += 1;
    }
    assert(signers@.take(i as int) =~= signers@);
    n
}

/// The signers but those with the key, and whether there was one.
fn remove_key(signers: &Vec<SmartAccountSigner>, key: &Pubkey) -> (r: (
    Vec<SmartAccountSigner>,
    bool,
))
    ensures
        r.0@ == without_key(signers@, *key),
        r.1 == has_key(signers@, *key),
{
    let mut kept: Vec<SmartAccountSigner> = Vec::new();
    let mut found = false;
    let mut i: usize = 0;
    while i < signers.len()
        invariant
            i <= signers.len(),
            kept@ == without_key(signers@.take(i as int), *key),
            found == has_key(signers@.take(i as int), *key),
        decreases signers.len() - i,
    {
        let ghost pre = signers@.take(i as int);
        let ghost cur = signers@.take(i + 1);
        assert(cur.drop_last() =~= pre);
        if signers[i].key == *key {
            found = true;
            assert(cur[i as int].key == *key);
        } else {
            kept.push(signers[i]);
            proof {
                if has_key(cur, *key) {
                    let w = choose|w: int| 0 <= w < cur.len() && cur[w].key == *key;
                    assert(pre[w].key == *key);
                }
                if has_key(pre, *key) {
                    let w = choose|w: int| 0 <= w < pre.len() && pre[w].key == *key;
                    assert(cur[w].key == *key);
                }
            }
        }
        proof {
            if found && !has_key(cur, *key) {
                if has_key(pre, *key) {
                    let w = choose|w: int| 0 <= w < pre.len() && pre[w].key == *key;
                    assert(cur[w].key == *key);
                }
            }
        }
        i += 1;
    }
    assert(signers@.take(i as int) =~= signers@);
    (kept, found)
}

impl Settings {
    /// A second record with the same contents.
    pub fn duplicate(&self) -> (r: Settings)
        ensures
            r@ == self@,
    {
        Settings {
            seed: self.seed,
            settings_authority: self.settings_authority,
            threshold: self.threshold,
            time_lock: self.time_lock,
            transaction_index: self.transaction_index,
            stale_transaction_index: self.stale_transaction_index,
            archival_authority: self.archival_authority,
            archivable_after: self.archivable_after,
            bump: self.bump,
            signers: copy_of(self.signers.as_slice()),
            restricted_signers: copy_of(self.restricted_signers.as_slice()),
            account_utilization: self.account_utilization,
            _reserved1: self._reserved1,
            _reserved2: self._reserved2,
        }
    }

    /// Applies the actions in order, all or none. On `InvalidConfiguration`
    /// the settings are as they were.
    pub fn apply_all(&mut self, actions: &Vec<SettingsAction>) -> (r: Result<
        (),
        SmartAccountError,
    >)
        ensures
            match r {
                Ok(()) => apply_actions(old(self)@, actions@) == Some(final(self)@),
                Err(e) => e == SmartAccountError::InvalidConfiguration && apply_actions(
                    old(self)@,
                    actions@,
                ) is None && *final(self) == *old(self),
            },
    {
        let mut working = self.duplicate();
        let mut i: usize = 0;
        while i < actions.len()
            invariant
                i <= actions.len(),
                apply_actions(self@, actions@.take(i as int)) == Some(working@),
            decreases actions.len() - i,
        {
            assert(actions@.take(i + 1).drop_last() =~= actions@.take(i as int));
            if working.apply(&actions[i]).is_err() {
                proof {
                    lemma_apply_actions_refused(self@, actions@, i + 1);
                }
                return Err(SmartAccountError::InvalidConfiguration);
            }
            i += 1;
        }
        assert(actions@.take(i as int) =~= actions@);
        *self = working;
        Ok(())
    }

    /// Checks the invariant of the settings: `InvalidConfiguration` unless
    /// there is a signer, the keys ascend strictly and the threshold is
    /// between one and the number of voters.
    pub fn check_invariant(&self) -> (r: Result<(), SmartAccountError>)
        ensures
            r is Ok <==> self@.valid(),
            r matches Err(e) ==> e == SmartAccountError::InvalidConfiguration,
    {
        if check_policy(&self.signers, self.threshold) {
            Ok(())
        } else {
            Err(SmartAccountError::InvalidConfiguration)
        }
    }

    /// Applies one action and validates the settings again. On
    /// `InvalidConfiguration` the settings are as they were.
    pub fn apply(&mut self, action: &SettingsAction) -> (r: Result<(), SmartAccountError>)
        ensures
            match r {
                Ok(()) => apply_action(old(self)@, *action) == Some(final(self)@)
                    && final(self)@.valid(),
                Err(e) => e == SmartAccountError::InvalidConfiguration && apply_action(
                    old(self)@,
                    *action,
                ) is None && *final(self) == *old(self),
            },
    {
        match action {
            SettingsAction::AddSigner { new_signer } => {
                let at = rank_of(&self.signers, &new_signer.key);
                let mut signers = copy_of(self.signers.as_slice());
                signers.insert(at, *new_signer);
                if !check_policy(&signers, self.threshold) {
                    return Err(SmartAccountError::InvalidConfiguration);
                }
                self.signers = signers;
            },
            SettingsAction::RemoveSigner { old_signer } => {
                let (signers, found) = remove_key(&self.signers, old_signer);
                if !found || !check_policy(&signers, self.threshold) {
                    return Err(SmartAccountError::InvalidConfiguration);
                }
                self.signers = signers;
            },
            SettingsAction::ChangeThreshold { new_threshold } => {
                if !check_policy(&self.signers, *new_threshold) {
                    return Err(SmartAccountError::InvalidConfiguration);
                }
                self.threshold = *new_threshold;
            },
            SettingsAction::SetTimeLock { new_time_lock } => {
                if !check_policy(&self.signers, self.threshold) {
                    return Err(SmartAccountError::InvalidConfiguration);
                }
                self.time_lock = *new_time_lock;
            },
            SettingsAction::SetArchivalAuthority { new_archival_authority } => {
                if !check_policy(&self.signers, self.threshold) {
                    return Err(SmartAccountError::InvalidConfiguration);
                }
                self.archival_authority = *new_archival_authority;
            },
            SettingsAction::AddSpendingLimit { .. } => {
                if !check_policy(&self.signers, self.threshold) {
                    return Err(SmartAccountError::InvalidConfiguration);
                }
            },
            SettingsAction::RemoveSpendingLimit { .. } => {
                if !check_policy(&self.signers, self.threshold) {
                    return Err(SmartAccountError::InvalidConfiguration);
                }
            },
        }
        Ok(())
    }

    /// Moves the stale cursor up to the transaction counter: every
    /// transaction created so far is stale from now on.
    pub fn advance_stale_cursor(&mut self)
        ensures
            final(self)@ == (SettingsView {
                stale_transaction_index: old(self).transaction_index,
                ..old(self)@
            }),
    {
        self.stale_transaction_index = self.transaction_index;
    }

    /// Hands out the stamp of the next transaction and moves the counter on.
    /// `ArithmeticOverflow`, with the settings unchanged, if the counter is
    /// at its end.
    pub fn next_transaction_index(&mut self) -> (r: Result<u64, SmartAccountError>)
        ensures
            match r {
                Ok(index) => index == old(self).transaction_index && index < u64::MAX
                    && final(self)@ == (SettingsView {
                    transaction_index: (index + 1) as u64,
                    ..old(self)@
                }),
                Err(e) => e == SmartAccountError::ArithmeticOverflow && old(self).transaction_index
                    == u64::MAX && *final(self) == *old(self),
            },
    {
        let index = self.transaction_index;
        if index == u64::MAX {
            return Err(SmartAccountError::ArithmeticOverflow);
        }
        self.transaction_index = index + 1;
        Ok(index)
    }

    /// Stamps a new transaction that `creator` proposes: hands out the
    /// counter and moves it on. On an error the settings are as they were.
    pub fn stamp_transaction(&mut self, creator: &Pubkey) -> (r: Result<u64, SmartAccountError>)
        ensures
            match r {
                Ok(index) => stamping(old(self)@, *creator) == Ok::<u64, SmartAccountError>(index)
                    && final(self)@ == stamped(old(self)@),
                Err(e) => stamping(old(self)@, *creator) == Err::<u64, SmartAccountError>(e)
                    && *final(self) == *old(self),
            },
    {
        if !self.signer_has_permission(creator, Permission::Initiate) {
            return Err(SmartAccountError::Unauthorized);
        }
        self.next_transaction_index()
    }

    /// Whether a transaction with this stamp was created before the settings
    /// last changed.
    pub fn is_stale(&self, index: u64) -> (r: bool)
        ensures
            r == self@.is_stale(index),
    {
        index < self.stale_transaction_index
    }

    /// The position of the signer with this key, if there is one.
    pub fn is_signer(&self, key: &Pubkey) -> (r: Option<usize>)
        ensures
            r is Some <==> has_key(self.signers@, *key),
            r matches Some(i) ==> i < self.signers@.len() && self.signers@[i as int].key == *key
                && forall|j: int| 0 <= j < i ==> self.signers@[j].key != *key,
    {
        let mut i: usize = 0;
        while i < self.signers.len()
            invariant
                i <= self.signers.len(),
                forall|j: int| 0 <= j < i ==> self.signers@[j].key != *key,
            decreases self.signers.len() - i,
        {
            if self.signers[i].key == *key {
                return Some(i);
            }
            i += 1;
        }
        None
    }

    /// Whether some signer has this key and the permission.
    pub fn signer_has_permission(&self, key: &Pubkey, permission: Permission) -> (r: bool)
        ensures
            r == holds_permission(self.signers@, *key, permission),
    {
        let mut i: usize = 0;
        while i < self.signers.len()
            invariant
                i <= self.signers.len(),
                forall|j: int|
                    0 <= j < i ==> !(self.signers@[j].key == *key
                        && self.signers@[j].permissions.allows(permission)),
            decreases self.signers.len() - i,
        {
            if self.signers[i].key == *key && self.signers[i].permissions.has(permission) {
                return true;
            }
            i += 1;
        }
        false
    }

    /// Whether the key is a signer that may vote.
    pub fn is_voter(&self, key: &Pubkey) -> (r: bool)
        ensures
            r == is_eligible_voter(self.signers@, *key),
    {
        self.signer_has_permission(key, Permission::Vote)
    }

    /// The number of signers that may vote.
    pub fn num_voters(&self) -> (n: usize)
        ensures
            n == num_voters(self.signers@),
    {
        count_voters(&self.signers)
    }
}

} // verus!
