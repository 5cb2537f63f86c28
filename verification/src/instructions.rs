//! Operations on the program's configuration and on whole smart accounts:
//! each takes the records it works on, and what the caller has established
//! about who is asking, in one context value.

use vstd::prelude::*;
use crate::errors::{CustomError, SmartAccountError};
use crate::keys::Pubkey;
use crate::permissions::{
    RestrictedPermission,
    RestrictedSmartAccountSigner,
    SmartAccountSigner,
};
use crate::program_config::ProgramConfig;
use crate::settings::{apply_action, check_policy, Settings, SettingsView};
use crate::settings_transaction::SettingsAction;
use crate::sorting::{sort_by_key, sorted_by_key};
use crate::transaction_buffer::TransactionBuffer;

verus! {

/// The bytes of the one key that may initialize the program's configuration.
pub const INITIALIZER: [u8; 32] = [
    41, 48, 166, 135, 201, 74, 162, 142, 40, 1, 218, 104, 111, 19, 125, 133, 32, 22, 228, 220,
    247, 32, 153, 102, 13, 46, 102, 107, 124, 98, 204, 238,
];

/// What the initializer hands in.
#[derive(Clone, Copy, Debug)]
pub struct InitProgramConfigArgs {
    /// The key that may update the configuration from now on.
    pub authority: Pubkey,
    /// The fee charged for creating a smart account.
    pub smart_account_creation_fee: u64,
    /// The account that fees are sent to.
    pub treasury: Pubkey,
}

/// The records and the caller of the one-time initialization.
#[derive(Debug)]
pub struct InitProgramConfig {
    /// The configuration record, freshly made.
    pub program_config: ProgramConfig,
    /// The key that signed.
    pub initializer: Pubkey,
}

impl InitProgramConfig {
    /// The configuration that the arguments ask for: fees and closed buffers
    /// both go to the treasury, and no account has been counted.
    pub open spec fn configured(before: ProgramConfig, args: InitProgramConfigArgs) -> ProgramConfig {
        ProgramConfig {
            smart_account_index: 0,
            authority: args.authority,
            smart_account_creation_fee: args.smart_account_creation_fee,
            treasury: args.treasury,
            buffer_rent_collector: args.treasury,
            ..before
        }
    }

    /// What the initialization comes to: `Unauthorized` unless the
    /// initializer's key signed; else `InvalidAccount` unless authority and
    /// treasury are set; else the configuration asked for.
    pub open spec fn outcome(self, args: InitProgramConfigArgs) -> Result<
        ProgramConfig,
        SmartAccountError,
    > {
        if self.initializer.bytes != INITIALIZER {
            Err(SmartAccountError::Unauthorized)
        } else if !Self::configured(self.program_config, args).valid() {
            Err(SmartAccountError::InvalidAccount)
        } else {
            Ok(Self::configured(self.program_config, args))
        }
    }

    /// Initializes the program's configuration, once. On an error the record
    /// is as it was.
    pub fn init_program_config(ctx: &mut InitProgramConfig, args: InitProgramConfigArgs) -> (r:
        Result<(), SmartAccountError>)
        ensures
            final(ctx).initializer == old(ctx).initializer,
            match r {
                Ok(()) => old(ctx).outcome(args) == Ok::<ProgramConfig, SmartAccountError>(
                    final(ctx).program_config,
                ),
                Err(e) => old(ctx).outcome(args) == Err::<ProgramConfig, SmartAccountError>(e)
                    && *final(ctx) == *old(ctx),
            },
    {
        if ctx.initializer != (Pubkey { bytes: INITIALIZER }) {
            return Err(SmartAccountError::Unauthorized);
        }
        let config = ProgramConfig {
            smart_account_index: 0,
            authority: args.authority,
            smart_account_creation_fee: args.smart_account_creation_fee,
            treasury: args.treasury,
            buffer_rent_collector: args.treasury,
            _reserved: ctx.program_config._reserved,
        };
        match config.check_invariant() {
            Err(e) => {
                return Err(e);
            },
            Ok(()) => {},
        }
        ctx.program_config = config;
        Ok(())
    }
}

/// Initializes the program's configuration.
pub fn initialize_program_config(ctx: &mut InitProgramConfig, args: InitProgramConfigArgs) -> (r:
    Result<(), SmartAccountError>)
    ensures
        final(ctx).initializer == old(ctx).initializer,
        match r {
            Ok(()) => old(ctx).outcome(args) == Ok::<ProgramConfig, SmartAccountError>(
                final(ctx).program_config,
            ),
            Err(e) => old(ctx).outcome(args) == Err::<ProgramConfig, SmartAccountError>(e)
                && *final(ctx) == *old(ctx),
        },
{
    InitProgramConfig::init_program_config(ctx, args)
}

/// What an update of the configuration comes to: `Unauthorized` unless the
/// configuration's authority asks; else `InvalidAccount` unless authority and
/// treasury stay set; else the updated configuration.
pub open spec fn config_update(before: ProgramConfig, caller: Pubkey, after: ProgramConfig) -> Result<
    ProgramConfig,
    SmartAccountError,
> {
    if caller != before.authority {
        Err(SmartAccountError::Unauthorized)
    } else if !after.valid() {
        Err(SmartAccountError::InvalidAccount)
    } else {
        Ok(after)
    }
}

fn update_config(config: &mut ProgramConfig, caller: &Pubkey, after: ProgramConfig) -> (r: Result<
    (),
    SmartAccountError,
>)
    ensures
        match r {
            Ok(()) => config_update(*old(config), *caller, after) == Ok::<
                ProgramConfig,
                SmartAccountError,
            >(*final(config)),
            Err(e) => config_update(*old(config), *caller, after) == Err::<
                ProgramConfig,
                SmartAccountError,
            >(e) && *final(config) == *old(config),
        },
{
    if *caller != config.authority {
        return Err(SmartAccountError::Unauthorized);
    }
    match after.check_invariant() {
        Err(e) => {
            return Err(e);
        },
        Ok(()) => {},
    }
    *config = after;
    Ok(())
}

/// Hands the configuration over to a new authority.
pub fn set_program_config_authority(
    config: &mut ProgramConfig,
    caller: &Pubkey,
    new_authority: Pubkey,
) -> (r: Result<(), SmartAccountError>)
    ensures
        match r {
            Ok(()) => config_update(
                *old(config),
                *caller,
                ProgramConfig { authority: new_authority, ..*old(config) },
            ) == Ok::<ProgramConfig, SmartAccountError>(*final(config)),
            Err(e) => config_update(
                *old(config),
                *caller,
                ProgramConfig { authority: new_authority, ..*old(config) },
            ) == Err::<ProgramConfig, SmartAccountError>(e) && *final(config) == *old(config),
        },
{
    let after = ProgramConfig { authority: new_authority, ..*config };
    update_config(config, caller, after)
}

/// Sets the fee for creating a smart account.
pub fn set_program_config_smart_account_creation_fee(
    config: &mut ProgramConfig,
    caller: &Pubkey,
    new_fee: u64,
) -> (r: Result<(), SmartAccountError>)
    ensures
        match r {
            Ok(()) => config_update(
                *old(config),
                *caller,
                ProgramConfig { smart_account_creation_fee: new_fee, ..*old(config) },
            ) == Ok::<ProgramConfig, SmartAccountError>(*final(config)),
            Err(e) => config_update(
                *old(config),
                *caller,
                ProgramConfig { smart_account_creation_fee: new_fee, ..*old(config) },
            ) == Err::<ProgramConfig, SmartAccountError>(e) && *final(config) == *old(config),
        },
{
    let after = ProgramConfig { smart_account_creation_fee: new_fee, ..*config };
    update_config(config, caller, after)
}

/// Sets the account that fees are sent to.
pub fn set_program_config_treasury(
    config: &mut ProgramConfig,
    caller: &Pubkey,
    new_treasury: Pubkey,
) -> (r: Result<(), SmartAccountError>)
    ensures
        match r {
            Ok(()) => config_update(
                *old(config),
                *caller,
                ProgramConfig { treasury: new_treasury, ..*old(config) },
            ) == Ok::<ProgramConfig, SmartAccountError>(*final(config)),
            Err(e) => config_update(
                *old(config),
                *caller,
                ProgramConfig { treasury: new_treasury, ..*old(config) },
            ) == Err::<ProgramConfig, SmartAccountError>(e) && *final(config) == *old(config),
        },
{
    let after = ProgramConfig { treasury: new_treasury, ..*config };
    update_config(config, caller, after)
}

/// What the creator of a smart account hands in.
#[derive(Debug)]
pub struct CreateSmartAccountArgs {
    /// The key that may reconfigure the account directly; `None` for an
    /// account that only its signers govern.
    pub settings_authority: Option<Pubkey>,
    /// How many approvals an operation needs.
    pub threshold: u16,
    /// The signers, in any order.
    pub signers: Vec<SmartAccountSigner>,
    /// Keys with narrow capabilities outside the voting flow, in any order.
    pub restricted_signers: Vec<RestrictedSmartAccountSigner>,
    /// Seconds that must pass between approval and execution.
    pub time_lock: u32,
    /// Where the storage of closed records goes; `None` to leave it.
    pub rent_collector: Option<Pubkey>,
    /// For indexing only.
    pub memo: Option<String>,
}

/// The records and the caller of the creation of a smart account.
#[derive(Debug)]
pub struct CreateSmartAccount {
    /// The program's configuration.
    pub program_config: ProgramConfig,
    /// The account that the caller names as treasury.
    pub treasury: Pubkey,
    /// The key that signed and pays.
    pub creator: Pubkey,
    /// The bump of the new settings record's address.
    pub settings_bump: u8,
}

/// A smart account that was created.
#[derive(Debug)]
pub struct CreatedSmartAccount {
    /// The settings to store.
    pub settings: Settings,
    /// What the creator owes the treasury; nothing is to be moved if zero.
    pub creation_fee: u64,
}

impl CreateSmartAccount {
    /// The settings of a new smart account: numbered one past the accounts
    /// counted so far, signers in the order of their keys, no transaction
    /// created yet.
    pub open spec fn new_settings(self, args: CreateSmartAccountArgs) -> SettingsView {
        SettingsView {
            seed: (self.program_config.smart_account_index + 1) as u128,
            settings_authority: match args.settings_authority {
                Some(key) => key,
                None => Pubkey::zero(),
            },
            threshold: args.threshold,
            time_lock: args.time_lock,
            transaction_index: 0,
            stale_transaction_index: 0,
            archival_authority: Some(Pubkey::zero()),
            archivable_after: 0,
            bump: self.settings_bump,
            signers: sorted_by_key(args.signers@),
            restricted_signers: sorted_by_key(args.restricted_signers@),
            account_utilization: 0,
            reserved1: 0,
            reserved2: 0,
        }
    }

    /// What the creation comes to: `InvalidAccount` unless the treasury
    /// named is the configured one; else `ArithmeticOverflow` if the account
    /// counter is at its end; else `InvalidConfiguration` unless the new
    /// settings are a valid policy; else those settings.
    pub open spec fn outcome(self, args: CreateSmartAccountArgs) -> Result<
        SettingsView,
        SmartAccountError,
    > {
        if self.treasury != self.program_config.treasury {
            Err(SmartAccountError::InvalidAccount)
        } else if self.program_config.smart_account_index == u128::MAX {
            Err(SmartAccountError::ArithmeticOverflow)
        } else if !self.new_settings(args).valid() {
            Err(SmartAccountError::InvalidConfiguration)
        } else {
            Ok(self.new_settings(args))
        }
    }

    /// `InvalidAccount` unless the treasury named is the configured one.
    pub fn validate(&self) -> (r: Result<(), SmartAccountError>)
        ensures
            r is Ok <==> self.treasury == self.program_config.treasury,
            r matches Err(e) ==> e == SmartAccountError::InvalidAccount,
    {
        if self.treasury != self.program_config.treasury {
            return Err(SmartAccountError::InvalidAccount);
        }
        Ok(())
    }

    /// Creates a smart account: makes its settings and counts it. On an
    /// error the configuration is as it was.
    pub fn create_smart_account(ctx: &mut CreateSmartAccount, args: CreateSmartAccountArgs) -> (r:
        Result<CreatedSmartAccount, SmartAccountError>)
        ensures
            match r {
                Ok(created) => {
                    &&& old(ctx).outcome(args) == Ok::<SettingsView, SmartAccountError>(
                        created.settings@,
                    )
                    &&& created.settings@.valid()
                    &&& created.creation_fee == old(ctx).program_config.smart_account_creation_fee
                    &&& *final(ctx) == (CreateSmartAccount {
                        program_config: ProgramConfig {
                            smart_account_index: (old(ctx).program_config.smart_account_index
                                + 1) as u128,
                            ..old(ctx).program_config
                        },
                        ..*old(ctx)
                    })
                },
                Err(e) => old(ctx).outcome(args) == Err::<SettingsView, SmartAccountError>(e)
                    && *final(ctx) == *old(ctx),
            },
    {
        match ctx.validate() {
            Err(e) => {
                return Err(e);
            },
            Ok(()) => {},
        }
        if ctx.program_config.smart_account_index == u128::MAX {
            return Err(SmartAccountError::ArithmeticOverflow);
        }
        let signers = sort_by_key(&args.signers);
        let restricted_signers = sort_by_key(&args.restricted_signers);
        let settings = Settings {
            seed: ctx.program_config.smart_account_index + 1,
            settings_authority: match args.settings_authority {
                Some(key) => key,
                None => Pubkey::default(),
            },
            threshold: args.threshold,
            time_lock: args.time_lock,
            transaction_index: 0,
            stale_transaction_index: 0,
            archival_authority: Some(Pubkey::default()),
            archivable_after: 0,
            bump: ctx.settings_bump,
            signers,
            restricted_signers,
            account_utilization: 0,
            _reserved1: 0,
            _reserved2: 0,
        };
        match settings.check_invariant() {
            Err(e) => {
                return Err(e);
            },
            Ok(()) => {},
        }
        let creation_fee = ctx.program_config.smart_account_creation_fee;
        ctx.program_config.smart_account_index = ctx.program_config.smart_account_index + 1;
        Ok(CreatedSmartAccount { settings, creation_fee })
    }
}

/// Creates a smart account.
pub fn create_smart_account(ctx: &mut CreateSmartAccount, args: CreateSmartAccountArgs) -> (r:
    Result<CreatedSmartAccount, SmartAccountError>)
    ensures
        match r {
            Ok(created) => {
                &&& old(ctx).outcome(args) == Ok::<SettingsView, SmartAccountError>(
                    created.settings@,
                )
                &&& created.settings@.valid()
                &&& created.creation_fee == old(ctx).program_config.smart_account_creation_fee
                &&& *final(ctx) == (CreateSmartAccount {
                    program_config: ProgramConfig {
                        smart_account_index: (old(ctx).program_config.smart_account_index + 1) as u128,
                        ..old(ctx).program_config
                    },
                    ..*old(ctx)
                })
            },
            Err(e) => old(ctx).outcome(args) == Err::<SettingsView, SmartAccountError>(e)
                && *final(ctx) == *old(ctx),
        },
{
    CreateSmartAccount::create_smart_account(ctx, args)
}

/// The records and the caller of the closing of a transaction buffer.
#[derive(Debug)]
pub struct CloseTransactionBuffer {
    /// The program's configuration.
    pub program_config: ProgramConfig,
    /// The buffer to close.
    pub transaction_buffer: TransactionBuffer,
    /// The key that signed.
    pub creator: Pubkey,
    /// The account that the caller names to get the storage back.
    pub buffer_rent_collector: Pubkey,
}

impl CloseTransactionBuffer {
    /// `InvalidAccount` unless the account named as collector is the one
    /// that the configuration gives for closed buffers. Closing does not
    /// depend on it: the storage of a buffer goes back to its creator. The
    /// check is for a caller who passes it on to the configured collector.
    pub fn validate(&self) -> (r: Result<(), SmartAccountError>)
        ensures
            r is Ok <==> self.buffer_rent_collector == self.program_config.effective_collector(),
            r matches Err(e) ==> e == SmartAccountError::InvalidAccount,
    {
        if self.buffer_rent_collector != self.program_config.effective_buffer_rent_collector() {
            return Err(SmartAccountError::InvalidAccount);
        }
        Ok(())
    }

    /// Closes the buffer, whatever has become of it: gives the key that its
    /// storage goes back to, which is the creator. `Unauthorized` unless the
    /// buffer's creator signed.
    pub fn close_transaction_buffer(ctx: &CloseTransactionBuffer) -> (r: Result<
        Pubkey,
        SmartAccountError,
    >)
        ensures
            match r {
                Ok(to) => ctx.creator == ctx.transaction_buffer.creator && to
                    == ctx.transaction_buffer.creator,
                Err(e) => e == SmartAccountError::Unauthorized && ctx.creator
                    != ctx.transaction_buffer.creator,
            },
    {
        ctx.transaction_buffer.close(&ctx.creator)
    }
}

/// Closes a transaction buffer.
pub fn close_transaction_buffer(ctx: &CloseTransactionBuffer) -> (r: Result<
    Pubkey,
    SmartAccountError,
>)
    ensures
        match r {
            Ok(to) => ctx.creator == ctx.transaction_buffer.creator && to
                == ctx.transaction_buffer.creator,
            Err(e) => e == SmartAccountError::Unauthorized && ctx.creator
                != ctx.transaction_buffer.creator,
        },
{
    CloseTransactionBuffer::close_transaction_buffer(ctx)
}

/// The records and the caller of an emergency exit.
#[derive(Debug)]
pub struct RestrictedEmergencyExit {
    /// The settings of the smart account.
    pub settings: Settings,
    /// The key that signed.
    pub restricted_signer: Pubkey,
}

/// Whether the key is a restricted signer with the capability.
pub open spec fn holds_restricted(
    signers: Seq<RestrictedSmartAccountSigner>,
    key: Pubkey,
    permission: RestrictedPermission,
) -> bool {
    exists|i: int|
        0 <= i < signers.len() && signers[i].key == key && signers[i].restricted_permissions.allows(
            permission,
        )
}

/// Admits an emergency exit: `UnauthorizedRestrictedSigner` unless the key
/// that signed is a restricted signer of the settings with the capability to
/// exit.
pub fn emergency_exit(ctx: &RestrictedEmergencyExit) -> (r: Result<(), CustomError>)
    ensures
        r is Ok <==> holds_restricted(
            ctx.settings.restricted_signers@,
            ctx.restricted_signer,
            RestrictedPermission::EmergencyExit,
        ),
        r matches Err(e) ==> e == CustomError::UnauthorizedRestrictedSigner,
{
    let mut i: usize = 0;
    while i < ctx.settings.restricted_signers.len()
        invariant
            i <= ctx.settings.restricted_signers.len(),
            forall|j: int|
                0 <= j < i ==> !(ctx.settings.restricted_signers@[j].key == ctx.restricted_signer
                    && ctx.settings.restricted_signers@[j].restricted_permissions.allows(
                    RestrictedPermission::EmergencyExit,
                )),
        decreases ctx.settings.restricted_signers.len() - i,
    {
        let signer = ctx.settings.restricted_signers[i];
        if signer.key == ctx.restricted_signer && signer.restricted_permissions.has(
            RestrictedPermission::EmergencyExit,
        ) {
            assert(ctx.settings.restricted_signers@[i as int].key == ctx.restricted_signer);
            return Ok(());
        }
        i += 1;
    }
    Err(CustomError::UnauthorizedRestrictedSigner)
}

/// What a direct change of the settings by their authority comes to:
/// `Unauthorized` unless the settings have an authority and it is the one
/// that asks; else `InvalidConfiguration` if the action is refused; else the
/// edited settings, with every transaction created so far stale.
pub open spec fn authority_execution(s: SettingsView, authority: Pubkey, action: SettingsAction) -> Result<
    SettingsView,
    SmartAccountError,
> {
    if s.settings_authority.is_zero() || authority != s.settings_authority {
        Err(SmartAccountError::Unauthorized)
    } else {
        match apply_action(s, action) {
            None => Err(SmartAccountError::InvalidConfiguration),
            Some(edited) => Ok(
                SettingsView { stale_transaction_index: edited.transaction_index, ..edited },
            ),
        }
    }
}

/// What handing the settings over to a new authority comes to:
/// `Unauthorized` unless the settings have an authority and it is the one
/// that asks; else `InvalidConfiguration` unless the settings are a valid
/// policy; else the settings under the new authority, with every transaction
/// created so far stale.
pub open spec fn authority_handover(s: SettingsView, authority: Pubkey, new_authority: Pubkey) -> Result<
    SettingsView,
    SmartAccountError,
> {
    if s.settings_authority.is_zero() || authority != s.settings_authority {
        Err(SmartAccountError::Unauthorized)
    } else if !s.valid() {
        Err(SmartAccountError::InvalidConfiguration)
    } else {
        Ok(
            SettingsView {
                settings_authority: new_authority,
                stale_transaction_index: s.transaction_index,
                ..s
            },
        )
    }
}

/// Applies one action at once in the name of the settings' authority. On an
/// error the settings are as they were.
pub fn execute_as_authority(settings: &mut Settings, authority: &Pubkey, action: &SettingsAction) -> (r:
    Result<(), SmartAccountError>)
    ensures
        match r {
            Ok(()) => authority_execution(old(settings)@, *authority, *action) == Ok::<
                SettingsView,
                SmartAccountError,
            >(final(settings)@),
            Err(e) => authority_execution(old(settings)@, *authority, *action) == Err::<
                SettingsView,
                SmartAccountError,
            >(e) && *final(settings) == *old(settings),
        },
{
    if settings.settings_authority.is_default() || *authority != settings.settings_authority {
        return Err(SmartAccountError::Unauthorized);
    }
    match settings.apply(action) {
        Err(e) => {
            return Err(e);
        },
        Ok(()) => {},
    }
    settings.advance_stale_cursor();
    Ok(())
}

/// Adds a signer in the name of the settings' authority.
pub fn add_signer_as_authority(
    settings: &mut Settings,
    authority: &Pubkey,
    new_signer: SmartAccountSigner,
) -> (r: Result<(), SmartAccountError>)
    ensures
        match r {
            Ok(()) => authority_execution(
                old(settings)@,
                *authority,
                SettingsAction::AddSigner { new_signer },
            ) == Ok::<SettingsView, SmartAccountError>(final(settings)@),
            Err(e) => authority_execution(
                old(settings)@,
                *authority,
                SettingsAction::AddSigner { new_signer },
            ) == Err::<SettingsView, SmartAccountError>(e) && *final(settings) == *old(settings),
        },
{
    execute_as_authority(settings, authority, &SettingsAction::AddSigner { new_signer })
}

/// Removes a signer in the name of the settings' authority.
pub fn remove_signer_as_authority(settings: &mut Settings, authority: &Pubkey, old_signer: Pubkey) -> (r:
    Result<(), SmartAccountError>)
    ensures
        match r {
            Ok(()) => authority_execution(
                old(settings)@,
                *authority,
                SettingsAction::RemoveSigner { old_signer },
            ) == Ok::<SettingsView, SmartAccountError>(final(settings)@),
            Err(e) => authority_execution(
                old(settings)@,
                *authority,
                SettingsAction::RemoveSigner { old_signer },
            ) == Err::<SettingsView, SmartAccountError>(e) && *final(settings) == *old(settings),
        },
{
    execute_as_authority(settings, authority, &SettingsAction::RemoveSigner { old_signer })
}

/// Sets the time lock in the name of the settings' authority.
pub fn set_time_lock_as_authority(settings: &mut Settings, authority: &Pubkey, new_time_lock: u32) -> (r:
    Result<(), SmartAccountError>)
    ensures
        match r {
            Ok(()) => authority_execution(
                old(settings)@,
                *authority,
                SettingsAction::SetTimeLock { new_time_lock },
            ) == Ok::<SettingsView, SmartAccountError>(final(settings)@),
            Err(e) => authority_execution(
                old(settings)@,
                *authority,
                SettingsAction::SetTimeLock { new_time_lock },
            ) == Err::<SettingsView, SmartAccountError>(e) && *final(settings) == *old(settings),
        },
{
    execute_as_authority(settings, authority, &SettingsAction::SetTimeLock { new_time_lock })
}

/// Sets the threshold in the name of the settings' authority.
pub fn change_threshold_as_authority(
    settings: &mut Settings,
    authority: &Pubkey,
    new_threshold: u16,
) -> (r: Result<(), SmartAccountError>)
    ensures
        match r {
            Ok(()) => authority_execution(
                old(settings)@,
                *authority,
                SettingsAction::ChangeThreshold { new_threshold },
            ) == Ok::<SettingsView, SmartAccountError>(final(settings)@),
            Err(e) => authority_execution(
                old(settings)@,
                *authority,
                SettingsAction::ChangeThreshold { new_threshold },
            ) == Err::<SettingsView, SmartAccountError>(e) && *final(settings) == *old(settings),
        },
{
    execute_as_authority(settings, authority, &SettingsAction::ChangeThreshold { new_threshold })
}

/// Sets or clears the archival authority in the name of the settings'
/// authority.
pub fn set_archival_authority_as_authority(
    settings: &mut Settings,
    authority: &Pubkey,
    new_archival_authority: Option<Pubkey>,
) -> (r: Result<(), SmartAccountError>)
    ensures
        match r {
            Ok(()) => authority_execution(
                old(settings)@,
                *authority,
                SettingsAction::SetArchivalAuthority { new_archival_authority },
            ) == Ok::<SettingsView, SmartAccountError>(final(settings)@),
            Err(e) => authority_execution(
                old(settings)@,
                *authority,
                SettingsAction::SetArchivalAuthority { new_archival_authority },
            ) == Err::<SettingsView, SmartAccountError>(e) && *final(settings) == *old(settings),
        },
{
    execute_as_authority(
        settings,
        authority,
        &SettingsAction::SetArchivalAuthority { new_archival_authority },
    )
}

/// Hands the settings over to a new authority, in the name of the present
/// one. On an error the settings are as they were.
pub fn set_new_settings_authority_as_authority(
    settings: &mut Settings,
    authority: &Pubkey,
    new_settings_authority: Pubkey,
) -> (r: Result<(), SmartAccountError>)
    ensures
        match r {
            Ok(()) => authority_handover(old(settings)@, *authority, new_settings_authority) == Ok::<
                SettingsView,
                SmartAccountError,
            >(final(settings)@),
            Err(e) => authority_handover(old(settings)@, *authority, new_settings_authority)
                == Err::<SettingsView, SmartAccountError>(e) && *final(settings) == *old(settings),
        },
{
    if settings.settings_authority.is_default() || *authority != settings.settings_authority {
        return Err(SmartAccountError::Unauthorized);
    }
    if !check_policy(&settings.signers, settings.threshold) {
        return Err(SmartAccountError::InvalidConfiguration);
    }
    settings.settings_authority = new_settings_authority;
    settings.advance_stale_cursor();
    Ok(())
}

} // verus!
