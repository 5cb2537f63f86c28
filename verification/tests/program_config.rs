use smart_account::errors::SmartAccountError;
use smart_account::instructions::{
    initialize_program_config, set_program_config_authority,
    set_program_config_smart_account_creation_fee, set_program_config_treasury, InitProgramConfig,
    InitProgramConfigArgs, INITIALIZER,
};
use smart_account::keys::Pubkey;
use smart_account::program_config::ProgramConfig;

fn unique() -> Pubkey {
    Pubkey::new_from_array(solana_sdk::pubkey::Pubkey::new_unique().to_bytes())
}

fn default_key() -> Pubkey {
    Pubkey::new_from_array(solana_sdk::pubkey::Pubkey::default().to_bytes())
}

#[test]
fn effective_buffer_collector_falls_back_to_treasury_when_unset() {
    let treasury = unique();
    let config = ProgramConfig {
        smart_account_index: 0,
        authority: unique(),
        smart_account_creation_fee: 0,
        treasury,
        buffer_rent_collector: default_key(),
        _reserved: [0u8; 32],
    };
    assert_eq!(config.effective_buffer_rent_collector(), treasury);
}

#[test]
fn effective_buffer_collector_uses_explicit_collector_when_set() {
    let collector = unique();
    let config = ProgramConfig {
        smart_account_index: 0,
        authority: unique(),
        smart_account_creation_fee: 0,
        treasury: unique(),
        buffer_rent_collector: collector,
        _reserved: [0u8; 32],
    };
    assert_eq!(config.effective_buffer_rent_collector(), collector);
}

#[test]
fn default_key_is_all_zero() {
    assert_eq!(Pubkey::default(), default_key());
    assert!(Pubkey::default().is_default());
    assert!(!unique().is_default());
}

fn config(authority: Pubkey, treasury: Pubkey) -> ProgramConfig {
    ProgramConfig {
        smart_account_index: 7,
        authority,
        smart_account_creation_fee: 5,
        treasury,
        buffer_rent_collector: Pubkey::default(),
        _reserved: [0u8; 32],
    }
}

#[test]
fn invariant_wants_authority_and_treasury() {
    assert_eq!(config(unique(), unique()).check_invariant(), Ok(()));
    assert_eq!(
        config(Pubkey::default(), unique()).check_invariant(),
        Err(SmartAccountError::InvalidAccount)
    );
    assert_eq!(
        config(unique(), Pubkey::default()).check_invariant(),
        Err(SmartAccountError::InvalidAccount)
    );
}

#[test]
fn increment_counts_one_and_stops_at_the_end() {
    let mut c = config(unique(), unique());
    assert_eq!(c.increment_smart_account_index(), Ok(()));
    assert_eq!(c.smart_account_index, 8);
    c.smart_account_index = u128::MAX;
    assert_eq!(c.increment_smart_account_index(), Err(SmartAccountError::ArithmeticOverflow));
    assert_eq!(c.smart_account_index, u128::MAX);
}

#[test]
fn initializer_key_is_the_published_one() {
    let expected: solana_sdk::pubkey::Pubkey =
        "3mnk4KPtQ7Tthha79x4Rjjy9icVPmJ4GWMnbZBWE2ysb".parse().unwrap();
    assert_eq!(INITIALIZER, expected.to_bytes());
}

#[test]
fn initialization_sets_the_configuration() {
    let authority = unique();
    let treasury = unique();
    let mut ctx = InitProgramConfig {
        program_config: config(Pubkey::default(), Pubkey::default()),
        initializer: Pubkey::new_from_array(INITIALIZER),
    };
    let args = InitProgramConfigArgs { authority, smart_account_creation_fee: 99, treasury };
    assert_eq!(initialize_program_config(&mut ctx, args), Ok(()));
    assert_eq!(ctx.program_config.authority, authority);
    assert_eq!(ctx.program_config.treasury, treasury);
    assert_eq!(ctx.program_config.buffer_rent_collector, treasury);
    assert_eq!(ctx.program_config.smart_account_creation_fee, 99);
    assert_eq!(ctx.program_config.smart_account_index, 0);
}

#[test]
fn initialization_is_for_the_initializer_alone() {
    let mut ctx = InitProgramConfig {
        program_config: config(Pubkey::default(), Pubkey::default()),
        initializer: unique(),
    };
    let args =
        InitProgramConfigArgs { authority: unique(), smart_account_creation_fee: 1, treasury: unique() };
    assert_eq!(initialize_program_config(&mut ctx, args), Err(SmartAccountError::Unauthorized));
    assert_eq!(ctx.program_config.smart_account_index, 7);
    assert!(ctx.program_config.authority.is_default());
}

#[test]
fn initialization_refuses_an_unset_treasury() {
    let mut ctx = InitProgramConfig {
        program_config: config(Pubkey::default(), Pubkey::default()),
        initializer: Pubkey::new_from_array(INITIALIZER),
    };
    let args = InitProgramConfigArgs {
        authority: unique(),
        smart_account_creation_fee: 1,
        treasury: Pubkey::default(),
    };
    assert_eq!(initialize_program_config(&mut ctx, args), Err(SmartAccountError::InvalidAccount));
    assert_eq!(ctx.program_config.smart_account_index, 7);
}

#[test]
fn updates_are_for_the_authority_alone() {
    let authority = unique();
    let mut c = config(authority, unique());
    let other = unique();
    assert_eq!(
        set_program_config_treasury(&mut c, &other, unique()),
        Err(SmartAccountError::Unauthorized)
    );
    let treasury = unique();
    assert_eq!(set_program_config_treasury(&mut c, &authority, treasury), Ok(()));
    assert_eq!(c.treasury, treasury);
    assert_eq!(set_program_config_smart_account_creation_fee(&mut c, &authority, 42), Ok(()));
    assert_eq!(c.smart_account_creation_fee, 42);
    assert_eq!(
        set_program_config_authority(&mut c, &authority, Pubkey::default()),
        Err(SmartAccountError::InvalidAccount)
    );
    assert_eq!(c.authority, authority);
    assert_eq!(set_program_config_authority(&mut c, &authority, other), Ok(()));
    assert_eq!(c.authority, other);
    assert_eq!(
        set_program_config_smart_account_creation_fee(&mut c, &authority, 1),
        Err(SmartAccountError::Unauthorized)
    );
}
