use smart_account::instructions::CreateSmartAccountArgs;
use smart_account::keys::Pubkey;
use smart_account::permissions::{Permissions, SmartAccountSigner};
use smart_account::sdk::{create_smart_account, CreateSmartAccountAccounts};

fn unique() -> Pubkey {
    Pubkey::new_from_array(solana_sdk::pubkey::Pubkey::new_unique().to_bytes())
}

#[test]
fn test_create_smart_account_instruction_builds() {
    let payer = unique();
    let program_id = unique();

    let accounts = CreateSmartAccountAccounts {
        program_config: unique(),
        treasury: unique(),
        creator: payer,
        system_program: Pubkey::new_from_array(solana_sdk::system_program::ID.to_bytes()),
        program: program_id,
    };

    let permissions = Permissions { mask: 1 };
    let signer = SmartAccountSigner { key: unique(), permissions };
    let args = CreateSmartAccountArgs {
        settings_authority: Some(unique()),
        threshold: 2,
        signers: vec![signer],
        restricted_signers: vec![],
        time_lock: 0,
        rent_collector: None,
        memo: Some("Test".to_string()),
    };
    let data = vec![5u8, args.threshold as u8];

    let instruction = create_smart_account(program_id, accounts, data);
    assert_eq!(instruction.program_id, program_id);
    assert_eq!(instruction.data, vec![5u8, 2u8]);
    assert_eq!(instruction.accounts.len(), 5);
    let expected = [
        (accounts.program_config, false),
        (accounts.treasury, false),
        (accounts.creator, true),
        (accounts.system_program, false),
        (accounts.program, false),
    ];
    for (meta, (key, signs)) in instruction.accounts.iter().zip(expected.iter()) {
        assert_eq!(meta.pubkey, *key);
        assert_eq!(meta.is_signer, *signs);
        assert!(meta.is_writable);
    }
}
