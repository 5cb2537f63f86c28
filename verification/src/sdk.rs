//! The client's side: putting together the call that creates a smart
//! account.

use vstd::prelude::*;
use crate::events::{AccountMeta, Instruction};
use crate::keys::Pubkey;

verus! {

/// The accounts that the creating call names, in the order in which it names
/// them.
#[derive(Clone, Copy, Debug)]
pub struct CreateSmartAccountAccounts {
    pub program_config: Pubkey,
    pub treasury: Pubkey,
    pub creator: Pubkey,
    pub system_program: Pubkey,
    pub program: Pubkey,
}

impl CreateSmartAccountAccounts {
    /// The accounts as the call hands them over: each writable, and the
    /// creator alone a signer.
    pub open spec fn metas(self) -> Seq<AccountMeta> {
        seq![
            AccountMeta { pubkey: self.program_config, is_signer: false, is_writable: true },
            AccountMeta { pubkey: self.treasury, is_signer: false, is_writable: true },
            AccountMeta { pubkey: self.creator, is_signer: true, is_writable: true },
            AccountMeta { pubkey: self.system_program, is_signer: false, is_writable: true },
            AccountMeta { pubkey: self.program, is_signer: false, is_writable: true },
        ]
    }

    pub fn to_account_metas(&self) -> (r: Vec<AccountMeta>)
        ensures
            r@ == self.metas(),
    {
        let mut r: Vec<AccountMeta> = Vec::new();
        r.push(AccountMeta { pubkey: self.program_config, is_signer: false, is_writable: true });
        r.push(AccountMeta { pubkey: self.treasury, is_signer: false, is_writable: true });
        r.push(AccountMeta { pubkey: self.creator, is_signer: true, is_writable: true });
        r.push(AccountMeta { pubkey: self.system_program, is_signer: false, is_writable: true });
        r.push(AccountMeta { pubkey: self.program, is_signer: false, is_writable: true });
        assert(r@ =~= self.metas());
        r
    }
}

/// The call that creates a smart account: to the program, with the accounts
/// in their order, and with the arguments, serialized by the caller, as its
/// data. The creator signs it.
pub fn create_smart_account(program: Pubkey, accounts: CreateSmartAccountAccounts, data: Vec<u8>) -> (r:
    Instruction)
    ensures
        r.program_id == program,
        r.accounts@ == accounts.metas(),
        r.data == data,
{
    Instruction { program_id: program, accounts: accounts.to_account_metas(), data }
}

} // verus!
