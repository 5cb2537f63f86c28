//! Addresses that derive from seeds: the identity under which a sub-account
//! signs, and the seeds under which the settings sign.

use vstd::prelude::*;
use crate::copying::copy_of;
use crate::keys::Pubkey;

verus! {

/// The seed that every address of the program begins with: "smart_account".
pub const SEED_PREFIX: [u8; 13] = [115, 109, 97, 114, 116, 95, 97, 99, 99, 111, 117, 110, 116];

/// The seed of a settings record: "settings".
pub const SEED_SETTINGS: [u8; 8] = [115, 101, 116, 116, 105, 110, 103, 115];

/// The seed of a sub-account: "smart_account".
pub const SEED_SMART_ACCOUNT: [u8; 13] = [
    115, 109, 97, 114, 116, 95, 97, 99, 99, 111, 117, 110, 116,
];

/// The address that the seeds and the program derive, with the bump that
/// was needed, if there is one.
pub uninterp spec fn program_address(seeds: Seq<Seq<u8>>, program_id: Seq<u8>) -> Option<
    (Seq<u8>, u8),
>;

/// Calls `solana_sdk::pubkey::Pubkey::try_find_program_address`, which tries
/// the bumps from 255 down, hashes seeds, bump and program with SHA-256, and
/// takes the first digest that is no point of the curve; `None` if there is
/// none, or if there are too many or too long seeds. Trusted: the result is
/// a function of seeds and program alone, the one that `program_address`
/// names.
#[verifier::external_body]
pub(crate) fn find_program_address(seeds: &Vec<Vec<u8>>, program_id: &Pubkey) -> (r: Option<
    (Pubkey, u8),
>)
    ensures
        match r {
            Some((key, bump)) => program_address(seeds.deep_view(), program_id.bytes@) == Some(
                (key.bytes@, bump),
            ),
            None => program_address(seeds.deep_view(), program_id.bytes@) is None,
        },
{
    let slices: Vec<&[u8]> = seeds.iter().map(|seed| seed.as_slice()).collect();
    let program = solana_sdk::pubkey::Pubkey::new_from_array(program_id.bytes);
    solana_sdk::pubkey::Pubkey::try_find_program_address(&slices, &program).map(
        |(key, bump)| (Pubkey::new_from_array(key.to_bytes()), bump),
    )
}

/// The seeds of the identity under which sub-account `account_index` of
/// `settings` signs.
pub open spec fn vault_seeds(settings: Pubkey, account_index: u8) -> Seq<Seq<u8>> {
    seq![SEED_PREFIX@, settings.bytes@, SEED_SMART_ACCOUNT@, seq![account_index]]
}

/// The seeds under which the settings numbered `seed` sign, bump left out.
pub open spec fn settings_seeds(seed: u128) -> Seq<Seq<u8>> {
    seq![SEED_PREFIX@, SEED_SETTINGS@, vstd::bytes::spec_u128_to_le_bytes(seed)]
}

/// The identity under which sub-account `account_index` of `settings`
/// signs, as the program `program_id` derives it, and its bump. It is
/// computed whenever it is needed, and stored nowhere.
pub fn vault_signer(settings: &Pubkey, account_index: u8, program_id: &Pubkey) -> (r: Option<
    (Pubkey, u8),
>)
    ensures
        match r {
            Some((key, bump)) => program_address(
                vault_seeds(*settings, account_index),
                program_id.bytes@,
            ) == Some((key.bytes@, bump)),
            None => program_address(vault_seeds(*settings, account_index), program_id.bytes@)
                is None,
        },
{
    let mut seeds: Vec<Vec<u8>> = Vec::new();
    seeds.push(copy_of(SEED_PREFIX.as_slice()));
    seeds.push(copy_of(settings.bytes.as_slice()));
    seeds.push(copy_of(SEED_SMART_ACCOUNT.as_slice()));
    let mut index: Vec<u8> = Vec::new();
    index.push(account_index);
    seeds.push(index);
    assert(seeds.deep_view() =~~= vault_seeds(*settings, account_index));
    find_program_address(&seeds, program_id)
}

/// The seeds under which the settings numbered `seed` sign, bump left out.
pub fn get_settings_signer_seeds(seed: u128) -> (r: Vec<Vec<u8>>)
    ensures
        r.deep_view() == settings_seeds(seed),
{
    let mut seeds: Vec<Vec<u8>> = Vec::new();
    seeds.push(copy_of(SEED_PREFIX.as_slice()));
    seeds.push(copy_of(SEED_SETTINGS.as_slice()));
    seeds.push(vstd::bytes::u128_to_le_bytes(seed));
    assert(seeds.deep_view() =~~= settings_seeds(seed));
    seeds
}

} // verus!
