//! Events: what the account reports of its own doings, and the call that
//! carries a report into the log.

use vstd::prelude::*;
use crate::copying::{append_copies, copy_of};
use crate::errors::SmartAccountError;
use crate::keys::Pubkey;
use crate::settings::Settings;
use crate::settings_transaction::SettingsAction;

verus! {

/// One compiled call: the called program and the accounts passed, by their
/// place in the list of keys, and the call's data.
#[derive(Debug)]
pub struct SmartAccountCompiledInstruction {
    pub program_id_index: u8,
    pub account_indexes: Vec<u8>,
    pub data: Vec<u8>,
}

/// A smart account was created.
#[derive(Debug)]
pub struct CreateSmartAccountEvent {
    pub new_settings_pubkey: Pubkey,
    pub new_settings_content: Settings,
}

/// Calls were made synchronously.
#[derive(Debug)]
pub struct SynchronousTransactionEvent {
    pub settings_pubkey: Pubkey,
    pub account_index: u8,
    pub signers: Vec<Pubkey>,
    pub instructions: Vec<SmartAccountCompiledInstruction>,
    pub instruction_accounts: Vec<Pubkey>,
}

/// The settings were changed synchronously.
#[derive(Debug)]
pub struct SynchronousSettingsTransactionEvent {
    pub settings_pubkey: Pubkey,
    pub signers: Vec<Pubkey>,
    pub settings: Settings,
    pub changes: Vec<SettingsAction>,
}

/// The settings were changed by their authority.
#[derive(Debug)]
pub struct AuthoritySettingsEvent {
    pub settings: Settings,
    pub settings_pubkey: Pubkey,
    pub authority: Pubkey,
    pub change: SettingsAction,
}

/// The settings were handed over to another authority.
#[derive(Debug)]
pub struct AuthorityChangeEvent {
    pub settings: Settings,
    pub settings_pubkey: Pubkey,
    pub authority: Pubkey,
    pub new_authority: Option<Pubkey>,
}

/// Anything the account reports.
#[derive(Debug)]
pub enum SmartAccountEvent {
    CreateSmartAccountEvent(CreateSmartAccountEvent),
    SynchronousTransactionEvent(SynchronousTransactionEvent),
    SynchronousSettingsTransactionEvent(SynchronousSettingsTransactionEvent),
    AuthoritySettingsEvent(AuthoritySettingsEvent),
    AuthorityChangeEvent(AuthorityChangeEvent),
}

/// In whose name a report is logged.
#[derive(Debug)]
pub struct LogAuthorityInfo {
    /// The account that signs the logging call.
    pub authority: Pubkey,
    /// The seeds that the account's address derives from, bump left out.
    pub authority_seeds: Vec<Vec<u8>>,
    pub bump: u8,
    /// The program that is called to log.
    pub program: Pubkey,
}

/// What the logging call carries.
#[derive(Debug)]
pub struct LogEventArgs {
    pub account_seeds: Vec<Vec<u8>>,
    pub bump: u8,
    /// The report, serialized.
    pub event: Vec<u8>,
}

/// An account handed to a call.
#[derive(Clone, Copy, Debug)]
pub struct AccountMeta {
    pub pubkey: Pubkey,
    pub is_signer: bool,
    pub is_writable: bool,
}

/// A call to make.
#[derive(Debug)]
pub struct Instruction {
    pub program_id: Pubkey,
    pub accounts: Vec<AccountMeta>,
    pub data: Vec<u8>,
}

/// A call to make in the name of an account of the program's own, with the
/// seeds that its address derives from.
#[derive(Debug)]
pub struct SignedInstruction {
    pub instruction: Instruction,
    pub signer_seeds: Vec<Vec<u8>>,
}

/// The tag that marks a logging call.
pub const LOG_EVENT_DISCRIMINATOR: u8 = 34;

/// A 32-bit count as four bytes, lowest first.
pub open spec fn le32(x: u32) -> Seq<u8> {
    seq![
        (x & 0xff) as u8,
        ((x >> 8) & 0xff) as u8,
        ((x >> 16) & 0xff) as u8,
        ((x >> 24) & 0xff) as u8,
    ]
}

/// A byte string behind its length.
pub open spec fn prefixed(bytes: Seq<u8>) -> Seq<u8> {
    le32(bytes.len() as u32) + bytes
}

/// Byte strings one after the other, each behind its length.
pub open spec fn prefixed_each(items: Seq<Vec<u8>>) -> Seq<u8>
    decreases items.len(),
{
    if items.len() == 0 {
        Seq::empty()
    } else {
        prefixed_each(items.drop_last()) + prefixed(items.last()@)
    }
}

/// Every length that the logging call writes down fits in 32 bits.
pub open spec fn lengths_fit(seeds: Seq<Vec<u8>>, event: Seq<u8>) -> bool {
    &&& seeds.len() <= u32::MAX
    &&& event.len() <= u32::MAX
    &&& forall|i: int| 0 <= i < seeds.len() ==> (#[trigger] seeds[i])@.len() <= u32::MAX
}

/// The data of a logging call: the tag, the number of seeds and the seeds,
/// the bump, and the report, each byte string behind its length.
pub open spec fn log_data(seeds: Seq<Vec<u8>>, bump: u8, event: Seq<u8>) -> Seq<u8> {
    seq![LOG_EVENT_DISCRIMINATOR] + le32(seeds.len() as u32) + prefixed_each(seeds) + seq![bump]
        + prefixed(event)
}

/// The seeds to sign with: those given, then the bump as a seed of its own.
pub open spec fn seeds_with_bump(seeds: Seq<Vec<u8>>, bump: u8, out: Seq<Vec<u8>>) -> bool {
    &&& out.len() == seeds.len() + 1
    &&& forall|i: int| 0 <= i < seeds.len() ==> (#[trigger] out[i])@ == seeds[i]@
    &&& out[seeds.len() as int]@ == seq![bump]
}

fn push_le32(out: &mut Vec<u8>, x: u32)
    ensures
        final(out)@ == old(out)@ + le32(x),
{
    assert(x & 0xff <= 0xff) by (bit_vector);
    assert((x >> 8) & 0xff <= 0xff) by (bit_vector);
    assert((x >> 16) & 0xff <= 0xff) by (bit_vector);
    assert((x >> 24) & 0xff <= 0xff) by (bit_vector);
    out.push((x & 0xff) as u8);
    out.push(((x >> 8) & 0xff) as u8);
    out.push(((x >> 16) & 0xff) as u8);
    out.push(((x >> 24) & 0xff) as u8);
    assert(out@ =~= old(out)@ + le32(x));
}

fn push_prefixed(out: &mut Vec<u8>, bytes: &Vec<u8>)
    requires
        bytes@.len() <= u32::MAX,
    ensures
        final(out)@ == old(out)@ + prefixed(bytes@),
{
    push_le32(out, bytes.len() as u32);
    append_copies(out, bytes.as_slice());
    assert(out@ =~= old(out)@ + prefixed(bytes@));
}

/// The data of a logging call with these seeds, bump and report.
/// `ArithmeticOverflow` if a length does not fit in 32 bits.
pub fn frame_log_data(seeds: &Vec<Vec<u8>>, bump: u8, event: &Vec<u8>) -> (r: Result<
    Vec<u8>,
    SmartAccountError,
>)
    ensures
        match r {
            Ok(data) => lengths_fit(seeds@, event@) && data@ == log_data(seeds@, bump, event@),
            Err(e) => e == SmartAccountError::ArithmeticOverflow && !lengths_fit(seeds@, event@),
        },
{
    if seeds.len() > u32::MAX as usize || event.len() > u32::MAX as usize {
        return Err(SmartAccountError::ArithmeticOverflow);
    }
    let mut data: Vec<u8> = Vec::new();
    data.push(LOG_EVENT_DISCRIMINATOR);
    push_le32(&mut data, seeds.len() as u32);
    let ghost head = data@;
    let mut i: usize = 0;
    assert(seeds@.take(0) =~= Seq::<Vec<u8>>::empty());
    while i < seeds.len()
        invariant
            i <= seeds.len(),
            data@ == head + prefixed_each(seeds@.take(i as int)),
            forall|j: int| 0 <= j < i ==> (#[trigger] seeds@[j])@.len() <= u32::MAX,
        decreases seeds.len() - i,
    {
        if seeds[i].len() > u32::MAX as usize {
            return Err(SmartAccountError::ArithmeticOverflow);
        }
        assert(seeds@.take(i + 1).drop_last() =~= seeds@.take(i as int));
        push_prefixed(&mut data, &seeds[i]);
        assert(data@ =~= head + prefixed_each(seeds@.take(i + 1)));
        i += 1;
    }
    assert(seeds@.take(i as int) =~= seeds@);
    data.push(bump);
    push_prefixed(&mut data, event);
    assert(data@ =~= log_data(seeds@, bump, event@));
    Ok(data)
}

/// The data of the logging call that carries `args`. `ArithmeticOverflow` if
/// a length does not fit in 32 bits.
pub fn log_event_data(args: &LogEventArgs) -> (r: Result<Vec<u8>, SmartAccountError>)
    ensures
        match r {
            Ok(data) => lengths_fit(args.account_seeds@, args.event@) && data@ == log_data(
                args.account_seeds@,
                args.bump,
                args.event@,
            ),
            Err(e) => e == SmartAccountError::ArithmeticOverflow && !lengths_fit(
                args.account_seeds@,
                args.event@,
            ),
        },
{
    frame_log_data(&args.account_seeds, args.bump, &args.event)
}

/// The seeds to sign with: those given, then the bump as a seed of its own.
pub fn signer_seeds(seeds: &Vec<Vec<u8>>, bump: u8) -> (r: Vec<Vec<u8>>)
    ensures
        seeds_with_bump(seeds@, bump, r@),
{
    let mut r: Vec<Vec<u8>> = Vec::new();
    let mut i: usize = 0;
    while i < seeds.len()
        invariant
            i <= seeds.len(),
            r@.len() == i,
            forall|j: int| 0 <= j < i ==> (#[trigger] r@[j])@ == seeds@[j]@,
        decreases seeds.len() - i,
    {
        r.push(copy_of(seeds[i].as_slice()));
        i += 1;
    }
    let mut last: Vec<u8> = Vec::new();
    last.push(bump);
    assert(last@ =~= seq![bump]);
    r.push(last);
    r
}

impl SmartAccountEvent {
    /// The call that logs this report in the name of an account of the
    /// program's own: to the program, with that account alone, as a signer
    /// that is not written to, and with the report as data. `serialized` is
    /// the report in its serialized form, which the caller makes.
    /// `ArithmeticOverflow` if a length does not fit in 32 bits.
    pub fn log(&self, authority_info: &LogAuthorityInfo, serialized: Vec<u8>) -> (r: Result<
        SignedInstruction,
        SmartAccountError,
    >)
        ensures
            match r {
                Ok(call) => {
                    &&& lengths_fit(authority_info.authority_seeds@, serialized@)
                    &&& call.instruction.program_id == authority_info.program
                    &&& call.instruction.accounts@ == seq![
                        AccountMeta {
                            pubkey: authority_info.authority,
                            is_signer: true,
                            is_writable: false,
                        },
                    ]
                    &&& call.instruction.data@ == log_data(
                        authority_info.authority_seeds@,
                        authority_info.bump,
                        serialized@,
                    )
                    &&& seeds_with_bump(
                        authority_info.authority_seeds@,
                        authority_info.bump,
                        call.signer_seeds@,
                    )
                },
                Err(e) => e == SmartAccountError::ArithmeticOverflow && !lengths_fit(
                    authority_info.authority_seeds@,
                    serialized@,
                ),
            },
    {
        let data = match frame_log_data(
            &authority_info.authority_seeds,
            authority_info.bump,
            &serialized,
        ) {
            Ok(data) => data,
            Err(e) => {
                return Err(e);
            },
        };
        let seeds = signer_seeds(&authority_info.authority_seeds, authority_info.bump);
        let mut accounts: Vec<AccountMeta> = Vec::new();
        accounts.push(
            AccountMeta { pubkey: authority_info.authority, is_signer: true, is_writable: false },
        );
        assert(accounts@ =~= seq![
            AccountMeta { pubkey: authority_info.authority, is_signer: true, is_writable: false },
        ]);
        Ok(
            SignedInstruction {
                instruction: Instruction { program_id: authority_info.program, accounts, data },
                signer_seeds: seeds,
            },
        )
    }
}

} // verus!
