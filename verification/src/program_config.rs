//! The configuration that is shared by every smart account of the program.

use vstd::prelude::*;
use crate::errors::SmartAccountError;
use crate::keys::Pubkey;

verus! {

/// Global program configuration.
#[derive(Clone, Copy, Debug)]
pub struct ProgramConfig {
    /// How many smart accounts have been created.
    pub smart_account_index: u128,
    /// The key that may update the configuration.
    pub authority: Pubkey,
    /// The fee charged for creating a smart account; it goes to `treasury`.
    pub smart_account_creation_fee: u64,
    /// The account that fees are sent to.
    pub treasury: Pubkey,
    /// The account that gets the storage of closed transaction buffers back.
    /// A configuration stored before this field existed holds zeros here, and
    /// the treasury stands in.
    pub buffer_rent_collector: Pubkey,
    /// Reserved for future use.
    pub _reserved: [u8; 32],
}

impl ProgramConfig {
    /// Authority and treasury are set.
    pub open spec fn valid(&self) -> bool {
        !self.authority.is_zero() && !self.treasury.is_zero()
    }

    /// The account that gets the storage of closed buffers back: the one
    /// configured, or the treasury where none is.
    pub open spec fn effective_collector(&self) -> Pubkey {
        if self.buffer_rent_collector.is_zero() {
            self.treasury
        } else {
            self.buffer_rent_collector
        }
    }

    /// Checks the invariant of the configuration: `InvalidAccount` unless
    /// authority and treasury are set.
    pub fn check_invariant(&self) -> (r: Result<(), SmartAccountError>)
        ensures
            r is Ok <==> self.valid(),
            r matches Err(e) ==> e == SmartAccountError::InvalidAccount,
    {
        if self.authority.is_default() {
            return Err(SmartAccountError::InvalidAccount);
        }
        if self.treasury.is_default() {
            return Err(SmartAccountError::InvalidAccount);
        }
        Ok(())
    }

    pub fn effective_buffer_rent_collector(&self) -> (r: Pubkey)
        ensures
            r == self.effective_collector(),
    {
        if self.buffer_rent_collector.is_default() {
            self.treasury
        } else {
            self.buffer_rent_collector
        }
    }

    /// Counts one more smart account. `ArithmeticOverflow`, with the
    /// configuration unchanged, if the counter is at its end.
    pub fn increment_smart_account_index(&mut self) -> (r: Result<(), SmartAccountError>)
        ensures
            match r {
                Ok(()) => old(self).smart_account_index < u128::MAX && *final(self) == (
                ProgramConfig {
                    smart_account_index: (old(self).smart_account_index + 1) as u128,
                    ..*old(self)
                }),
                Err(e) => e == SmartAccountError::ArithmeticOverflow && old(
                    self,
                ).smart_account_index == u128::MAX && *final(self) == *old(self),
            },
    {
        if self.smart_account_index == u128::MAX {
            return Err(SmartAccountError::ArithmeticOverflow);
        }
        self.smart_account_index = self.smart_account_index + 1;
        Ok(())
    }
}

} // verus!
