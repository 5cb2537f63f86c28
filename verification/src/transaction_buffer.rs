//! Transaction buffers: a payload too large for one upload, staged in chunks
//! and checked against the digest announced for it.

use vstd::prelude::*;
use crate::copying::append_copies;
use crate::errors::SmartAccountError;
use crate::hashing::{digest, sha256};
use crate::keys::Pubkey;

verus! {

/// A payload in the making.
#[derive(Debug)]
pub struct TransactionBuffer {
    /// The settings the payload is meant for.
    pub settings: Pubkey,
    /// The only key that may extend, use or close the buffer.
    pub creator: Pubkey,
    /// Tells the creator's buffers apart.
    pub buffer_index: u8,
    /// The sub-account the payload is meant for.
    pub account_index: u8,
    /// The digest that the complete payload must have.
    pub final_buffer_hash: [u8; 32],
    /// The bytes staged so far.
    pub buffer: Vec<u8>,
}

/// A buffer that could not be used up: why, and the buffer as it was.
#[derive(Debug)]
pub struct RefusedBuffer {
    pub error: SmartAccountError,
    pub buffer: TransactionBuffer,
}

impl TransactionBuffer {
    /// The staged bytes are complete: they hash to the digest announced.
    pub open spec fn complete(&self) -> bool {
        sha256(self.buffer@) == self.final_buffer_hash@
    }

    /// Starts a buffer with a first chunk.
    pub fn create(
        settings: Pubkey,
        creator: Pubkey,
        buffer_index: u8,
        account_index: u8,
        final_buffer_hash: [u8; 32],
        initial_chunk: Vec<u8>,
    ) -> (r: TransactionBuffer)
        ensures
            r.settings == settings,
            r.creator == creator,
            r.buffer_index == buffer_index,
            r.account_index == account_index,
            r.final_buffer_hash == final_buffer_hash,
            r.buffer@ == initial_chunk@,
    {
        TransactionBuffer {
            settings,
            creator,
            buffer_index,
            account_index,
            final_buffer_hash,
            buffer: initial_chunk,
        }
    }

    /// Appends a chunk. `Unauthorized`, with the buffer unchanged, unless the
    /// caller created the buffer.
    pub fn extend(&mut self, caller: &Pubkey, chunk: &Vec<u8>) -> (r: Result<
        (),
        SmartAccountError,
    >)
        ensures
            match r {
                Ok(()) => {
                    &&& *caller == old(self).creator
                    &&& final(self).buffer@ == old(self).buffer@ + chunk@
                    &&& final(self).settings == old(self).settings
                    &&& final(self).creator == old(self).creator
                    &&& final(self).buffer_index == old(self).buffer_index
                    &&& final(self).account_index == old(self).account_index
                    &&& final(self).final_buffer_hash == old(self).final_buffer_hash
                },
                Err(e) => e == SmartAccountError::Unauthorized && *caller != old(self).creator
                    && *final(self) == *old(self),
            },
    {
        if *caller != self.creator {
            return Err(SmartAccountError::Unauthorized);
        }
        append_copies(&mut self.buffer, chunk.as_slice());
        Ok(())
    }

    /// Whether `computed` is the digest announced for the payload.
    pub fn digest_matches(&self, computed: &[u8; 32]) -> (r: bool)
        ensures
            r == (computed@ == self.final_buffer_hash@),
    {
        let mut i: usize = 0;
        while i < 32
            invariant
                i <= 32,
                forall|j: int| 0 <= j < i ==> computed@[j] == self.final_buffer_hash@[j],
            decreases 32 - i,
        {
            if computed[i] != self.final_buffer_hash[i] {
                return false;
            }
            i += 1;
        }
        assert(computed@ =~= self.final_buffer_hash@);
        true
    }

    /// Uses the buffer up, given the digest of its bytes: hands the payload
    /// out if the digest is the one announced. If it is not, the buffer
    /// comes back as it was, with `BufferHashMismatch`.
    pub fn finalize_with(self, computed: [u8; 32]) -> (r: Result<Vec<u8>, RefusedBuffer>)
        ensures
            match r {
                Ok(payload) => computed@ == self.final_buffer_hash@ && payload@ == self.buffer@,
                Err(refused) => refused.error == SmartAccountError::BufferHashMismatch
                    && computed@ != self.final_buffer_hash@ && refused.buffer == self,
            },
    {
        if self.digest_matches(&computed) {
            Ok(self.buffer)
        } else {
            Err(RefusedBuffer { error: SmartAccountError::BufferHashMismatch, buffer: self })
        }
    }

    /// Uses the buffer up: hands the payload out if the staged bytes hash to
    /// the digest announced. If they do not, the buffer comes back as it
    /// was, with `BufferHashMismatch`.
    pub fn finalize(self) -> (r: Result<Vec<u8>, RefusedBuffer>)
        ensures
            r is Ok <==> self.complete(),
            match r {
                Ok(payload) => payload@ == self.buffer@,
                Err(refused) => refused.error == SmartAccountError::BufferHashMismatch
                    && refused.buffer == self,
            },
    {
        let computed = digest(self.buffer.as_slice());
        self.finalize_with(computed)
    }

    /// Closes the buffer, whatever has become of it: gives the key that the
    /// storage goes back to, which is the creator. `Unauthorized` unless the
    /// caller created the buffer.
    pub fn close(&self, caller: &Pubkey) -> (r: Result<Pubkey, SmartAccountError>)
        ensures
            match r {
                Ok(to) => *caller == self.creator && to == self.creator,
                Err(e) => e == SmartAccountError::Unauthorized && *caller != self.creator,
            },
    {
        if *caller != self.creator {
            return Err(SmartAccountError::Unauthorized);
        }
        Ok(self.creator)
    }
}

/// Starts a transaction buffer with a first chunk.
pub fn create_transaction_buffer(
    settings: Pubkey,
    creator: Pubkey,
    buffer_index: u8,
    account_index: u8,
    final_buffer_hash: [u8; 32],
    initial_chunk: Vec<u8>,
) -> (r: TransactionBuffer)
    ensures
        r.settings == settings,
        r.creator == creator,
        r.buffer_index == buffer_index,
        r.account_index == account_index,
        r.final_buffer_hash == final_buffer_hash,
        r.buffer@ == initial_chunk@,
{
    TransactionBuffer::create(
        settings,
        creator,
        buffer_index,
        account_index,
        final_buffer_hash,
        initial_chunk,
    )
}

/// Appends a chunk to a transaction buffer. `Unauthorized`, with the buffer
/// unchanged, unless the caller created the buffer.
pub fn extend_transaction_buffer(buffer: &mut TransactionBuffer, caller: &Pubkey, chunk: &Vec<u8>) -> (r:
    Result<(), SmartAccountError>)
    ensures
        match r {
            Ok(()) => {
                &&& *caller == old(buffer).creator
                &&& final(buffer).buffer@ == old(buffer).buffer@ + chunk@
                &&& final(buffer).settings == old(buffer).settings
                &&& final(buffer).creator == old(buffer).creator
                &&& final(buffer).buffer_index == old(buffer).buffer_index
                &&& final(buffer).account_index == old(buffer).account_index
                &&& final(buffer).final_buffer_hash == old(buffer).final_buffer_hash
            },
            Err(e) => e == SmartAccountError::Unauthorized && *caller != old(buffer).creator
                && *final(buffer) == *old(buffer),
        },
{
    buffer.extend(caller, chunk)
}

} // verus!
