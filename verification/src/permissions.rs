//! Signers and their permission masks.

use vstd::prelude::*;
use crate::keys::Pubkey;

verus! {

/// One thing a signer may be allowed to do.
#[derive(Clone, Copy, Debug, PartialEq, Eq, Structural)]
pub enum Permission {
    /// Propose transactions.
    Initiate,
    /// Vote on proposals.
    Vote,
    /// Execute approved transactions.
    Execute,
}

impl Permission {
    /// The bit that stands for this permission in a mask.
    pub open spec fn bit(self) -> u8 {
        match self {
            Permission::Initiate => 1u8,
            Permission::Vote => 2u8,
            Permission::Execute => 4u8,
        }
    }

    pub fn mask(&self) -> (r: u8)
        ensures
            r == self.bit(),
    {
        match self {
            Permission::Initiate => 1,
            Permission::Vote => 2,
            Permission::Execute => 4,
        }
    }
}

/// A set of permissions, one bit each.
#[derive(Clone, Copy, Debug, PartialEq, Eq, Structural)]
pub struct Permissions {
    pub mask: u8,
}

impl Permissions {
    /// Whether the mask holds the permission's bit.
    pub open spec fn allows(self, permission: Permission) -> bool {
        self.mask & permission.bit() != 0
    }

    pub fn has(&self, permission: Permission) -> (r: bool)
        ensures
            r == self.allows(permission),
    {
        self.mask & permission.mask() != 0
    }
}

/// A signer of a smart account: a key and what it may do.
#[derive(Clone, Copy, Debug)]
pub struct SmartAccountSigner {
    pub key: Pubkey,
    pub permissions: Permissions,
}

/// A capability outside the normal voting flow.
#[derive(Clone, Copy, Debug, PartialEq, Eq, Structural)]
pub enum RestrictedPermission {
    /// Trigger the emergency exit.
    EmergencyExit,
}

impl RestrictedPermission {
    /// The bit that stands for this capability in a mask.
    pub open spec fn bit(self) -> u8 {
        match self {
            RestrictedPermission::EmergencyExit => 1u8,
        }
    }

    pub fn mask(&self) -> (r: u8)
        ensures
            r == self.bit(),
    {
        match self {
            RestrictedPermission::EmergencyExit => 1,
        }
    }
}

/// A set of restricted capabilities, one bit each.
#[derive(Clone, Copy, Debug, PartialEq, Eq, Structural)]
pub struct RestrictedPermissions {
    pub mask: u8,
}

impl RestrictedPermissions {
    /// Whether the mask holds the capability's bit.
    pub open spec fn allows(self, permission: RestrictedPermission) -> bool {
        self.mask & permission.bit() != 0
    }

    pub fn has(&self, permission: RestrictedPermission) -> (r: bool)
        ensures
            r == self.allows(permission),
    {
        self.mask & permission.mask() != 0
    }
}

/// A key that holds restricted capabilities on a smart account.
#[derive(Clone, Copy, Debug)]
pub struct RestrictedSmartAccountSigner {
    pub key: Pubkey,
    pub restricted_permissions: RestrictedPermissions,
}

} // verus!
