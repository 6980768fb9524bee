//! The notifications that successful operations hand to the host.

use vstd::prelude::*;
use crate::pubkey::Pubkey;
use crate::state::PermissionType;

verus! {

/// A profile was made.
#[derive(Debug, PartialEq, Eq)]
pub struct AssistantCreated {
    pub owner: Pubkey,
    pub username: String,
    pub access_fee: u64,
}

impl Clone for AssistantCreated {
    fn clone(&self) -> (copy: AssistantCreated)
        ensures
            copy.owner == self.owner,
            copy.username@ == self.username@,
            copy.access_fee == self.access_fee,
    {
        AssistantCreated {
            owner: self.owner,
            username: self.username.clone(),
            access_fee: self.access_fee,
        }
    }
}

/// An owner granted access.
#[derive(Clone, Copy, Debug, PartialEq, Eq)]
pub struct AccessGranted {
    pub assistant: Pubkey,
    pub visitor: Pubkey,
    pub permission_type: PermissionType,
}

/// An owner revoked a permission.
#[derive(Clone, Copy, Debug, PartialEq, Eq)]
pub struct AccessRevoked {
    pub assistant: Pubkey,
    pub visitor: Pubkey,
}

/// A visitor paid the access fee.
#[derive(Clone, Copy, Debug, PartialEq, Eq)]
pub struct PaymentReceived {
    pub assistant: Pubkey,
    pub visitor: Pubkey,
    pub amount: u64,
}

/// Someone tipped an assistant.
#[derive(Clone, Copy, Debug, PartialEq, Eq)]
pub struct TipReceived {
    pub assistant: Pubkey,
    pub tipper: Pubkey,
    pub amount: u64,
}

} // verus!
