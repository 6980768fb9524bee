//! The accounts that take part in each operation.
//!
//! A profile is named by the identity under which it is kept, which is its
//! owner's. A permission is named by its assistant and its visitor.

use vstd::prelude::*;
use crate::pubkey::Pubkey;

verus! {

/// Making a profile: `owner` asks for it, and it will be kept under `owner`.
#[derive(Clone, Copy, Debug)]
pub struct InitializeAssistant {
    pub owner: Pubkey,
}

/// Changing the settings of the profile `assistant` on behalf of `owner`.
#[derive(Clone, Copy, Debug)]
pub struct UpdateAssistant {
    pub assistant: Pubkey,
    pub owner: Pubkey,
}

/// Granting access to the profile `assistant` on behalf of `owner`.
#[derive(Clone, Copy, Debug)]
pub struct GrantAccess {
    pub assistant: Pubkey,
    pub owner: Pubkey,
}

/// Revoking the permission of `visitor` for `assistant` on behalf of `owner`.
#[derive(Clone, Copy, Debug)]
pub struct RevokeAccess {
    pub assistant: Pubkey,
    pub visitor: Pubkey,
    pub owner: Pubkey,
}

/// `visitor` pays the fee of `assistant` to `assistant_owner`, whom the visitor
/// declares to be its owner.
#[derive(Clone, Copy, Debug)]
pub struct PayForAccess {
    pub assistant_owner: Pubkey,
    pub assistant: Pubkey,
    pub visitor: Pubkey,
}

/// `tipper` tips `assistant`; the tip goes to `assistant_owner`, whom the
/// tipper declares to be its owner.
#[derive(Clone, Copy, Debug)]
pub struct TipAssistant {
    pub assistant: Pubkey,
    pub assistant_owner: Pubkey,
    pub tipper: Pubkey,
}

/// Asking whether `visitor` may interact with `assistant`. Anyone may ask.
#[derive(Clone, Copy, Debug)]
pub struct CheckPermission {
    pub assistant: Pubkey,
    pub visitor: Pubkey,
}

} // verus!
