//! The two kinds of record, and the rules that change a single record.

use vstd::prelude::*;
use crate::error::{ChatmateError, LedgerError};
use crate::pubkey::Pubkey;
use crate::transfer::Transfer;

verus! {

/// The most bytes a username may take, encoded as UTF-8.
pub const MAX_USERNAME_BYTES: usize = 32;

/// Whether a username fits the space a profile has for it.
pub open spec fn username_fits(username: Seq<char>) -> bool {
    vstd::utf8::encode_utf8(username).len() <= MAX_USERNAME_BYTES
}

/// What a permission lets its visitor do.
#[derive(Clone, Copy, Debug, PartialEq, Eq, Structural)]
pub enum PermissionType {
    /// Chat with the assistant.
    Chat,
    /// Schedule meetings.
    Schedule,
    /// Everything.
    FullAccess,
}

impl Default for PermissionType {
    fn default() -> (kind: PermissionType)
        ensures
            kind == PermissionType::Chat,
    {
        PermissionType::Chat
    }
}

/// The profile of an assistant. There is at most one per owner, and it is kept
/// under its owner's identity.
#[derive(Debug, PartialEq, Eq)]
pub struct Assistant {
    /// The account that controls the profile. Never changes.
    pub owner: Pubkey,
    /// Set when the profile is made. Never changes.
    pub username: String,
    /// What access costs, in the smallest unit of the currency. Zero: access
    /// is free.
    pub access_fee: u64,
    /// All that was ever paid or tipped to the assistant.
    pub total_earnings: u64,
    /// Kept for callers; no rule of this crate reads it.
    pub is_access_restricted: bool,
}

/// A profile, with its username as a sequence of characters.
pub struct AssistantView {
    pub owner: Pubkey,
    pub username: Seq<char>,
    pub access_fee: u64,
    pub total_earnings: u64,
    pub is_access_restricted: bool,
}

impl View for Assistant {
    type V = AssistantView;

    open spec fn view(&self) -> AssistantView {
        AssistantView {
            owner: self.owner,
            username: self.username@,
            access_fee: self.access_fee,
            total_earnings: self.total_earnings,
            is_access_restricted: self.is_access_restricted,
        }
    }
}

impl AssistantView {
    /// The profile as it is made: nothing earned, access not restricted.
    pub open spec fn created(owner: Pubkey, username: Seq<char>, access_fee: u64) -> AssistantView {
        AssistantView {
            owner,
            username,
            access_fee,
            total_earnings: 0,
            is_access_restricted: false,
        }
    }

    /// The profile after an update: each setting that is supplied replaces the
    /// stored one, the others stay.
    pub open spec fn updated(
        self,
        access_fee: Option<u64>,
        is_access_restricted: Option<bool>,
    ) -> AssistantView {
        AssistantView {
            access_fee: match access_fee {
                Some(fee) => fee,
                None => self.access_fee,
            },
            is_access_restricted: match is_access_restricted {
                Some(restricted) => restricted,
                None => self.is_access_restricted,
            },
            ..self
        }
    }

    /// Whether the earnings counter can take `amount` more.
    pub open spec fn can_earn(self, amount: u64) -> bool {
        self.total_earnings + amount <= u64::MAX
    }

    /// The profile after earning `amount`.
    pub open spec fn credited(self, amount: u64) -> AssistantView
        recommends
            self.can_earn(amount),
    {
        AssistantView { total_earnings: (self.total_earnings + amount) as u64, ..self }
    }

    /// The transfer that buys `visitor` access, or why none is owed: access
    /// must have a price, and the recipient that the visitor declares must be
    /// the stored owner.
    pub open spec fn access_transfer(self, visitor: Pubkey, declared_owner: Pubkey) -> Result<
        Transfer,
        ChatmateError,
    > {
        if self.access_fee == 0 {
            Err(ChatmateError::NoFeeRequired)
        } else if declared_owner != self.owner {
            Err(ChatmateError::InvalidOwner)
        } else {
            Ok(Transfer { from: visitor, to: declared_owner, lamports: self.access_fee })
        }
    }

    /// The transfer that carries a tip of `amount`, or why none is owed: a tip
    /// is more than nothing, and the recipient that the tipper declares must be
    /// the stored owner.
    pub open spec fn tip_transfer(
        self,
        tipper: Pubkey,
        declared_owner: Pubkey,
        amount: u64,
    ) -> Result<Transfer, ChatmateError> {
        if amount == 0 {
            Err(ChatmateError::InvalidAmount)
        } else if declared_owner != self.owner {
            Err(ChatmateError::InvalidOwner)
        } else {
            Ok(Transfer { from: tipper, to: declared_owner, lamports: amount })
        }
    }
}

impl Assistant {
    /// The bytes set aside for a stored profile: the owner, the username behind
    /// its length, the fee, the earnings, the restriction flag, one byte that
    /// tells addresses apart, and the tag that marks the kind of record.
    pub const MAX_SIZE: usize = 32 + (4 + MAX_USERNAME_BYTES) + 8 + 8 + 1 + 1 + 8;

    /// A profile as it is made: nothing earned, access not restricted.
    pub fn new(owner: Pubkey, username: String, access_fee: u64) -> (assistant: Assistant)
        ensures
            assistant@ == AssistantView::created(owner, username@, access_fee),
    {
        Assistant { owner, username, access_fee, total_earnings: 0, is_access_restricted: false }
    }

    /// Replaces the fee, the restriction flag, both or neither.
    pub fn update(&mut self, access_fee: Option<u64>, is_access_restricted: Option<bool>)
        ensures
            final(self)@ == old(self)@.updated(access_fee, is_access_restricted),
    {
        if let Some(fee) = access_fee {
            self.access_fee = fee;
        }
        if let Some(restricted) = is_access_restricted {
            self.is_access_restricted = restricted;
        }
    }

    /// Names the transfer that buys `visitor` access. Changes nothing.
    pub fn access_transfer(&self, visitor: Pubkey, declared_owner: Pubkey) -> (due: Result<
        Transfer,
        ChatmateError,
    >)
        ensures
            due == self@.access_transfer(visitor, declared_owner),
    {
        if self.access_fee == 0 {
            Err(ChatmateError::NoFeeRequired)
        } else if declared_owner != self.owner {
            Err(ChatmateError::InvalidOwner)
        } else {
            Ok(Transfer { from: visitor, to: declared_owner, lamports: self.access_fee })
        }
    }

    /// Names the transfer that carries a tip. Changes nothing.
    pub fn tip_transfer(&self, tipper: Pubkey, declared_owner: Pubkey, amount: u64) -> (due: Result<
        Transfer,
        ChatmateError,
    >)
        ensures
            due == self@.tip_transfer(tipper, declared_owner, amount),
    {
        if amount == 0 {
            Err(ChatmateError::InvalidAmount)
        } else if declared_owner != self.owner {
            Err(ChatmateError::InvalidOwner)
        } else {
            Ok(Transfer { from: tipper, to: declared_owner, lamports: amount })
        }
    }

    /// Adds `amount` to the earnings, unless the counter cannot hold the sum.
    pub fn credit(&mut self, amount: u64) -> (done: Result<(), LedgerError>)
        ensures
            old(self)@.can_earn(amount) ==> done is Ok && final(self)@ == old(self)@.credited(
                amount,
            ),
            !old(self)@.can_earn(amount) ==> done == Err::<(), LedgerError>(
                LedgerError::EarningsOverflow,
            ) && final(self)@ == old(self)@,
    {
        match self.total_earnings.checked_add(amount) {
            Some(total) => {
                self.total_earnings = total;
                Ok(())
            },
            None => Err(LedgerError::EarningsOverflow),
        }
    }
}

impl Clone for Assistant {
    fn clone(&self) -> (copy: Assistant)
        ensures
            copy@ == self@,
    {
        Assistant {
            owner: self.owner,
            username: self.username.clone(),
            access_fee: self.access_fee,
            total_earnings: self.total_earnings,
            is_access_restricted: self.is_access_restricted,
        }
    }
}

impl Default for Assistant {
    fn default() -> (assistant: Assistant)
        ensures
            assistant@.username == Seq::<char>::empty(),
            assistant@.access_fee == 0,
            assistant@.total_earnings == 0,
            !assistant@.is_access_restricted,
            assistant@.owner.is_zero(),
    {
        Assistant {
            owner: Pubkey::default(),
            username: String::new(),
            access_fee: 0,
            total_earnings: 0,
            is_access_restricted: false,
        }
    }
}

/// The permission of one visitor for one assistant. There is exactly one record
/// per pair; it is kept under the pair.
#[derive(Clone, Copy, Debug, PartialEq, Eq)]
pub struct Permission {
    /// The assistant, named by the identity under which its profile is kept.
    pub assistant: Pubkey,
    pub visitor: Pubkey,
    pub permission_type: PermissionType,
    /// When the record was last granted or paid for.
    pub granted_at: i64,
    /// The last moment at which the permission holds. `None`: it holds for good.
    pub expires_at: Option<i64>,
    /// `false`: revoked, or never granted.
    pub is_active: bool,
    /// What was paid for this record. Zero if nothing ever was.
    pub paid_amount: u64,
}

impl Permission {
    /// The record of a pair to which nothing was ever granted.
    pub open spec fn unset(assistant: Pubkey, visitor: Pubkey) -> Permission {
        Permission {
            assistant,
            visitor,
            permission_type: PermissionType::Chat,
            granted_at: 0,
            expires_at: None,
            is_active: false,
            paid_amount: 0,
        }
    }

    /// Whether the permission holds at time `now`: it is active, and it has no
    /// expiry or `now` is not past it.
    pub open spec fn valid_at(self, now: i64) -> bool {
        self.is_active && (self.expires_at is None || now <= self.expires_at->0)
    }

    /// The record after the owner of `assistant` grants `visitor` access at time
    /// `now`. What was paid for the record before stays on it.
    pub open spec fn granted(
        self,
        assistant: Pubkey,
        visitor: Pubkey,
        permission_type: PermissionType,
        expires_at: Option<i64>,
        now: i64,
    ) -> Permission {
        Permission {
            assistant,
            visitor,
            permission_type,
            granted_at: now,
            expires_at,
            is_active: true,
            paid_amount: self.paid_amount,
        }
    }

    /// The record after `visitor` has paid `fee` for `assistant` at time `now`: a
    /// permanent permission to chat, whatever the record held before.
    pub open spec fn paid(assistant: Pubkey, visitor: Pubkey, fee: u64, now: i64) -> Permission {
        Permission {
            assistant,
            visitor,
            permission_type: PermissionType::Chat,
            granted_at: now,
            expires_at: None,
            is_active: true,
            paid_amount: fee,
        }
    }

    /// The record after the owner revokes it. Only the activity changes.
    pub open spec fn revoked(self) -> Permission {
        Permission { is_active: false, ..self }
    }

    /// The bytes set aside for a stored permission: the assistant, the visitor,
    /// the kind, the time of the grant, the expiry behind its presence flag, the
    /// activity flag, the amount paid, one byte that tells addresses apart, and
    /// the tag that marks the kind of record.
    pub const MAX_SIZE: usize = 32 + 32 + 1 + 8 + (1 + 8) + 1 + 8 + 1 + 8;

    /// The record of a pair to which nothing was ever granted.
    pub fn new(assistant: Pubkey, visitor: Pubkey) -> (permission: Permission)
        ensures
            permission == Permission::unset(assistant, visitor),
    {
        Permission {
            assistant,
            visitor,
            permission_type: PermissionType::Chat,
            granted_at: 0,
            expires_at: None,
            is_active: false,
            paid_amount: 0,
        }
    }

    /// Whether the permission holds at time `now`.
    pub fn is_valid(&self, now: i64) -> (valid: bool)
        ensures
            valid == self.valid_at(now),
            valid <==> self.is_active && (self.expires_at is None || now <= self.expires_at->0),
    {
        if !self.is_active {
            return false;
        }
        match self.expires_at {
            Some(expires_at) => now <= expires_at,
            None => true,
        }
    }

    /// Writes a grant of the owner over the record.
    pub fn grant(
        &mut self,
        assistant: Pubkey,
        visitor: Pubkey,
        permission_type: PermissionType,
        expires_at: Option<i64>,
        now: i64,
    )
        ensures
            *final(self) == old(self).granted(
                assistant,
                visitor,
                permission_type,
                expires_at,
                now,
            ),
    {
        self.assistant = assistant;
        self.visitor = visitor;
        self.permission_type = permission_type;
        self.granted_at = now;
        self.expires_at = expires_at;
        self.is_active = true;
    }

    /// Writes a payment of the visitor over the record.
    pub fn record_payment(&mut self, assistant: Pubkey, visitor: Pubkey, fee: u64, now: i64)
        ensures
            *final(self) == Permission::paid(assistant, visitor, fee, now),
    {
        self.assistant = assistant;
        self.visitor = visitor;
        self.permission_type = PermissionType::Chat;
        self.granted_at = now;
        self.expires_at = None;
        self.is_active = true;
        self.paid_amount = fee;
    }

    /// Makes the record inactive. Everything else on it stays.
    pub fn revoke(&mut self)
        ensures
            *final(self) == old(self).revoked(),
    {
        self.is_active = false;
    }
}

impl Default for Permission {
    fn default() -> (permission: Permission)
        ensures
            permission == Permission::unset(permission.assistant, permission.visitor),
            permission.assistant.is_zero(),
            permission.visitor.is_zero(),
    {
        Permission::new(Pubkey::default(), Pubkey::default())
    }
}

} // verus!
