//! The ledger as two maps, and each operation as a function from the maps
//! before to the maps after or to the reason for refusing.

use vstd::prelude::*;
use crate::context::{
    CheckPermission, GrantAccess, InitializeAssistant, PayForAccess, RevokeAccess, TipAssistant,
    UpdateAssistant,
};
use crate::error::{ChatmateError, LedgerError};
use crate::pubkey::Pubkey;
use crate::state::{username_fits, AssistantView, Permission, PermissionType};
use crate::transfer::{Settlement, Transfer};

verus! {

/// A change that a caller asks for, with everything that decides how it ends.
#[allow(inconsistent_fields)]
pub enum Operation {
    InitializeAssistant { ctx: InitializeAssistant, username: Seq<char>, access_fee: u64 },
    UpdateAssistant {
        ctx: UpdateAssistant,
        access_fee: Option<u64>,
        is_access_restricted: Option<bool>,
    },
    GrantAccess {
        ctx: GrantAccess,
        visitor: Pubkey,
        permission_type: PermissionType,
        expires_at: Option<i64>,
        now: i64,
    },
    RevokeAccess { ctx: RevokeAccess },
    PayForAccess { ctx: PayForAccess, now: i64, settlement: Settlement },
    TipAssistant { ctx: TipAssistant, amount: u64, settlement: Settlement },
}

/// All profiles, each under its owner, and all permissions, each under its
/// assistant and visitor.
#[verifier::ext_equal]
pub struct LedgerView {
    pub assistants: Map<Pubkey, AssistantView>,
    pub permissions: Map<(Pubkey, Pubkey), Permission>,
}

impl LedgerView {
    /// The ledger before anything was recorded.
    pub open spec fn empty() -> LedgerView {
        LedgerView { assistants: Map::empty(), permissions: Map::empty() }
    }

    /// What holds of every ledger that the operations can reach: a record is
    /// kept under the identities written in it, a username fits its space, and
    /// a permission refers to a profile that exists.
    pub open spec fn well_formed(self) -> bool {
        &&& self.assistants.dom().finite()
        &&& self.permissions.dom().finite()
        &&& forall|owner: Pubkey| #[trigger]
            self.assistants.dom().contains(owner) ==> {
                &&& self.assistants[owner].owner == owner
                &&& username_fits(self.assistants[owner].username)
            }
        &&& forall|assistant: Pubkey, visitor: Pubkey| #[trigger]
            self.permissions.dom().contains((assistant, visitor)) ==> {
                &&& self.permissions[(assistant, visitor)].assistant == assistant
                &&& self.permissions[(assistant, visitor)].visitor == visitor
                &&& self.assistants.dom().contains(assistant)
            }
    }

    /// The record of a pair: the one that is kept, or the unset one.
    pub open spec fn permission_or_unset(self, assistant: Pubkey, visitor: Pubkey) -> Permission {
        if self.permissions.dom().contains((assistant, visitor)) {
            self.permissions[(assistant, visitor)]
        } else {
            Permission::unset(assistant, visitor)
        }
    }

    /// The guard before every change that only the owner may make: the profile
    /// exists, and the caller is its stored owner.
    pub open spec fn owner_guard(self, assistant: Pubkey, caller: Pubkey) -> Result<
        (),
        LedgerError,
    > {
        if !self.assistants.dom().contains(assistant) {
            Err(LedgerError::MissingRecord)
        } else if self.assistants[assistant].owner != caller {
            Err(LedgerError::AccessViolation)
        } else {
            Ok(())
        }
    }

    /// Making a profile. Refused if the owner has one, or if the username is
    /// too long.
    pub open spec fn initialize_assistant(
        self,
        ctx: InitializeAssistant,
        username: Seq<char>,
        access_fee: u64,
    ) -> Result<LedgerView, LedgerError> {
        if self.assistants.dom().contains(ctx.owner) {
            Err(LedgerError::DuplicateRecord)
        } else if !username_fits(username) {
            Err(LedgerError::UsernameTooLong)
        } else {
            Ok(
                LedgerView {
                    assistants: self.assistants.insert(
                        ctx.owner,
                        AssistantView::created(ctx.owner, username, access_fee),
                    ),
                    ..self
                },
            )
        }
    }

    /// Changing the settings of a profile. Only what is supplied changes.
    pub open spec fn update_assistant(
        self,
        ctx: UpdateAssistant,
        access_fee: Option<u64>,
        is_access_restricted: Option<bool>,
    ) -> Result<LedgerView, LedgerError> {
        match self.owner_guard(ctx.assistant, ctx.owner) {
            Err(refusal) => Err(refusal),
            Ok(_) => Ok(
                LedgerView {
                    assistants: self.assistants.insert(
                        ctx.assistant,
                        self.assistants[ctx.assistant].updated(access_fee, is_access_restricted),
                    ),
                    ..self
                },
            ),
        }
    }

    /// Granting access: the record of the pair is made, or written over.
    pub open spec fn grant_access(
        self,
        ctx: GrantAccess,
        visitor: Pubkey,
        permission_type: PermissionType,
        expires_at: Option<i64>,
        now: i64,
    ) -> Result<LedgerView, LedgerError> {
        match self.owner_guard(ctx.assistant, ctx.owner) {
            Err(refusal) => Err(refusal),
            Ok(_) => Ok(
                LedgerView {
                    permissions: self.permissions.insert(
                        (ctx.assistant, visitor),
                        self.permission_or_unset(ctx.assistant, visitor).granted(
                            ctx.assistant,
                            visitor,
                            permission_type,
                            expires_at,
                            now,
                        ),
                    ),
                    ..self
                },
            ),
        }
    }

    /// Revoking a permission: the record stays, inactive.
    pub open spec fn revoke_access(self, ctx: RevokeAccess) -> Result<LedgerView, LedgerError> {
        match self.owner_guard(ctx.assistant, ctx.owner) {
            Err(refusal) => Err(refusal),
            Ok(_) => if !self.permissions.dom().contains((ctx.assistant, ctx.visitor)) {
                Err(LedgerError::MissingRecord)
            } else {
                Ok(
                    LedgerView {
                        permissions: self.permissions.insert(
                            (ctx.assistant, ctx.visitor),
                            self.permissions[(ctx.assistant, ctx.visitor)].revoked(),
                        ),
                        ..self
                    },
                )
            },
        }
    }

    /// Whether the permission of a pair holds at time `now`. Refused only if
    /// no record is kept for the pair.
    pub open spec fn check_permission(self, ctx: CheckPermission, now: i64) -> Result<
        bool,
        LedgerError,
    > {
        if !self.permissions.dom().contains((ctx.assistant, ctx.visitor)) {
            Err(LedgerError::MissingRecord)
        } else {
            Ok(self.permissions[(ctx.assistant, ctx.visitor)].valid_at(now))
        }
    }

    /// The transfer that a payment for access owes, or why there is none.
    pub open spec fn access_transfer(self, ctx: PayForAccess) -> Result<Transfer, LedgerError> {
        if !self.assistants.dom().contains(ctx.assistant) {
            Err(LedgerError::MissingRecord)
        } else {
            match self.assistants[ctx.assistant].access_transfer(ctx.visitor, ctx.assistant_owner) {
                Ok(transfer) => Ok(transfer),
                Err(kind) => Err(LedgerError::Domain(kind)),
            }
        }
    }

    /// Paying for access, given how the transfer went: the fee is added to the
    /// earnings, and the record of the pair becomes a permanent permission to
    /// chat.
    pub open spec fn pay_for_access(
        self,
        ctx: PayForAccess,
        now: i64,
        settlement: Settlement,
    ) -> Result<LedgerView, LedgerError> {
        match self.access_transfer(ctx) {
            Err(refusal) => Err(refusal),
            Ok(transfer) => if settlement is Failed {
                Err(LedgerError::TransferFailed)
            } else if !self.assistants[ctx.assistant].can_earn(transfer.lamports) {
                Err(LedgerError::EarningsOverflow)
            } else {
                Ok(
                    LedgerView {
                        assistants: self.assistants.insert(
                            ctx.assistant,
                            self.assistants[ctx.assistant].credited(transfer.lamports),
                        ),
                        permissions: self.permissions.insert(
                            (ctx.assistant, ctx.visitor),
                            Permission::paid(
                                ctx.assistant,
                                ctx.visitor,
                                transfer.lamports,
                                now,
                            ),
                        ),
                    },
                )
            },
        }
    }

    /// The transfer that a tip owes, or why there is none. The amount is looked
    /// at before anything else.
    pub open spec fn tip_transfer(self, ctx: TipAssistant, amount: u64) -> Result<
        Transfer,
        LedgerError,
    > {
        if amount == 0 {
            Err(LedgerError::Domain(ChatmateError::InvalidAmount))
        } else if !self.assistants.dom().contains(ctx.assistant) {
            Err(LedgerError::MissingRecord)
        } else {
            match self.assistants[ctx.assistant].tip_transfer(
                ctx.tipper,
                ctx.assistant_owner,
                amount,
            ) {
                Ok(transfer) => Ok(transfer),
                Err(kind) => Err(LedgerError::Domain(kind)),
            }
        }
    }

    /// Tipping, given how the transfer went: the amount is added to the
    /// earnings, and no permission changes.
    pub open spec fn tip_assistant(
        self,
        ctx: TipAssistant,
        amount: u64,
        settlement: Settlement,
    ) -> Result<LedgerView, LedgerError> {
        match self.tip_transfer(ctx, amount) {
            Err(refusal) => Err(refusal),
            Ok(transfer) => if settlement is Failed {
                Err(LedgerError::TransferFailed)
            } else if !self.assistants[ctx.assistant].can_earn(amount) {
                Err(LedgerError::EarningsOverflow)
            } else {
                Ok(
                    LedgerView {
                        assistants: self.assistants.insert(
                            ctx.assistant,
                            self.assistants[ctx.assistant].credited(amount),
                        ),
                        ..self
                    },
                )
            },
        }
    }

    /// The ledger after `operation`, or why the operation is refused.
    pub open spec fn apply(self, operation: Operation) -> Result<LedgerView, LedgerError> {
        match operation {
            Operation::InitializeAssistant { ctx, username, access_fee } => {
                self.initialize_assistant(ctx, username, access_fee)
            },
            Operation::UpdateAssistant { ctx, access_fee, is_access_restricted } => {
                self.update_assistant(ctx, access_fee, is_access_restricted)
            },
            Operation::GrantAccess { ctx, visitor, permission_type, expires_at, now } => {
                self.grant_access(ctx, visitor, permission_type, expires_at, now)
            },
            Operation::RevokeAccess { ctx } => self.revoke_access(ctx),
            Operation::PayForAccess { ctx, now, settlement } => {
                self.pay_for_access(ctx, now, settlement)
            },
            Operation::TipAssistant { ctx, amount, settlement } => {
                self.tip_assistant(ctx, amount, settlement)
            },
        }
    }
}

} // verus!
