//! The operations that callers invoke. Each is one transaction: it ends with
//! every change made, or with none.

use vstd::prelude::*;
use crate::context::{
    CheckPermission, GrantAccess, InitializeAssistant, PayForAccess, RevokeAccess, TipAssistant,
    UpdateAssistant,
};
use crate::error::{ChatmateError, LedgerError};
use crate::events::{AccessGranted, AccessRevoked, AssistantCreated, PaymentReceived, TipReceived};
use crate::ledger::Ledger;
use crate::pubkey::Pubkey;
use crate::state::{Assistant, Permission, PermissionType, MAX_USERNAME_BYTES};
use crate::transfer::{Settlement, Transfer};

verus! {

/// The guard before every change that only the owner may make. Hands out the
/// profile if the caller may change it.
fn owned_assistant<'a>(ledger: &'a Ledger, assistant: &Pubkey, caller: &Pubkey) -> (guarded: Result<
    &'a Assistant,
    LedgerError,
>)
    ensures
        ledger@.well_formed(),
        match ledger@.owner_guard(*assistant, *caller) {
            Ok(_) => guarded is Ok && guarded->Ok_0@ == ledger@.assistants[*assistant],
            Err(refusal) => guarded == Err::<&Assistant, _>(refusal),
        },
{
    match ledger.assistant(assistant) {
        None => Err(LedgerError::MissingRecord),
        Some(profile) => if profile.owner != *caller {
            Err(LedgerError::AccessViolation)
        } else {
            Ok(profile)
        },
    }
}

/// The record of a pair: the one that is kept, or the unset one.
fn permission_or_unset(ledger: &Ledger, assistant: Pubkey, visitor: Pubkey) -> (permission:
    Permission)
    ensures
        permission == ledger@.permission_or_unset(assistant, visitor),
{
    match ledger.permission(&assistant, &visitor) {
        Some(permission) => *permission,
        None => Permission::new(assistant, visitor),
    }
}

/// Names the transfer that a payment for access owes. Changes nothing.
///
/// A host asks this first, attempts exactly the transfer it is given, and then
/// reports to [`pay_for_access`] how it went. When this refuses, no currency is
/// to move.
pub fn access_transfer(ledger: &Ledger, ctx: &PayForAccess) -> (due: Result<Transfer, LedgerError>)
    ensures
        ledger@.well_formed(),
        due == ledger@.access_transfer(*ctx),
{
    match ledger.assistant(&ctx.assistant) {
        None => Err(LedgerError::MissingRecord),
        Some(profile) => match profile.access_transfer(ctx.visitor, ctx.assistant_owner) {
            Ok(transfer) => Ok(transfer),
            Err(kind) => Err(LedgerError::Domain(kind)),
        },
    }
}

/// A visitor pays the access fee and gets a permanent permission to chat.
///
/// `settlement` is what the transfer primitive reported for the transfer that
/// [`access_transfer`] named. The fee is added to the earnings of the assistant
/// and the record of the pair is made or written over, or nothing changes:
/// when the payment is not owed, when no currency moved, and when the earnings
/// counter cannot hold the sum.
pub fn pay_for_access(
    ledger: &mut Ledger,
    ctx: PayForAccess,
    now: i64,
    settlement: Settlement,
) -> (outcome: Result<PaymentReceived, LedgerError>)
    ensures
        match old(ledger)@.pay_for_access(ctx, now, settlement) {
            Ok(next) => final(ledger)@ == next && outcome == Ok::<_, LedgerError>(
                (PaymentReceived {
                    assistant: ctx.assistant,
                    visitor: ctx.visitor,
                    amount: old(ledger)@.assistants[ctx.assistant].access_fee,
                }),
            ),
            Err(refusal) => final(ledger)@ == old(ledger)@ && outcome == Err::<PaymentReceived, _>(
                refusal,
            ),
        },
        outcome is Ok ==> {
            &&& old(ledger)@.assistants[ctx.assistant].access_fee > 0
            &&& final(ledger)@.assistants[ctx.assistant].total_earnings == old(
                ledger,
            )@.assistants[ctx.assistant].total_earnings + old(
                ledger,
            )@.assistants[ctx.assistant].access_fee
            &&& final(ledger)@.permissions[(ctx.assistant, ctx.visitor)].permission_type
                == PermissionType::Chat
            &&& final(ledger)@.permissions[(ctx.assistant, ctx.visitor)].expires_at is None
        },
        final(ledger)@.well_formed(),
{
    let transfer = access_transfer(ledger, &ctx)?;
    if let Settlement::Failed = settlement {
        return Err(LedgerError::TransferFailed);
    }
    let mut profile = match ledger.assistant(&ctx.assistant) {
        Some(profile) => profile.clone(),
        None => return Err(LedgerError::MissingRecord),
    };
    profile.credit(transfer.lamports)?;
    let mut permission = permission_or_unset(ledger, ctx.assistant, ctx.visitor);
    permission.record_payment(ctx.assistant, ctx.visitor, transfer.lamports, now);
    ledger.put_assistant(profile);
    ledger.put_permission(permission);
    Ok(PaymentReceived { assistant: ctx.assistant, visitor: ctx.visitor, amount: transfer.lamports })
}

/// Names the transfer that a tip owes. Changes nothing.
///
/// A host asks this first, attempts exactly the transfer it is given, and then
/// reports to [`tip_assistant`] how it went. When this refuses, no currency is
/// to move.
pub fn tip_transfer(ledger: &Ledger, ctx: &TipAssistant, amount: u64) -> (due: Result<
    Transfer,
    LedgerError,
>)
    ensures
        ledger@.well_formed(),
        due == ledger@.tip_transfer(*ctx, amount),
{
    proof {
        use_type_invariant(ledger);
        ledger.lemma_well_formed();
    }
    if amount == 0 {
        return Err(LedgerError::Domain(ChatmateError::InvalidAmount));
    }
    match ledger.assistant(&ctx.assistant) {
        None => Err(LedgerError::MissingRecord),
        Some(profile) => match profile.tip_transfer(ctx.tipper, ctx.assistant_owner, amount) {
            Ok(transfer) => Ok(transfer),
            Err(kind) => Err(LedgerError::Domain(kind)),
        },
    }
}

/// Someone tips an assistant. No permission is touched.
///
/// `settlement` is what the transfer primitive reported for the transfer that
/// [`tip_transfer`] named. The amount is added to the earnings of the
/// assistant, or nothing changes.
pub fn tip_assistant(
    ledger: &mut Ledger,
    ctx: TipAssistant,
    amount: u64,
    settlement: Settlement,
) -> (outcome: Result<TipReceived, LedgerError>)
    ensures
        match old(ledger)@.tip_assistant(ctx, amount, settlement) {
            Ok(next) => final(ledger)@ == next && outcome == Ok::<_, LedgerError>(
                (TipReceived { assistant: ctx.assistant, tipper: ctx.tipper, amount }),
            ),
            Err(refusal) => final(ledger)@ == old(ledger)@ && outcome == Err::<TipReceived, _>(
                refusal,
            ),
        },
        amount == 0 ==> final(ledger)@ == old(ledger)@ && outcome == Err::<TipReceived, _>(
            LedgerError::Domain(ChatmateError::InvalidAmount),
        ),
        outcome is Ok ==> {
            &&& final(ledger)@.assistants[ctx.assistant].total_earnings == old(
                ledger,
            )@.assistants[ctx.assistant].total_earnings + amount
            &&& final(ledger)@.permissions == old(ledger)@.permissions
        },
        final(ledger)@.well_formed(),
{
    let transfer = tip_transfer(ledger, &ctx, amount)?;
    if let Settlement::Failed = settlement {
        return Err(LedgerError::TransferFailed);
    }
    let mut profile = match ledger.assistant(&ctx.assistant) {
        Some(profile) => profile.clone(),
        None => return Err(LedgerError::MissingRecord),
    };
    profile.credit(transfer.lamports)?;
    ledger.put_assistant(profile);
    Ok(TipReceived { assistant: ctx.assistant, tipper: ctx.tipper, amount })
}

/// The owner of an assistant grants a visitor access from `now` on.
///
/// The record of the pair is made, or written over if there is one: a second
/// grant leaves one record, not two.
pub fn grant_access(
    ledger: &mut Ledger,
    ctx: GrantAccess,
    visitor_pubkey: Pubkey,
    permission_type: PermissionType,
    expires_at: Option<i64>,
    now: i64,
) -> (outcome: Result<AccessGranted, LedgerError>)
    ensures
        match old(ledger)@.grant_access(ctx, visitor_pubkey, permission_type, expires_at, now) {
            Ok(next) => final(ledger)@ == next && outcome == Ok::<_, LedgerError>(
                (AccessGranted {
                    assistant: ctx.assistant,
                    visitor: visitor_pubkey,
                    permission_type,
                }),
            ),
            Err(refusal) => final(ledger)@ == old(ledger)@ && outcome == Err::<AccessGranted, _>(
                refusal,
            ),
        },
        final(ledger)@.well_formed(),
{
    owned_assistant(ledger, &ctx.assistant, &ctx.owner)?;
    let mut permission = permission_or_unset(ledger, ctx.assistant, visitor_pubkey);
    permission.grant(ctx.assistant, visitor_pubkey, permission_type, expires_at, now);
    ledger.put_permission(permission);
    Ok(AccessGranted { assistant: ctx.assistant, visitor: visitor_pubkey, permission_type })
}

/// An owner makes the profile of an assistant.
///
/// Refused if the owner has a profile already, or if the username takes more
/// than [`MAX_USERNAME_BYTES`] bytes.
pub fn initialize_assistant(
    ledger: &mut Ledger,
    ctx: InitializeAssistant,
    username: String,
    access_fee: u64,
) -> (outcome: Result<AssistantCreated, LedgerError>)
    ensures
        match old(ledger)@.initialize_assistant(ctx, username@, access_fee) {
            Ok(next) => {
                &&& final(ledger)@ == next
                &&& outcome is Ok
                &&& outcome->Ok_0.owner == ctx.owner
                &&& outcome->Ok_0.username@ == username@
                &&& outcome->Ok_0.access_fee == access_fee
            },
            Err(refusal) => final(ledger)@ == old(ledger)@ && outcome == Err::<
                AssistantCreated,
                _,
            >(refusal),
        },
        final(ledger)@.well_formed(),
{
    if ledger.assistant(&ctx.owner).is_some() {
        return Err(LedgerError::DuplicateRecord);
    }
    if username.as_str().as_bytes().len() > MAX_USERNAME_BYTES {
        return Err(LedgerError::UsernameTooLong);
    }
    let created = AssistantCreated { owner: ctx.owner, username: username.clone(), access_fee };
    ledger.put_assistant(Assistant::new(ctx.owner, username, access_fee));
    Ok(created)
}

/// Whether the permission of a visitor holds at time `now`. Anyone may ask.
///
/// Refused only if no record is kept for the pair.
pub fn check_permission(ledger: &Ledger, ctx: CheckPermission, now: i64) -> (outcome: Result<
    bool,
    LedgerError,
>)
    ensures
        outcome == ledger@.check_permission(ctx, now),
        outcome matches Ok(valid) ==> {
            let permission = ledger@.permissions[(ctx.assistant, ctx.visitor)];
            valid <==> permission.is_active && (permission.expires_at is None || now
                <= permission.expires_at->0)
        },
{
    match ledger.permission(&ctx.assistant, &ctx.visitor) {
        Some(permission) => Ok(permission.is_valid(now)),
        None => Err(LedgerError::MissingRecord),
    }
}

/// The owner of an assistant changes its fee, its restriction flag, both or
/// neither.
pub fn update_assistant(
    ledger: &mut Ledger,
    ctx: UpdateAssistant,
    access_fee: Option<u64>,
    is_access_restricted: Option<bool>,
) -> (outcome: Result<(), LedgerError>)
    ensures
        match old(ledger)@.update_assistant(ctx, access_fee, is_access_restricted) {
            Ok(next) => final(ledger)@ == next && outcome is Ok,
            Err(refusal) => final(ledger)@ == old(ledger)@ && outcome == Err::<(), _>(refusal),
        },
        final(ledger)@.well_formed(),
{
    let mut profile = owned_assistant(ledger, &ctx.assistant, &ctx.owner)?.clone();
    profile.update(access_fee, is_access_restricted);
    ledger.put_assistant(profile);
    Ok(())
}

/// The owner of an assistant revokes the permission of a visitor.
///
/// The record stays, inactive. Revoking it again changes nothing and is no
/// failure.
pub fn revoke_access(ledger: &mut Ledger, ctx: RevokeAccess) -> (outcome: Result<
    AccessRevoked,
    LedgerError,
>)
    ensures
        match old(ledger)@.revoke_access(ctx) {
            Ok(next) => final(ledger)@ == next && outcome == Ok::<_, LedgerError>(
                (AccessRevoked { assistant: ctx.assistant, visitor: ctx.visitor }),
            ),
            Err(refusal) => final(ledger)@ == old(ledger)@ && outcome == Err::<AccessRevoked, _>(
                refusal,
            ),
        },
        final(ledger)@.well_formed(),
{
    owned_assistant(ledger, &ctx.assistant, &ctx.owner)?;
    let mut permission = match ledger.permission(&ctx.assistant, &ctx.visitor) {
        Some(permission) => *permission,
        None => return Err(LedgerError::MissingRecord),
    };
    permission.revoke();
    ledger.put_permission(permission);
    Ok(AccessRevoked { assistant: ctx.assistant, visitor: ctx.visitor })
}

} // verus!
