//! What holds of the operations taken together.

use vstd::prelude::*;
use crate::context::{CheckPermission, GrantAccess, PayForAccess, RevokeAccess, TipAssistant};
use crate::error::{ChatmateError, LedgerError};
use crate::model::{LedgerView, Operation};
use crate::pubkey::Pubkey;
use crate::state::{Permission, PermissionType};
use crate::transfer::Settlement;

verus! {

/// Every operation takes a well-formed ledger to a well-formed ledger.
pub proof fn lemma_operations_keep_well_formed(before: LedgerView, operation: Operation)
    requires
        before.well_formed(),
        before.apply(operation) is Ok,
    ensures
        before.apply(operation)->Ok_0.well_formed(),
{
}

/// No operation removes a record or moves it: what is kept stays kept, a
/// profile keeps its owner and its username, its earnings never shrink, and a
/// permission keeps its assistant and its visitor.
pub proof fn lemma_records_persist(before: LedgerView, operation: Operation)
    requires
        before.well_formed(),
        before.apply(operation) is Ok,
    ensures
        ({
            let after = before.apply(operation)->Ok_0;
            &&& forall|owner: Pubkey| #[trigger]
                before.assistants.dom().contains(owner) ==> {
                    &&& after.assistants.dom().contains(owner)
                    &&& after.assistants[owner].owner == before.assistants[owner].owner
                    &&& after.assistants[owner].username == before.assistants[owner].username
                    &&& after.assistants[owner].total_earnings
                        >= before.assistants[owner].total_earnings
                }
            &&& forall|assistant: Pubkey, visitor: Pubkey| #[trigger]
                before.permissions.dom().contains((assistant, visitor)) ==> {
                    &&& after.permissions.dom().contains((assistant, visitor))
                    &&& after.permissions[(assistant, visitor)].assistant == assistant
                    &&& after.permissions[(assistant, visitor)].visitor == visitor
                }
        }),
{
}

/// A successful payment for access adds exactly the fee to the earnings of the
/// assistant, and the fee was more than nothing.
pub proof fn lemma_payment_adds_fee(
    before: LedgerView,
    ctx: PayForAccess,
    now: i64,
    settlement: Settlement,
)
    requires
        before.pay_for_access(ctx, now, settlement) is Ok,
    ensures
        ({
            let after = before.pay_for_access(ctx, now, settlement)->Ok_0;
            &&& before.assistants[ctx.assistant].access_fee > 0
            &&& after.assistants[ctx.assistant].total_earnings
                == before.assistants[ctx.assistant].total_earnings
                + before.assistants[ctx.assistant].access_fee
        }),
{
}

/// A successful tip adds exactly its amount to the earnings of the assistant
/// and changes no permission.
pub proof fn lemma_tip_adds_amount(
    before: LedgerView,
    ctx: TipAssistant,
    amount: u64,
    settlement: Settlement,
)
    requires
        before.tip_assistant(ctx, amount, settlement) is Ok,
    ensures
        ({
            let after = before.tip_assistant(ctx, amount, settlement)->Ok_0;
            &&& amount > 0
            &&& after.assistants[ctx.assistant].total_earnings
                == before.assistants[ctx.assistant].total_earnings + amount
            &&& after.permissions == before.permissions
        }),
{
}

/// A tip of nothing is refused as an invalid amount whatever else is asked, and
/// no transfer is owed for it.
pub proof fn lemma_empty_tip_is_refused(
    before: LedgerView,
    ctx: TipAssistant,
    settlement: Settlement,
)
    ensures
        before.tip_transfer(ctx, 0) == Err::<crate::transfer::Transfer, _>(
            LedgerError::Domain(ChatmateError::InvalidAmount),
        ),
        before.tip_assistant(ctx, 0, settlement) == Err::<LedgerView, _>(
            LedgerError::Domain(ChatmateError::InvalidAmount),
        ),
{
}

/// Once a permission is revoked it holds at no time, whatever its expiry; to
/// revoke it again is no failure and changes nothing; and no further
/// revocation, of this or of any other permission, makes it hold again.
pub proof fn lemma_revoked_is_invalid(
    before: LedgerView,
    ctx: RevokeAccess,
    further: RevokeAccess,
    now: i64,
)
    requires
        before.revoke_access(ctx) is Ok,
    ensures
        ({
            let after = before.revoke_access(ctx)->Ok_0;
            let query = CheckPermission { assistant: ctx.assistant, visitor: ctx.visitor };
            &&& after.check_permission(query, now) == Ok::<_, LedgerError>(false)
            &&& after.revoke_access(ctx) == Ok::<_, LedgerError>(after)
            &&& after.revoke_access(further) matches Ok(later) ==> later.check_permission(
                query,
                now,
            ) == Ok::<_, LedgerError>(false)
        }),
{
    let after = before.revoke_access(ctx)->Ok_0;
    assert(after.revoke_access(ctx)->Ok_0 =~= after);
}

/// A permission granted with an expiry one tick before the time of the grant
/// does not hold at the time of the grant.
pub proof fn lemma_grant_in_the_past_is_invalid(
    before: LedgerView,
    ctx: GrantAccess,
    visitor: Pubkey,
    permission_type: PermissionType,
    now: i64,
)
    requires
        now > i64::MIN,
        before.grant_access(ctx, visitor, permission_type, Some((now - 1) as i64), now) is Ok,
    ensures
        ({
            let after = before.grant_access(
                ctx,
                visitor,
                permission_type,
                Some((now - 1) as i64),
                now,
            )->Ok_0;
            after.check_permission(CheckPermission { assistant: ctx.assistant, visitor }, now)
                == Ok::<_, LedgerError>(false)
        }),
{
}

/// A successful payment for access leaves a permanent, active permission to
/// chat that records the fee, whatever the record of the pair held before.
pub proof fn lemma_payment_sets_permission(
    before: LedgerView,
    ctx: PayForAccess,
    now: i64,
    settlement: Settlement,
)
    requires
        before.pay_for_access(ctx, now, settlement) is Ok,
    ensures
        ({
            let after = before.pay_for_access(ctx, now, settlement)->Ok_0;
            after.permissions[(ctx.assistant, ctx.visitor)] == (Permission {
                assistant: ctx.assistant,
                visitor: ctx.visitor,
                permission_type: PermissionType::Chat,
                granted_at: now,
                expires_at: None,
                is_active: true,
                paid_amount: before.assistants[ctx.assistant].access_fee,
            })
        }),
{
}

/// A payment that follows a grant writes over what the grant set: the
/// permission is one to chat and has no expiry, whatever kind and expiry were
/// granted.
pub proof fn lemma_payment_overrides_grant(
    before: LedgerView,
    grant: GrantAccess,
    permission_type: PermissionType,
    expires_at: Option<i64>,
    granted_at: i64,
    payment: PayForAccess,
    paid_at: i64,
    settlement: Settlement,
)
    requires
        grant.assistant == payment.assistant,
        before.grant_access(grant, payment.visitor, permission_type, expires_at, granted_at) is Ok,
        before.grant_access(
            grant,
            payment.visitor,
            permission_type,
            expires_at,
            granted_at,
        )->Ok_0.pay_for_access(payment, paid_at, settlement) is Ok,
    ensures
        ({
            let granted = before.grant_access(
                grant,
                payment.visitor,
                permission_type,
                expires_at,
                granted_at,
            )->Ok_0;
            let after = granted.pay_for_access(payment, paid_at, settlement)->Ok_0;
            let key = (payment.assistant, payment.visitor);
            &&& granted.permissions[key].permission_type == permission_type
            &&& granted.permissions[key].expires_at == expires_at
            &&& after.permissions[key].permission_type == PermissionType::Chat
            &&& after.permissions[key].expires_at is None
            &&& after.permissions.dom() == granted.permissions.dom()
        }),
{
    let granted = before.grant_access(
        grant,
        payment.visitor,
        permission_type,
        expires_at,
        granted_at,
    )->Ok_0;
    let after = granted.pay_for_access(payment, paid_at, settlement)->Ok_0;
    assert(after.permissions.dom() =~= granted.permissions.dom());
}

/// Two grants in a row to one visitor of one assistant leave one record for
/// the pair, which holds what the second grant set: the second grant adds no
/// record, and the first adds at most one.
pub proof fn lemma_second_grant_overwrites(
    before: LedgerView,
    first: GrantAccess,
    second: GrantAccess,
    visitor: Pubkey,
    first_type: PermissionType,
    first_expiry: Option<i64>,
    first_time: i64,
    second_type: PermissionType,
    second_expiry: Option<i64>,
    second_time: i64,
)
    requires
        before.well_formed(),
        first.assistant == second.assistant,
        before.grant_access(first, visitor, first_type, first_expiry, first_time) is Ok,
        before.grant_access(first, visitor, first_type, first_expiry, first_time)->Ok_0.grant_access(
            second,
            visitor,
            second_type,
            second_expiry,
            second_time,
        ) is Ok,
    ensures
        ({
            let once = before.grant_access(
                first,
                visitor,
                first_type,
                first_expiry,
                first_time,
            )->Ok_0;
            let twice = once.grant_access(
                second,
                visitor,
                second_type,
                second_expiry,
                second_time,
            )->Ok_0;
            let key = (first.assistant, visitor);
            &&& twice.permissions.dom() == once.permissions.dom()
            &&& twice.permissions.dom().len() == once.permissions.dom().len()
            &&& once.permissions.dom().len() == before.permissions.dom().len() + (if before.permissions.dom().contains(
                key,
            ) {
                0int
            } else {
                1int
            })
            &&& twice.permissions[key] == before.permission_or_unset(
                first.assistant,
                visitor,
            ).granted(first.assistant, visitor, second_type, second_expiry, second_time)
            &&& twice.assistants == before.assistants
        }),
{
    let once = before.grant_access(first, visitor, first_type, first_expiry, first_time)->Ok_0;
    let twice = once.grant_access(second, visitor, second_type, second_expiry, second_time)->Ok_0;
    assert(twice.permissions.dom() =~= once.permissions.dom());
}

} // verus!
