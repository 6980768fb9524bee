use chatmate::{
    access_transfer, check_permission, grant_access, initialize_assistant, pay_for_access,
    revoke_access, tip_assistant, tip_transfer, update_assistant, AccessGranted, AccessRevoked,
    Assistant, CheckPermission, GrantAccess, InitializeAssistant, Ledger, PayForAccess,
    PaymentReceived, Permission, PermissionType, Pubkey, RevokeAccess, Settlement, TipAssistant,
    TipReceived, Transfer, UpdateAssistant,
};

const NOW: i64 = 1_700_000_000;

fn key(tag: u8) -> Pubkey {
    Pubkey::new_from_array([tag; 32])
}

fn ledger_with(owner: Pubkey, name: &str, access_fee: u64) -> Ledger {
    let mut ledger = Ledger::new();
    initialize_assistant(&mut ledger, InitializeAssistant { owner }, String::from(name), access_fee)
        .unwrap();
    ledger
}

fn grant(
    ledger: &mut Ledger,
    owner: Pubkey,
    visitor: Pubkey,
    kind: PermissionType,
    expires_at: Option<i64>,
    now: i64,
) {
    grant_access(ledger, GrantAccess { assistant: owner, owner }, visitor, kind, expires_at, now)
        .unwrap();
}

#[test]
fn a_new_ledger_holds_nothing() {
    let ledger = Ledger::new();
    assert_eq!(ledger.assistant_count(), 0);
    assert_eq!(ledger.permission_count(), 0);
    assert!(ledger.assistants().is_empty());
    assert!(ledger.permissions().is_empty());
    assert_eq!(ledger.assistant(&key(1)), None);
    assert_eq!(ledger.permission(&key(1), &key(2)), None);
}

#[test]
fn every_payment_adds_exactly_the_fee() {
    let owner = key(1);
    let mut ledger = ledger_with(owner, "bob", 250);
    let mut expected = 0u64;
    for tag in 2..7u8 {
        let ctx = PayForAccess { assistant_owner: owner, assistant: owner, visitor: key(tag) };
        let before = ledger.assistant(&owner).unwrap().total_earnings;
        let fee = ledger.assistant(&owner).unwrap().access_fee;
        assert!(fee > 0);
        let paid = pay_for_access(&mut ledger, ctx, NOW + tag as i64, Settlement::Completed);
        assert_eq!(paid, Ok(PaymentReceived { assistant: owner, visitor: key(tag), amount: 250 }));
        expected += 250;
        assert_eq!(ledger.assistant(&owner).unwrap().total_earnings, before + fee);
        assert_eq!(ledger.assistant(&owner).unwrap().total_earnings, expected);
    }
    assert_eq!(expected, 1250);
    assert_eq!(ledger.permission_count(), 5);
}

#[test]
fn a_payment_uses_the_fee_that_is_stored_when_it_is_made() {
    let (owner, visitor) = (key(1), key(2));
    let mut ledger = ledger_with(owner, "bob", 100);
    update_assistant(&mut ledger, UpdateAssistant { assistant: owner, owner }, Some(700), None)
        .unwrap();
    let ctx = PayForAccess { assistant_owner: owner, assistant: owner, visitor };
    assert_eq!(
        access_transfer(&ledger, &ctx),
        Ok(Transfer { from: visitor, to: owner, lamports: 700 })
    );
    pay_for_access(&mut ledger, ctx, NOW, Settlement::Completed).unwrap();
    assert_eq!(ledger.assistant(&owner).unwrap().total_earnings, 700);
    assert_eq!(ledger.permission(&owner, &visitor).unwrap().paid_amount, 700);
}

#[test]
fn paying_twice_pays_twice_and_keeps_one_record() {
    let (owner, visitor) = (key(1), key(2));
    let mut ledger = ledger_with(owner, "bob", 100);
    let ctx = PayForAccess { assistant_owner: owner, assistant: owner, visitor };
    pay_for_access(&mut ledger, ctx, NOW, Settlement::Completed).unwrap();
    pay_for_access(&mut ledger, ctx, NOW + 5, Settlement::Completed).unwrap();
    assert_eq!(ledger.assistant(&owner).unwrap().total_earnings, 200);
    assert_eq!(ledger.permission_count(), 1);
    assert_eq!(ledger.permission(&owner, &visitor).unwrap().granted_at, NOW + 5);
    assert_eq!(ledger.permission(&owner, &visitor).unwrap().paid_amount, 100);
}

#[test]
fn validity_is_activity_and_no_expiry_in_the_past() {
    let (owner, visitor) = (key(1), key(2));
    let times = [i64::MIN, -1, 0, 99, 100, 101, i64::MAX];
    let expiries = [None, Some(i64::MIN), Some(-1), Some(100), Some(i64::MAX)];
    for expires_at in expiries {
        for active in [false, true] {
            let permission = Permission {
                assistant: owner,
                visitor,
                permission_type: PermissionType::FullAccess,
                granted_at: 0,
                expires_at,
                is_active: active,
                paid_amount: 0,
            };
            for now in times {
                let expected = active
                    && match expires_at {
                        None => true,
                        Some(end) => now <= end,
                    };
                assert_eq!(permission.is_valid(now), expected);
            }
        }
    }
}

#[test]
fn a_permission_holds_up_to_and_at_its_expiry() {
    let (owner, visitor) = (key(1), key(2));
    let mut ledger = ledger_with(owner, "bob", 0);
    grant(&mut ledger, owner, visitor, PermissionType::Chat, Some(500), 100);
    let query = CheckPermission { assistant: owner, visitor };
    assert_eq!(check_permission(&ledger, query, 499), Ok(true));
    assert_eq!(check_permission(&ledger, query, 500), Ok(true));
    assert_eq!(check_permission(&ledger, query, 501), Ok(false));
    // Time is only compared with the expiry, not with the time of the grant.
    assert_eq!(check_permission(&ledger, query, 0), Ok(true));
}

#[test]
fn a_revoked_permission_is_invalid_whatever_its_expiry() {
    let owner = key(1);
    let mut ledger = ledger_with(owner, "bob", 0);
    let expiries = [None, Some(NOW - 1), Some(NOW), Some(NOW + 1), Some(i64::MAX)];
    for (tag, expires_at) in expiries.into_iter().enumerate() {
        let visitor = key(10 + tag as u8);
        grant(&mut ledger, owner, visitor, PermissionType::FullAccess, expires_at, NOW);
        let revoke = RevokeAccess { assistant: owner, visitor, owner };
        assert_eq!(
            revoke_access(&mut ledger, revoke),
            Ok(AccessRevoked { assistant: owner, visitor })
        );
        let query = CheckPermission { assistant: owner, visitor };
        for now in [i64::MIN, NOW - 1, NOW, NOW + 1, i64::MAX] {
            assert_eq!(check_permission(&ledger, query, now), Ok(false));
        }
        assert_eq!(ledger.permission(&owner, &visitor).unwrap().expires_at, expires_at);
    }
}

#[test]
fn revoking_again_changes_nothing_and_is_no_failure() {
    let (owner, visitor) = (key(1), key(2));
    let mut ledger = ledger_with(owner, "bob", 40);
    let ctx = PayForAccess { assistant_owner: owner, assistant: owner, visitor };
    pay_for_access(&mut ledger, ctx, NOW, Settlement::Completed).unwrap();
    let revoke = RevokeAccess { assistant: owner, visitor, owner };
    revoke_access(&mut ledger, revoke).unwrap();
    let once = *ledger.permission(&owner, &visitor).unwrap();
    assert_eq!(
        once,
        Permission {
            assistant: owner,
            visitor,
            permission_type: PermissionType::Chat,
            granted_at: NOW,
            expires_at: None,
            is_active: false,
            paid_amount: 40,
        }
    );
    for _ in 0..3 {
        assert_eq!(
            revoke_access(&mut ledger, revoke),
            Ok(AccessRevoked { assistant: owner, visitor })
        );
        assert_eq!(*ledger.permission(&owner, &visitor).unwrap(), once);
        assert_eq!(
            check_permission(&ledger, CheckPermission { assistant: owner, visitor }, NOW),
            Ok(false)
        );
    }
    assert_eq!(ledger.permission_count(), 1);
}

#[test]
fn a_grant_after_a_revocation_makes_the_permission_hold_again() {
    let (owner, visitor) = (key(1), key(2));
    let mut ledger = ledger_with(owner, "bob", 0);
    grant(&mut ledger, owner, visitor, PermissionType::Chat, None, NOW);
    revoke_access(&mut ledger, RevokeAccess { assistant: owner, visitor, owner }).unwrap();
    grant(&mut ledger, owner, visitor, PermissionType::Schedule, None, NOW + 1);
    assert_eq!(
        check_permission(&ledger, CheckPermission { assistant: owner, visitor }, NOW + 2),
        Ok(true)
    );
}

#[test]
fn a_grant_that_expired_a_moment_ago_does_not_hold() {
    let (owner, visitor) = (key(1), key(2));
    let mut ledger = ledger_with(owner, "bob", 0);
    for now in [i64::MIN + 1, -5, 0, NOW, i64::MAX] {
        let granted = grant_access(
            &mut ledger,
            GrantAccess { assistant: owner, owner },
            visitor,
            PermissionType::Chat,
            Some(now - 1),
            now,
        );
        assert_eq!(
            granted,
            Ok(AccessGranted { assistant: owner, visitor, permission_type: PermissionType::Chat })
        );
        assert!(ledger.permission(&owner, &visitor).unwrap().is_active);
        assert_eq!(
            check_permission(&ledger, CheckPermission { assistant: owner, visitor }, now),
            Ok(false)
        );
    }
}

#[test]
fn a_payment_writes_over_the_kind_and_the_expiry_of_a_grant() {
    let owner = key(1);
    let mut ledger = ledger_with(owner, "bob", 300);
    for (tag, kind) in [PermissionType::Schedule, PermissionType::FullAccess].into_iter().enumerate()
    {
        let visitor = key(20 + tag as u8);
        grant(&mut ledger, owner, visitor, kind, Some(NOW + 86_400), NOW);
        assert_eq!(ledger.permission(&owner, &visitor).unwrap().permission_type, kind);
        let ctx = PayForAccess { assistant_owner: owner, assistant: owner, visitor };
        pay_for_access(&mut ledger, ctx, NOW + 10, Settlement::Completed).unwrap();
        assert_eq!(
            ledger.permission(&owner, &visitor),
            Some(&Permission {
                assistant: owner,
                visitor,
                permission_type: PermissionType::Chat,
                granted_at: NOW + 10,
                expires_at: None,
                is_active: true,
                paid_amount: 300,
            })
        );
        assert_eq!(
            check_permission(
                &ledger,
                CheckPermission { assistant: owner, visitor },
                NOW + 86_401
            ),
            Ok(true)
        );
    }
    assert_eq!(ledger.permission_count(), 2);
}

#[test]
fn a_payment_makes_a_revoked_permission_hold_again() {
    let (owner, visitor) = (key(1), key(2));
    let mut ledger = ledger_with(owner, "bob", 300);
    grant(&mut ledger, owner, visitor, PermissionType::FullAccess, Some(NOW), NOW);
    revoke_access(&mut ledger, RevokeAccess { assistant: owner, visitor, owner }).unwrap();
    let ctx = PayForAccess { assistant_owner: owner, assistant: owner, visitor };
    pay_for_access(&mut ledger, ctx, NOW + 10, Settlement::Completed).unwrap();
    assert_eq!(
        check_permission(&ledger, CheckPermission { assistant: owner, visitor }, i64::MAX),
        Ok(true)
    );
}

#[test]
fn a_tip_of_nothing_changes_no_record() {
    let (owner, visitor, tipper) = (key(1), key(2), key(3));
    let mut ledger = ledger_with(owner, "bob", 300);
    grant(&mut ledger, owner, visitor, PermissionType::Schedule, Some(NOW + 5), NOW);
    let assistants: Vec<Assistant> = ledger.assistants().to_vec();
    let permissions: Vec<Permission> = ledger.permissions().to_vec();
    for settlement in [Settlement::Completed, Settlement::Failed] {
        let ctx = TipAssistant { assistant: owner, assistant_owner: owner, tipper };
        assert!(tip_transfer(&ledger, &ctx, 0).is_err());
        assert!(tip_assistant(&mut ledger, ctx, 0, settlement).is_err());
        assert_eq!(ledger.assistants(), &assistants[..]);
        assert_eq!(ledger.permissions(), &permissions[..]);
    }
}

#[test]
fn a_tip_adds_its_amount_and_touches_no_permission() {
    let (owner, visitor, tipper) = (key(1), key(2), key(3));
    let mut ledger = ledger_with(owner, "bob", 300);
    grant(&mut ledger, owner, visitor, PermissionType::Schedule, Some(NOW + 5), NOW);
    let permissions: Vec<Permission> = ledger.permissions().to_vec();
    let ctx = TipAssistant { assistant: owner, assistant_owner: owner, tipper };
    assert_eq!(
        tip_transfer(&ledger, &ctx, 42),
        Ok(Transfer { from: tipper, to: owner, lamports: 42 })
    );
    assert_eq!(
        tip_assistant(&mut ledger, ctx, 42, Settlement::Completed),
        Ok(TipReceived { assistant: owner, tipper, amount: 42 })
    );
    assert_eq!(
        tip_assistant(&mut ledger, ctx, 8, Settlement::Completed),
        Ok(TipReceived { assistant: owner, tipper, amount: 8 })
    );
    assert_eq!(ledger.assistant(&owner).unwrap().total_earnings, 50);
    assert_eq!(ledger.permissions(), &permissions[..]);
    assert_eq!(ledger.permission(&owner, &tipper), None);
}

#[test]
fn a_free_assistant_can_be_tipped() {
    let (owner, tipper) = (key(1), key(3));
    let mut ledger = ledger_with(owner, "bob", 0);
    let ctx = TipAssistant { assistant: owner, assistant_owner: owner, tipper };
    tip_assistant(&mut ledger, ctx, 9, Settlement::Completed).unwrap();
    assert_eq!(ledger.assistant(&owner).unwrap().total_earnings, 9);
}

#[test]
fn a_second_grant_writes_over_the_first() {
    let (owner, visitor) = (key(1), key(2));
    let mut ledger = ledger_with(owner, "bob", 0);
    grant(&mut ledger, owner, visitor, PermissionType::Schedule, Some(NOW + 60), NOW);
    assert_eq!(ledger.permission_count(), 1);
    grant(&mut ledger, owner, visitor, PermissionType::FullAccess, None, NOW + 7);
    assert_eq!(ledger.permission_count(), 1);
    assert_eq!(ledger.permissions().len(), 1);
    assert_eq!(
        ledger.permission(&owner, &visitor),
        Some(&Permission {
            assistant: owner,
            visitor,
            permission_type: PermissionType::FullAccess,
            granted_at: NOW + 7,
            expires_at: None,
            is_active: true,
            paid_amount: 0,
        })
    );
}

#[test]
fn grants_to_different_visitors_make_different_records() {
    let owner = key(1);
    let mut ledger = ledger_with(owner, "bob", 0);
    grant(&mut ledger, owner, key(2), PermissionType::Chat, None, NOW);
    grant(&mut ledger, owner, key(3), PermissionType::Schedule, None, NOW);
    assert_eq!(ledger.permission_count(), 2);
    assert_eq!(
        ledger.permission(&owner, &key(2)).unwrap().permission_type,
        PermissionType::Chat
    );
    assert_eq!(
        ledger.permission(&owner, &key(3)).unwrap().permission_type,
        PermissionType::Schedule
    );
}

#[test]
fn permissions_of_two_assistants_for_one_visitor_are_apart() {
    let (alice, bob, visitor) = (key(1), key(2), key(3));
    let mut ledger = ledger_with(alice, "alice", 10);
    initialize_assistant(&mut ledger, InitializeAssistant { owner: bob }, String::from("bob"), 20)
        .unwrap();
    grant(&mut ledger, alice, visitor, PermissionType::Chat, None, NOW);
    let ctx = PayForAccess { assistant_owner: bob, assistant: bob, visitor };
    pay_for_access(&mut ledger, ctx, NOW, Settlement::Completed).unwrap();
    revoke_access(&mut ledger, RevokeAccess { assistant: alice, visitor, owner: alice }).unwrap();
    assert_eq!(
        check_permission(&ledger, CheckPermission { assistant: alice, visitor }, NOW),
        Ok(false)
    );
    assert_eq!(
        check_permission(&ledger, CheckPermission { assistant: bob, visitor }, NOW),
        Ok(true)
    );
    assert_eq!(ledger.assistant(&alice).unwrap().total_earnings, 0);
    assert_eq!(ledger.assistant(&bob).unwrap().total_earnings, 20);
    assert_eq!(ledger.assistant_count(), 2);
    assert_eq!(ledger.permission_count(), 2);
}

#[test]
fn a_grant_keeps_what_was_paid_for_the_record() {
    let (owner, visitor) = (key(1), key(2));
    let mut ledger = ledger_with(owner, "bob", 300);
    let ctx = PayForAccess { assistant_owner: owner, assistant: owner, visitor };
    pay_for_access(&mut ledger, ctx, NOW, Settlement::Completed).unwrap();
    grant(&mut ledger, owner, visitor, PermissionType::FullAccess, Some(NOW + 9), NOW + 1);
    assert_eq!(
        ledger.permission(&owner, &visitor),
        Some(&Permission {
            assistant: owner,
            visitor,
            permission_type: PermissionType::FullAccess,
            granted_at: NOW + 1,
            expires_at: Some(NOW + 9),
            is_active: true,
            paid_amount: 300,
        })
    );
}

#[test]
fn an_update_changes_only_what_is_supplied() {
    let owner = key(1);
    let mut ledger = ledger_with(owner, "bob", 1000);
    let ctx = UpdateAssistant { assistant: owner, owner };
    assert_eq!(update_assistant(&mut ledger, ctx, None, None), Ok(()));
    assert_eq!(ledger.assistant(&owner).unwrap().access_fee, 1000);
    assert!(!ledger.assistant(&owner).unwrap().is_access_restricted);

    assert_eq!(update_assistant(&mut ledger, ctx, Some(5), None), Ok(()));
    assert_eq!(ledger.assistant(&owner).unwrap().access_fee, 5);
    assert!(!ledger.assistant(&owner).unwrap().is_access_restricted);

    assert_eq!(update_assistant(&mut ledger, ctx, None, Some(true)), Ok(()));
    assert_eq!(ledger.assistant(&owner).unwrap().access_fee, 5);
    assert!(ledger.assistant(&owner).unwrap().is_access_restricted);

    assert_eq!(update_assistant(&mut ledger, ctx, Some(0), Some(false)), Ok(()));
    assert_eq!(
        ledger.assistant(&owner),
        Some(&Assistant {
            owner,
            username: String::from("bob"),
            access_fee: 0,
            total_earnings: 0,
            is_access_restricted: false,
        })
    );
    assert_eq!(ledger.assistant_count(), 1);
}

#[test]
fn an_update_leaves_the_earnings_alone() {
    let (owner, tipper) = (key(1), key(3));
    let mut ledger = ledger_with(owner, "bob", 1000);
    let tip = TipAssistant { assistant: owner, assistant_owner: owner, tipper };
    tip_assistant(&mut ledger, tip, 77, Settlement::Completed).unwrap();
    update_assistant(&mut ledger, UpdateAssistant { assistant: owner, owner }, Some(1), Some(true))
        .unwrap();
    assert_eq!(ledger.assistant(&owner).unwrap().total_earnings, 77);
    assert_eq!(ledger.assistant(&owner).unwrap().username, "bob");
    assert_eq!(ledger.assistant(&owner).unwrap().owner, owner);
}

#[test]
fn records_are_listed_once_each() {
    let mut ledger = Ledger::new();
    for tag in 1..5u8 {
        initialize_assistant(
            &mut ledger,
            InitializeAssistant { owner: key(tag) },
            format!("assistant-{tag}"),
            tag as u64,
        )
        .unwrap();
    }
    for tag in 1..5u8 {
        grant(&mut ledger, key(tag), key(100), PermissionType::Chat, None, NOW);
        grant(&mut ledger, key(tag), key(100), PermissionType::Schedule, None, NOW);
    }
    assert_eq!(ledger.assistants().len(), 4);
    assert_eq!(ledger.permissions().len(), 4);
    for tag in 1..5u8 {
        let listed: Vec<&Assistant> =
            ledger.assistants().iter().filter(|a| a.owner == key(tag)).collect();
        assert_eq!(listed.len(), 1);
        assert_eq!(listed[0], ledger.assistant(&key(tag)).unwrap());
        assert_eq!(listed[0].access_fee, tag as u64);
        let granted: Vec<&Permission> =
            ledger.permissions().iter().filter(|p| p.assistant == key(tag)).collect();
        assert_eq!(granted.len(), 1);
        assert_eq!(granted[0].visitor, key(100));
        assert_eq!(granted[0].permission_type, PermissionType::Schedule);
    }
}
