use sanctos_messenger::{
    revoke_delegate, set_delegate, validate_delegate, DelegateAuth, Principal, RevokeDelegate,
    SanctosError, SetDelegate,
};

fn who(tag: u8) -> Principal {
    Principal::new([tag; 32])
}

fn auth(owner: u8, delegate: u8, expires_at: i64, revoked: bool) -> DelegateAuth {
    DelegateAuth { bump: 254, owner: who(owner), delegate: who(delegate), expires_at, revoked }
}

#[test]
fn grant_with_future_expiry_yields_a_fresh_authorization() {
    let ctx = SetDelegate { owner: who(1), delegate: who(2), bump: 253 };
    let now = 1_700_000_000;
    let granted = set_delegate(&ctx, now + 3600, now);
    assert_eq!(
        granted,
        Ok(DelegateAuth {
            bump: 253,
            owner: who(1),
            delegate: who(2),
            expires_at: 1_700_003_600,
            revoked: false,
        })
    );
    let granted = granted.unwrap();
    assert_eq!(validate_delegate(&granted, &who(1), &who(2), now), Ok(()));
}

#[test]
fn grant_with_expiry_now_is_rejected() {
    let ctx = SetDelegate { owner: who(1), delegate: who(2), bump: 253 };
    assert_eq!(set_delegate(&ctx, 500, 500), Err(SanctosError::BadExpiry));
}

#[test]
fn grant_with_past_expiry_is_rejected() {
    let ctx = SetDelegate { owner: who(1), delegate: who(2), bump: 253 };
    assert_eq!(set_delegate(&ctx, 499, 500), Err(SanctosError::BadExpiry));
    assert_eq!(set_delegate(&ctx, i64::MIN, i64::MAX), Err(SanctosError::BadExpiry));
}

#[test]
fn grant_one_second_ahead_is_accepted() {
    let ctx = SetDelegate { owner: who(1), delegate: who(2), bump: 1 };
    assert_eq!(set_delegate(&ctx, 501, 500).map(|a| a.expires_at), Ok(501));
    assert_eq!(set_delegate(&ctx, i64::MAX, i64::MAX - 1).map(|a| a.revoked), Ok(false));
}

#[test]
fn validate_accepts_strictly_before_expiry() {
    let a = auth(1, 2, 1000, false);
    assert_eq!(validate_delegate(&a, &who(1), &who(2), 999), Ok(()));
    assert_eq!(validate_delegate(&a, &who(1), &who(2), i64::MIN), Ok(()));
}

#[test]
fn validate_rejects_at_the_expiry_instant() {
    let a = auth(1, 2, 1000, false);
    assert_eq!(
        validate_delegate(&a, &who(1), &who(2), 1000),
        Err(SanctosError::DelegationExpired)
    );
    assert_eq!(
        validate_delegate(&a, &who(1), &who(2), 1001),
        Err(SanctosError::DelegationExpired)
    );
}

#[test]
fn validate_rejects_another_owner_first() {
    let a = auth(1, 2, 1000, true);
    assert_eq!(validate_delegate(&a, &who(9), &who(8), 5000), Err(SanctosError::BadOwner));
    assert_eq!(validate_delegate(&a, &who(9), &who(2), 0), Err(SanctosError::BadOwner));
}

#[test]
fn validate_rejects_another_delegate_before_revocation_and_expiry() {
    let a = auth(1, 2, 1000, true);
    assert_eq!(validate_delegate(&a, &who(1), &who(8), 5000), Err(SanctosError::BadDelegate));
}

#[test]
fn validate_rejects_revoked_before_expired() {
    let a = auth(1, 2, 1000, true);
    assert_eq!(
        validate_delegate(&a, &who(1), &who(2), 5000),
        Err(SanctosError::DelegationRevoked)
    );
    assert_eq!(validate_delegate(&a, &who(1), &who(2), 0), Err(SanctosError::DelegationRevoked));
}

#[test]
fn validate_does_not_confuse_owner_and_delegate() {
    let a = auth(1, 2, 1000, false);
    assert_eq!(validate_delegate(&a, &who(2), &who(1), 0), Err(SanctosError::BadOwner));
}

#[test]
fn revoke_sets_the_flag_and_nothing_else() {
    let mut ctx = RevokeDelegate { owner: who(1), delegate: who(2), auth: auth(1, 2, 1000, false) };
    assert_eq!(revoke_delegate(&mut ctx), Ok(()));
    assert_eq!(ctx.auth, auth(1, 2, 1000, true));
    assert_eq!(ctx.owner, who(1));
    assert_eq!(ctx.delegate, who(2));
}

#[test]
fn revoke_twice_leaves_it_revoked() {
    let mut ctx = RevokeDelegate { owner: who(1), delegate: who(2), auth: auth(1, 2, 1000, false) };
    assert_eq!(revoke_delegate(&mut ctx), Ok(()));
    assert_eq!(revoke_delegate(&mut ctx), Ok(()));
    assert_eq!(ctx.auth, auth(1, 2, 1000, true));
}

#[test]
fn revoke_by_another_owner_is_rejected_and_changes_nothing() {
    let before = RevokeDelegate { owner: who(3), delegate: who(2), auth: auth(1, 2, 1000, false) };
    let mut ctx = before;
    assert_eq!(revoke_delegate(&mut ctx), Err(SanctosError::BadOwner));
    assert_eq!(ctx, before);
}

#[test]
fn revoked_authorization_is_rejected_whatever_the_time() {
    let mut ctx = RevokeDelegate { owner: who(1), delegate: who(2), auth: auth(1, 2, 1000, false) };
    assert_eq!(revoke_delegate(&mut ctx), Ok(()));
    for now in [i64::MIN, 0, 999, 1000, 1001, i64::MAX] {
        assert_eq!(
            validate_delegate(&ctx.auth, &who(1), &who(2), now),
            Err(SanctosError::DelegationRevoked)
        );
    }
}

#[test]
fn authorization_occupies_eighty_two_bytes() {
    assert_eq!(DelegateAuth::SPACE, 82);
}
