//! Delegation: an owner lets a delegate act for it until an expiry instant, or until the
//! owner revokes the grant.

use vstd::prelude::*;
use crate::error::SanctosError;
use crate::principal::Principal;

verus! {

/// The standing authorization of one delegate by one owner.
#[derive(Clone, Copy, Debug, PartialEq, Eq)]
pub struct DelegateAuth {
    /// Bump seed of the record's address.
    pub bump: u8,
    /// Who granted the authorization.
    pub owner: Principal,
    /// Who may act for the owner.
    pub delegate: Principal,
    /// The first instant at which the authorization is no longer valid.
    pub expires_at: i64,
    /// Set once by the owner, never cleared.
    pub revoked: bool,
}

/// What a request to grant an authorization names.
#[derive(Clone, Copy, Debug, PartialEq, Eq)]
pub struct SetDelegate {
    /// The owner that grants.
    pub owner: Principal,
    /// The delegate that is authorized.
    pub delegate: Principal,
    /// Bump seed of the address at which the authorization is created.
    pub bump: u8,
}

/// What a request to revoke an authorization names.
#[derive(Clone, Copy, Debug, PartialEq, Eq)]
pub struct RevokeDelegate {
    /// The owner that revokes.
    pub owner: Principal,
    /// The delegate whose authorization is revoked.
    pub delegate: Principal,
    /// The authorization's record.
    pub auth: DelegateAuth,
}

impl DelegateAuth {
    /// Bytes that a stored authorization occupies, its 8-byte tag included.
    pub const SPACE: usize = 8 + 1 + 32 + 32 + 8 + 1;
}

/// The verdict on an authorization presented for `owner` by `delegate` at time `now`.
/// The first failing test, in this order, names the error: the owner, the delegate,
/// revocation, expiry. The expiry instant itself is already too late.
pub open spec fn spec_validate_delegate(
    auth: DelegateAuth,
    owner: Principal,
    delegate: Principal,
    now: i64,
) -> Result<(), SanctosError> {
    if auth.owner != owner {
        Err(SanctosError::BadOwner)
    } else if auth.delegate != delegate {
        Err(SanctosError::BadDelegate)
    } else if auth.revoked {
        Err(SanctosError::DelegationRevoked)
    } else if now >= auth.expires_at {
        Err(SanctosError::DelegationExpired)
    } else {
        Ok(())
    }
}

/// Decides whether `auth` lets `delegate` act for `owner` at time `now`.
pub fn validate_delegate(
    auth: &DelegateAuth,
    owner: &Principal,
    delegate: &Principal,
    now: i64,
) -> (r: Result<(), SanctosError>)
    ensures
        r == spec_validate_delegate(*auth, *owner, *delegate, now),
{
    if auth.owner != *owner {
        return Err(SanctosError::BadOwner);
    }
    if auth.delegate != *delegate {
        return Err(SanctosError::BadDelegate);
    }
    if auth.revoked {
        return Err(SanctosError::DelegationRevoked);
    }
    if now >= auth.expires_at {
        return Err(SanctosError::DelegationExpired);
    }
    Ok(())
}

/// What granting yields at time `now`: a fresh authorization, not revoked, if the expiry
/// lies strictly after `now`.
pub open spec fn spec_set_delegate(ctx: SetDelegate, expires_at: i64, now: i64) -> Result<
    DelegateAuth,
    SanctosError,
> {
    if expires_at > now {
        Ok(
            DelegateAuth {
                bump: ctx.bump,
                owner: ctx.owner,
                delegate: ctx.delegate,
                expires_at,
                revoked: false,
            },
        )
    } else {
        Err(SanctosError::BadExpiry)
    }
}

/// What revoking yields: the same authorization with `revoked` set, if the one who asks
/// is the owner that the record names.
pub open spec fn spec_revoke_delegate(ctx: RevokeDelegate) -> Result<DelegateAuth, SanctosError> {
    if ctx.auth.owner == ctx.owner {
        Ok(DelegateAuth { revoked: true, ..ctx.auth })
    } else {
        Err(SanctosError::BadOwner)
    }
}

/// An owner authorizes a delegate until `expires_at`.
///
/// The grant is rejected with `BadExpiry`, and no record comes to be, unless
/// `expires_at` lies strictly after `now`.
pub fn set_delegate(ctx: &SetDelegate, expires_at: i64, now: i64) -> (r: Result<
    DelegateAuth,
    SanctosError,
>)
    ensures
        r == spec_set_delegate(*ctx, expires_at, now),
{
    if !(expires_at > now) {
        return Err(SanctosError::BadExpiry);
    }
    Ok(
        DelegateAuth {
            bump: ctx.bump,
            owner: ctx.owner,
            delegate: ctx.delegate,
            expires_at,
            revoked: false,
        },
    )
}

/// An owner revokes the authorization of a delegate.
///
/// The request is rejected with `BadOwner`, and nothing changes, if the record names
/// another owner. Otherwise the record is revoked, whether it already was or not.
pub fn revoke_delegate(ctx: &mut RevokeDelegate) -> (r: Result<(), SanctosError>)
    ensures
        match spec_revoke_delegate(*old(ctx)) {
            Ok(auth) => r == Ok::<(), SanctosError>(()) && *final(ctx) == (RevokeDelegate {
                auth,
                ..*old(ctx)
            }),
            Err(e) => r == Err::<(), SanctosError>(e) && *final(ctx) == *old(ctx),
        },
{
    if ctx.auth.owner != ctx.owner {
        return Err(SanctosError::BadOwner);
    }
    ctx.auth.revoked = true;
    Ok(())
}

/// An authorization that was just granted is valid for its owner and delegate at the
/// time of the grant, and at every time before its expiry.
pub proof fn lemma_fresh_grant_is_valid(ctx: SetDelegate, expires_at: i64, now: i64, later: i64)
    requires
        spec_set_delegate(ctx, expires_at, now) is Ok,
        later < expires_at,
    ensures
        spec_validate_delegate(
            spec_set_delegate(ctx, expires_at, now)->Ok_0,
            ctx.owner,
            ctx.delegate,
            now,
        ) is Ok,
        spec_validate_delegate(
            spec_set_delegate(ctx, expires_at, now)->Ok_0,
            ctx.owner,
            ctx.delegate,
            later,
        ) is Ok,
{
}

/// Revocation is final: a revoked authorization stays revoked when it is revoked
/// again, and is never valid, for whichever owner and delegate and at whatever time.
pub proof fn lemma_revocation_is_final(
    ctx: RevokeDelegate,
    owner: Principal,
    delegate: Principal,
    now: i64,
)
    requires
        spec_revoke_delegate(ctx) is Ok,
    ensures
        spec_revoke_delegate(ctx)->Ok_0.revoked,
        spec_revoke_delegate(RevokeDelegate { auth: spec_revoke_delegate(ctx)->Ok_0, ..ctx })
            == spec_revoke_delegate(ctx),
        spec_validate_delegate(spec_revoke_delegate(ctx)->Ok_0, owner, delegate, now) is Err,
        spec_revoke_delegate(ctx)->Ok_0.owner == owner && spec_revoke_delegate(ctx)->Ok_0.delegate
            == delegate ==> spec_validate_delegate(
            spec_revoke_delegate(ctx)->Ok_0,
            owner,
            delegate,
            now,
        ) == Err::<(), SanctosError>(SanctosError::DelegationRevoked),
{
}

} // verus!
