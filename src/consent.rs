//! Consent: a data owner's time-bounded grant to one requester over a scope.
//! A grant can be revoked once; expiry is judged only when a permission is
//! checked.

use vstd::prelude::*;
use crate::address::{Key, find_program_address};
use crate::errors::{IdenclaveError, outcome};
use crate::registry::{
    Registry, Stored, consent_address, consent_placed, find, has_at, index_at, record_at,
};
use crate::state::{ConsentRecord, ConsentStatus, MAX_SCOPE_LEN};
use crate::text::{contains, contains_text, fits, fits_bound};

verus! {

/// The data owner that grants, and signs, and the requester it grants to.
#[derive(Clone, Copy, Debug, PartialEq, Eq)]
pub struct GrantConsent {
    pub data_owner: Key,
    pub requester: Key,
}

/// The consent to revoke, at `consent_record`, the data owner that signs,
/// and the requester the consent was granted to.
#[derive(Clone, Copy, Debug, PartialEq, Eq)]
pub struct RevokeConsent {
    pub consent_record: Key,
    pub data_owner: Key,
    pub requester: Key,
}

/// The consent to check, at `consent_record`, its data owner, and the
/// requester that signs.
#[derive(Clone, Copy, Debug, PartialEq, Eq)]
pub struct CheckPermission {
    pub consent_record: Key,
    pub data_owner: Key,
    pub requester: Key,
}

/// The first check that granting consent fails at time `now`, if any.
pub open spec fn grant_consent_error(
    reg: Registry,
    ctx: GrantConsent,
    data_scope: Seq<char>,
    expires_at: i64,
    now: i64,
) -> Option<IdenclaveError> {
    match consent_address(reg.program_id, ctx.data_owner, ctx.requester) {
        None => Some(IdenclaveError::InvalidWalletAddress),
        Some((a, _)) => if has_at(reg.consents@, a) {
            Some(IdenclaveError::ConsentAlreadyGranted)
        } else if !fits(data_scope, MAX_SCOPE_LEN) {
            Some(IdenclaveError::DataTooLarge)
        } else if expires_at <= now {
            Some(IdenclaveError::InvalidTimestamp)
        } else {
            None
        },
    }
}

/// `new` is `old` with the consent of `ctx` added, as it stands when
/// granted at time `now`.
pub open spec fn consent_added(
    old: Registry,
    new: Registry,
    ctx: GrantConsent,
    data_scope: Seq<char>,
    expires_at: i64,
    now: i64,
) -> bool {
    let (a, bump) = consent_address(old.program_id, ctx.data_owner, ctx.requester)->Some_0;
    let c = new.consents@.last().record;
    &&& new.consents@.len() == old.consents@.len() + 1
    &&& new.consents@.drop_last() == old.consents@
    &&& new.consents@.last().address.bytes@ == a
    &&& c.data_owner == ctx.data_owner
    &&& c.requester == ctx.requester
    &&& c.data_scope@ == data_scope
    &&& c.status == ConsentStatus::Granted
    &&& c.granted_at == now
    &&& c.expires_at == expires_at
    &&& c.revoked_at is None
    &&& c.bump == bump
    &&& new.program_id == old.program_id
    &&& new.users == old.users
    &&& new.credentials == old.credentials
    &&& new.verifications == old.verifications
}

/// Grants the requester access to the signer's data within `data_scope`
/// until `expires_at`, which must lie after `now`.
pub fn grant_consent(
    registry: &mut Registry,
    ctx: &GrantConsent,
    _data_owner: Key,
    data_scope: String,
    expires_at: i64,
    now: i64,
) -> (r: Result<(), IdenclaveError>)
    requires
        old(registry).wf(),
        old(registry).consents@.len() < usize::MAX,
    ensures
        final(registry).wf(),
        r == outcome(grant_consent_error(*old(registry), *ctx, data_scope@, expires_at, now)),
        !fits(data_scope@, MAX_SCOPE_LEN) ==> r is Err,
        r is Err ==> *final(registry) == *old(registry),
        r is Ok ==> consent_added(*old(registry), *final(registry), *ctx, data_scope@, expires_at, now),
{
    let keys = vec![ctx.data_owner, ctx.requester];
    assert(keys@ =~= seq![ctx.data_owner, ctx.requester]);
    let (address, bump) = match find_program_address("consent", &keys, &registry.program_id) {
        Some(found) => found,
        None => return Err(IdenclaveError::InvalidWalletAddress),
    };
    if find(&registry.consents, &address).is_some() {
        return Err(IdenclaveError::ConsentAlreadyGranted);
    }
    if !fits_bound(&data_scope, MAX_SCOPE_LEN) {
        return Err(IdenclaveError::DataTooLarge);
    }
    if expires_at <= now {
        return Err(IdenclaveError::InvalidTimestamp);
    }
    let record = ConsentRecord {
        data_owner: ctx.data_owner,
        requester: ctx.requester,
        data_scope,
        status: ConsentStatus::Granted,
        granted_at: now,
        expires_at,
        revoked_at: None,
        bump,
    };
    let entry = Stored { address, record };
    proof {
        crate::registry::lemma_push(registry.consents@, entry, consent_placed(registry.program_id));
    }
    registry.consents.push(entry);
    assert(registry.consents@.drop_last() =~= old(registry).consents@);
    Ok(())
}

/// The first check that revoking the consent at `ctx.consent_record` fails,
/// if any.
pub open spec fn revoke_consent_error(reg: Registry, ctx: RevokeConsent) -> Option<IdenclaveError> {
    if !has_at(reg.consents@, ctx.consent_record.bytes@) {
        Some(IdenclaveError::ConsentRecordNotFound)
    } else if record_at(reg.consents@, ctx.consent_record.bytes@).data_owner != ctx.data_owner {
        Some(IdenclaveError::UnauthorizedAccess)
    } else if record_at(reg.consents@, ctx.consent_record.bytes@).requester != ctx.requester {
        Some(IdenclaveError::UnauthorizedAccess)
    } else if record_at(reg.consents@, ctx.consent_record.bytes@).status == ConsentStatus::Revoked {
        Some(IdenclaveError::ConsentAlreadyRevoked)
    } else {
        None
    }
}

/// `new` is `old` with the consent at `ctx.consent_record` revoked at time
/// `now`, and nothing else changed.
pub open spec fn consent_revoked(old: Registry, new: Registry, ctx: RevokeConsent, now: i64) -> bool {
    let i = index_at(old.consents@, ctx.consent_record.bytes@);
    let c = old.consents@[i];
    &&& new.consents@ == old.consents@.update(
        i,
        Stored {
            address: c.address,
            record: ConsentRecord { status: ConsentStatus::Revoked, revoked_at: Some(now), ..c.record },
        },
    )
    &&& new.program_id == old.program_id
    &&& new.users == old.users
    &&& new.credentials == old.credentials
    &&& new.verifications == old.verifications
}

/// Revokes a granted consent at time `now`, for good.
pub fn revoke_consent(registry: &mut Registry, ctx: &RevokeConsent, now: i64) -> (r: Result<(), IdenclaveError>)
    requires
        old(registry).wf(),
    ensures
        final(registry).wf(),
        r == outcome(revoke_consent_error(*old(registry), *ctx)),
        r is Err ==> *final(registry) == *old(registry),
        r is Ok ==> consent_revoked(*old(registry), *final(registry), *ctx, now),
{
    let i = match find(&registry.consents, &ctx.consent_record) {
        Some(i) => i,
        None => return Err(IdenclaveError::ConsentRecordNotFound),
    };
    if !registry.consents[i].record.data_owner.same(&ctx.data_owner) {
        return Err(IdenclaveError::UnauthorizedAccess);
    }
    if !registry.consents[i].record.requester.same(&ctx.requester) {
        return Err(IdenclaveError::UnauthorizedAccess);
    }
    if registry.consents[i].record.status == ConsentStatus::Revoked {
        return Err(IdenclaveError::ConsentAlreadyRevoked);
    }
    let mut entry = registry.consents.remove(i);
    entry.record.status = ConsentStatus::Revoked;
    entry.record.revoked_at = Some(now);
    proof {
        assert(consent_placed(registry.program_id)(old(registry).consents@[i as int]));
        crate::registry::lemma_update(old(registry).consents@, i as int, entry, consent_placed(registry.program_id));
    }
    registry.consents.insert(i, entry);
    assert(registry.consents@ =~= old(registry).consents@.update(i as int, entry));
    Ok(())
}

/// The first check that a permission check fails at time `now`, if any. The
/// signer is checked against the record before its status or expiry.
pub open spec fn check_permission_error(
    reg: Registry,
    ctx: CheckPermission,
    data_type: Seq<char>,
    now: i64,
) -> Option<IdenclaveError> {
    let c = record_at(reg.consents@, ctx.consent_record.bytes@);
    if !has_at(reg.consents@, ctx.consent_record.bytes@) {
        Some(IdenclaveError::ConsentRecordNotFound)
    } else if c.data_owner != ctx.data_owner {
        Some(IdenclaveError::UnauthorizedAccess)
    } else if c.requester != ctx.requester {
        Some(IdenclaveError::UnauthorizedAccess)
    } else if c.status != ConsentStatus::Granted {
        Some(IdenclaveError::InsufficientPermissions)
    } else if now > c.expires_at {
        Some(IdenclaveError::ConsentExpired)
    } else if !contains_text(c.data_scope@, data_type) {
        Some(IdenclaveError::InsufficientPermissions)
    } else {
        None
    }
}

/// Whether the signing requester may, at time `now`, access data of type
/// `data_type` under the consent at `ctx.consent_record`. Nothing is
/// changed.
pub fn check_permission(
    registry: &Registry,
    ctx: &CheckPermission,
    _data_owner: Key,
    data_type: String,
    now: i64,
) -> (r: Result<(), IdenclaveError>)
    requires
        registry.wf(),
    ensures
        r == outcome(check_permission_error(*registry, *ctx, data_type@, now)),
        has_at(registry.consents@, ctx.consent_record.bytes@)
            && record_at(registry.consents@, ctx.consent_record.bytes@).requester != ctx.requester
            ==> r == Err::<(), IdenclaveError>(IdenclaveError::UnauthorizedAccess),
{
    let i = match find(&registry.consents, &ctx.consent_record) {
        Some(i) => i,
        None => return Err(IdenclaveError::ConsentRecordNotFound),
    };
    let c = &registry.consents[i].record;
    if !c.data_owner.same(&ctx.data_owner) {
        return Err(IdenclaveError::UnauthorizedAccess);
    }
    if !c.requester.same(&ctx.requester) {
        return Err(IdenclaveError::UnauthorizedAccess);
    }
    if c.status != ConsentStatus::Granted {
        return Err(IdenclaveError::InsufficientPermissions);
    }
    if now > c.expires_at {
        return Err(IdenclaveError::ConsentExpired);
    }
    if !contains(&c.data_scope, &data_type) {
        return Err(IdenclaveError::InsufficientPermissions);
    }
    Ok(())
}

} // verus!
