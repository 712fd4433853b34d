//! Properties that relate several operations on the registry.

use vstd::prelude::*;
use crate::address::Key;
use crate::consent::{
    CheckPermission, GrantConsent, RevokeConsent, check_permission_error, consent_added,
    consent_revoked, grant_consent_error, revoke_consent_error,
};
use crate::errors::IdenclaveError;
use crate::identity::{add_credential_error, identity_added, initialize_identity_error};
use crate::verification::create_verification_request_error;
use crate::registry::{
    Registry, consent_address, credential_address, has_at, index_at, record_at, user_address,
    verification_address,
};
use crate::state::{
    ConsentStatus, MAX_CREDENTIAL_TYPE_LEN, MAX_HASH_LEN, MAX_METADATA_LEN, MAX_PROFILE_LEN,
    MAX_SCOPE_LEN, request_type_of, user_type_of,
};
use crate::text::{contains_text, fits};

verus! {

/// Once an actor's identity has been created, creating it again fails,
/// whatever the profile and user type; with valid inputs the failure is
/// `UserAlreadyExists`. A failed call leaves the registry, and so the first
/// identity, unchanged.
pub proof fn lemma_identity_created_once(
    r0: Registry,
    r1: Registry,
    signer: Key,
    profile_data: Seq<char>,
    user_type: Seq<char>,
    now: i64,
    profile_again: Seq<char>,
    user_type_again: Seq<char>,
)
    requires
        r0.wf(),
        initialize_identity_error(r0, signer, profile_data, user_type) is None,
        identity_added(r0, r1, signer, profile_data, user_type, now),
    ensures
        initialize_identity_error(r1, signer, profile_again, user_type_again) is Some,
        user_type_of(user_type_again) is Some && fits(profile_again, MAX_PROFILE_LEN)
            ==> initialize_identity_error(r1, signer, profile_again, user_type_again)
            == Some(IdenclaveError::UserAlreadyExists),
{
    let a = user_address(r0.program_id, signer)->Some_0.0;
    let last = r1.users@.len() - 1;
    assert(r1.users@[last].address.bytes@ == a);
    assert(has_at(r1.users@, a));
}

/// A consent granted until `expires_at` lets its requester access any data
/// type within the scope at every time up to `expires_at`, and at every
/// later time fails with `ConsentExpired`.
pub proof fn lemma_consent_round_trip(
    r0: Registry,
    r1: Registry,
    grant: GrantConsent,
    data_scope: Seq<char>,
    expires_at: i64,
    granted_at: i64,
    check: CheckPermission,
    data_type: Seq<char>,
    now: i64,
)
    requires
        r0.wf(),
        r1.wf(),
        grant_consent_error(r0, grant, data_scope, expires_at, granted_at) is None,
        consent_added(r0, r1, grant, data_scope, expires_at, granted_at),
        check.consent_record.bytes@ == consent_address(r0.program_id, grant.data_owner, grant.requester)->Some_0.0,
        check.data_owner == grant.data_owner,
        check.requester == grant.requester,
    ensures
        now <= expires_at && contains_text(data_scope, data_type)
            ==> check_permission_error(r1, check, data_type, now) is None,
        now <= expires_at && !contains_text(data_scope, data_type)
            ==> check_permission_error(r1, check, data_type, now) == Some(IdenclaveError::InsufficientPermissions),
        now > expires_at ==> check_permission_error(r1, check, data_type, now) == Some(IdenclaveError::ConsentExpired),
{
    let a = check.consent_record.bytes@;
    let last = r1.consents@.len() - 1;
    assert(r1.consents@[last].address.bytes@ == a);
    assert(has_at(r1.consents@, a));
    assert(index_at(r1.consents@, a) == last);
}

/// Once a consent is revoked, every permission check under it fails with
/// `InsufficientPermissions`, at any time and for any data type.
pub proof fn lemma_revoked_consent_denies(
    r1: Registry,
    r2: Registry,
    revoke: RevokeConsent,
    revoked_at: i64,
    check: CheckPermission,
    data_type: Seq<char>,
    now: i64,
)
    requires
        r1.wf(),
        r2.wf(),
        revoke_consent_error(r1, revoke) is None,
        consent_revoked(r1, r2, revoke, revoked_at),
        check.consent_record == revoke.consent_record,
        check.data_owner == revoke.data_owner,
        check.requester == revoke.requester,
    ensures
        check_permission_error(r2, check, data_type, now) == Some(IdenclaveError::InsufficientPermissions),
{
    let a = check.consent_record.bytes@;
    let i = index_at(r1.consents@, a);
    assert(r2.consents@[i].address.bytes@ == a);
    assert(has_at(r2.consents@, a));
    assert(index_at(r2.consents@, a) == i);
}

/// Revoking a consent a second time fails with `ConsentAlreadyRevoked`; the
/// first revocation's time is the one that stays recorded.
pub proof fn lemma_revoke_once(r1: Registry, r2: Registry, revoke: RevokeConsent, revoked_at: i64)
    requires
        r1.wf(),
        r2.wf(),
        revoke_consent_error(r1, revoke) is None,
        consent_revoked(r1, r2, revoke, revoked_at),
    ensures
        revoke_consent_error(r2, revoke) == Some(IdenclaveError::ConsentAlreadyRevoked),
        record_at(r2.consents@, revoke.consent_record.bytes@).status == ConsentStatus::Revoked,
        record_at(r2.consents@, revoke.consent_record.bytes@).revoked_at == Some(revoked_at),
{
    let a = revoke.consent_record.bytes@;
    let i = index_at(r1.consents@, a);
    assert(r2.consents@[i].address.bytes@ == a);
    assert(has_at(r2.consents@, a));
    assert(index_at(r2.consents@, a) == i);
}

/// Text within its bound, up to the bound itself, is accepted by every
/// creation: where the record's address can be derived and is free, and the
/// other inputs are valid, the creation succeeds.
pub proof fn lemma_bounded_text_accepted(
    reg: Registry,
    signer: Key,
    other: Key,
    profile_data: Seq<char>,
    user_type: Seq<char>,
    credential_hash: Seq<char>,
    credential_type: Seq<char>,
    request_type: Seq<char>,
    metadata: Seq<char>,
    data_scope: Seq<char>,
    expires_at: i64,
    now: i64,
)
    ensures
        user_address(reg.program_id, signer) is Some
            && !has_at(reg.users@, user_address(reg.program_id, signer)->Some_0.0)
            && user_type_of(user_type) is Some
            && fits(profile_data, MAX_PROFILE_LEN)
            ==> initialize_identity_error(reg, signer, profile_data, user_type) is None,
        user_address(reg.program_id, signer) is Some
            && has_at(reg.users@, user_address(reg.program_id, signer)->Some_0.0)
            && credential_address(reg.program_id, signer) is Some
            && !has_at(reg.credentials@, credential_address(reg.program_id, signer)->Some_0.0)
            && fits(credential_hash, MAX_HASH_LEN)
            && fits(credential_type, MAX_CREDENTIAL_TYPE_LEN)
            && fits(metadata, MAX_METADATA_LEN)
            ==> add_credential_error(reg, signer, credential_hash, credential_type, metadata) is None,
        verification_address(reg.program_id, signer) is Some
            && !has_at(reg.verifications@, verification_address(reg.program_id, signer)->Some_0.0)
            && request_type_of(request_type) is Some
            && fits(metadata, MAX_METADATA_LEN)
            ==> create_verification_request_error(reg, signer, request_type, metadata) is None,
        consent_address(reg.program_id, signer, other) is Some
            && !has_at(reg.consents@, consent_address(reg.program_id, signer, other)->Some_0.0)
            && fits(data_scope, MAX_SCOPE_LEN)
            && expires_at > now
            ==> grant_consent_error(reg, (GrantConsent { data_owner: signer, requester: other }), data_scope, expires_at, now)
            is None,
{
}

} // verus!
