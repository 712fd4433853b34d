//! Verification requests: one per requester, moved between statuses by it.

use vstd::prelude::*;
use crate::address::{Key, find_program_address};
use crate::errors::{IdenclaveError, outcome};
use crate::registry::{
    Registry, Stored, find, has_at, index_at, record_at, verification_address, verification_placed,
};
use crate::state::{
    MAX_METADATA_LEN, RequestType, VerificationRequest, VerificationStatus, request_type_of,
    verification_status_of,
};
use crate::text::{fits, fits_bound};

verus! {

/// The actor that asks for a verification, and signs, and its target.
#[derive(Clone, Copy, Debug, PartialEq, Eq)]
pub struct CreateVerificationRequest {
    pub requester: Key,
    pub target_wallet: Key,
}

/// The request to update, at `verification_request`, the actor that signs,
/// and the request's target.
#[derive(Clone, Copy, Debug, PartialEq, Eq)]
pub struct UpdateVerificationStatus {
    pub verification_request: Key,
    pub requester: Key,
    pub target_wallet: Key,
}

/// The first check that creating `signer`'s verification request fails, if
/// any.
pub open spec fn create_verification_request_error(
    reg: Registry,
    signer: Key,
    request_type: Seq<char>,
    metadata: Seq<char>,
) -> Option<IdenclaveError> {
    match verification_address(reg.program_id, signer) {
        None => Some(IdenclaveError::InvalidWalletAddress),
        Some((a, _)) => if has_at(reg.verifications@, a) {
            Some(IdenclaveError::VerificationRequestAlreadyExists)
        } else if request_type_of(request_type) is None {
            Some(IdenclaveError::InvalidVerificationType)
        } else if !fits(metadata, MAX_METADATA_LEN) {
            Some(IdenclaveError::DataTooLarge)
        } else {
            None
        },
    }
}

/// `new` is `old` with `signer`'s request about `target_wallet` added, as it
/// stands when made at time `now`.
pub open spec fn verification_request_added(
    old: Registry,
    new: Registry,
    signer: Key,
    target_wallet: Key,
    request_type: Seq<char>,
    metadata: Seq<char>,
    now: i64,
) -> bool {
    let (a, bump) = verification_address(old.program_id, signer)->Some_0;
    let v = new.verifications@.last().record;
    &&& new.verifications@.len() == old.verifications@.len() + 1
    &&& new.verifications@.drop_last() == old.verifications@
    &&& new.verifications@.last().address.bytes@ == a
    &&& v.requester == signer
    &&& v.target_wallet == target_wallet
    &&& Some(v.request_type) == request_type_of(request_type)
    &&& v.metadata@ == metadata
    &&& v.status == VerificationStatus::Pending
    &&& v.created_at == now
    &&& v.updated_at == now
    &&& v.bump == bump
    &&& new.program_id == old.program_id
    &&& new.users == old.users
    &&& new.credentials == old.credentials
    &&& new.consents == old.consents
}

/// Creates a pending request, owned by the signer, to verify `target_wallet`.
pub fn create_verification_request(
    registry: &mut Registry,
    ctx: &CreateVerificationRequest,
    target_wallet: Key,
    request_type: String,
    metadata: String,
    now: i64,
) -> (r: Result<(), IdenclaveError>)
    requires
        old(registry).wf(),
        old(registry).verifications@.len() < usize::MAX,
    ensures
        final(registry).wf(),
        r == outcome(create_verification_request_error(*old(registry), ctx.requester, request_type@, metadata@)),
        !fits(metadata@, MAX_METADATA_LEN) ==> r is Err,
        r is Err ==> *final(registry) == *old(registry),
        r is Ok ==> verification_request_added(
            *old(registry),
            *final(registry),
            ctx.requester,
            target_wallet,
            request_type@,
            metadata@,
            now,
        ),
{
    let keys = vec![ctx.requester];
    assert(keys@ =~= seq![ctx.requester]);
    let (address, bump) = match find_program_address("verification", &keys, &registry.program_id) {
        Some(found) => found,
        None => return Err(IdenclaveError::InvalidWalletAddress),
    };
    if find(&registry.verifications, &address).is_some() {
        return Err(IdenclaveError::VerificationRequestAlreadyExists);
    }
    let request_type = match RequestType::parse(&request_type) {
        Some(t) => t,
        None => return Err(IdenclaveError::InvalidVerificationType),
    };
    if !fits_bound(&metadata, MAX_METADATA_LEN) {
        return Err(IdenclaveError::DataTooLarge);
    }
    let record = VerificationRequest {
        requester: ctx.requester,
        target_wallet,
        request_type,
        metadata,
        status: VerificationStatus::Pending,
        created_at: now,
        updated_at: now,
        bump,
    };
    let entry = Stored { address, record };
    proof {
        crate::registry::lemma_push(registry.verifications@, entry, verification_placed(registry.program_id));
    }
    registry.verifications.push(entry);
    assert(registry.verifications@.drop_last() =~= old(registry).verifications@);
    Ok(())
}

/// The first check that updating the request at `ctx.verification_request`
/// fails, if any. Any of the four statuses is accepted whatever the current
/// one is.
pub open spec fn update_verification_status_error(
    reg: Registry,
    ctx: UpdateVerificationStatus,
    status: Seq<char>,
    metadata: Seq<char>,
) -> Option<IdenclaveError> {
    if !has_at(reg.verifications@, ctx.verification_request.bytes@) {
        Some(IdenclaveError::VerificationRequestNotFound)
    } else if record_at(reg.verifications@, ctx.verification_request.bytes@).requester != ctx.requester {
        Some(IdenclaveError::UnauthorizedAccess)
    } else if verification_status_of(status) is None {
        Some(IdenclaveError::InvalidStatusTransition)
    } else if !fits(metadata, MAX_METADATA_LEN) {
        Some(IdenclaveError::DataTooLarge)
    } else {
        None
    }
}

/// Sets the status and metadata of the signer's request and stamps the
/// update.
pub fn update_verification_status(
    registry: &mut Registry,
    ctx: &UpdateVerificationStatus,
    status: String,
    metadata: String,
    now: i64,
) -> (r: Result<(), IdenclaveError>)
    requires
        old(registry).wf(),
    ensures
        final(registry).wf(),
        r == outcome(update_verification_status_error(*old(registry), *ctx, status@, metadata@)),
        !fits(metadata@, MAX_METADATA_LEN) ==> r is Err,
        r is Err ==> *final(registry) == *old(registry),
        r is Ok ==> ({
            let i = index_at(old(registry).verifications@, ctx.verification_request.bytes@);
            let v = old(registry).verifications@[i];
            final(registry).verifications@ == old(registry).verifications@.update(
                i,
                Stored {
                    address: v.address,
                    record: VerificationRequest {
                        status: verification_status_of(status@)->Some_0,
                        metadata: metadata,
                        updated_at: now,
                        ..v.record
                    },
                },
            )
        }),
        r is Ok ==> final(registry).program_id == old(registry).program_id,
        r is Ok ==> final(registry).users == old(registry).users,
        r is Ok ==> final(registry).credentials == old(registry).credentials,
        r is Ok ==> final(registry).consents == old(registry).consents,
{
    let i = match find(&registry.verifications, &ctx.verification_request) {
        Some(i) => i,
        None => return Err(IdenclaveError::VerificationRequestNotFound),
    };
    if !registry.verifications[i].record.requester.same(&ctx.requester) {
        return Err(IdenclaveError::UnauthorizedAccess);
    }
    let status = match VerificationStatus::parse(&status) {
        Some(s) => s,
        None => return Err(IdenclaveError::InvalidStatusTransition),
    };
    if !fits_bound(&metadata, MAX_METADATA_LEN) {
        return Err(IdenclaveError::DataTooLarge);
    }
    let mut entry = registry.verifications.remove(i);
    entry.record.status = status;
    entry.record.metadata = metadata;
    entry.record.updated_at = now;
    proof {
        assert(verification_placed(registry.program_id)(old(registry).verifications@[i as int]));
        crate::registry::lemma_update(old(registry).verifications@, i as int, entry, verification_placed(registry.program_id));
    }
    registry.verifications.insert(i, entry);
    assert(registry.verifications@ =~= old(registry).verifications@.update(i as int, entry));
    Ok(())
}

} // verus!
