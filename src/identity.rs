//! Creating identities, updating profiles and attaching credentials.

use vstd::prelude::*;
use vstd::string::StringExecFns;
use crate::address::{Key, find_program_address};
use crate::errors::{IdenclaveError, outcome};
use crate::registry::{
    Registry, Stored, credential_address, credential_placed, find, has_at, index_at, record_at,
    user_address, user_placed,
};
use crate::state::{
    Credential, MAX_CREDENTIAL_TYPE_LEN, MAX_HASH_LEN, MAX_METADATA_LEN, MAX_PROFILE_LEN, User,
    UserType, user_type_of,
};
use crate::text::{fits, fits_bound};

verus! {

/// The actor that creates its identity, and signs for it.
#[derive(Clone, Copy, Debug, PartialEq, Eq)]
pub struct InitializeIdentity {
    pub user: Key,
}

/// The identity to update, at `user_account`, and the actor that signs.
#[derive(Clone, Copy, Debug, PartialEq, Eq)]
pub struct UpdateProfile {
    pub user_account: Key,
    pub user: Key,
}

/// The actor that attaches a credential to its own identity, and signs.
#[derive(Clone, Copy, Debug, PartialEq, Eq)]
pub struct AddCredential {
    pub user: Key,
}

/// The first check that creating `signer`'s identity fails, if any.
pub open spec fn initialize_identity_error(
    reg: Registry,
    signer: Key,
    profile_data: Seq<char>,
    user_type: Seq<char>,
) -> Option<IdenclaveError> {
    if user_type_of(user_type) is None {
        Some(IdenclaveError::InvalidUserType)
    } else if !fits(profile_data, MAX_PROFILE_LEN) {
        Some(IdenclaveError::DataTooLarge)
    } else {
        match user_address(reg.program_id, signer) {
            None => Some(IdenclaveError::InvalidWalletAddress),
            Some((a, _)) => if has_at(reg.users@, a) {
                Some(IdenclaveError::UserAlreadyExists)
            } else {
                None
            },
        }
    }
}

/// `new` is `old` with `signer`'s identity added, as it stands when made at
/// time `now`.
pub open spec fn identity_added(
    old: Registry,
    new: Registry,
    signer: Key,
    profile_data: Seq<char>,
    user_type: Seq<char>,
    now: i64,
) -> bool {
    let (a, bump) = user_address(old.program_id, signer)->Some_0;
    let u = new.users@.last().record;
    &&& new.users@.len() == old.users@.len() + 1
    &&& new.users@.drop_last() == old.users@
    &&& new.users@.last().address.bytes@ == a
    &&& u.wallet_address == signer
    &&& u.profile_data@ == profile_data
    &&& Some(u.user_type) == user_type_of(user_type)
    &&& u.status@ == "pending"@
    &&& u.created_at == now
    &&& u.updated_at == now
    &&& u.bump == bump
    &&& new.program_id == old.program_id
    &&& new.credentials == old.credentials
    &&& new.verifications == old.verifications
    &&& new.consents == old.consents
}

/// Creates the signer's identity, with status "pending", at the address
/// derived from its key.
pub fn initialize_identity(
    registry: &mut Registry,
    ctx: &InitializeIdentity,
    profile_data: String,
    user_type: String,
    now: i64,
) -> (r: Result<(), IdenclaveError>)
    requires
        old(registry).wf(),
        old(registry).users@.len() < usize::MAX,
    ensures
        final(registry).wf(),
        r == outcome(initialize_identity_error(*old(registry), ctx.user, profile_data@, user_type@)),
        user_type_of(user_type@) is None ==> r == Err::<(), IdenclaveError>(IdenclaveError::InvalidUserType),
        !fits(profile_data@, MAX_PROFILE_LEN) ==> r is Err,
        r is Err ==> *final(registry) == *old(registry),
        r is Ok ==> identity_added(*old(registry), *final(registry), ctx.user, profile_data@, user_type@, now),
{
    let user_type = match UserType::parse(&user_type) {
        Some(t) => t,
        None => return Err(IdenclaveError::InvalidUserType),
    };
    if !fits_bound(&profile_data, MAX_PROFILE_LEN) {
        return Err(IdenclaveError::DataTooLarge);
    }
    let keys = vec![ctx.user];
    assert(keys@ =~= seq![ctx.user]);
    let (address, bump) = match find_program_address("user", &keys, &registry.program_id) {
        Some(found) => found,
        None => return Err(IdenclaveError::InvalidWalletAddress),
    };
    if find(&registry.users, &address).is_some() {
        return Err(IdenclaveError::UserAlreadyExists);
    }
    let record = User {
        wallet_address: ctx.user,
        profile_data,
        user_type,
        status: String::from_str("pending"),
        created_at: now,
        updated_at: now,
        bump,
    };
    let entry = Stored { address, record };
    proof {
        crate::registry::lemma_push(registry.users@, entry, user_placed(registry.program_id));
    }
    registry.users.push(entry);
    assert(registry.users@.drop_last() =~= old(registry).users@);
    Ok(())
}

/// The first check that updating the profile at `ctx.user_account` fails,
/// if any.
pub open spec fn update_profile_error(reg: Registry, ctx: UpdateProfile, profile_data: Seq<char>) -> Option<IdenclaveError> {
    if !has_at(reg.users@, ctx.user_account.bytes@) {
        Some(IdenclaveError::UserNotFound)
    } else if record_at(reg.users@, ctx.user_account.bytes@).wallet_address != ctx.user {
        Some(IdenclaveError::UnauthorizedAccess)
    } else if !fits(profile_data, MAX_PROFILE_LEN) {
        Some(IdenclaveError::DataTooLarge)
    } else {
        None
    }
}

/// Replaces the profile of the signer's identity and stamps the update.
/// The identity's status and other fields stay as they are.
pub fn update_profile(
    registry: &mut Registry,
    ctx: &UpdateProfile,
    profile_data: String,
    now: i64,
) -> (r: Result<(), IdenclaveError>)
    requires
        old(registry).wf(),
    ensures
        final(registry).wf(),
        r == outcome(update_profile_error(*old(registry), *ctx, profile_data@)),
        !fits(profile_data@, MAX_PROFILE_LEN) ==> r is Err,
        r is Err ==> *final(registry) == *old(registry),
        r is Ok ==> ({
            let i = index_at(old(registry).users@, ctx.user_account.bytes@);
            let u = old(registry).users@[i];
            final(registry).users@ == old(registry).users@.update(
                i,
                Stored { address: u.address, record: User { profile_data: profile_data, updated_at: now, ..u.record } },
            )
        }),
        r is Ok ==> final(registry).program_id == old(registry).program_id,
        r is Ok ==> final(registry).credentials == old(registry).credentials,
        r is Ok ==> final(registry).verifications == old(registry).verifications,
        r is Ok ==> final(registry).consents == old(registry).consents,
{
    let i = match find(&registry.users, &ctx.user_account) {
        Some(i) => i,
        None => return Err(IdenclaveError::UserNotFound),
    };
    if !registry.users[i].record.wallet_address.same(&ctx.user) {
        return Err(IdenclaveError::UnauthorizedAccess);
    }
    if !fits_bound(&profile_data, MAX_PROFILE_LEN) {
        return Err(IdenclaveError::DataTooLarge);
    }
    let mut entry = registry.users.remove(i);
    entry.record.profile_data = profile_data;
    entry.record.updated_at = now;
    proof {
        assert(user_placed(registry.program_id)(old(registry).users@[i as int]));
        crate::registry::lemma_update(old(registry).users@, i as int, entry, user_placed(registry.program_id));
    }
    registry.users.insert(i, entry);
    assert(registry.users@ =~= old(registry).users@.update(i as int, entry));
    Ok(())
}

/// The first check that attaching a credential to `signer`'s identity
/// fails, if any.
pub open spec fn add_credential_error(
    reg: Registry,
    signer: Key,
    credential_hash: Seq<char>,
    credential_type: Seq<char>,
    metadata: Seq<char>,
) -> Option<IdenclaveError> {
    match user_address(reg.program_id, signer) {
        None => Some(IdenclaveError::InvalidWalletAddress),
        Some((u, _)) => if !has_at(reg.users@, u) {
            Some(IdenclaveError::UserNotFound)
        } else {
            match credential_address(reg.program_id, signer) {
                None => Some(IdenclaveError::InvalidWalletAddress),
                Some((c, _)) => if has_at(reg.credentials@, c) {
                    Some(IdenclaveError::CredentialAlreadyExists)
                } else if !fits(credential_hash, MAX_HASH_LEN) {
                    Some(IdenclaveError::DataTooLarge)
                } else if !fits(credential_type, MAX_CREDENTIAL_TYPE_LEN) {
                    Some(IdenclaveError::DataTooLarge)
                } else if !fits(metadata, MAX_METADATA_LEN) {
                    Some(IdenclaveError::DataTooLarge)
                } else {
                    None
                },
            }
        },
    }
}

/// `new` is `old` with a credential of `signer` added, as it stands when
/// made at time `now`.
pub open spec fn credential_added(
    old: Registry,
    new: Registry,
    signer: Key,
    credential_hash: Seq<char>,
    credential_type: Seq<char>,
    metadata: Seq<char>,
    now: i64,
) -> bool {
    let (a, bump) = credential_address(old.program_id, signer)->Some_0;
    let c = new.credentials@.last().record;
    &&& new.credentials@.len() == old.credentials@.len() + 1
    &&& new.credentials@.drop_last() == old.credentials@
    &&& new.credentials@.last().address.bytes@ == a
    &&& c.user == signer
    &&& c.credential_hash@ == credential_hash
    &&& c.credential_type@ == credential_type
    &&& c.metadata@ == metadata
    &&& c.status@ == "pending"@
    &&& c.created_at == now
    &&& c.updated_at == now
    &&& c.bump == bump
    &&& new.program_id == old.program_id
    &&& new.users == old.users
    &&& new.verifications == old.verifications
    &&& new.consents == old.consents
}

/// Attaches a credential, with status "pending", to the signer's existing
/// identity. The identity itself is only read.
pub fn add_credential(
    registry: &mut Registry,
    ctx: &AddCredential,
    credential_hash: String,
    credential_type: String,
    metadata: String,
    now: i64,
) -> (r: Result<(), IdenclaveError>)
    requires
        old(registry).wf(),
        old(registry).credentials@.len() < usize::MAX,
    ensures
        final(registry).wf(),
        r == outcome(add_credential_error(*old(registry), ctx.user, credential_hash@, credential_type@, metadata@)),
        !fits(credential_hash@, MAX_HASH_LEN) ==> r is Err,
        !fits(credential_type@, MAX_CREDENTIAL_TYPE_LEN) ==> r is Err,
        !fits(metadata@, MAX_METADATA_LEN) ==> r is Err,
        r is Err ==> *final(registry) == *old(registry),
        r is Ok ==> credential_added(
            *old(registry),
            *final(registry),
            ctx.user,
            credential_hash@,
            credential_type@,
            metadata@,
            now,
        ),
{
    let keys = vec![ctx.user];
    assert(keys@ =~= seq![ctx.user]);
    let (user_account, _) = match find_program_address("user", &keys, &registry.program_id) {
        Some(found) => found,
        None => return Err(IdenclaveError::InvalidWalletAddress),
    };
    if find(&registry.users, &user_account).is_none() {
        return Err(IdenclaveError::UserNotFound);
    }
    let (address, bump) = match find_program_address("credential", &keys, &registry.program_id) {
        Some(found) => found,
        None => return Err(IdenclaveError::InvalidWalletAddress),
    };
    if find(&registry.credentials, &address).is_some() {
        return Err(IdenclaveError::CredentialAlreadyExists);
    }
    if !fits_bound(&credential_hash, MAX_HASH_LEN) {
        return Err(IdenclaveError::DataTooLarge);
    }
    if !fits_bound(&credential_type, MAX_CREDENTIAL_TYPE_LEN) {
        return Err(IdenclaveError::DataTooLarge);
    }
    if !fits_bound(&metadata, MAX_METADATA_LEN) {
        return Err(IdenclaveError::DataTooLarge);
    }
    let record = Credential {
        user: ctx.user,
        credential_hash,
        credential_type,
        metadata,
        status: String::from_str("pending"),
        created_at: now,
        updated_at: now,
        bump,
    };
    let entry = Stored { address, record };
    proof {
        crate::registry::lemma_push(registry.credentials@, entry, credential_placed(registry.program_id));
    }
    registry.credentials.push(entry);
    assert(registry.credentials@.drop_last() =~= old(registry).credentials@);
    Ok(())
}

} // verus!
