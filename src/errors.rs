//! The registry's error kinds.

use vstd::prelude::*;

verus! {

/// Every way an operation on the registry can fail. A failed operation
/// leaves the registry as it was.
#[derive(Clone, Copy, Debug, PartialEq, Eq, Structural)]
pub enum IdenclaveError {
    UserAlreadyExists,
    UserNotFound,
    CredentialNotFound,
    VerificationRequestNotFound,
    ConsentRecordNotFound,
    InvalidWalletAddress,
    InvalidUserType,
    InvalidVerificationType,
    InvalidConsentStatus,
    ConsentAlreadyGranted,
    ConsentAlreadyRevoked,
    ConsentExpired,
    InsufficientPermissions,
    InvalidProfileData,
    InvalidCredentialData,
    InvalidMetadata,
    UnauthorizedAccess,
    InvalidTimestamp,
    DataTooLarge,
    InvalidStatusTransition,
    CredentialAlreadyExists,
    VerificationRequestAlreadyExists,
}

/// Turns an error, if any, into the result of an operation.
pub open spec fn outcome(e: Option<IdenclaveError>) -> Result<(), IdenclaveError> {
    match e {
        Some(e) => Err(e),
        None => Ok(()),
    }
}

} // verus!
