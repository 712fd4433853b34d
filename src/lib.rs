//! A small decentralized-identity registry: identities, credentials,
//! verification requests and time-bounded consent grants, each stored at an
//! address derived from its owners' keys and guarded by signer checks.

pub mod address;
pub mod errors;
pub mod text;
pub mod state;
pub mod registry;
pub mod identity;
pub mod verification;
pub mod consent;
pub mod laws;

pub use consent::{check_permission, grant_consent, revoke_consent, CheckPermission, GrantConsent, RevokeConsent};
pub use errors::IdenclaveError;
pub use identity::{add_credential, initialize_identity, update_profile, AddCredential, InitializeIdentity, UpdateProfile};
pub use state::{AccessLog, ConsentRecord, Credential, User, VerificationRequest};
pub use verification::{
    create_verification_request, update_verification_status, CreateVerificationRequest,
    UpdateVerificationStatus,
};
