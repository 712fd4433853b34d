//! The records that the registry stores, and the closed sets of values that
//! their typed fields take.

use vstd::prelude::*;
use vstd::string::StringExecFns;
use crate::address::Key;

verus! {

/// The kind of actor that an identity belongs to.
#[derive(Clone, Copy, Debug, PartialEq, Eq, Structural)]
pub enum UserType {
    Individual,
    Business,
}

/// The user type that a text names, if it names one.
pub open spec fn user_type_of(s: Seq<char>) -> Option<UserType> {
    if s == "individual"@ {
        Some(UserType::Individual)
    } else if s == "business"@ {
        Some(UserType::Business)
    } else {
        None
    }
}

impl UserType {
    /// Reads a user type from its name.
    pub fn parse(s: &String) -> (r: Option<UserType>)
        ensures
            r == user_type_of(s@),
    {
        if *s == String::from_str("individual") {
            Some(UserType::Individual)
        } else if *s == String::from_str("business") {
            Some(UserType::Business)
        } else {
            None
        }
    }
}

/// What a verification request asks a verifier to check.
#[derive(Clone, Copy, Debug, PartialEq, Eq, Structural)]
pub enum RequestType {
    Kyc,
    Aml,
    Background,
    Employment,
    Education,
}

/// The request type that a text names, if it names one.
pub open spec fn request_type_of(s: Seq<char>) -> Option<RequestType> {
    if s == "kyc"@ {
        Some(RequestType::Kyc)
    } else if s == "aml"@ {
        Some(RequestType::Aml)
    } else if s == "background"@ {
        Some(RequestType::Background)
    } else if s == "employment"@ {
        Some(RequestType::Employment)
    } else if s == "education"@ {
        Some(RequestType::Education)
    } else {
        None
    }
}

impl RequestType {
    /// Reads a request type from its name.
    pub fn parse(s: &String) -> (r: Option<RequestType>)
        ensures
            r == request_type_of(s@),
    {
        if *s == String::from_str("kyc") {
            Some(RequestType::Kyc)
        } else if *s == String::from_str("aml") {
            Some(RequestType::Aml)
        } else if *s == String::from_str("background") {
            Some(RequestType::Background)
        } else if *s == String::from_str("employment") {
            Some(RequestType::Employment)
        } else if *s == String::from_str("education") {
            Some(RequestType::Education)
        } else {
            None
        }
    }
}

/// Where a verification request stands. Any status may follow any other.
#[derive(Clone, Copy, Debug, PartialEq, Eq, Structural)]
pub enum VerificationStatus {
    Pending,
    Approved,
    Rejected,
    Completed,
}

/// The verification status that a text names, if it names one.
pub open spec fn verification_status_of(s: Seq<char>) -> Option<VerificationStatus> {
    if s == "pending"@ {
        Some(VerificationStatus::Pending)
    } else if s == "approved"@ {
        Some(VerificationStatus::Approved)
    } else if s == "rejected"@ {
        Some(VerificationStatus::Rejected)
    } else if s == "completed"@ {
        Some(VerificationStatus::Completed)
    } else {
        None
    }
}

impl VerificationStatus {
    /// Reads a verification status from its name.
    pub fn parse(s: &String) -> (r: Option<VerificationStatus>)
        ensures
            r == verification_status_of(s@),
    {
        if *s == String::from_str("pending") {
            Some(VerificationStatus::Pending)
        } else if *s == String::from_str("approved") {
            Some(VerificationStatus::Approved)
        } else if *s == String::from_str("rejected") {
            Some(VerificationStatus::Rejected)
        } else if *s == String::from_str("completed") {
            Some(VerificationStatus::Completed)
        } else {
            None
        }
    }
}

/// Where a consent grant stands: `Revoked` is final.
#[derive(Clone, Copy, Debug, PartialEq, Eq, Structural)]
pub enum ConsentStatus {
    Granted,
    Revoked,
}

/// An actor's identity: the root of its profile and credentials.
#[derive(Clone, Debug)]
pub struct User {
    pub wallet_address: Key,
    pub profile_data: String,
    pub user_type: UserType,
    pub status: String,
    pub created_at: i64,
    pub updated_at: i64,
    pub bump: u8,
}

/// A claim attached to an identity.
#[derive(Clone, Debug)]
pub struct Credential {
    pub user: Key,
    pub credential_hash: String,
    pub credential_type: String,
    pub metadata: String,
    pub status: String,
    pub created_at: i64,
    pub updated_at: i64,
    pub bump: u8,
}

/// A request by one actor to have another verified.
#[derive(Clone, Debug)]
pub struct VerificationRequest {
    pub requester: Key,
    pub target_wallet: Key,
    pub request_type: RequestType,
    pub metadata: String,
    pub status: VerificationStatus,
    pub created_at: i64,
    pub updated_at: i64,
    pub bump: u8,
}

/// A data owner's grant to a requester, over a scope, until a time.
#[derive(Clone, Debug)]
pub struct ConsentRecord {
    pub data_owner: Key,
    pub requester: Key,
    pub data_scope: String,
    pub status: ConsentStatus,
    pub granted_at: i64,
    pub expires_at: i64,
    pub revoked_at: Option<i64>,
    pub bump: u8,
}

/// A record of one access to an owner's data. No operation writes one yet.
#[derive(Clone, Debug)]
pub struct AccessLog {
    pub data_owner: Key,
    pub requester: Key,
    pub data_type: String,
    pub access_time: i64,
    pub bump: u8,
}

/// The longest profile, in bytes.
pub const MAX_PROFILE_LEN: usize = 200;

/// The longest credential hash, in bytes.
pub const MAX_HASH_LEN: usize = 100;

/// The longest credential type, in bytes.
pub const MAX_CREDENTIAL_TYPE_LEN: usize = 50;

/// The longest metadata, in bytes.
pub const MAX_METADATA_LEN: usize = 200;

/// The longest consent scope, in bytes.
pub const MAX_SCOPE_LEN: usize = 200;

impl User {
    /// The space reserved for a stored identity, in bytes.
    pub const LEN: usize = 32 + 4 + 200 + 4 + 50 + 4 + 20 + 8 + 8 + 1;
}

impl Credential {
    /// The space reserved for a stored credential, in bytes.
    pub const LEN: usize = 32 + 4 + 100 + 4 + 50 + 4 + 200 + 4 + 20 + 8 + 8 + 1;
}

impl VerificationRequest {
    /// The space reserved for a stored verification request, in bytes.
    pub const LEN: usize = 32 + 32 + 4 + 50 + 4 + 200 + 4 + 20 + 8 + 8 + 1;
}

impl ConsentRecord {
    /// The space reserved for a stored consent record, in bytes.
    pub const LEN: usize = 32 + 32 + 4 + 200 + 4 + 20 + 8 + 8 + 1 + 8 + 1;
}

impl AccessLog {
    /// The space reserved for a stored access log, in bytes.
    pub const LEN: usize = 32 + 32 + 4 + 50 + 8 + 1;
}

} // verus!
