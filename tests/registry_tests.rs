use anchor_lang::prelude::Pubkey;
use idenclave::address::Key;
use idenclave::consent::{
    check_permission, grant_consent, revoke_consent, CheckPermission, GrantConsent, RevokeConsent,
};
use idenclave::errors::IdenclaveError;
use idenclave::identity::{
    add_credential, initialize_identity, update_profile, AddCredential, InitializeIdentity,
    UpdateProfile,
};
use idenclave::registry::Registry;
use idenclave::state::{ConsentStatus, RequestType, UserType, VerificationStatus};
use idenclave::verification::{
    create_verification_request, update_verification_status, CreateVerificationRequest,
    UpdateVerificationStatus,
};

const T: i64 = 1_000;

fn key(b: u8) -> Key {
    Key { bytes: [b; 32] }
}

fn registry() -> Registry {
    Registry::new(key(9))
}

fn text(n: usize) -> String {
    "x".repeat(n)
}

fn pda(seeds: &[&[u8]]) -> Key {
    let (a, _) = Pubkey::find_program_address(seeds, &Pubkey::new_from_array(key(9).bytes));
    Key { bytes: a.to_bytes() }
}

fn consent_of(owner: Key, requester: Key) -> Key {
    pda(&[b"consent", &owner.bytes, &requester.bytes])
}

fn granted(owner: Key, requester: Key, scope: &str, expires_at: i64) -> Registry {
    let mut reg = registry();
    let ctx = GrantConsent { data_owner: owner, requester };
    assert_eq!(grant_consent(&mut reg, &ctx, owner, scope.to_string(), expires_at, T), Ok(()));
    reg
}

fn check(reg: &Registry, owner: Key, requester: Key, signer: Key, data_type: &str, now: i64) -> Result<(), IdenclaveError> {
    let ctx = CheckPermission { consent_record: consent_of(owner, requester), data_owner: owner, requester: signer };
    check_permission(reg, &ctx, owner, data_type.to_string(), now)
}

#[test]
fn identity_rejects_unknown_user_type() {
    let mut reg = registry();
    let ctx = InitializeIdentity { user: key(1) };
    for t in ["", "Individual", "company", "individual "] {
        let r = initialize_identity(&mut reg, &ctx, "p".to_string(), t.to_string(), T);
        assert_eq!(r, Err(IdenclaveError::InvalidUserType));
        assert!(reg.users.is_empty());
    }
    let r = initialize_identity(&mut reg, &ctx, text(201), "nobody".to_string(), T);
    assert_eq!(r, Err(IdenclaveError::InvalidUserType));
}

#[test]
fn identity_is_created_pending_at_its_address() {
    let mut reg = registry();
    let ctx = InitializeIdentity { user: key(1) };
    let r = initialize_identity(&mut reg, &ctx, "alice".to_string(), "business".to_string(), T);
    assert_eq!(r, Ok(()));
    assert_eq!(reg.users.len(), 1);
    let u = &reg.users[0];
    assert_eq!(u.address, pda(&[b"user", &key(1).bytes]));
    assert_ne!(u.address, key(1));
    assert_eq!(u.record.wallet_address, key(1));
    assert_eq!(u.record.profile_data, "alice");
    assert_eq!(u.record.user_type, UserType::Business);
    assert_eq!(u.record.status, "pending");
    assert_eq!((u.record.created_at, u.record.updated_at), (T, T));
}

#[test]
fn profile_length_bound() {
    let mut reg = registry();
    let ctx = InitializeIdentity { user: key(1) };
    let r = initialize_identity(&mut reg, &ctx, text(201), "individual".to_string(), T);
    assert_eq!(r, Err(IdenclaveError::DataTooLarge));
    assert!(reg.users.is_empty());
    // Two bytes per character: 101 characters are 202 bytes.
    let r = initialize_identity(&mut reg, &ctx, "é".repeat(101), "individual".to_string(), T);
    assert_eq!(r, Err(IdenclaveError::DataTooLarge));
    let r = initialize_identity(&mut reg, &ctx, text(200), "individual".to_string(), T);
    assert_eq!(r, Ok(()));
}

#[test]
fn identity_cannot_be_created_twice() {
    let mut reg = registry();
    let ctx = InitializeIdentity { user: key(1) };
    assert_eq!(initialize_identity(&mut reg, &ctx, "first".to_string(), "individual".to_string(), T), Ok(()));
    let r = initialize_identity(&mut reg, &ctx, "second".to_string(), "business".to_string(), T + 5);
    assert_eq!(r, Err(IdenclaveError::UserAlreadyExists));
    assert_eq!(reg.users.len(), 1);
    let u = &reg.users[0].record;
    assert_eq!(u.profile_data, "first");
    assert_eq!(u.user_type, UserType::Individual);
    assert_eq!(u.created_at, T);
    let other = InitializeIdentity { user: key(2) };
    assert_eq!(initialize_identity(&mut reg, &other, "x".to_string(), "business".to_string(), T), Ok(()));
    assert_ne!(reg.users[0].address, reg.users[1].address);
}

#[test]
fn update_profile_rules() {
    let mut reg = registry();
    let ctx = InitializeIdentity { user: key(1) };
    assert_eq!(initialize_identity(&mut reg, &ctx, "old".to_string(), "individual".to_string(), T), Ok(()));
    let account = reg.users[0].address;
    let upd = UpdateProfile { user_account: account, user: key(1) };
    assert_eq!(update_profile(&mut reg, &upd, text(201), T + 1), Err(IdenclaveError::DataTooLarge));
    let stranger = UpdateProfile { user_account: account, user: key(2) };
    assert_eq!(update_profile(&mut reg, &stranger, "new".to_string(), T + 1), Err(IdenclaveError::UnauthorizedAccess));
    let missing = UpdateProfile { user_account: key(7), user: key(1) };
    assert_eq!(update_profile(&mut reg, &missing, "new".to_string(), T + 1), Err(IdenclaveError::UserNotFound));
    assert_eq!(update_profile(&mut reg, &upd, text(200), T + 2), Ok(()));
    let u = &reg.users[0].record;
    assert_eq!(u.profile_data, text(200));
    assert_eq!((u.created_at, u.updated_at), (T, T + 2));
    assert_eq!(u.status, "pending");
}

#[test]
fn credential_needs_identity_and_bounds() {
    let mut reg = registry();
    let ctx = AddCredential { user: key(1) };
    let r = add_credential(&mut reg, &ctx, "h".to_string(), "t".to_string(), "m".to_string(), T);
    assert_eq!(r, Err(IdenclaveError::UserNotFound));
    let init = InitializeIdentity { user: key(1) };
    assert_eq!(initialize_identity(&mut reg, &init, "p".to_string(), "individual".to_string(), T), Ok(()));
    assert_eq!(add_credential(&mut reg, &ctx, text(101), "t".to_string(), "m".to_string(), T), Err(IdenclaveError::DataTooLarge));
    assert_eq!(add_credential(&mut reg, &ctx, "h".to_string(), text(51), "m".to_string(), T), Err(IdenclaveError::DataTooLarge));
    assert_eq!(add_credential(&mut reg, &ctx, "h".to_string(), "t".to_string(), text(201), T), Err(IdenclaveError::DataTooLarge));
    assert!(reg.credentials.is_empty());
    assert_eq!(add_credential(&mut reg, &ctx, text(100), text(50), text(200), T + 3), Ok(()));
    let c = &reg.credentials[0];
    assert_eq!(c.address, pda(&[b"credential", &key(1).bytes]));
    assert_eq!(c.record.user, key(1));
    assert_eq!(c.record.status, "pending");
    assert_eq!(c.record.created_at, T + 3);
    let r = add_credential(&mut reg, &ctx, "h".to_string(), "t".to_string(), "m".to_string(), T);
    assert_eq!(r, Err(IdenclaveError::CredentialAlreadyExists));
    assert_eq!(reg.users.len(), 1);
}

#[test]
fn verification_request_lifecycle() {
    let mut reg = registry();
    let ctx = CreateVerificationRequest { requester: key(1), target_wallet: key(2) };
    let r = create_verification_request(&mut reg, &ctx, key(2), "credit".to_string(), "m".to_string(), T);
    assert_eq!(r, Err(IdenclaveError::InvalidVerificationType));
    let r = create_verification_request(&mut reg, &ctx, key(2), "kyc".to_string(), text(201), T);
    assert_eq!(r, Err(IdenclaveError::DataTooLarge));
    let r = create_verification_request(&mut reg, &ctx, key(2), "employment".to_string(), text(200), T);
    assert_eq!(r, Ok(()));
    let v = &reg.verifications[0];
    assert_eq!(v.address, pda(&[b"verification", &key(1).bytes]));
    assert_eq!(v.record.request_type, RequestType::Employment);
    assert_eq!(v.record.status, VerificationStatus::Pending);
    assert_eq!(v.record.target_wallet, key(2));
    let r = create_verification_request(&mut reg, &ctx, key(3), "aml".to_string(), "m".to_string(), T);
    assert_eq!(r, Err(IdenclaveError::VerificationRequestAlreadyExists));

    let handle = reg.verifications[0].address;
    let upd = UpdateVerificationStatus { verification_request: handle, requester: key(1), target_wallet: key(2) };
    let r = update_verification_status(&mut reg, &upd, "done".to_string(), "m".to_string(), T + 1);
    assert_eq!(r, Err(IdenclaveError::InvalidStatusTransition));
    let r = update_verification_status(&mut reg, &upd, "approved".to_string(), text(201), T + 1);
    assert_eq!(r, Err(IdenclaveError::DataTooLarge));
    let other = UpdateVerificationStatus { verification_request: handle, requester: key(2), target_wallet: key(2) };
    let r = update_verification_status(&mut reg, &other, "approved".to_string(), "m".to_string(), T + 1);
    assert_eq!(r, Err(IdenclaveError::UnauthorizedAccess));
    let missing = UpdateVerificationStatus { verification_request: key(8), requester: key(1), target_wallet: key(2) };
    let r = update_verification_status(&mut reg, &missing, "approved".to_string(), "m".to_string(), T + 1);
    assert_eq!(r, Err(IdenclaveError::VerificationRequestNotFound));
    let r = update_verification_status(&mut reg, &upd, "completed".to_string(), "ok".to_string(), T + 2);
    assert_eq!(r, Ok(()));
    assert_eq!(reg.verifications[0].record.status, VerificationStatus::Completed);
    assert_eq!(reg.verifications[0].record.metadata, "ok");
    assert_eq!(reg.verifications[0].record.updated_at, T + 2);
    // Any status may follow any other, back to pending included.
    let r = update_verification_status(&mut reg, &upd, "pending".to_string(), "again".to_string(), T + 3);
    assert_eq!(r, Ok(()));
    assert_eq!(reg.verifications[0].record.status, VerificationStatus::Pending);
    assert_eq!(reg.verifications[0].record.created_at, T);
}

#[test]
fn grant_consent_checks_inputs() {
    let mut reg = registry();
    let ctx = GrantConsent { data_owner: key(1), requester: key(2) };
    assert_eq!(grant_consent(&mut reg, &ctx, key(1), text(201), T + 100, T), Err(IdenclaveError::DataTooLarge));
    assert_eq!(grant_consent(&mut reg, &ctx, key(1), "health".to_string(), T, T), Err(IdenclaveError::InvalidTimestamp));
    assert!(reg.consents.is_empty());
    assert_eq!(grant_consent(&mut reg, &ctx, key(1), text(200), T + 1, T), Ok(()));
    let c = &reg.consents[0];
    assert_eq!(c.address, consent_of(key(1), key(2)));
    assert_eq!(c.record.status, ConsentStatus::Granted);
    assert_eq!((c.record.granted_at, c.record.expires_at, c.record.revoked_at), (T, T + 1, None));
    let r = grant_consent(&mut reg, &ctx, key(1), "health".to_string(), T + 9, T);
    assert_eq!(r, Err(IdenclaveError::ConsentAlreadyGranted));
}

#[test]
fn consent_round_trip() {
    let (a, b) = (key(1), key(2));
    let mut reg = granted(a, b, "health", T + 100);
    assert_eq!(check(&reg, a, b, b, "health", T + 50), Ok(()));
    assert_eq!(check(&reg, a, b, b, "health", T + 100), Ok(()));
    assert_eq!(check(&reg, a, b, b, "health", T + 150), Err(IdenclaveError::ConsentExpired));
    let rv = RevokeConsent { consent_record: consent_of(a, b), data_owner: a, requester: b };
    assert_eq!(revoke_consent(&mut reg, &rv, T + 60), Ok(()));
    assert_eq!(check(&reg, a, b, b, "health", T + 50), Err(IdenclaveError::InsufficientPermissions));
    assert_eq!(check(&reg, a, b, b, "health", T + 150), Err(IdenclaveError::InsufficientPermissions));
}

#[test]
fn consent_double_revoke() {
    let (a, b) = (key(1), key(2));
    let mut reg = granted(a, b, "health", T + 100);
    let rv = RevokeConsent { consent_record: consent_of(a, b), data_owner: a, requester: b };
    assert_eq!(revoke_consent(&mut reg, &rv, T + 10), Ok(()));
    assert_eq!(revoke_consent(&mut reg, &rv, T + 20), Err(IdenclaveError::ConsentAlreadyRevoked));
    let c = &reg.consents[0].record;
    assert_eq!(c.status, ConsentStatus::Revoked);
    assert_eq!(c.revoked_at, Some(T + 10));
}

#[test]
fn revoke_needs_owner_and_record() {
    let (a, b) = (key(1), key(2));
    let mut reg = granted(a, b, "health", T + 100);
    let wrong_owner = RevokeConsent { consent_record: consent_of(a, b), data_owner: key(3), requester: b };
    assert_eq!(revoke_consent(&mut reg, &wrong_owner, T), Err(IdenclaveError::UnauthorizedAccess));
    let wrong_requester = RevokeConsent { consent_record: consent_of(a, b), data_owner: a, requester: key(3) };
    assert_eq!(revoke_consent(&mut reg, &wrong_requester, T), Err(IdenclaveError::UnauthorizedAccess));
    let missing = RevokeConsent { consent_record: key(5), data_owner: a, requester: b };
    assert_eq!(revoke_consent(&mut reg, &missing, T), Err(IdenclaveError::ConsentRecordNotFound));
    assert_eq!(reg.consents[0].record.status, ConsentStatus::Granted);
}

#[test]
fn check_permission_by_stranger_is_unauthorized() {
    let (a, b, c) = (key(1), key(2), key(3));
    let mut reg = granted(a, b, "health", T + 100);
    assert_eq!(check(&reg, a, b, c, "health", T + 50), Err(IdenclaveError::UnauthorizedAccess));
    assert_eq!(check(&reg, a, b, c, "health", T + 500), Err(IdenclaveError::UnauthorizedAccess));
    let rv = RevokeConsent { consent_record: consent_of(a, b), data_owner: a, requester: b };
    assert_eq!(revoke_consent(&mut reg, &rv, T + 1), Ok(()));
    assert_eq!(check(&reg, a, b, c, "health", T + 50), Err(IdenclaveError::UnauthorizedAccess));
    let missing = CheckPermission { consent_record: key(4), data_owner: a, requester: b };
    let r = check_permission(&reg, &missing, a, "health".to_string(), T);
    assert_eq!(r, Err(IdenclaveError::ConsentRecordNotFound));
}

#[test]
fn scope_is_substring_containment() {
    let (a, b) = (key(1), key(2));
    let reg = granted(a, b, "kyc,aml", T + 100);
    assert_eq!(check(&reg, a, b, b, "aml", T + 1), Ok(()));
    assert_eq!(check(&reg, a, b, b, "kyc", T + 1), Ok(()));
    assert_eq!(check(&reg, a, b, b, "c,a", T + 1), Ok(()));
    assert_eq!(check(&reg, a, b, b, "", T + 1), Ok(()));
    assert_eq!(check(&reg, a, b, b, "background", T + 1), Err(IdenclaveError::InsufficientPermissions));
    assert_eq!(check(&reg, a, b, b, "kyc,aml,x", T + 1), Err(IdenclaveError::InsufficientPermissions));
}

#[test]
fn parsers_read_names() {
    assert_eq!(UserType::parse(&"individual".to_string()), Some(UserType::Individual));
    assert_eq!(UserType::parse(&"business".to_string()), Some(UserType::Business));
    assert_eq!(RequestType::parse(&"education".to_string()), Some(RequestType::Education));
    assert_eq!(RequestType::parse(&"background".to_string()), Some(RequestType::Background));
    assert_eq!(VerificationStatus::parse(&"rejected".to_string()), Some(VerificationStatus::Rejected));
    assert_eq!(VerificationStatus::parse(&"Rejected".to_string()), None);
}

#[test]
fn key_comparison_and_text_helpers() {
    assert!(key(1).same(&key(1)));
    let mut k = key(1);
    k.bytes[31] = 0;
    assert!(!key(1).same(&k));
    assert!(idenclave::text::contains(&"kyc,aml".to_string(), &"aml".to_string()));
    assert!(!idenclave::text::contains(&"aml".to_string(), &"kyc,aml".to_string()));
    assert!(idenclave::text::fits_bound(&text(3), 3));
    assert!(!idenclave::text::fits_bound(&"日本".to_string(), 5));
}

#[test]
fn missing_or_foreign_record_is_reported_before_bad_input() {
    let mut reg = registry();
    let missing = UpdateProfile { user_account: key(7), user: key(1) };
    assert_eq!(update_profile(&mut reg, &missing, text(201), T), Err(IdenclaveError::UserNotFound));
    let cred = AddCredential { user: key(1) };
    let r = add_credential(&mut reg, &cred, text(101), "t".to_string(), "m".to_string(), T);
    assert_eq!(r, Err(IdenclaveError::UserNotFound));

    let init = InitializeIdentity { user: key(1) };
    assert_eq!(initialize_identity(&mut reg, &init, "p".to_string(), "individual".to_string(), T), Ok(()));
    let foreign = UpdateProfile { user_account: reg.users[0].address, user: key(2) };
    assert_eq!(update_profile(&mut reg, &foreign, text(201), T), Err(IdenclaveError::UnauthorizedAccess));
    assert_eq!(add_credential(&mut reg, &cred, "h".to_string(), "t".to_string(), "m".to_string(), T), Ok(()));
    let r = add_credential(&mut reg, &cred, text(101), text(51), text(201), T);
    assert_eq!(r, Err(IdenclaveError::CredentialAlreadyExists));

    let ctx = CreateVerificationRequest { requester: key(1), target_wallet: key(2) };
    let r = create_verification_request(&mut reg, &ctx, key(2), "kyc".to_string(), "m".to_string(), T);
    assert_eq!(r, Ok(()));
    let r = create_verification_request(&mut reg, &ctx, key(2), "credit".to_string(), text(201), T);
    assert_eq!(r, Err(IdenclaveError::VerificationRequestAlreadyExists));
    let handle = reg.verifications[0].address;
    let other = UpdateVerificationStatus { verification_request: handle, requester: key(2), target_wallet: key(2) };
    let r = update_verification_status(&mut reg, &other, "done".to_string(), text(201), T);
    assert_eq!(r, Err(IdenclaveError::UnauthorizedAccess));
    let nowhere = UpdateVerificationStatus { verification_request: key(8), requester: key(1), target_wallet: key(2) };
    let r = update_verification_status(&mut reg, &nowhere, "done".to_string(), "m".to_string(), T);
    assert_eq!(r, Err(IdenclaveError::VerificationRequestNotFound));
    assert_eq!(reg.verifications[0].record.status, VerificationStatus::Pending);

    let grant = GrantConsent { data_owner: key(1), requester: key(2) };
    assert_eq!(grant_consent(&mut reg, &grant, key(1), "health".to_string(), T + 100, T), Ok(()));
    let r = grant_consent(&mut reg, &grant, key(1), text(201), T, T);
    assert_eq!(r, Err(IdenclaveError::ConsentAlreadyGranted));
    assert_eq!(reg.consents[0].record.expires_at, T + 100);
}
