//! End-to-end login scenarios against the in-memory store: password
//! logins, the second-factor window, and the WebAuthn ceremonies.

use authcore::auth::complete_auth_webauthn;
use authcore::auth::get_login_flows;
use authcore::auth::login_password;
use authcore::auth::login_webauthn;
use authcore::auth::logout;
use authcore::auth::verify_totp;
use authcore::auth::verify_webauthn;
use authcore::auth::LoginFlowsRequest;
use authcore::auth::LoginPasswordRequest;
use authcore::auth::LoginPasswordResponse;
use authcore::auth::LoginWebauthnRequest;
use authcore::auth::VerifyTotpRequest;
use authcore::auth::WebAuthnAuthenticateResult;
use authcore::common::ApiError;
use authcore::common::FormResult;
use authcore::invites::accept_with_password;
use authcore::invites::accept_with_webauthn;
use authcore::invites::complete_invites_webauthn;
use authcore::invites::create_user_invite;
use authcore::invites::AcceptWithPwRequest;
use authcore::invites::AcceptWithWARequest;
use authcore::invites::CreateUserInviteRequest;
use authcore::models::MaybeAttestedPasskey;
use authcore::models::PasskeyData;
use authcore::models::Store;
use authcore::models::UserLanguage;
use authcore::models::UserPermissions;
use authcore::session::ClientSession;
use authcore::strings::CheckedString;
use authcore::strings::SecureString;
use authcore::users::complete_users_webauthn;
use authcore::users::create_totp_key;
use authcore::users::create_webauthn_key;
use authcore::users::CreateTotpRequest;
use authcore::users::CreateWebAuthnRequest;
use authcore::users::WebAuthnRegisterOutcome;
use authcore::users::WebAuthnRegisterResult;

const SESSION_ID: u128 = 1;
const T0: u64 = 1_700_000_000;

fn cs<const MIN: u32, const MAX: u32>(s: &str) -> CheckedString<MIN, MAX> {
    CheckedString::new(s.to_string()).unwrap()
}

fn secure(s: &str) -> SecureString {
    SecureString::new(s.to_string())
}

/// An account with a password: invite it and accept with the password.
/// Returns (store, session) with the session logged in as the user.
fn account_with_password(
    mail: &str,
    password: &str,
    user_uuid: u128,
    local_uuid: u128,
) -> (Store, ClientSession) {
    let mut db = Store::new();
    let mut session = ClientSession::new(SESSION_ID);
    db.touch_session(SESSION_ID);
    let invite = create_user_invite(
        &mut db,
        CreateUserInviteRequest {
            mail: cs(mail),
            display_name: cs("Test User"),
            preferred_lang: UserLanguage::EN,
            permissions: UserPermissions::Internal,
        },
        42,
        T0,
    )
    .unwrap();
    assert!(matches!(invite, FormResult::Valid { .. }));
    accept_with_password(
        &mut db,
        &mut session,
        42,
        AcceptWithPwRequest { password: secure(password) },
        user_uuid,
        local_uuid,
        T0,
    )
    .unwrap();
    assert_eq!(session.user, Some(user_uuid));
    (db, session)
}

fn fresh_session(db: &mut Store, id: u128) -> ClientSession {
    db.touch_session(id);
    ClientSession::new(id)
}

#[test]
fn password_only_account_authenticates_directly() {
    let (mut db, mut session) = account_with_password("alice@example.com", "correct-password", 200, 201);
    logout(&mut db, &mut session);
    assert_eq!(session.user, None);
    let mut session = fresh_session(&mut db, SESSION_ID);

    let r = login_password(
        &mut db,
        &mut session,
        LoginPasswordRequest { mail: cs("alice@example.com"), password: secure("correct-password") },
        T0 + 100,
    )
    .unwrap();
    assert!(matches!(r, FormResult::Valid { value: LoginPasswordResponse::Finished }));
    assert_eq!(session.user, Some(200));
    assert!(session.partial.is_none());
}

#[test]
fn wrong_password_is_a_field_error_and_changes_nothing() {
    let (mut db, mut session) = account_with_password("alice@example.com", "correct-password", 200, 201);
    logout(&mut db, &mut session);
    let mut session = fresh_session(&mut db, SESSION_ID);

    let r = login_password(
        &mut db,
        &mut session,
        LoginPasswordRequest { mail: cs("alice@example.com"), password: secure("wrong-password") },
        T0 + 100,
    )
    .unwrap();
    match r {
        FormResult::Invalid { error } => {
            assert!(!error.mail);
            assert!(error.password);
        }
        _ => panic!("wrong password must be rejected"),
    }
    assert_eq!(session.user, None);

    let r = login_password(
        &mut db,
        &mut session,
        LoginPasswordRequest { mail: cs("nobody@example.com"), password: secure("x") },
        T0 + 100,
    )
    .unwrap();
    match r {
        FormResult::Invalid { error } => assert!(error.mail),
        _ => panic!("unknown mail must be rejected"),
    }
}

/// A base32 secret of twenty bytes, and the token it yields at a time.
fn totp_secret_and_token(at: u64) -> (String, String) {
    let secret_bytes: Vec<u8> = (1..=20).collect();
    let encoded = base32::encode(base32::Alphabet::Rfc4648 { padding: false }, &secret_bytes);
    let totp =
        totp_rs::TOTP::from_rfc6238(totp_rs::Rfc6238::with_defaults(secret_bytes).unwrap()).unwrap();
    (encoded, totp.generate(at))
}

fn account_with_totp(now: u64) -> (Store, ClientSession) {
    let (mut db, session) = account_with_password("alice@example.com", "correct-password", 200, 201);
    let (secret, token) = totp_secret_and_token(now);
    let r = create_totp_key(
        &mut db,
        200,
        CreateTotpRequest { label: cs("phone"), secret: cs(&secret), token: cs(&token) },
        300,
        now,
    )
    .unwrap();
    assert!(matches!(r, FormResult::Valid { .. }));
    (db, session)
}

#[test]
fn totp_second_factor_follows_the_password() {
    let (mut db, mut session) = account_with_totp(T0);
    logout(&mut db, &mut session);
    let mut session = fresh_session(&mut db, SESSION_ID);

    let login_at = T0 + 1_000;
    let r = login_password(
        &mut db,
        &mut session,
        LoginPasswordRequest { mail: cs("alice@example.com"), password: secure("correct-password") },
        login_at,
    )
    .unwrap();
    match r {
        FormResult::Valid { value: LoginPasswordResponse::NeedMFA { mfa } } => {
            assert!(mfa.has_totp);
            assert!(!mfa.has_webauthn);
        }
        _ => panic!("a second factor must be required"),
    }
    assert_eq!(session.user, None);

    // A wrong token leaves the state unchanged and is rejected.
    let (_, good) = totp_secret_and_token(login_at + 30);
    let bad: String = if good.as_bytes()[0] == b'0' {
        format!("1{}", &good[1..])
    } else {
        format!("0{}", &good[1..])
    };
    let r = verify_totp(
        &mut db,
        &mut session,
        VerifyTotpRequest { token: cs(&bad) },
        login_at + 30,
    );
    assert_eq!(r, Err(ApiError::Unauthenticated));
    assert_eq!(session.user, None);
    assert!(session.partial.is_some());

    // The correct token within the window authenticates.
    let r = verify_totp(
        &mut db,
        &mut session,
        VerifyTotpRequest { token: cs(&good) },
        login_at + 30,
    );
    assert_eq!(r, Ok(()));
    assert_eq!(session.user, Some(200));
    assert!(session.partial.is_none());
}

#[test]
fn marker_expiry_is_a_hard_boundary() {
    // One second before the window closes the factor is accepted.
    let (mut db, mut session) = account_with_totp(T0);
    logout(&mut db, &mut session);
    let mut session = fresh_session(&mut db, SESSION_ID);
    let login_at = T0 + 1_000;
    login_password(
        &mut db,
        &mut session,
        LoginPasswordRequest { mail: cs("alice@example.com"), password: secure("correct-password") },
        login_at,
    )
    .unwrap();
    let just_in_time = login_at + 600 - 1;
    let (_, token) = totp_secret_and_token(just_in_time);
    let r = verify_totp(
        &mut db,
        &mut session,
        VerifyTotpRequest { token: cs(&token) },
        just_in_time,
    );
    assert_eq!(r, Ok(()));
    assert_eq!(session.user, Some(200));

    // One second past the window the same correct factor is rejected.
    let (mut db, mut session) = account_with_totp(T0);
    logout(&mut db, &mut session);
    let mut session = fresh_session(&mut db, SESSION_ID);
    login_password(
        &mut db,
        &mut session,
        LoginPasswordRequest { mail: cs("alice@example.com"), password: secure("correct-password") },
        login_at,
    )
    .unwrap();
    let too_late = login_at + 600 + 1;
    let (_, token) = totp_secret_and_token(too_late);
    let r = verify_totp(&mut db, &mut session, VerifyTotpRequest { token: cs(&token) }, too_late);
    assert_eq!(r, Err(ApiError::Unauthenticated));
    assert_eq!(session.user, None);
}

/// The scenario around `alice`: a password and one not-attested key.
#[test]
fn password_then_webauthn_second_factor() {
    let (mut db, mut session) = account_with_password("alice@example.com", "correct-password", 200, 201);
    // Register a not-attested key for alice.
    create_webauthn_key(
        &db,
        &mut session,
        200,
        CreateWebAuthnRequest { can_login: false, label: cs("yubikey") },
        vec![1, 2, 3],
    )
    .unwrap();
    let r = complete_users_webauthn(
        &mut db,
        &mut session,
        WebAuthnRegisterOutcome::Registered(MaybeAttestedPasskey::NotAttested(PasskeyData {
            cred_id: vec![9, 9],
        })),
        400,
        T0,
    )
    .unwrap();
    assert_eq!(r, WebAuthnRegisterResult::Accepted);
    let keys = authcore::users::list_webauthn_keys(&db, 200).unwrap();
    assert_eq!(keys.list.len(), 1);
    assert_eq!(keys.list[0].uuid, 400);
    assert_eq!(keys.list[0].label, "yubikey");
    assert!(!keys.list[0].can_login);

    logout(&mut db, &mut session);
    let mut session = fresh_session(&mut db, SESSION_ID);

    // Login with the correct password leads to the partial state with
    // only the key available.
    let login_at = T0 + 50;
    let r = login_password(
        &mut db,
        &mut session,
        LoginPasswordRequest { mail: cs("alice@example.com"), password: secure("correct-password") },
        login_at,
    )
    .unwrap();
    match r {
        FormResult::Valid { value: LoginPasswordResponse::NeedMFA { mfa } } => {
            assert!(!mfa.has_totp);
            assert!(mfa.has_webauthn);
        }
        _ => panic!("a second factor must be required"),
    }

    // Complete the not-attested authentication ceremony with a valid
    // response.
    verify_webauthn(&mut session, vec![4, 5], login_at + 10).unwrap();
    let r = complete_auth_webauthn(&mut db, &mut session, true).unwrap();
    assert_eq!(r, WebAuthnAuthenticateResult::Accepted);
    assert_eq!(session.user, Some(200));

    // A repeat submission of the same response finds no ceremony.
    let r = complete_auth_webauthn(&mut db, &mut session, true);
    assert_eq!(r, Err(ApiError::BadRequest));
}

/// The scenario around `bob`: one attested key and no password.
#[test]
fn attested_key_logs_in_without_partial_stage() {
    let mut db = Store::new();
    let mut session = ClientSession::new(SESSION_ID);
    db.touch_session(SESSION_ID);
    let invite = create_user_invite(
        &mut db,
        CreateUserInviteRequest {
            mail: cs("bob@example.com"),
            display_name: cs("Bob"),
            preferred_lang: UserLanguage::EN,
            permissions: UserPermissions::Internal,
        },
        43,
        T0,
    )
    .unwrap();
    assert!(matches!(invite, FormResult::Valid { .. }));

    accept_with_webauthn(
        &db,
        &mut session,
        43,
        AcceptWithWARequest { label: cs("titan") },
        vec![7],
        300,
    )
    .unwrap();
    let r = complete_invites_webauthn(
        &mut db,
        &mut session,
        WebAuthnRegisterOutcome::Registered(MaybeAttestedPasskey::Attested(PasskeyData {
            cred_id: vec![3, 3],
        })),
        301,
        302,
        T0,
    )
    .unwrap();
    assert_eq!(r, WebAuthnRegisterResult::Accepted);
    assert_eq!(session.user, Some(300));

    logout(&mut db, &mut session);
    let mut session = fresh_session(&mut db, SESSION_ID);

    // Anonymous -> Authenticated directly through the attested ceremony.
    let r = login_webauthn(
        &db,
        &mut session,
        LoginWebauthnRequest { mail: cs("bob@example.com") },
        vec![8],
    )
    .unwrap();
    assert!(matches!(r, FormResult::Valid { .. }));
    assert!(session.partial.is_none());
    let r = complete_auth_webauthn(&mut db, &mut session, true).unwrap();
    assert_eq!(r, WebAuthnAuthenticateResult::Accepted);
    assert_eq!(session.user, Some(300));
    assert!(session.partial.is_none());
}

#[test]
fn rejected_ceremony_response_does_not_authenticate() {
    let (mut db, mut session) = account_with_password("alice@example.com", "pw-alice", 200, 201);
    create_webauthn_key(
        &db,
        &mut session,
        200,
        CreateWebAuthnRequest { can_login: false, label: cs("key") },
        vec![1],
    )
    .unwrap();
    complete_users_webauthn(
        &mut db,
        &mut session,
        WebAuthnRegisterOutcome::Registered(MaybeAttestedPasskey::NotAttested(PasskeyData {
            cred_id: vec![1],
        })),
        400,
        T0,
    )
    .unwrap();
    logout(&mut db, &mut session);
    let mut session = fresh_session(&mut db, SESSION_ID);
    login_password(
        &mut db,
        &mut session,
        LoginPasswordRequest { mail: cs("alice@example.com"), password: secure("pw-alice") },
        T0,
    )
    .unwrap();
    verify_webauthn(&mut session, vec![2], T0).unwrap();
    let r = complete_auth_webauthn(&mut db, &mut session, false).unwrap();
    assert_eq!(r, WebAuthnAuthenticateResult::Rejected);
    assert_eq!(session.user, None);
}

#[test]
fn login_flows_distinguish_account_classes() {
    let (mut db, mut session) = account_with_password("alice@example.com", "pw", 200, 201);

    // Unknown mail: nothing is revealed.
    let r = get_login_flows(&db, LoginFlowsRequest { mail: cs("nobody@example.com") }).unwrap();
    assert!(r.optional.is_none());

    // Password only.
    let r = get_login_flows(&db, LoginFlowsRequest { mail: cs("alice@example.com") }).unwrap();
    let flows = r.optional.unwrap();
    assert!(!flows.oidc);
    assert!(flows.password);
    assert!(!flows.key);

    // With an attested key registered, the key flow appears.
    create_webauthn_key(
        &db,
        &mut session,
        200,
        CreateWebAuthnRequest { can_login: true, label: cs("key") },
        vec![1],
    )
    .unwrap();
    complete_users_webauthn(
        &mut db,
        &mut session,
        WebAuthnRegisterOutcome::Registered(MaybeAttestedPasskey::Attested(PasskeyData {
            cred_id: vec![1],
        })),
        400,
        T0,
    )
    .unwrap();
    let r = get_login_flows(&db, LoginFlowsRequest { mail: cs("alice@example.com") }).unwrap();
    let flows = r.optional.unwrap();
    assert!(flows.password);
    assert!(flows.key);
}

#[test]
fn verify_totp_without_marker_is_unauthenticated() {
    let (mut db, mut session) = account_with_totp(T0);
    logout(&mut db, &mut session);
    let mut session = fresh_session(&mut db, SESSION_ID);
    let (_, token) = totp_secret_and_token(T0);
    let r = verify_totp(&mut db, &mut session, VerifyTotpRequest { token: cs(&token) }, T0);
    assert_eq!(r, Err(ApiError::Unauthenticated));
}

#[test]
fn key_attestation_must_match_the_ceremony() {
    // A not-attested key cannot complete an attested registration
    // ceremony, and the other way round.
    let (mut db, mut session) = account_with_password("alice@example.com", "pw", 200, 201);
    create_webauthn_key(
        &db,
        &mut session,
        200,
        CreateWebAuthnRequest { can_login: true, label: cs("key") },
        vec![1],
    )
    .unwrap();
    let r = complete_users_webauthn(
        &mut db,
        &mut session,
        WebAuthnRegisterOutcome::Registered(MaybeAttestedPasskey::NotAttested(PasskeyData {
            cred_id: vec![1],
        })),
        400,
        T0,
    );
    assert_eq!(r, Err(ApiError::BadRequest));

    create_webauthn_key(
        &db,
        &mut session,
        200,
        CreateWebAuthnRequest { can_login: false, label: cs("key") },
        vec![2],
    )
    .unwrap();
    let r = complete_users_webauthn(
        &mut db,
        &mut session,
        WebAuthnRegisterOutcome::Registered(MaybeAttestedPasskey::Attested(PasskeyData {
            cred_id: vec![2],
        })),
        401,
        T0,
    );
    assert_eq!(r, Err(ApiError::BadRequest));

    // Nothing was stored either way, and neither key grants login.
    assert!(authcore::users::list_webauthn_keys(&db, 200).unwrap().list.is_empty());
}

#[test]
fn invite_acceptance_demands_an_attested_key() {
    let mut db = Store::new();
    let mut session = ClientSession::new(SESSION_ID);
    db.touch_session(SESSION_ID);
    create_user_invite(
        &mut db,
        CreateUserInviteRequest {
            mail: cs("bob@example.com"),
            display_name: cs("Bob"),
            preferred_lang: UserLanguage::EN,
            permissions: UserPermissions::Internal,
        },
        43,
        T0,
    )
    .unwrap();
    accept_with_webauthn(
        &db,
        &mut session,
        43,
        AcceptWithWARequest { label: cs("titan") },
        vec![7],
        300,
    )
    .unwrap();
    let r = complete_invites_webauthn(
        &mut db,
        &mut session,
        WebAuthnRegisterOutcome::Registered(MaybeAttestedPasskey::NotAttested(PasskeyData {
            cred_id: vec![3],
        })),
        301,
        302,
        T0,
    );
    assert_eq!(r, Err(ApiError::BadRequest));
    // No user was created and the session stays anonymous.
    assert_eq!(session.user, None);
    assert!(db.users.is_empty());
}
