//! Account management, invites, strings, the crypto boundary and the
//! federated login core.

use authcore::auth::login_password;
use authcore::auth::logout;
use authcore::auth::LoginPasswordRequest;
use authcore::auth::LoginPasswordResponse;
use authcore::common::ApiError;
use authcore::common::ApiStatusCode;
use authcore::common::FormResult;
use authcore::crypto::totp_from_base32;
use authcore::crypto::TotpFromError;
use authcore::globals::GlobalOnceCell;
use authcore::invites::accept_with_password;
use authcore::invites::create_user_invite;
use authcore::invites::get_user_invite;
use authcore::invites::AcceptWithPwRequest;
use authcore::invites::CreateUserInviteMailError;
use authcore::invites::CreateUserInviteRequest;
use authcore::invites::GetUserInviteResponse;
use authcore::models::Store;
use authcore::models::UserLanguage;
use authcore::models::UserPermissions;
use authcore::models::UserRole;
use authcore::oidc::begin_finish_auth;
use authcore::oidc::finish_oidc_login;
use authcore::oidc::start_oidc_auth;
use authcore::session::AuthState;
use authcore::session::ClientSession;
use authcore::strings::CheckedString;
use authcore::strings::NotEmptyString;
use authcore::strings::SecureString;
use authcore::users::change_password;
use authcore::users::create_totp_key;
use authcore::users::delete_totp_key;
use authcore::users::delete_user;
use authcore::users::get_all_users;
use authcore::users::get_me;
use authcore::users::list_totp_keys;
use authcore::users::complete_users_webauthn;
use authcore::users::create_webauthn_key;
use authcore::users::list_webauthn_keys;
use authcore::users::set_user_permissions;
use authcore::users::ChangePwRequest;
use authcore::users::CreateTotpRequest;
use authcore::users::CreateTotpSecretError;
use authcore::users::CreateWebAuthnRequest;
use authcore::users::RoleRequiredLayer;
use authcore::users::WebAuthnRegisterOutcome;
use authcore::users::WebAuthnRegisterResult;

const SESSION_ID: u128 = 1;
const T0: u64 = 1_700_000_000;

fn cs<const MIN: u32, const MAX: u32>(s: &str) -> CheckedString<MIN, MAX> {
    CheckedString::new(s.to_string()).unwrap()
}

fn secure(s: &str) -> SecureString {
    SecureString::new(s.to_string())
}

fn account(mail: &str, password: &str, user_uuid: u128, local_uuid: u128) -> (Store, ClientSession) {
    let mut db = Store::new();
    let mut session = ClientSession::new(SESSION_ID);
    db.touch_session(SESSION_ID);
    create_user_invite(
        &mut db,
        CreateUserInviteRequest {
            mail: cs(mail),
            display_name: cs("Someone"),
            preferred_lang: UserLanguage::DE,
            permissions: UserPermissions::Internal,
        },
        42,
        T0,
    )
    .unwrap();
    accept_with_password(
        &mut db,
        &mut session,
        42,
        AcceptWithPwRequest { password: secure(password) },
        user_uuid,
        local_uuid,
        T0,
    )
    .unwrap();
    (db, session)
}

#[test]
fn checked_string_enforces_its_bounds() {
    assert!(CheckedString::<1, 255>::new(String::new()).is_err());
    assert!(CheckedString::<1, 255>::new("x".repeat(255)).is_ok());
    assert!(CheckedString::<1, 255>::new("x".repeat(256)).is_err());
    assert!(CheckedString::<6, 6>::new("12345".to_string()).is_err());
    assert!(CheckedString::<6, 6>::new("123456".to_string()).is_ok());
    assert!(CheckedString::<6, 6>::new("1234567".to_string()).is_err());
    // A maximum of zero disables the upper bound.
    assert!(CheckedString::<1, 0>::new("y".repeat(10_000)).is_ok());
    let s = CheckedString::<1, 255>::new("hello".to_string()).unwrap();
    assert_eq!(s.into_inner(), "hello");

    assert!(NotEmptyString::new(String::new()).is_err());
    assert_eq!(NotEmptyString::new("a".to_string()).unwrap().into_inner(), "a");

    assert_eq!(secure("secret").into_inner(), "secret");
}

#[test]
fn totp_secrets_must_decode_and_be_long_enough() {
    // Round trip through the base32 boundary: twenty known bytes.
    let bytes: Vec<u8> = (100..120).collect();
    let encoded = base32::encode(base32::Alphabet::Rfc4648 { padding: false }, &bytes);
    assert_eq!(totp_from_base32(&encoded), Ok(bytes));

    // '1' is not part of the RFC 4648 alphabet.
    assert_eq!(totp_from_base32("11111111"), Err(TotpFromError::InvalidBase32));

    // Ten bytes decode fine but are below the 128-bit floor.
    let short = base32::encode(base32::Alphabet::Rfc4648 { padding: false }, &[7u8; 10]);
    assert_eq!(totp_from_base32(&short), Err(TotpFromError::InvalidSecret));
}

#[test]
fn create_totp_key_rejects_bad_secrets_and_tokens() {
    let (mut db, _session) = account("a@b.c", "pw", 200, 201);

    // 32 characters of invalid base32.
    let r = create_totp_key(
        &mut db,
        200,
        CreateTotpRequest {
            label: cs("l"),
            secret: cs(&"1".repeat(32)),
            token: cs("000000"),
        },
        300,
        T0,
    )
    .unwrap();
    match r {
        FormResult::Invalid { error } => {
            assert_eq!(error.secret, Some(CreateTotpSecretError::InvalidBase32));
        }
        _ => panic!("invalid base32 must be rejected"),
    }

    // A valid secret with a wrong token.
    let bytes: Vec<u8> = (1..=20).collect();
    let encoded = base32::encode(base32::Alphabet::Rfc4648 { padding: false }, &bytes);
    let totp =
        totp_rs::TOTP::from_rfc6238(totp_rs::Rfc6238::with_defaults(bytes).unwrap()).unwrap();
    let good = totp.generate(T0);
    let bad: String = if good.as_bytes()[0] == b'0' {
        format!("1{}", &good[1..])
    } else {
        format!("0{}", &good[1..])
    };
    let r = create_totp_key(
        &mut db,
        200,
        CreateTotpRequest { label: cs("l"), secret: cs(&encoded), token: cs(&bad) },
        300,
        T0,
    )
    .unwrap();
    match r {
        FormResult::Invalid { error } => {
            assert!(error.secret.is_none());
            assert!(error.token);
        }
        _ => panic!("a wrong token must be rejected"),
    }

    // The correct token registers the key; it shows up in the list and
    // can be removed again.
    let r = create_totp_key(
        &mut db,
        200,
        CreateTotpRequest { label: cs("phone"), secret: cs(&encoded), token: cs(&good) },
        300,
        T0,
    )
    .unwrap();
    assert!(matches!(r, FormResult::Valid { .. }));
    let list = list_totp_keys(&db, 200).unwrap();
    assert_eq!(list.list.len(), 1);
    assert_eq!(list.list[0].uuid, 300);
    assert_eq!(list.list[0].label, "phone");
    delete_totp_key(&mut db, 200, 300).unwrap();
    assert!(list_totp_keys(&db, 200).unwrap().list.is_empty());
}

#[test]
fn change_password_requires_the_current_one() {
    let (mut db, mut session) = account("a@b.c", "old-pw", 200, 201);

    let r = change_password(
        &mut db,
        200,
        ChangePwRequest { current_pw: secure("not-the-old"), new_pw: secure("new-pw") },
    )
    .unwrap();
    match r {
        FormResult::Invalid { error } => assert!(error.current_pw),
        _ => panic!("a wrong current password must be rejected"),
    }

    let r = change_password(
        &mut db,
        200,
        ChangePwRequest { current_pw: secure("old-pw"), new_pw: secure("new-pw") },
    )
    .unwrap();
    assert!(matches!(r, FormResult::Valid { .. }));

    // The new password logs in; the old one no longer does.
    logout(&mut db, &mut session);
    db.touch_session(SESSION_ID);
    let mut session = ClientSession::new(SESSION_ID);
    let r = login_password(
        &mut db,
        &mut session,
        LoginPasswordRequest { mail: cs("a@b.c"), password: secure("old-pw") },
        T0,
    )
    .unwrap();
    assert!(matches!(r, FormResult::Invalid { .. }));
    let r = login_password(
        &mut db,
        &mut session,
        LoginPasswordRequest { mail: cs("a@b.c"), password: secure("new-pw") },
        T0,
    )
    .unwrap();
    assert!(matches!(r, FormResult::Valid { value: LoginPasswordResponse::Finished }));
}

#[test]
fn invites_expire_and_keep_mails_unique() {
    let (mut db, _session) = account("a@b.c", "pw", 200, 201);

    // The accepted invite is gone; a mail with a user cannot be invited.
    let r = create_user_invite(
        &mut db,
        CreateUserInviteRequest {
            mail: cs("a@b.c"),
            display_name: cs("again"),
            preferred_lang: UserLanguage::EN,
            permissions: UserPermissions::Internal,
        },
        50,
        T0,
    )
    .unwrap();
    match r {
        FormResult::Invalid { error } => {
            assert_eq!(error.mail, Some(CreateUserInviteMailError::AlreadyUser));
        }
        _ => panic!("an occupied mail must be rejected"),
    }

    // A fresh invite; inviting the same mail again is rejected.
    create_user_invite(
        &mut db,
        CreateUserInviteRequest {
            mail: cs("new@b.c"),
            display_name: cs("New"),
            preferred_lang: UserLanguage::EN,
            permissions: UserPermissions::Administrator,
        },
        51,
        T0,
    )
    .unwrap();
    let r = create_user_invite(
        &mut db,
        CreateUserInviteRequest {
            mail: cs("new@b.c"),
            display_name: cs("New"),
            preferred_lang: UserLanguage::EN,
            permissions: UserPermissions::Administrator,
        },
        52,
        T0,
    )
    .unwrap();
    match r {
        FormResult::Invalid { error } => {
            assert_eq!(error.mail, Some(CreateUserInviteMailError::AlreadyInvited));
        }
        _ => panic!("an already invited mail must be rejected"),
    }

    // The invite is valid for one day and expires after it.
    assert!(matches!(get_user_invite(&db, 51, T0), GetUserInviteResponse::Valid { .. }));
    assert!(matches!(
        get_user_invite(&db, 51, T0 + 86_400),
        GetUserInviteResponse::Valid { .. }
    ));
    assert!(matches!(
        get_user_invite(&db, 51, T0 + 86_401),
        GetUserInviteResponse::Expired
    ));
    assert!(matches!(get_user_invite(&db, 999, T0), GetUserInviteResponse::NotFound));

    // Accepting an expired invite is a bad request.
    let mut session = ClientSession::new(2);
    db.touch_session(2);
    let r = accept_with_password(
        &mut db,
        &mut session,
        51,
        AcceptWithPwRequest { password: secure("pw") },
        900,
        901,
        T0 + 86_401,
    );
    assert_eq!(r, Err(ApiError::BadRequest));
}

#[test]
fn profile_roles_and_deletion() {
    let (mut db, session) = account("a@b.c", "pw", 200, 201);

    let me = get_me(&db, &session).unwrap();
    assert_eq!(me.uuid, 200);
    assert_eq!(me.mail, "a@b.c");
    assert_eq!(me.display_name, "Someone");
    assert_eq!(me.preferred_lang, UserLanguage::DE);
    assert_eq!(me.permissions, UserPermissions::Internal);

    let admin_gate = RoleRequiredLayer::new(UserRole::Administrator);
    let i = db.find_user_by_uuid(200).unwrap();
    assert_eq!(admin_gate.check(&db.users[i]), Err(ApiError::MissingPrivileges));

    set_user_permissions(&mut db, 200, UserPermissions::Administrator).unwrap();
    let all = get_all_users(&db);
    assert_eq!(all.list.len(), 1);
    assert_eq!(all.list[0].permissions, UserPermissions::Administrator);
    let i = db.find_user_by_uuid(200).unwrap();
    assert_eq!(admin_gate.check(&db.users[i]), Ok(()));

    delete_user(&mut db, 200).unwrap();
    assert!(get_all_users(&db).list.is_empty());
    assert!(db.local_users.is_empty());
    // The session record survives but no longer points at anyone.
    let ri = db.find_record_by_id(SESSION_ID).unwrap();
    assert_eq!(db.sessions[ri].user, None);
    // The freed mail can be invited again.
    let r = create_user_invite(
        &mut db,
        CreateUserInviteRequest {
            mail: cs("a@b.c"),
            display_name: cs("Again"),
            preferred_lang: UserLanguage::EN,
            permissions: UserPermissions::Internal,
        },
        60,
        T0,
    )
    .unwrap();
    assert!(matches!(r, FormResult::Valid { .. }));
}

#[test]
fn oidc_round_trip_state_is_single_use_and_forgery_checked() {
    let mut session = ClientSession::new(SESSION_ID);
    start_oidc_auth(
        &mut session,
        AuthState {
            csrf_token: "token-abc".to_string(),
            pkce_code_verifier: "verifier".to_string(),
            nonce: "nonce".to_string(),
        },
    );

    // A wrong echoed token is rejected, and the state is consumed.
    let r = begin_finish_auth(&mut session, &"token-xyz".to_string());
    assert_eq!(r, Err(ApiError::Unauthenticated));
    let r = begin_finish_auth(&mut session, &"token-abc".to_string());
    assert_eq!(r, Err(ApiError::Unauthenticated));

    // The matching token hands the stored state back, once.
    start_oidc_auth(
        &mut session,
        AuthState {
            csrf_token: "token-abc".to_string(),
            pkce_code_verifier: "verifier".to_string(),
            nonce: "nonce".to_string(),
        },
    );
    let state = begin_finish_auth(&mut session, &"token-abc".to_string()).unwrap();
    assert_eq!(state.pkce_code_verifier, "verifier");
    assert_eq!(state.nonce, "nonce");
}

#[test]
fn oidc_login_finds_or_creates_the_federated_user() {
    let mut db = Store::new();
    let mut session = ClientSession::new(SESSION_ID);
    db.touch_session(SESSION_ID);

    // First login creates the user and its federated credential row.
    finish_oidc_login(
        &mut db,
        &mut session,
        "idp-user-1".to_string(),
        cs("fed@example.com"),
        cs("Fed User"),
        500,
        501,
    )
    .unwrap();
    assert_eq!(session.user, Some(500));
    assert_eq!(get_all_users(&db).list.len(), 1);

    // A later login with the same provider identifier reuses it.
    logout(&mut db, &mut session);
    db.touch_session(SESSION_ID);
    let mut session = ClientSession::new(SESSION_ID);
    finish_oidc_login(
        &mut db,
        &mut session,
        "idp-user-1".to_string(),
        cs("other@example.com"),
        cs("Other Name"),
        600,
        601,
    )
    .unwrap();
    assert_eq!(session.user, Some(500));
    assert_eq!(get_all_users(&db).list.len(), 1);
}

#[test]
fn status_codes_match_the_wire_numbering() {
    assert_eq!(ApiStatusCode::Unauthenticated.code(), 1000);
    assert_eq!(ApiStatusCode::BadRequest.code(), 1001);
    assert_eq!(ApiStatusCode::InvalidJson.code(), 1002);
    assert_eq!(ApiStatusCode::MissingPrivileges.code(), 1003);
    assert_eq!(ApiStatusCode::InternalServerError.code(), 2000);
}

#[test]
fn once_cell_is_initialised_once() {
    let mut cell: GlobalOnceCell<u32> = GlobalOnceCell::new();
    assert!(!cell.is_initialized());
    cell.init(7);
    assert!(cell.is_initialized());
    assert_eq!(*cell.get(), 7);
}

#[test]
fn identifier_collisions_surface_as_internal_errors() {
    let (mut db, _session) = account("a@b.c", "pw", 200, 201);

    // Reusing an existing invite identifier cannot be served.
    create_user_invite(
        &mut db,
        CreateUserInviteRequest {
            mail: cs("x@b.c"),
            display_name: cs("X"),
            preferred_lang: UserLanguage::EN,
            permissions: UserPermissions::Internal,
        },
        70,
        T0,
    )
    .unwrap();
    let r = create_user_invite(
        &mut db,
        CreateUserInviteRequest {
            mail: cs("y@b.c"),
            display_name: cs("Y"),
            preferred_lang: UserLanguage::EN,
            permissions: UserPermissions::Internal,
        },
        70,
        T0,
    );
    assert_eq!(r, Err(ApiError::InternalServerError));

    // Accepting under the uuid of an existing user cannot be served.
    let mut session = ClientSession::new(3);
    db.touch_session(3);
    let r = accept_with_password(
        &mut db,
        &mut session,
        70,
        AcceptWithPwRequest { password: secure("pw2") },
        200,
        701,
        T0,
    );
    assert_eq!(r, Err(ApiError::InternalServerError));
    assert_eq!(session.user, None);
}

#[test]
fn recognized_ceremony_rejections_are_passed_to_the_client() {
    let (mut db, mut session) = account("a@b.c", "pw", 200, 201);
    create_webauthn_key(
        &db,
        &mut session,
        200,
        CreateWebAuthnRequest { can_login: true, label: cs("key") },
        vec![1],
    )
    .unwrap();
    let r = complete_users_webauthn(
        &mut db,
        &mut session,
        WebAuthnRegisterOutcome::Rejected(WebAuthnRegisterResult::MissingDevice),
        400,
        T0,
    )
    .unwrap();
    assert_eq!(r, WebAuthnRegisterResult::MissingDevice);
    // Nothing was stored, and the ceremony is consumed.
    assert!(list_webauthn_keys(&db, 200).unwrap().list.is_empty());
    let r = complete_users_webauthn(
        &mut db,
        &mut session,
        WebAuthnRegisterOutcome::Rejected(WebAuthnRegisterResult::MissingDevice),
        400,
        T0,
    );
    assert_eq!(r, Err(ApiError::BadRequest));
}
