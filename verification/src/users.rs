//! Account management for the logged-in user: profile, password change
//! and the registered second-factor keys.

use vstd::prelude::*;

verus! {

use vstd::pervasive::VecAdditionalExecFns;
use crate::auth::session_user;
use crate::common::ApiError;
use crate::common::FormResult;
use crate::common::List;
use crate::common::SingleUuid;
use crate::crypto::hash_pw;
use crate::crypto::hash_usable;
use crate::crypto::pw_matches;
use crate::crypto::rfc4648_decode;
use crate::crypto::totp_accepts;
use crate::crypto::totp_check;
use crate::crypto::totp_from_base32;
use crate::crypto::verify_pw;
use crate::crypto::TotpFromError;
use crate::crypto::VerifyPwError;
use crate::models::LocalUser;
use crate::models::MaybeAttestedPasskey;
use crate::models::Store;
use crate::models::TotpKey;
use crate::models::User;
use crate::models::UserLanguage;
use crate::models::UserPermissions;
use crate::models::UserRole;
use crate::models::WebAuthnKey;
use crate::session::CeremonyState;
use crate::session::ClientSession;
use crate::strings::CheckedString;
use crate::strings::SecureString;

/// The errors of the change-password request.
#[derive(Debug, Clone, Copy, Default, PartialEq, Eq, Structural)]
pub struct ChangePwFormErrors {
    /// The provided current password was wrong.
    pub current_pw: bool,
}

/// The request to change the password.
#[derive(Clone)]
pub struct ChangePwRequest {
    /// The current password of the account.
    pub current_pw: SecureString,
    /// The password that should be set.
    pub new_pw: SecureString,
}

/// The request to register a new TOTP key.
#[derive(Clone)]
pub struct CreateTotpRequest {
    /// A user defined label to identify the key.
    pub label: CheckedString<1, 255>,
    /// The TOTP secret, base32 encoded.
    pub secret: CheckedString<32, 64>,
    /// The currently valid token, proving the secret was stored
    /// correctly on the client side.
    pub token: CheckedString<6, 6>,
}

/// Why the secret of a create-TOTP request was rejected.
#[derive(Debug, Clone, Copy, PartialEq, Eq, Structural)]
pub enum CreateTotpSecretError {
    InvalidBase32,
    InvalidRfc6238,
}

/// The errors of the create-TOTP request.
#[derive(Debug, Clone, Copy, Default, PartialEq, Eq, Structural)]
pub struct CreateTotpErrors {
    /// The secret was invalid.
    pub secret: Option<CreateTotpSecretError>,
    /// The token was not accepted for the secret.
    pub token: bool,
}

/// Simple representation of a registered TOTP key.
#[derive(Debug, Clone, PartialEq, Eq)]
pub struct SimpleTotpKey {
    /// Primary key of the row.
    pub uuid: u128,
    /// The user defined label of the key.
    pub label: String,
    /// When the key was added, in seconds.
    pub created_at: u64,
}

/// The request to register a new WebAuthn key.
#[derive(Debug, Clone)]
pub struct CreateWebAuthnRequest {
    /// Whether the key should be usable to log in directly, without a
    /// second factor; this requires an attested device.
    pub can_login: bool,
    /// A user defined label to identify the key.
    pub label: CheckedString<1, 255>,
}

/// Simple representation of a registered WebAuthn key.
#[derive(Debug, Clone, PartialEq, Eq)]
pub struct SimpleWebAuthnKey {
    /// Primary key of the row.
    pub uuid: u128,
    /// The user defined label of the key.
    pub label: String,
    /// When the key was added, in seconds.
    pub created_at: u64,
    /// Whether the key can be used to log in directly.
    pub can_login: bool,
}

/// The full representation of a user.
#[derive(Debug, Clone, PartialEq, Eq)]
pub struct FullUser {
    /// The identifier of the user.
    pub uuid: u128,
    /// The mail of the user.
    pub mail: String,
    /// The name used for displaying purposes.
    pub display_name: String,
    /// The preferred language of the user.
    pub preferred_lang: UserLanguage,
    /// The user's permissions.
    pub permissions: UserPermissions,
}

/// The outcome reported to the client for a key registration ceremony.
#[derive(Debug, Clone, Copy, PartialEq, Eq, Structural)]
pub enum WebAuthnRegisterResult {
    /// The key was registered.
    Accepted,
    /// The device was rejected for attested registration.
    RejectedDevice,
    /// The browser denied access to the device information needed to
    /// check the attestation.
    MissingDevice,
}

/// The verdict of the ceremony backend on a registration response.
#[derive(Debug, Clone)]
pub enum WebAuthnRegisterOutcome {
    /// The response was accepted and yielded this key.
    Registered(MaybeAttestedPasskey),
    /// The response was rejected for a reason the client is told about.
    Rejected(WebAuthnRegisterResult),
    /// The response was rejected outright.
    Failed,
}

/// The permission classification a stored role maps back to.
pub open spec fn spec_role_permissions(role: UserRole) -> UserPermissions {
    match role {
        UserRole::Administrator => UserPermissions::Administrator,
        UserRole::Internal => UserPermissions::Internal,
    }
}

/// Construct the permission classification from a user row.
pub fn get_user_permissions(user: &User) -> (r: UserPermissions)
    ensures
        r == spec_role_permissions(user.role),
{
    match user.role {
        UserRole::Administrator => UserPermissions::Administrator,
        UserRole::Internal => UserPermissions::Internal,
    }
}

/// The full representation of a user row.
pub open spec fn spec_full_user(user: User) -> FullUser {
    FullUser {
        uuid: user.uuid,
        mail: user.mail,
        display_name: user.display_name,
        preferred_lang: user.preferred_lang,
        permissions: spec_role_permissions(user.role),
    }
}

/// Convert a user row into its full representation.
pub fn new_full_user(user: &User) -> (r: FullUser)
    ensures
        r == spec_full_user(*user),
{
    FullUser {
        uuid: user.uuid,
        mail: user.mail.clone(),
        display_name: user.display_name.clone(),
        preferred_lang: user.preferred_lang,
        permissions: get_user_permissions(user),
    }
}

/// Retrieve the currently logged-in user.
pub fn get_me(db: &Store, session: &ClientSession) -> (r: Result<FullUser, ApiError>)
    requires
        db.wf(),
    ensures
        match r {
            Ok(full) => session.user matches Some(uu) && db.user_by_uuid(uu) matches Some(u)
                && full == spec_full_user(u),
            Err(e) => {
                &&& e == ApiError::Unauthenticated
                &&& match session.user {
                    Some(uu) => db.user_by_uuid(uu) is None,
                    None => true,
                }
            },
        },
{
    let i = match session_user(db, session) {
        Ok(i) => i,
        Err(e) => { return Err(e) },
    };
    Ok(new_full_user(&db.users[i]))
}

/// Middleware guard which requires the session's user to have a certain
/// role.
#[derive(Debug, Clone, Copy)]
pub struct RoleRequiredLayer {
    /// The role the user must have.
    pub role: UserRole,
}

impl RoleRequiredLayer {
    /// Constructs a new `RoleRequiredLayer`.
    pub fn new(required_role: UserRole) -> (r: Self)
        ensures
            r.role == required_role,
    {
        RoleRequiredLayer { role: required_role }
    }

    /// The check the guard applies to the session's user: exactly the
    /// users holding the required role pass; everyone else lacks the
    /// privileges.
    pub fn check(&self, user: &User) -> (r: Result<(), ApiError>)
        ensures
            r == if user.role == self.role {
                Ok::<(), ApiError>(())
            } else {
                Err::<(), ApiError>(ApiError::MissingPrivileges)
            },
    {
        if user.role == self.role {
            Ok(())
        } else {
            Err(ApiError::MissingPrivileges)
        }
    }
}

/// Change the password of a locally authenticated user.
///
/// Only an account with a local credential row and a stored password
/// can change it; others are rejected as a bad request. A wrong current
/// password is a form error. On success the stored hash is replaced by
/// a fresh hash of the new password — whatever salt was drawn, the new
/// hash verifies against the new password.
pub fn change_password(db: &mut Store, user_uuid: u128, request: ChangePwRequest) -> (r: Result<
    FormResult<(), ChangePwFormErrors>,
    ApiError,
>)
    requires
        old(db).wf(),
    ensures
        final(db).wf(),
        final(db).users@ == old(db).users@,
        final(db).oidc_users@ == old(db).oidc_users@,
        final(db).totp_keys@ == old(db).totp_keys@,
        final(db).webauthn_keys@ == old(db).webauthn_keys@,
        final(db).user_invites@ == old(db).user_invites@,
        final(db).sessions@ == old(db).sessions@,
        match old(db).local_by_user(user_uuid) {
            None => r == Err::<FormResult<(), ChangePwFormErrors>, _>(ApiError::BadRequest)
                && final(db).local_users@ == old(db).local_users@,
            Some(lu) => match lu.password {
                None => r == Err::<FormResult<(), ChangePwFormErrors>, _>(ApiError::BadRequest)
                    && final(db).local_users@ == old(db).local_users@,
                Some(hash) => {
                    &&& !hash_usable(hash@) ==> r == Err::<FormResult<(), ChangePwFormErrors>, _>(
                        ApiError::InternalServerError,
                    ) && final(db).local_users@ == old(db).local_users@
                    &&& (hash_usable(hash@) && !pw_matches(request.current_pw@, hash@)) ==> r
                        == Ok::<_, ApiError>(
                        FormResult::<(), ChangePwFormErrors>::Invalid {
                            error: ChangePwFormErrors { current_pw: true },
                        },
                    ) && final(db).local_users@ == old(db).local_users@
                    &&& (hash_usable(hash@) && pw_matches(request.current_pw@, hash@)) ==> {
                        ||| (r == Err::<FormResult<(), ChangePwFormErrors>, _>(
                            ApiError::InternalServerError,
                        ) && final(db).local_users@ == old(db).local_users@)
                        ||| (r == Ok::<_, ApiError>(FormResult::<(), ChangePwFormErrors>::Valid {
                            value: (),
                        }) && final(db).local_users@.len() == old(db).local_users@.len() && forall|
                            j: int,
                        |
                            0 <= j < old(db).local_users@.len() ==> #[trigger] final(db).local_users@[j] == (if old(db).local_users@[j].user == user_uuid {
                                final(db).local_users@[j]
                            } else {
                                old(db).local_users@[j]
                            }) && (old(db).local_users@[j].user == user_uuid ==> {
                                &&& final(db).local_users@[j].uuid == old(db).local_users@[j].uuid
                                &&& final(db).local_users@[j].user == old(db).local_users@[j].user
                                &&& final(db).local_users@[j].password matches Some(p)
                                    && hash_usable(p@) && pw_matches(request.new_pw@, p@)
                            }))
                    }
                },
            },
        },
{
    let Some(li) = db.find_local_by_user(user_uuid) else {
        return Err(ApiError::BadRequest);
    };
    let verdict = match &db.local_users[li].password {
        Some(hash) => verify_pw(request.current_pw.as_str(), hash.as_str()),
        None => { return Err(ApiError::BadRequest) },
    };
    match verdict {
        Ok(()) => (),
        Err(VerifyPwError::Hash) => { return Err(ApiError::InternalServerError) },
        Err(VerifyPwError::Mismatch) => {
            return Ok(FormResult::err(ChangePwFormErrors { current_pw: true }));
        },
    }
    let hashed = match hash_pw(request.new_pw.as_str()) {
        Ok(hashed) => hashed,
        Err(e) => { return Err(e) },
    };
    let updated = LocalUser {
        uuid: db.local_users[li].uuid,
        user: db.local_users[li].user,
        password: Some(hashed),
    };
    db.local_users.set(li, updated);
    proof {
        assert forall|j: int|
            0 <= j < old(db).local_users@.len() && j != li as int && old(db).local_users@[j].user
                == user_uuid implies false by {
            old(db).lemma_local_user_unique(j, li as int);
        }
        assert(db.wf());
    }
    Ok(FormResult::ok(()))
}

/// Register a TOTP key for a locally authenticated user.
///
/// The base32 secret must decode and hold at least 128 bits, and the
/// submitted token must be the one the secret yields at `now` — both
/// rejections are form errors. A caller without a local credential row
/// is rejected as a bad request. The key is stored under the given —
/// typically freshly drawn — uuid; a collision surfaces as an internal
/// error. The time must lie a 30-second step inside the 64-bit range,
/// a limit of the TOTP backend's step arithmetic.
pub fn create_totp_key(
    db: &mut Store,
    user_uuid: u128,
    request: CreateTotpRequest,
    new_key_uuid: u128,
    now: u64,
) -> (r: Result<FormResult<SingleUuid, CreateTotpErrors>, ApiError>)
    requires
        old(db).wf(),
        30 <= now <= u64::MAX - 30,
    ensures
        final(db).wf(),
        final(db).users@ == old(db).users@,
        final(db).oidc_users@ == old(db).oidc_users@,
        final(db).local_users@ == old(db).local_users@,
        final(db).webauthn_keys@ == old(db).webauthn_keys@,
        final(db).user_invites@ == old(db).user_invites@,
        final(db).sessions@ == old(db).sessions@,
        match rfc4648_decode(request.secret@) {
            None => r == Ok::<_, ApiError>(
                FormResult::<SingleUuid, CreateTotpErrors>::Invalid {
                    error: CreateTotpErrors {
                        secret: Some(CreateTotpSecretError::InvalidBase32),
                        token: false,
                    },
                },
            ) && final(db).totp_keys@ == old(db).totp_keys@,
            Some(secret) => if secret.len() < 16 {
                r == Ok::<_, ApiError>(
                    FormResult::<SingleUuid, CreateTotpErrors>::Invalid {
                        error: CreateTotpErrors {
                            secret: Some(CreateTotpSecretError::InvalidRfc6238),
                            token: false,
                        },
                    },
                ) && final(db).totp_keys@ == old(db).totp_keys@
            } else if !totp_accepts(secret, request.token@, now) {
                r == Ok::<_, ApiError>(
                    FormResult::<SingleUuid, CreateTotpErrors>::Invalid {
                        error: CreateTotpErrors { secret: None, token: true },
                    },
                ) && final(db).totp_keys@ == old(db).totp_keys@
            } else {
                match old(db).local_by_user(user_uuid) {
                    None => r == Err::<FormResult<SingleUuid, CreateTotpErrors>, _>(
                        ApiError::BadRequest,
                    ) && final(db).totp_keys@ == old(db).totp_keys@,
                    Some(lu) => if exists|i: int|
                        0 <= i < old(db).totp_keys@.len() && old(db).totp_keys@[i].uuid
                            == new_key_uuid {
                        r == Err::<FormResult<SingleUuid, CreateTotpErrors>, _>(
                            ApiError::InternalServerError,
                        ) && final(db).totp_keys@ == old(db).totp_keys@
                    } else {
                        r == Ok::<_, ApiError>(
                            FormResult::<SingleUuid, CreateTotpErrors>::Valid {
                                value: SingleUuid { uuid: new_key_uuid },
                            },
                        ) && exists|k: TotpKey|
                            final(db).totp_keys@ == old(db).totp_keys@.push(k) && k.uuid
                                == new_key_uuid && k.local_user == lu.uuid && k.label@
                                == request.label@ && k.secret@ == secret && k.created_at == now
                    },
                }
            },
        },
{
    let secret = match totp_from_base32(request.secret.as_str()) {
        Ok(secret) => secret,
        Err(TotpFromError::InvalidBase32) => {
            return Ok(
                FormResult::err(
                    CreateTotpErrors {
                        secret: Some(CreateTotpSecretError::InvalidBase32),
                        token: false,
                    },
                ),
            );
        },
        Err(TotpFromError::InvalidSecret) => {
            return Ok(
                FormResult::err(
                    CreateTotpErrors {
                        secret: Some(CreateTotpSecretError::InvalidRfc6238),
                        token: false,
                    },
                ),
            );
        },
    };
    if !totp_check(&secret, request.token.as_str(), now) {
        return Ok(FormResult::err(CreateTotpErrors { secret: None, token: true }));
    }
    let Some(li) = db.find_local_by_user(user_uuid) else {
        return Err(ApiError::BadRequest);
    };
    if db.find_totp_by_uuid(new_key_uuid).is_some() {
        return Err(ApiError::InternalServerError);
    }
    let local_uuid = db.local_users[li].uuid;
    db.totp_keys.push(
        TotpKey {
            uuid: new_key_uuid,
            local_user: local_uuid,
            label: request.label.into_inner(),
            secret,
            created_at: now,
        },
    );
    proof {
        assert(db.wf());
        assert(db.totp_keys@ == old(db).totp_keys@.push(db.totp_keys@.last()));
    }
    Ok(FormResult::ok(SingleUuid { uuid: new_key_uuid }))
}

/// The reduced representation of a stored TOTP key.
pub open spec fn spec_simple_totp(k: TotpKey) -> SimpleTotpKey {
    SimpleTotpKey { uuid: k.uuid, label: k.label, created_at: k.created_at }
}

/// The reduced representation of a stored WebAuthn key.
pub open spec fn spec_simple_webauthn(k: WebAuthnKey) -> SimpleWebAuthnKey {
    SimpleWebAuthnKey {
        uuid: k.uuid,
        label: k.label,
        created_at: k.created_at,
        can_login: k.key is Attested,
    }
}

/// List the TOTP keys of a locally authenticated user, in insertion
/// order.
///
/// A caller without a local credential row is rejected as a bad
/// request.
pub fn list_totp_keys(db: &Store, user_uuid: u128) -> (r: Result<List<SimpleTotpKey>, ApiError>)
    requires
        db.wf(),
    ensures
        match db.local_by_user(user_uuid) {
            None => r == Err::<List<SimpleTotpKey>, ApiError>(ApiError::BadRequest),
            Some(lu) => r matches Ok(list) && list.list@.len() == db.totp_keys_of(lu.uuid).len()
                && forall|k: int|
                0 <= k < list.list@.len() ==> list.list@[k] == spec_simple_totp(
                    #[trigger] db.totp_keys_of(lu.uuid)[k],
                ),
        },
{
    let Some(li) = db.find_local_by_user(user_uuid) else {
        return Err(ApiError::BadRequest);
    };
    let local_uuid = db.local_users[li].uuid;
    let mut list: Vec<SimpleTotpKey> = Vec::new();
    let ghost mut keys_seen: Seq<TotpKey> = Seq::empty();
    let n = db.totp_keys.len();
    proof {
        assert(db.totp_keys@.take(0) =~= Seq::<TotpKey>::empty());
        assert(crate::models::totp_keys_in(db.totp_keys@.take(0), local_uuid)
            == Seq::<TotpKey>::empty());
    }
    for i in 0..n
        invariant
            n == db.totp_keys@.len(),
            keys_seen == crate::models::totp_keys_in(db.totp_keys@.take(i as int), local_uuid),
            list@.len() == keys_seen.len(),
            forall|k: int|
                0 <= k < list@.len() ==> #[trigger] list@[k] == spec_simple_totp(keys_seen[k]),
    {
        proof {
            assert(db.totp_keys@.take(i + 1).drop_last() =~= db.totp_keys@.take(i as int));
            assert(db.totp_keys@.take(i + 1).last() == db.totp_keys@[i as int]);
        }
        if db.totp_keys[i].local_user == local_uuid {
            list.push(
                SimpleTotpKey {
                    uuid: db.totp_keys[i].uuid,
                    label: db.totp_keys[i].label.clone(),
                    created_at: db.totp_keys[i].created_at,
                },
            );
            proof {
                keys_seen = keys_seen.push(db.totp_keys@[i as int]);
                assert(keys_seen == crate::models::totp_keys_in(
                    db.totp_keys@.take(i + 1),
                    local_uuid,
                ));
                assert(list@.last() == spec_simple_totp(keys_seen.last()));
            }
        } else {
            proof {
                assert(keys_seen == crate::models::totp_keys_in(
                    db.totp_keys@.take(i + 1),
                    local_uuid,
                ));
            }
        }
    }
    proof {
        assert(db.totp_keys@.take(n as int) =~= db.totp_keys@);
    }
    Ok(List { list })
}

/// Remove a TOTP key of a locally authenticated user.
///
/// Only a key belonging to the caller's own local credential row is
/// removed; the call is a no-op when no such key exists. A caller
/// without a local credential row is rejected as a bad request.
pub fn delete_totp_key(db: &mut Store, user_uuid: u128, key_uuid: u128) -> (r: Result<(), ApiError>)
    requires
        old(db).wf(),
    ensures
        final(db).wf(),
        final(db).users@ == old(db).users@,
        final(db).oidc_users@ == old(db).oidc_users@,
        final(db).local_users@ == old(db).local_users@,
        final(db).webauthn_keys@ == old(db).webauthn_keys@,
        final(db).user_invites@ == old(db).user_invites@,
        final(db).sessions@ == old(db).sessions@,
        match old(db).local_by_user(user_uuid) {
            None => r == Err::<(), ApiError>(ApiError::BadRequest) && final(db).totp_keys@ == old(
                db,
            ).totp_keys@,
            Some(lu) => {
                &&& r == Ok::<(), ApiError>(())
                &&& forall|k: int|
                    0 <= k < final(db).totp_keys@.len() ==> old(db).totp_keys@.contains(
                        #[trigger] final(db).totp_keys@[k],
                    ) && !(final(db).totp_keys@[k].uuid == key_uuid
                        && final(db).totp_keys@[k].local_user == lu.uuid)
                &&& forall|j: int|
                    0 <= j < old(db).totp_keys@.len() && !(old(db).totp_keys@[j].uuid == key_uuid
                        && old(db).totp_keys@[j].local_user == lu.uuid) ==> final(db).totp_keys@.contains(#[trigger] old(db).totp_keys@[j])
            },
        },
{
    let Some(li) = db.find_local_by_user(user_uuid) else {
        return Err(ApiError::BadRequest);
    };
    let local_uuid = db.local_users[li].uuid;
    if let Some(ki) = db.find_totp_by_uuid(key_uuid) {
        if db.totp_keys[ki].local_user == local_uuid {
            db.totp_keys.remove(ki);
            proof {
                let olds = old(db).totp_keys@;
                let news = db.totp_keys@;
                assert forall|k: int| 0 <= k < news.len() implies olds.contains(#[trigger] news[k])
                    && !(news[k].uuid == key_uuid && news[k].local_user == local_uuid) by {
                    if k < ki {
                        assert(news[k] == olds[k]);
                        if news[k].uuid == key_uuid {
                            old(db).lemma_totp_uuid_unique(k, ki as int);
                        }
                    } else {
                        assert(news[k] == olds[k + 1]);
                        if news[k].uuid == key_uuid {
                            old(db).lemma_totp_uuid_unique(k + 1, ki as int);
                        }
                    }
                }
                assert forall|j: int|
                    0 <= j < olds.len() && !(olds[j].uuid == key_uuid && olds[j].local_user
                        == local_uuid) implies news.contains(#[trigger] olds[j]) by {
                    if j < ki {
                        assert(news[j] == olds[j]);
                    } else if j > ki {
                        assert(news[j - 1] == olds[j]);
                    }
                }
                assert forall|a: int, b: int| 0 <= a < b < news.len() implies news[a].uuid
                    != news[b].uuid by {
                    if b < ki {
                    } else if a < ki {
                        assert(news[a] == olds[a] && news[b] == olds[b + 1]);
                    } else {
                        assert(news[a] == olds[a + 1] && news[b] == olds[b + 1]);
                    }
                }
                assert(db.wf());
            }
        }
    }
    Ok(())
}

/// Start a WebAuthn registration ceremony for a locally authenticated
/// user.
///
/// The registration ceremony — whose opaque challenge state the
/// ceremony backend produced, against the account's already registered
/// keys and, for a login-capable key, the attestation trust list — is
/// stored in the session, to be consumed by [`complete_users_webauthn`].
/// A caller without a local credential row is rejected as a bad
/// request.
pub fn create_webauthn_key(
    db: &Store,
    session: &mut ClientSession,
    user_uuid: u128,
    request: CreateWebAuthnRequest,
    challenge: Vec<u8>,
) -> (r: Result<(), ApiError>)
    requires
        db.wf(),
    ensures
        match db.local_by_user(user_uuid) {
            None => {
                &&& r == Err::<(), ApiError>(ApiError::BadRequest)
                &&& *final(session) == *old(session)
            },
            Some(lu) => {
                &&& r == Ok::<(), ApiError>(())
                &&& final(session).ceremony matches Some(
                    CeremonyState::Registration { attested, local_user, label, challenge: ch },
                ) && attested == request.can_login && local_user == lu.uuid && label@
                    == request.label@ && ch == challenge
                &&& final(session).id == old(session).id
                &&& final(session).user == old(session).user
                &&& final(session).partial == old(session).partial
                &&& final(session).oidc_request == old(session).oidc_request
            },
        },
{
    let Some(li) = db.find_local_by_user(user_uuid) else {
        return Err(ApiError::BadRequest);
    };
    let local_uuid = db.local_users[li].uuid;
    session.ceremony = Some(
        CeremonyState::Registration {
            attested: request.can_login,
            local_user: local_uuid,
            label: request.label.into_inner(),
            challenge,
        },
    );
    Ok(())
}

/// Complete a WebAuthn registration ceremony.
///
/// The in-flight registration ceremony is consumed whatever the
/// outcome; without one — in particular on a repeated completion
/// attempt — the call fails as a bad request and changes nothing. A
/// registered key whose attestation tag does not match the ceremony's
/// is rejected as a bad request: only a key from the attested ceremony
/// may be stored as login-capable. Otherwise the key is stored under
/// the ceremony's label and the given — typically freshly drawn —
/// uuid; a collision surfaces as an internal error. A recognized
/// rejection is reported to the client; an unrecognized failure is a
/// bad request.
pub fn complete_users_webauthn(
    db: &mut Store,
    session: &mut ClientSession,
    outcome: WebAuthnRegisterOutcome,
    new_key_uuid: u128,
    now: u64,
) -> (r: Result<WebAuthnRegisterResult, ApiError>)
    requires
        old(db).wf(),
    ensures
        final(db).wf(),
        final(db).users@ == old(db).users@,
        final(db).oidc_users@ == old(db).oidc_users@,
        final(db).local_users@ == old(db).local_users@,
        final(db).totp_keys@ == old(db).totp_keys@,
        final(db).user_invites@ == old(db).user_invites@,
        final(db).sessions@ == old(db).sessions@,
        match old(session).ceremony {
            Some(CeremonyState::Registration { attested, local_user, label, challenge }) => {
                &&& final(session).ceremony is None
                &&& final(session).id == old(session).id
                &&& final(session).user == old(session).user
                &&& final(session).partial == old(session).partial
                &&& final(session).oidc_request == old(session).oidc_request
                &&& match outcome {
                    WebAuthnRegisterOutcome::Registered(key) => if (key is Attested) != attested {
                        r == Err::<WebAuthnRegisterResult, _>(ApiError::BadRequest)
                            && final(db).webauthn_keys@ == old(db).webauthn_keys@
                    } else if exists|i: int|
                        0 <= i < old(db).webauthn_keys@.len() && old(db).webauthn_keys@[i].uuid
                            == new_key_uuid {
                        r == Err::<WebAuthnRegisterResult, _>(ApiError::InternalServerError)
                            && final(db).webauthn_keys@ == old(db).webauthn_keys@
                    } else {
                        r == Ok::<_, ApiError>(WebAuthnRegisterResult::Accepted) && exists|
                            k: WebAuthnKey,
                        |
                            final(db).webauthn_keys@ == old(db).webauthn_keys@.push(k) && k.uuid
                                == new_key_uuid && k.local_user == local_user && k.label@ == label@
                                && k.key == key && (k.key is Attested <==> attested)
                                && k.created_at == now
                    },
                    WebAuthnRegisterOutcome::Rejected(which) => r == Ok::<_, ApiError>(which)
                        && final(db).webauthn_keys@ == old(db).webauthn_keys@,
                    WebAuthnRegisterOutcome::Failed => r == Err::<WebAuthnRegisterResult, _>(
                        ApiError::BadRequest,
                    ) && final(db).webauthn_keys@ == old(db).webauthn_keys@,
                }
            },
            _ => {
                &&& r == Err::<WebAuthnRegisterResult, _>(ApiError::BadRequest)
                &&& final(db).webauthn_keys@ == old(db).webauthn_keys@
                &&& *final(session) == *old(session)
            },
        },
{
    let ceremony = session.take_ceremony();
    let (attested, local_user, label) = match ceremony {
        Some(
            CeremonyState::Registration { attested, local_user, label, challenge: _ },
        ) => (attested, local_user, label),
        other => {
            session.ceremony = other;
            return Err(ApiError::BadRequest);
        },
    };
    let key = match outcome {
        WebAuthnRegisterOutcome::Registered(key) => key,
        WebAuthnRegisterOutcome::Rejected(which) => { return Ok(which) },
        WebAuthnRegisterOutcome::Failed => { return Err(ApiError::BadRequest) },
    };
    let key_attested = match &key {
        MaybeAttestedPasskey::Attested(_) => true,
        MaybeAttestedPasskey::NotAttested(_) => false,
    };
    if key_attested != attested {
        return Err(ApiError::BadRequest);
    }
    if db.find_webauthn_by_uuid(new_key_uuid).is_some() {
        return Err(ApiError::InternalServerError);
    }
    db.webauthn_keys.push(
        WebAuthnKey { uuid: new_key_uuid, local_user, label, key, created_at: now },
    );
    proof {
        assert(db.wf());
        assert(db.webauthn_keys@ == old(db).webauthn_keys@.push(db.webauthn_keys@.last()));
    }
    Ok(WebAuthnRegisterResult::Accepted)
}

/// List the WebAuthn keys of a locally authenticated user, in insertion
/// order; login-capable keys are the attested ones.
///
/// A caller without a local credential row is rejected as a bad
/// request.
pub fn list_webauthn_keys(db: &Store, user_uuid: u128) -> (r: Result<
    List<SimpleWebAuthnKey>,
    ApiError,
>)
    requires
        db.wf(),
    ensures
        match db.local_by_user(user_uuid) {
            None => r == Err::<List<SimpleWebAuthnKey>, ApiError>(ApiError::BadRequest),
            Some(lu) => r matches Ok(list) && list.list@.len() == db.webauthn_keys_of(
                lu.uuid,
            ).len() && forall|k: int|
                0 <= k < list.list@.len() ==> list.list@[k] == spec_simple_webauthn(
                    #[trigger] db.webauthn_keys_of(lu.uuid)[k],
                ),
        },
{
    let Some(li) = db.find_local_by_user(user_uuid) else {
        return Err(ApiError::BadRequest);
    };
    let local_uuid = db.local_users[li].uuid;
    let mut list: Vec<SimpleWebAuthnKey> = Vec::new();
    let ghost mut keys_seen: Seq<WebAuthnKey> = Seq::empty();
    let n = db.webauthn_keys.len();
    proof {
        assert(db.webauthn_keys@.take(0) =~= Seq::<WebAuthnKey>::empty());
        assert(crate::models::webauthn_keys_in(db.webauthn_keys@.take(0), local_uuid)
            == Seq::<WebAuthnKey>::empty());
    }
    for i in 0..n
        invariant
            n == db.webauthn_keys@.len(),
            keys_seen == crate::models::webauthn_keys_in(
                db.webauthn_keys@.take(i as int),
                local_uuid,
            ),
            list@.len() == keys_seen.len(),
            forall|k: int|
                0 <= k < list@.len() ==> #[trigger] list@[k] == spec_simple_webauthn(keys_seen[k]),
    {
        proof {
            assert(db.webauthn_keys@.take(i + 1).drop_last() =~= db.webauthn_keys@.take(i as int));
            assert(db.webauthn_keys@.take(i + 1).last() == db.webauthn_keys@[i as int]);
        }
        if db.webauthn_keys[i].local_user == local_uuid {
            let can_login = match &db.webauthn_keys[i].key {
                MaybeAttestedPasskey::Attested(_) => true,
                MaybeAttestedPasskey::NotAttested(_) => false,
            };
            list.push(
                SimpleWebAuthnKey {
                    uuid: db.webauthn_keys[i].uuid,
                    label: db.webauthn_keys[i].label.clone(),
                    created_at: db.webauthn_keys[i].created_at,
                    can_login,
                },
            );
            proof {
                keys_seen = keys_seen.push(db.webauthn_keys@[i as int]);
                assert(keys_seen == crate::models::webauthn_keys_in(
                    db.webauthn_keys@.take(i + 1),
                    local_uuid,
                ));
                assert(list@.last() == spec_simple_webauthn(keys_seen.last()));
            }
        } else {
            proof {
                assert(keys_seen == crate::models::webauthn_keys_in(
                    db.webauthn_keys@.take(i + 1),
                    local_uuid,
                ));
            }
        }
    }
    proof {
        assert(db.webauthn_keys@.take(n as int) =~= db.webauthn_keys@);
    }
    Ok(List { list })
}

/// Remove a WebAuthn key of a locally authenticated user.
///
/// Only a key belonging to the caller's own local credential row is
/// removed; the call is a no-op when no such key exists. A caller
/// without a local credential row is rejected as a bad request.
pub fn delete_webauthn_key(db: &mut Store, user_uuid: u128, key_uuid: u128) -> (r: Result<
    (),
    ApiError,
>)
    requires
        old(db).wf(),
    ensures
        final(db).wf(),
        final(db).users@ == old(db).users@,
        final(db).oidc_users@ == old(db).oidc_users@,
        final(db).local_users@ == old(db).local_users@,
        final(db).totp_keys@ == old(db).totp_keys@,
        final(db).user_invites@ == old(db).user_invites@,
        final(db).sessions@ == old(db).sessions@,
        match old(db).local_by_user(user_uuid) {
            None => r == Err::<(), ApiError>(ApiError::BadRequest) && final(db).webauthn_keys@
                == old(db).webauthn_keys@,
            Some(lu) => {
                &&& r == Ok::<(), ApiError>(())
                &&& forall|k: int|
                    0 <= k < final(db).webauthn_keys@.len() ==> old(db).webauthn_keys@.contains(
                        #[trigger] final(db).webauthn_keys@[k],
                    ) && !(final(db).webauthn_keys@[k].uuid == key_uuid
                        && final(db).webauthn_keys@[k].local_user == lu.uuid)
                &&& forall|j: int|
                    0 <= j < old(db).webauthn_keys@.len() && !(old(db).webauthn_keys@[j].uuid
                        == key_uuid && old(db).webauthn_keys@[j].local_user == lu.uuid) ==> final(db).webauthn_keys@.contains(#[trigger] old(db).webauthn_keys@[j])
            },
        },
{
    let Some(li) = db.find_local_by_user(user_uuid) else {
        return Err(ApiError::BadRequest);
    };
    let local_uuid = db.local_users[li].uuid;
    if let Some(ki) = db.find_webauthn_by_uuid(key_uuid) {
        if db.webauthn_keys[ki].local_user == local_uuid {
            db.webauthn_keys.remove(ki);
            proof {
                let olds = old(db).webauthn_keys@;
                let news = db.webauthn_keys@;
                assert forall|k: int| 0 <= k < news.len() implies olds.contains(#[trigger] news[k])
                    && !(news[k].uuid == key_uuid && news[k].local_user == local_uuid) by {
                    if k < ki {
                        assert(news[k] == olds[k]);
                        if news[k].uuid == key_uuid {
                            old(db).lemma_webauthn_uuid_unique(k, ki as int);
                        }
                    } else {
                        assert(news[k] == olds[k + 1]);
                        if news[k].uuid == key_uuid {
                            old(db).lemma_webauthn_uuid_unique(k + 1, ki as int);
                        }
                    }
                }
                assert forall|j: int|
                    0 <= j < olds.len() && !(olds[j].uuid == key_uuid && olds[j].local_user
                        == local_uuid) implies news.contains(#[trigger] olds[j]) by {
                    if j < ki {
                        assert(news[j] == olds[j]);
                    } else if j > ki {
                        assert(news[j - 1] == olds[j]);
                    }
                }
                assert forall|a: int, b: int| 0 <= a < b < news.len() implies news[a].uuid
                    != news[b].uuid by {
                    if b < ki {
                    } else if a < ki {
                        assert(news[a] == olds[a] && news[b] == olds[b + 1]);
                    } else {
                        assert(news[a] == olds[a + 1] && news[b] == olds[b + 1]);
                    }
                }
                assert(db.wf());
            }
        }
    }
    Ok(())
}

/// Retrieve all users, in storage order.
pub fn get_all_users(db: &Store) -> (r: List<FullUser>)
    ensures
        r.list@.len() == db.users@.len(),
        forall|k: int|
            0 <= k < db.users@.len() ==> r.list@[k] == spec_full_user(#[trigger] db.users@[k]),
{
    let mut list: Vec<FullUser> = Vec::new();
    let n = db.users.len();
    for i in 0..n
        invariant
            n == db.users@.len(),
            list@.len() == i,
            forall|k: int| 0 <= k < i ==> list@[k] == spec_full_user(#[trigger] db.users@[k]),
    {
        list.push(new_full_user(&db.users[i]));
    }
    List { list }
}

/// Overwrite a user's permissions.
pub fn set_user_permissions(db: &mut Store, user_uuid: u128, permissions: UserPermissions) -> (r:
    Result<(), ApiError>)
    requires
        old(db).wf(),
    ensures
        final(db).wf(),
        r == Ok::<(), ApiError>(()),
        final(db).users@.len() == old(db).users@.len(),
        forall|j: int|
            0 <= j < old(db).users@.len() ==> final(db).users@[j] == (if old(db).users@[j].uuid
                == user_uuid {
                User { role: permissions.spec_role(), ..old(db).users@[j] }
            } else {
                old(db).users@[j]
            }),
        final(db).oidc_users@ == old(db).oidc_users@,
        final(db).local_users@ == old(db).local_users@,
        final(db).totp_keys@ == old(db).totp_keys@,
        final(db).webauthn_keys@ == old(db).webauthn_keys@,
        final(db).user_invites@ == old(db).user_invites@,
        final(db).sessions@ == old(db).sessions@,
{
    User::set_permissions(db, user_uuid, permissions);
    Ok(())
}

/// Delete a user; see [`User::delete`] for what goes with it. Deleting
/// an unknown user is a no-op.
pub fn delete_user(db: &mut Store, user_uuid: u128) -> (r: Result<(), ApiError>)
    requires
        old(db).wf(),
    ensures
        final(db).wf(),
        r == Ok::<(), ApiError>(()),
        old(db).user_by_uuid(user_uuid) is None ==> *final(db) == *old(db),
        final(db).user_by_uuid(user_uuid) is None,
{
    let existed = User::delete(db, user_uuid);
    proof {
        if existed {
            if exists|i: int| 0 <= i < db.users@.len() && db.users@[i].uuid == user_uuid {
                let w = choose|i: int| 0 <= i < db.users@.len() && db.users@[i].uuid == user_uuid;
                assert(db.users@[w].uuid != user_uuid);
            }
        }
    }
    Ok(())
}

} // verus!
